[package]
name = "gru_opengl"
version = "0.1.0"
edition = "2021"
publish = false

[dependencies]
glow = "=0.12.3"
winit = { version = "=0.25.0", default-features = false, features = ["x11"] }
raw-gl-context = "=0.1.2"
image = { version = "=0.24.9", default-features = false, features = ["png"] }
gltf = "=1.4.1"
