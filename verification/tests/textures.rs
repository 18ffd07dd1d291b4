//! Texture and framebuffer allocation, and the power-of-two size rule.

use gru_opengl::gl::consts::{
    GL_ALPHA, GL_CLAMP_TO_EDGE, GL_LINEAR, GL_LINEAR_MIPMAP_LINEAR, GL_REPEAT, GL_RGBA,
    GL_TEXTURE_MAG_FILTER, GL_TEXTURE_MIN_FILTER, GL_TEXTURE_WRAP_S, GL_TEXTURE_WRAP_T,
};
use gru_opengl::gl::texture::texture_size_valid;
use gru_opengl::gl::{
    FramebufferConfig, Gl, GlCommand, TextureChannel, TextureConfig, TextureWrap,
};

fn fresh_gl() -> Gl {
    let mut gl = Gl::new("", "");
    gl.commands.clear();
    gl
}

#[test]
fn texture_size_rejects_non_powers_of_two() {
    for size in [0u32, 3, 5, 6, 100] {
        assert!(!texture_size_valid(size), "size {size}");
    }
}

#[test]
fn texture_size_accepts_powers_of_two() {
    for size in [1u32, 2, 4, 16, 256] {
        assert!(texture_size_valid(size), "size {size}");
    }
}

#[test]
fn new_texture_uploads_and_configures() {
    let mut gl = fresh_gl();
    let config = TextureConfig {
        size: 2,
        channel: TextureChannel::RGBA,
        mipmap: false,
        wrap_s: TextureWrap::Clamp,
        wrap_t: TextureWrap::Repeat,
    };
    let data: Vec<u8> = (0..16).collect();
    let t = gl.new_texture::<false>(&config, &data);
    assert_eq!(t.size(), 2);
    assert_eq!(
        gl.commands,
        vec![
            GlCommand::CreateTexture(1),
            GlCommand::BindTexture(Some(1)),
            GlCommand::TexImage2d { format: GL_RGBA, size: 2, data: Some(data) },
            GlCommand::TexParameter(GL_TEXTURE_WRAP_S, GL_CLAMP_TO_EDGE as i32),
            GlCommand::TexParameter(GL_TEXTURE_WRAP_T, GL_REPEAT as i32),
            GlCommand::TexParameter(GL_TEXTURE_MIN_FILTER, GL_LINEAR as i32),
            GlCommand::TexParameter(GL_TEXTURE_MAG_FILTER, GL_LINEAR as i32),
            GlCommand::BindTexture(None),
        ]
    );
}

#[test]
fn new_texture_with_mipmaps_generates_them() {
    let mut gl = fresh_gl();
    let config = TextureConfig {
        size: 1,
        channel: TextureChannel::A,
        mipmap: true,
        wrap_s: TextureWrap::Clamp,
        wrap_t: TextureWrap::Clamp,
    };
    let t = gl.new_texture::<true>(&config, &[7]);
    assert_eq!(t.size(), 1);
    assert_eq!(
        gl.commands,
        vec![
            GlCommand::CreateTexture(1),
            GlCommand::BindTexture(Some(1)),
            GlCommand::TexImage2d { format: GL_ALPHA, size: 1, data: Some(vec![7]) },
            GlCommand::TexParameter(GL_TEXTURE_WRAP_S, GL_CLAMP_TO_EDGE as i32),
            GlCommand::TexParameter(GL_TEXTURE_WRAP_T, GL_CLAMP_TO_EDGE as i32),
            GlCommand::GenerateMipmap,
            GlCommand::TexParameter(GL_TEXTURE_MIN_FILTER, GL_LINEAR_MIPMAP_LINEAR as i32),
            GlCommand::TexParameter(GL_TEXTURE_MAG_FILTER, GL_LINEAR as i32),
            GlCommand::BindTexture(None),
        ]
    );
}

#[test]
fn channel_bytes_per_pixel() {
    assert_eq!(TextureChannel::A.bytes(), 1);
    assert_eq!(TextureChannel::RGB.bytes(), 3);
    assert_eq!(TextureChannel::RGBA.bytes(), 4);
}

#[test]
fn framebuffer_without_depth() {
    let mut gl = fresh_gl();
    let config = FramebufferConfig { depth: false, size: 4, wrap: TextureWrap::Clamp };
    let fb = gl.new_framebuffer(&config);
    assert_eq!(fb.size(), 4);
    assert_eq!(fb.texture().size(), 4);
    assert_eq!(fb.depth, None);
    assert_eq!(
        gl.commands,
        vec![
            GlCommand::CreateFramebuffer(1),
            GlCommand::BindFramebuffer(Some(1)),
            GlCommand::CreateTexture(2),
            GlCommand::BindTexture(Some(2)),
            GlCommand::TexImage2d { format: GL_RGBA, size: 4, data: None },
            GlCommand::TexParameter(GL_TEXTURE_WRAP_S, GL_CLAMP_TO_EDGE as i32),
            GlCommand::TexParameter(GL_TEXTURE_WRAP_T, GL_CLAMP_TO_EDGE as i32),
            GlCommand::TexParameter(GL_TEXTURE_MIN_FILTER, GL_LINEAR as i32),
            GlCommand::TexParameter(GL_TEXTURE_MAG_FILTER, GL_LINEAR as i32),
            GlCommand::BindTexture(None),
            GlCommand::FramebufferTexture2d(2),
            GlCommand::BindFramebuffer(None),
        ]
    );
}

#[test]
fn framebuffer_with_depth_attaches_renderbuffer() {
    let mut gl = fresh_gl();
    let config = FramebufferConfig { depth: true, size: 8, wrap: TextureWrap::Repeat };
    let fb = gl.new_framebuffer(&config);
    assert_eq!(fb.depth, Some(3));
    let tail = &gl.commands[11..];
    assert_eq!(
        tail,
        &[
            GlCommand::CreateRenderbuffer(3),
            GlCommand::BindRenderbuffer(Some(3)),
            GlCommand::RenderbufferStorage(8),
            GlCommand::BindRenderbuffer(None),
            GlCommand::FramebufferRenderbuffer(3),
            GlCommand::BindFramebuffer(None),
        ]
    );
}

#[test]
fn delete_texture_and_framebuffer() {
    let mut gl = fresh_gl();
    let config = TextureConfig {
        size: 1,
        channel: TextureChannel::A,
        mipmap: false,
        wrap_s: TextureWrap::Clamp,
        wrap_t: TextureWrap::Clamp,
    };
    let t = gl.new_texture::<false>(&config, &[0]);
    let fb = gl.new_framebuffer(&FramebufferConfig { depth: true, size: 2, wrap: TextureWrap::Clamp });
    gl.commands.clear();
    gl.delete_texture(t);
    gl.delete_framebuffer(fb);
    assert_eq!(
        gl.commands,
        vec![
            GlCommand::DeleteTexture(1),
            GlCommand::DeleteRenderbuffer(4),
            GlCommand::DeleteFramebuffer(2),
            GlCommand::DeleteTexture(3),
        ]
    );
}
