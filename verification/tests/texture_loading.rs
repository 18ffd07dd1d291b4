//! Building textures from decoded image data: the success condition is
//! exact, and each rule has its own error.

use gru_opengl::gl::{Gl, GlCommand, TextureChannel, TextureWrap};
use gru_opengl::resource::load::{load_texture, texture_from_decoded, TextureError};
use gru_opengl::resource::TextureLoadConfig;

fn fresh_gl() -> Gl {
    let mut gl = Gl::new("", "");
    gl.commands.clear();
    gl
}

fn config(channel: TextureChannel) -> TextureLoadConfig {
    TextureLoadConfig { channel, mipmap: false, wrap_s: TextureWrap::Clamp, wrap_t: TextureWrap::Clamp }
}

#[test]
fn square_power_of_two_with_matching_data_succeeds() {
    let mut gl = fresh_gl();
    let pixels: Vec<u8> = (0..16).collect();
    let t = texture_from_decoded::<false>(&mut gl, &config(TextureChannel::RGBA), 2, 2, &pixels)
        .unwrap();
    assert_eq!(t.size, 2);
    assert_eq!(gl.commands.len(), 8);
    assert!(matches!(gl.commands[0], GlCommand::CreateTexture(1)));
}

#[test]
fn non_square_image_is_rejected() {
    let mut gl = fresh_gl();
    let r = texture_from_decoded::<false>(&mut gl, &config(TextureChannel::A), 4, 2, &[0; 8]);
    assert_eq!(r.unwrap_err(), TextureError::NotSquare);
    assert_eq!(gl.commands, Vec::new());
}

#[test]
fn non_power_of_two_size_is_rejected() {
    let mut gl = fresh_gl();
    for size in [0u32, 3, 5, 6, 100] {
        let data = vec![0u8; (size * size) as usize];
        let r = texture_from_decoded::<false>(
            &mut gl,
            &config(TextureChannel::A),
            size,
            size,
            &data,
        );
        assert_eq!(r.unwrap_err(), TextureError::NotPowerOfTwo, "size {size}");
    }
    assert_eq!(gl.commands, Vec::new());
}

#[test]
fn wrong_pixel_count_is_rejected() {
    let mut gl = fresh_gl();
    let r = texture_from_decoded::<false>(&mut gl, &config(TextureChannel::RGB), 2, 2, &[0; 11]);
    assert_eq!(r.unwrap_err(), TextureError::WrongDataLength);
    assert_eq!(gl.commands, Vec::new());
}

// A 2x2 8-bit grayscale PNG with pixel values 10, 20, 30, 40.
const TINY_PNG: [u8; 71] = [
    137, 80, 78, 71, 13, 10, 26, 10, 0, 0, 0, 13, 73, 72, 68, 82, 0, 0, 0, 2, 0, 0, 0, 2, 8, 0,
    0, 0, 0, 87, 221, 82, 248, 0, 0, 0, 14, 73, 68, 65, 84, 120, 156, 99, 224, 18, 97, 144, 211,
    0, 0, 0, 236, 0, 101, 224, 248, 92, 211, 0, 0, 0, 0, 73, 69, 78, 68, 174, 66, 96, 130,
];

#[test]
fn decoding_a_real_png_uploads_its_pixels() {
    let mut gl = fresh_gl();
    let t = load_texture::<false>(&mut gl, &config(TextureChannel::A), &TINY_PNG).unwrap();
    assert_eq!(t.size, 2);
    let upload = gl
        .commands
        .iter()
        .find_map(|c| match c {
            GlCommand::TexImage2d { data: Some(data), .. } => Some(data.clone()),
            _ => None,
        })
        .expect("an image upload command");
    assert_eq!(upload, vec![10, 20, 30, 40]);
}

#[test]
fn bytes_that_are_no_image_fail_to_decode() {
    let mut gl = fresh_gl();
    let r = load_texture::<false>(&mut gl, &config(TextureChannel::A), &[1, 2, 3, 4]);
    assert_eq!(r.unwrap_err(), TextureError::Decode);
    assert_eq!(gl.commands, Vec::new());
}
