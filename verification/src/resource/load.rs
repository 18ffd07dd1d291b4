//! Texture loading: decoding is the image codec's work; every decision made
//! about the decoded data — squareness, the power-of-two rule, the pixel
//! count, the upload itself — is verified here.

use vstd::prelude::*;
use image::GenericImageView;

verus! {

use crate::gl::Gl;
use crate::gl::GlView;
use crate::gl::texture::Texture;
use crate::gl::texture::TextureChannel;
use crate::gl::texture::TextureConfig;
use crate::gl::texture::is_power_of_two;
use crate::gl::texture::spec_texture_cmds;
use crate::gl::texture::texture_size_valid;
use crate::resource::TextureLoadConfig;

/// Why a texture could not be built from file bytes.
#[derive(Debug, Clone, Copy, PartialEq, Eq, Structural)]
pub enum TextureError {
    /// The bytes did not decode as an image.
    Decode,
    /// The decoded image is not square.
    NotSquare,
    /// The edge length is not a power of two, or is beyond the `i32` range
    /// the GL upload takes.
    NotPowerOfTwo,
    /// The converted pixel data does not hold one pixel per texel.
    WrongDataLength,
}

#[verifier::external_type_specification]
#[verifier::external_body]
pub struct ExDynamicImage(image::DynamicImage);

/// Relies on `image::load_from_memory`: decode an encoded image, guessing
/// the format from the bytes; a failed decode is `None`.
#[verifier::external_body]
fn decode_image(bytes: &[u8]) -> (r: Option<image::DynamicImage>) {
    image::load_from_memory(bytes).ok()
}

/// Relies on `image::DynamicImage::dimensions` (through `GenericImageView`):
/// the decoded image's width and height in pixels.
#[verifier::external_body]
fn image_dimensions(img: &image::DynamicImage) -> (r: (u32, u32)) {
    img.dimensions()
}

/// Relies on `image::DynamicImage::into_luma8`: the image converted to one
/// 8-bit luminance channel, as raw bytes.
#[verifier::external_body]
fn image_into_luma(img: image::DynamicImage) -> (r: Vec<u8>) {
    img.into_luma8().into_raw()
}

/// Relies on `image::DynamicImage::into_rgb8`: the image converted to 8-bit
/// RGB, as raw bytes.
#[verifier::external_body]
fn image_into_rgb(img: image::DynamicImage) -> (r: Vec<u8>) {
    img.into_rgb8().into_raw()
}

/// Relies on `image::DynamicImage::into_rgba8`: the image converted to
/// 8-bit RGBA, as raw bytes.
#[verifier::external_body]
fn image_into_rgba(img: image::DynamicImage) -> (r: Vec<u8>) {
    img.into_rgba8().into_raw()
}

/// The decoded image's raw bytes under a channel layout.
fn convert_channels(img: image::DynamicImage, channel: &TextureChannel) -> Vec<u8> {
    match channel {
        TextureChannel::A => image_into_luma(img),
        TextureChannel::RGB => image_into_rgb(img),
        TextureChannel::RGBA => image_into_rgba(img),
    }
}

/// Build a texture from already-decoded pixel data.  Succeeds exactly when
/// the image is square, its edge a power of two in the range the GL call
/// takes, and the data one pixel per texel; on failure nothing is issued
/// and the error names the first violated rule.
pub fn texture_from_decoded<const P: bool>(
    gl: &mut Gl,
    config: &TextureLoadConfig,
    width: u32,
    height: u32,
    pixels: &[u8],
) -> (r: Result<Texture<P>, TextureError>)
    requires
        old(gl)@.next_object < u32::MAX,
    ensures
        (r is Ok) == (width == height && is_power_of_two(width as nat) && width <= i32::MAX
            && pixels@.len() == width * width * config.channel.spec_bytes()),
        match r {
            Ok(t) => {
                &&& t.texture == old(gl)@.next_object
                &&& t.size == width
                &&& final(gl)@ == (GlView {
                    next_object: (old(gl)@.next_object + 1) as u32,
                    commands: old(gl)@.commands + spec_texture_cmds(
                        TextureConfig {
                            size: width,
                            channel: config.channel,
                            mipmap: config.mipmap,
                            wrap_s: config.wrap_s,
                            wrap_t: config.wrap_t,
                        },
                        pixels@,
                        old(gl)@.next_object,
                    ),
                    ..old(gl)@
                })
            },
            Err(e) => {
                &&& *final(gl) == *old(gl)
                &&& e == (if width != height {
                    TextureError::NotSquare
                } else if !(is_power_of_two(width as nat) && width <= i32::MAX) {
                    TextureError::NotPowerOfTwo
                } else {
                    TextureError::WrongDataLength
                })
            },
        },
{
    if width != height {
        return Err(TextureError::NotSquare);
    }
    if !texture_size_valid(width) || width > i32::MAX as u32 {
        return Err(TextureError::NotPowerOfTwo);
    }
    proof {
        assert(1 <= config.channel.spec_bytes() <= 4);
        assert(width as int * width as int * config.channel.spec_bytes() < 0x10000000000000000)
            by (nonlinear_arith)
            requires
                width <= 0x7FFFFFFF,
                1 <= config.channel.spec_bytes() <= 4,
        ;
    }
    let expected: u64 = width as u64 * width as u64 * config.channel.bytes() as u64;
    if pixels.len() as u64 != expected {
        return Err(TextureError::WrongDataLength);
    }
    let full = config.add_size(width);
    Ok(gl.new_texture::<P>(&full, pixels))
}

/// Decode file bytes and build a texture from them.  What the codec hands
/// back is not constrained here; whatever it is, either a texture of a
/// square power-of-two size is allocated with exactly its pixel data, or
/// nothing is issued and the error says which rule the decoded image broke.
pub fn load_texture<const P: bool>(
    gl: &mut Gl,
    config: &TextureLoadConfig,
    bytes: &[u8],
) -> (r: Result<Texture<P>, TextureError>)
    requires
        old(gl)@.next_object < u32::MAX,
    ensures
        match r {
            Ok(t) => {
                &&& t.texture == old(gl)@.next_object
                &&& is_power_of_two(t.size as nat)
                &&& t.size <= i32::MAX
                &&& exists|pixels: Seq<u8>|
                    #![trigger spec_texture_cmds(
                        TextureConfig {
                            size: t.size,
                            channel: config.channel,
                            mipmap: config.mipmap,
                            wrap_s: config.wrap_s,
                            wrap_t: config.wrap_t,
                        },
                        pixels,
                        old(gl)@.next_object,
                    )]
                    pixels.len() == t.size * t.size * config.channel.spec_bytes()
                        && final(gl)@ == (GlView {
                        next_object: (old(gl)@.next_object + 1) as u32,
                        commands: old(gl)@.commands + spec_texture_cmds(
                            TextureConfig {
                                size: t.size,
                                channel: config.channel,
                                mipmap: config.mipmap,
                                wrap_s: config.wrap_s,
                                wrap_t: config.wrap_t,
                            },
                            pixels,
                            old(gl)@.next_object,
                        ),
                        ..old(gl)@
                    })
            },
            Err(_) => *final(gl) == *old(gl),
        },
{
    let img = match decode_image(bytes) {
        Some(img) => img,
        None => {
            return Err(TextureError::Decode);
        },
    };
    let (width, height) = image_dimensions(&img);
    let pixels = convert_channels(img, &config.channel);
    let r = texture_from_decoded::<P>(gl, config, width, height, pixels.as_slice());
    proof {
        if r is Ok {
            assert(pixels@.len() == width * width * config.channel.spec_bytes()
                && final(gl)@ == (GlView {
                next_object: (old(gl)@.next_object + 1) as u32,
                commands: old(gl)@.commands + spec_texture_cmds(
                    TextureConfig {
                        size: width,
                        channel: config.channel,
                        mipmap: config.mipmap,
                        wrap_s: config.wrap_s,
                        wrap_t: config.wrap_t,
                    },
                    pixels@,
                    old(gl)@.next_object,
                ),
                ..old(gl)@
            }));
        }
    }
    r
}

} // verus!
