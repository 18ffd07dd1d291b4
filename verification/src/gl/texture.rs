//! Textures: power-of-two-sized GPU 2D images.

use vstd::prelude::*;

verus! {

use crate::gl::Gl;
use crate::gl::GlView;
use crate::gl::GlCommand;
use crate::gl::GlCommandView;
use crate::gl::consts::GL_ALPHA;
use crate::gl::consts::GL_RGB;
use crate::gl::consts::GL_RGBA;
use crate::gl::consts::GL_CLAMP_TO_EDGE;
use crate::gl::consts::GL_REPEAT;
use crate::gl::consts::GL_TEXTURE_WRAP_S;
use crate::gl::consts::GL_TEXTURE_WRAP_T;
use crate::gl::consts::GL_TEXTURE_MIN_FILTER;
use crate::gl::consts::GL_TEXTURE_MAG_FILTER;
use crate::gl::consts::GL_LINEAR;
use crate::gl::consts::GL_LINEAR_MIPMAP_LINEAR;

/// The channel layout of a texture's pixel data.
#[derive(Debug, Clone, Copy, PartialEq, Eq, Structural)]
pub enum TextureChannel {
    A,
    RGB,
    RGBA,
}

impl TextureChannel {
    /// Bytes per pixel in this layout.
    pub open spec fn spec_bytes(self) -> int {
        match self {
            TextureChannel::A => 1,
            TextureChannel::RGB => 3,
            TextureChannel::RGBA => 4,
        }
    }

    pub fn bytes(&self) -> (r: u32)
        ensures
            r == self.spec_bytes(),
    {
        match self {
            TextureChannel::A => 1,
            TextureChannel::RGB => 3,
            TextureChannel::RGBA => 4,
        }
    }

    /// The GL pixel-format enumerant for this layout.
    pub open spec fn spec_format(self) -> u32 {
        match self {
            TextureChannel::A => GL_ALPHA,
            TextureChannel::RGB => GL_RGB,
            TextureChannel::RGBA => GL_RGBA,
        }
    }

    pub fn format(&self) -> (r: u32)
        ensures
            r == self.spec_format(),
    {
        match self {
            TextureChannel::A => GL_ALPHA,
            TextureChannel::RGB => GL_RGB,
            TextureChannel::RGBA => GL_RGBA,
        }
    }
}

/// How texture coordinates outside `[0, 1]` are treated.
#[derive(Debug, Clone, Copy, PartialEq, Eq, Structural)]
pub enum TextureWrap {
    Clamp,
    Repeat,
}

impl TextureWrap {
    /// The GL wrap-mode enumerant.
    pub open spec fn spec_wrap(self) -> u32 {
        match self {
            TextureWrap::Clamp => GL_CLAMP_TO_EDGE,
            TextureWrap::Repeat => GL_REPEAT,
        }
    }

    pub fn wrap(&self) -> (r: u32)
        ensures
            r == self.spec_wrap(),
    {
        match self {
            TextureWrap::Clamp => GL_CLAMP_TO_EDGE,
            TextureWrap::Repeat => GL_REPEAT,
        }
    }
}

/// Everything a texture allocation needs besides the pixel bytes.
#[derive(Debug, Clone)]
pub struct TextureConfig {
    pub size: u32,
    pub channel: TextureChannel,
    pub mipmap: bool,
    pub wrap_s: TextureWrap,
    pub wrap_t: TextureWrap,
}

/// An owned GPU 2D texture of a power-of-two size, immutable after creation.
/// The flag `P` marks a texture meant to stay persistently bound to one
/// texture unit for a whole pipeline scope.
#[derive(Debug)]
pub struct Texture<const P: bool> {
    /// The id the command log uses for the underlying texture object.
    pub texture: u32,
    /// The edge length in pixels.
    pub size: u32,
}

impl<const P: bool> Texture<P> {
    pub fn size(&self) -> (r: u32)
        ensures
            r == self.size,
    {
        self.size
    }
}

/// Whether `n` is a power of two.  Zero is not one.
pub open spec fn is_power_of_two(n: nat) -> bool
    decreases n,
{
    if n == 0 {
        false
    } else if n == 1 {
        true
    } else {
        n % 2 == 0 && is_power_of_two(n / 2)
    }
}

/// The power-of-two check a texture or framebuffer size must pass.
pub fn texture_size_valid(size: u32) -> (r: bool)
    ensures
        r == is_power_of_two(size as nat),
{
    if size == 0 {
        return false;
    }
    let mut n: u32 = size;
    while n > 1
        invariant
            n >= 1,
            is_power_of_two(size as nat) == is_power_of_two(n as nat),
        decreases n,
    {
        if n % 2 == 1 {
            return false;
        }
        n = n / 2;
    }
    true
}

/// The command sequence a texture allocation issues: create and bind, upload
/// the image, configure wrapping and filtering (trilinear minification when
/// mipmaps are requested, linear otherwise; magnification always linear),
/// unbind.
pub open spec fn spec_texture_cmds(config: TextureConfig, data: Seq<u8>, id: u32) -> Seq<
    GlCommandView,
> {
    seq![
        GlCommandView::CreateTexture(id),
        GlCommandView::BindTexture(Some(id)),
        GlCommandView::TexImage2d {
            format: config.channel.spec_format(),
            size: config.size as i32,
            data: Some(data),
        },
        GlCommandView::TexParameter(GL_TEXTURE_WRAP_S, config.wrap_s.spec_wrap() as i32),
        GlCommandView::TexParameter(GL_TEXTURE_WRAP_T, config.wrap_t.spec_wrap() as i32),
    ] + (if config.mipmap {
        seq![
            GlCommandView::GenerateMipmap,
            GlCommandView::TexParameter(GL_TEXTURE_MIN_FILTER, GL_LINEAR_MIPMAP_LINEAR as i32),
        ]
    } else {
        seq![GlCommandView::TexParameter(GL_TEXTURE_MIN_FILTER, GL_LINEAR as i32)]
    }) + seq![
        GlCommandView::TexParameter(GL_TEXTURE_MAG_FILTER, GL_LINEAR as i32),
        GlCommandView::BindTexture(None),
    ]
}

impl Gl {
    /// Allocate a texture.  The size must be a power of two and the pixel
    /// data must hold exactly `size * size` pixels of the configured channel
    /// layout; either violation is a fatal contract error, so both checks
    /// are preconditions here.
    pub fn new_texture<const P: bool>(&mut self, config: &TextureConfig, data: &[u8]) -> (r:
        Texture<P>)
        requires
            old(self)@.next_object < u32::MAX,
            is_power_of_two(config.size as nat),
            config.size <= i32::MAX,
            data@.len() == config.size * config.size * config.channel.spec_bytes(),
        ensures
            r.texture == old(self)@.next_object,
            r.size == config.size,
            final(self)@ == (GlView {
                next_object: (old(self)@.next_object + 1) as u32,
                commands: old(self)@.commands
                    + spec_texture_cmds(*config, data@, old(self)@.next_object),
                ..old(self)@
            }),
    {
        let texture = self.alloc_object();
        self.commands.push(GlCommand::CreateTexture(texture));
        self.commands.push(GlCommand::BindTexture(Some(texture)));
        let pixels: Vec<u8> = vstd::slice::slice_to_vec(data);
        self.commands.push(GlCommand::TexImage2d {
            format: config.channel.format(),
            size: config.size as i32,
            data: Some(pixels),
        });
        self.commands.push(GlCommand::TexParameter(GL_TEXTURE_WRAP_S, config.wrap_s.wrap() as i32));
        self.commands.push(GlCommand::TexParameter(GL_TEXTURE_WRAP_T, config.wrap_t.wrap() as i32));
        if config.mipmap {
            self.commands.push(GlCommand::GenerateMipmap);
            self.commands.push(GlCommand::TexParameter(
                GL_TEXTURE_MIN_FILTER,
                GL_LINEAR_MIPMAP_LINEAR as i32,
            ));
        } else {
            self.commands.push(GlCommand::TexParameter(GL_TEXTURE_MIN_FILTER, GL_LINEAR as i32));
        }
        self.commands.push(GlCommand::TexParameter(GL_TEXTURE_MAG_FILTER, GL_LINEAR as i32));
        self.commands.push(GlCommand::BindTexture(None));
        proof {
            assert(final(self)@ =~= (GlView {
                next_object: (old(self)@.next_object + 1) as u32,
                commands: old(self)@.commands
                    + spec_texture_cmds(*config, data@, old(self)@.next_object),
                ..old(self)@
            }));
        }
        Texture { texture, size: config.size }
    }
}

impl Gl {
    /// Release a texture's GPU object.
    pub fn delete_texture<const P: bool>(&mut self, texture: Texture<P>)
        ensures
            final(self)@ == (GlView {
                commands: old(self)@.commands.push(GlCommandView::DeleteTexture(texture.texture)),
                ..old(self)@
            }),
    {
        self.push_cmd(GlCommand::DeleteTexture(texture.texture));
    }
}

} // verus!
