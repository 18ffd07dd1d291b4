//! Framebuffers: square, power-of-two-sized offscreen render targets with an
//! owned color texture and an optional 16-bit depth renderbuffer.

use vstd::prelude::*;

verus! {

use crate::gl::Gl;
use crate::gl::GlView;
use crate::gl::GlCommand;
use crate::gl::GlCommandView;
use crate::gl::texture::Texture;
use crate::gl::texture::TextureWrap;
use crate::gl::texture::is_power_of_two;
use crate::gl::consts::GL_RGBA;
use crate::gl::consts::GL_TEXTURE_WRAP_S;
use crate::gl::consts::GL_TEXTURE_WRAP_T;
use crate::gl::consts::GL_TEXTURE_MIN_FILTER;
use crate::gl::consts::GL_TEXTURE_MAG_FILTER;
use crate::gl::consts::GL_LINEAR;

/// Which attachments an offscreen target carries.
#[derive(Debug, Clone, Copy, PartialEq, Eq, Structural)]
pub enum FramebufferAttachment {
    Color,
    Depth,
    ColorDepth,
}

/// Everything a framebuffer allocation needs.
#[derive(Debug, Clone)]
pub struct FramebufferConfig {
    pub depth: bool,
    pub size: u32,
    pub wrap: TextureWrap,
}

/// An owned GPU framebuffer: a color texture attachment, and optionally a
/// depth renderbuffer.
pub struct Framebuffer {
    /// The id the command log uses for the underlying framebuffer object.
    pub framebuffer: u32,
    /// The color attachment, owned by the framebuffer.
    pub color: Texture<true>,
    /// The id of the depth renderbuffer, when one was allocated.
    pub depth: Option<u32>,
    /// The edge length in pixels.
    pub size: u32,
}

impl Framebuffer {
    pub fn size(&self) -> (r: u32)
        ensures
            r == self.size,
    {
        self.size
    }

    pub fn texture(&self) -> (r: &Texture<true>)
        ensures
            *r == self.color,
    {
        &self.color
    }
}

/// The command sequence a framebuffer allocation issues: create and bind the
/// framebuffer, allocate and attach the color texture, optionally allocate
/// and attach the depth renderbuffer, unbind.
pub open spec fn spec_framebuffer_cmds(
    config: FramebufferConfig,
    fb: u32,
    color: u32,
    depth: u32,
) -> Seq<GlCommandView> {
    if config.depth {
        seq![
            GlCommandView::CreateFramebuffer(fb),
            GlCommandView::BindFramebuffer(Some(fb)),
            GlCommandView::CreateTexture(color),
            GlCommandView::BindTexture(Some(color)),
            GlCommandView::TexImage2d { format: GL_RGBA, size: config.size as i32, data: None },
            GlCommandView::TexParameter(GL_TEXTURE_WRAP_S, config.wrap.spec_wrap() as i32),
            GlCommandView::TexParameter(GL_TEXTURE_WRAP_T, config.wrap.spec_wrap() as i32),
            GlCommandView::TexParameter(GL_TEXTURE_MIN_FILTER, GL_LINEAR as i32),
            GlCommandView::TexParameter(GL_TEXTURE_MAG_FILTER, GL_LINEAR as i32),
            GlCommandView::BindTexture(None),
            GlCommandView::FramebufferTexture2d(color),
            GlCommandView::CreateRenderbuffer(depth),
            GlCommandView::BindRenderbuffer(Some(depth)),
            GlCommandView::RenderbufferStorage(config.size as i32),
            GlCommandView::BindRenderbuffer(None),
            GlCommandView::FramebufferRenderbuffer(depth),
            GlCommandView::BindFramebuffer(None),
        ]
    } else {
        seq![
            GlCommandView::CreateFramebuffer(fb),
            GlCommandView::BindFramebuffer(Some(fb)),
            GlCommandView::CreateTexture(color),
            GlCommandView::BindTexture(Some(color)),
            GlCommandView::TexImage2d { format: GL_RGBA, size: config.size as i32, data: None },
            GlCommandView::TexParameter(GL_TEXTURE_WRAP_S, config.wrap.spec_wrap() as i32),
            GlCommandView::TexParameter(GL_TEXTURE_WRAP_T, config.wrap.spec_wrap() as i32),
            GlCommandView::TexParameter(GL_TEXTURE_MIN_FILTER, GL_LINEAR as i32),
            GlCommandView::TexParameter(GL_TEXTURE_MAG_FILTER, GL_LINEAR as i32),
            GlCommandView::BindTexture(None),
            GlCommandView::FramebufferTexture2d(color),
            GlCommandView::BindFramebuffer(None),
        ]
    }
}

impl Gl {
    /// Emit the creation commands for a framebuffer's color attachment.
    fn emit_framebuffer_color(&mut self, config: &FramebufferConfig, fb: u32, color: u32)
        requires
            config.size <= i32::MAX,
        ensures
            final(self)@ == (GlView {
                commands: old(self)@.commands + seq![
                    GlCommandView::CreateFramebuffer(fb),
                    GlCommandView::BindFramebuffer(Some(fb)),
                    GlCommandView::CreateTexture(color),
                    GlCommandView::BindTexture(Some(color)),
                    GlCommandView::TexImage2d {
                        format: GL_RGBA,
                        size: config.size as i32,
                        data: None,
                    },
                    GlCommandView::TexParameter(GL_TEXTURE_WRAP_S, config.wrap.spec_wrap() as i32),
                    GlCommandView::TexParameter(GL_TEXTURE_WRAP_T, config.wrap.spec_wrap() as i32),
                    GlCommandView::TexParameter(GL_TEXTURE_MIN_FILTER, GL_LINEAR as i32),
                    GlCommandView::TexParameter(GL_TEXTURE_MAG_FILTER, GL_LINEAR as i32),
                    GlCommandView::BindTexture(None),
                    GlCommandView::FramebufferTexture2d(color),
                ],
                ..old(self)@
            }),
    {
        self.commands.push(GlCommand::CreateFramebuffer(fb));
        self.commands.push(GlCommand::BindFramebuffer(Some(fb)));
        self.commands.push(GlCommand::CreateTexture(color));
        self.commands.push(GlCommand::BindTexture(Some(color)));
        self.commands.push(GlCommand::TexImage2d {
            format: GL_RGBA,
            size: config.size as i32,
            data: None,
        });
        self.commands.push(GlCommand::TexParameter(GL_TEXTURE_WRAP_S, config.wrap.wrap() as i32));
        self.commands.push(GlCommand::TexParameter(GL_TEXTURE_WRAP_T, config.wrap.wrap() as i32));
        self.commands.push(GlCommand::TexParameter(GL_TEXTURE_MIN_FILTER, GL_LINEAR as i32));
        self.commands.push(GlCommand::TexParameter(GL_TEXTURE_MAG_FILTER, GL_LINEAR as i32));
        self.commands.push(GlCommand::BindTexture(None));
        self.commands.push(GlCommand::FramebufferTexture2d(color));
        proof {
            assert(final(self)@ =~= (GlView {
                commands: old(self)@.commands + seq![
                    GlCommandView::CreateFramebuffer(fb),
                    GlCommandView::BindFramebuffer(Some(fb)),
                    GlCommandView::CreateTexture(color),
                    GlCommandView::BindTexture(Some(color)),
                    GlCommandView::TexImage2d {
                        format: GL_RGBA,
                        size: config.size as i32,
                        data: None,
                    },
                    GlCommandView::TexParameter(GL_TEXTURE_WRAP_S, config.wrap.spec_wrap() as i32),
                    GlCommandView::TexParameter(GL_TEXTURE_WRAP_T, config.wrap.spec_wrap() as i32),
                    GlCommandView::TexParameter(GL_TEXTURE_MIN_FILTER, GL_LINEAR as i32),
                    GlCommandView::TexParameter(GL_TEXTURE_MAG_FILTER, GL_LINEAR as i32),
                    GlCommandView::BindTexture(None),
                    GlCommandView::FramebufferTexture2d(color),
                ],
                ..old(self)@
            }));
        }
    }

    /// Emit the creation commands for a framebuffer's depth renderbuffer.
    fn emit_framebuffer_depth(&mut self, size: u32, rb: u32)
        requires
            size <= i32::MAX,
        ensures
            final(self)@ == (GlView {
                commands: old(self)@.commands + seq![
                    GlCommandView::CreateRenderbuffer(rb),
                    GlCommandView::BindRenderbuffer(Some(rb)),
                    GlCommandView::RenderbufferStorage(size as i32),
                    GlCommandView::BindRenderbuffer(None),
                    GlCommandView::FramebufferRenderbuffer(rb),
                ],
                ..old(self)@
            }),
    {
        self.commands.push(GlCommand::CreateRenderbuffer(rb));
        self.commands.push(GlCommand::BindRenderbuffer(Some(rb)));
        self.commands.push(GlCommand::RenderbufferStorage(size as i32));
        self.commands.push(GlCommand::BindRenderbuffer(None));
        self.commands.push(GlCommand::FramebufferRenderbuffer(rb));
        proof {
            assert(final(self)@ =~= (GlView {
                commands: old(self)@.commands + seq![
                    GlCommandView::CreateRenderbuffer(rb),
                    GlCommandView::BindRenderbuffer(Some(rb)),
                    GlCommandView::RenderbufferStorage(size as i32),
                    GlCommandView::BindRenderbuffer(None),
                    GlCommandView::FramebufferRenderbuffer(rb),
                ],
                ..old(self)@
            }));
        }
    }

    /// Allocate a framebuffer.  A size that is not a power of two is a
    /// fatal contract violation, so the check is a precondition here.
    pub fn new_framebuffer(&mut self, config: &FramebufferConfig) -> (r: Framebuffer)
        requires
            old(self)@.next_object + 3 <= u32::MAX,
            is_power_of_two(config.size as nat),
            config.size <= i32::MAX,
        ensures
            r.framebuffer == old(self)@.next_object,
            r.color.texture == old(self)@.next_object + 1,
            r.color.size == config.size,
            r.size == config.size,
            r.depth == (if config.depth {
                Some((old(self)@.next_object + 2) as u32)
            } else {
                None::<u32>
            }),
            final(self)@ == (GlView {
                next_object: (old(self)@.next_object + (if config.depth {
                    3int
                } else {
                    2
                })) as u32,
                commands: old(self)@.commands + spec_framebuffer_cmds(
                    *config,
                    old(self)@.next_object,
                    (old(self)@.next_object + 1) as u32,
                    (old(self)@.next_object + 2) as u32,
                ),
                ..old(self)@
            }),
    {
        let framebuffer = self.alloc_object();
        let color_id = self.alloc_object();
        self.emit_framebuffer_color(config, framebuffer, color_id);
        let color = Texture { texture: color_id, size: config.size };
        let depth = if config.depth {
            let renderbuffer = self.alloc_object();
            self.emit_framebuffer_depth(config.size, renderbuffer);
            Some(renderbuffer)
        } else {
            None
        };
        self.push_cmd(GlCommand::BindFramebuffer(None));
        proof {
            if config.depth {
                assert(self@ =~= (GlView {
                    next_object: (old(self)@.next_object + 3) as u32,
                    commands: old(self)@.commands + spec_framebuffer_cmds(
                        *config,
                        old(self)@.next_object,
                        (old(self)@.next_object + 1) as u32,
                        (old(self)@.next_object + 2) as u32,
                    ),
                    ..old(self)@
                }));
            } else {
                assert(self@ =~= (GlView {
                    next_object: (old(self)@.next_object + 2) as u32,
                    commands: old(self)@.commands + spec_framebuffer_cmds(
                        *config,
                        old(self)@.next_object,
                        (old(self)@.next_object + 1) as u32,
                        (old(self)@.next_object + 2) as u32,
                    ),
                    ..old(self)@
                }));
            }
        }
        Framebuffer { framebuffer, color, depth, size: config.size }
    }
}

impl Gl {
    /// Release a framebuffer: its depth renderbuffer when it has one, the
    /// framebuffer object, and its color texture.
    pub fn delete_framebuffer(&mut self, framebuffer: Framebuffer)
        ensures
            final(self)@ == (GlView {
                commands: (match framebuffer.depth {
                    Some(rb) => old(self)@.commands.push(GlCommandView::DeleteRenderbuffer(rb)),
                    None => old(self)@.commands,
                }).push(GlCommandView::DeleteFramebuffer(framebuffer.framebuffer)).push(
                    GlCommandView::DeleteTexture(framebuffer.color.texture),
                ),
                ..old(self)@
            }),
    {
        match framebuffer.depth {
            Some(rb) => {
                self.push_cmd(GlCommand::DeleteRenderbuffer(rb));
            },
            None => {},
        }
        self.push_cmd(GlCommand::DeleteFramebuffer(framebuffer.framebuffer));
        self.push_cmd(GlCommand::DeleteTexture(framebuffer.color.texture));
        proof {
            assert(final(self)@ =~= (GlView {
                commands: (match framebuffer.depth {
                    Some(rb) => old(self)@.commands.push(GlCommandView::DeleteRenderbuffer(rb)),
                    None => old(self)@.commands,
                }).push(GlCommandView::DeleteFramebuffer(framebuffer.framebuffer)).push(
                    GlCommandView::DeleteTexture(framebuffer.color.texture),
                ),
                ..old(self)@
            }));
        }
    }
}

} // verus!
