//! Render passes, pipelines, texture units and draw dispatch.
//!
//! A render pass binds a target (screen or offscreen framebuffer), reconciles
//! the viewport and clear state against the caches, and optionally clears.  A
//! pipeline reconciles the capability caches, binds a shader's program, and
//! dispatches uniforms and draws.  Scopes close with explicit `end` calls,
//! which emit the unbind commands that keep later scopes unaffected.

use vstd::prelude::*;

verus! {

use crate::gl::Gl;
use crate::gl::GlView;
use crate::gl::GlCommand;
use crate::gl::GlCommandView;
use crate::gl::PipelineInfo;
use crate::gl::UniformValue;
use crate::gl::buffer::AttributesReprCpacked;
use crate::gl::buffer::BufferType;
use crate::gl::buffer::VertexBuffer;
use crate::gl::buffer::IndexBuffer;
use crate::gl::framebuffer::Framebuffer;
use crate::gl::shader::Shader;
use crate::gl::shader::UniformKey;
use crate::gl::texture::Texture;
use crate::gl::consts::GL_DEPTH_TEST;
use crate::gl::consts::GL_BLEND;
use crate::gl::consts::GL_CULL_FACE;
use crate::gl::consts::GL_COLOR_BUFFER_BIT;
use crate::gl::consts::GL_DEPTH_BUFFER_BIT;
use crate::gl::consts::GL_POINTS;
use crate::gl::consts::GL_LINES;
use crate::gl::consts::GL_LINE_STRIP;
use crate::gl::consts::GL_TRIANGLES;
use crate::gl::consts::GL_SAMPLER_2D;

/// What a render pass does on entry: an optional clear color (`f32` bit
/// patterns) and whether the depth buffer is cleared.
#[derive(Debug, Clone, Copy)]
pub struct RenderPassInfo {
    pub clear_color: Option<(u32, u32, u32)>,
    pub clear_depth: bool,
}

/// The draw primitive kinds, mapped one to one onto the GL draw modes.
#[derive(Debug, Clone, Copy, PartialEq, Eq, Structural)]
pub enum Primitives {
    Points,
    Lines,
    LineStrip,
    Triangles,
}

impl Primitives {
    /// The GL draw-mode enumerant.
    pub open spec fn spec_gl_name(self) -> u32 {
        match self {
            Primitives::Points => GL_POINTS,
            Primitives::Lines => GL_LINES,
            Primitives::LineStrip => GL_LINE_STRIP,
            Primitives::Triangles => GL_TRIANGLES,
        }
    }

    pub fn gl_name(&self) -> (r: u32)
        ensures
            r == self.spec_gl_name(),
    {
        match self {
            Primitives::Points => GL_POINTS,
            Primitives::Lines => GL_LINES,
            Primitives::LineStrip => GL_LINE_STRIP,
            Primitives::Triangles => GL_TRIANGLES,
        }
    }
}

/// Where a render pass draws: the screen, or an offscreen framebuffer.
pub enum RenderTarget<'a> {
    Screen,
    Texture(&'a Framebuffer),
}

/// An open render pass.  Created by [`Gl::render_pass`]; closed by
/// [`RenderPass::end`], which restores the default framebuffer binding when
/// the target was offscreen.
pub struct RenderPass {
    /// Whether an offscreen framebuffer is bound.
    pub offscreen: bool,
}

/// An open pipeline: a shader bound under an open render pass, plus the
/// rotating pool of 8 texture units with its lock mask.  Closed by
/// [`Pipeline::end`], which unbinds the texture (when one was used) and the
/// program.
pub struct Pipeline<'b, T: AttributesReprCpacked> {
    /// The bound shader.
    pub shader: &'b Shader<T>,
    /// The unit the rotation tries next.
    pub texture_active: u8,
    /// Bit `i` set: unit `i` is locked for this pipeline scope.
    pub texture_lock: u8,
    /// Whether any texture was bound in this pipeline scope.
    pub texture_used: bool,
}

impl GlView {
    /// The state after the clear step of a render pass: when a clear color
    /// is requested, the `ClearColor` call is issued only if the cache
    /// disagrees, then a combined or color-only clear; with no clear color
    /// but a depth clear, a depth-only clear.
    pub open spec fn spec_clear(self, info: RenderPassInfo) -> GlView {
        match info.clear_color {
            Some(c) => {
                let with_color = if self.clear_color == c {
                    self
                } else {
                    GlView {
                        clear_color: c,
                        commands: self.commands.push(GlCommandView::ClearColor(c.0, c.1, c.2)),
                        ..self
                    }
                };
                GlView {
                    commands: with_color.commands.push(
                        GlCommandView::Clear(
                            if info.clear_depth {
                                GL_COLOR_BUFFER_BIT | GL_DEPTH_BUFFER_BIT
                            } else {
                                GL_COLOR_BUFFER_BIT
                            },
                        ),
                    ),
                    ..with_color
                }
            },
            None => {
                if info.clear_depth {
                    GlView {
                        commands: self.commands.push(GlCommandView::Clear(GL_DEPTH_BUFFER_BIT)),
                        ..self
                    }
                } else {
                    self
                }
            },
        }
    }

    /// The state after a render pass opens: bind the offscreen framebuffer
    /// if any, reconcile the viewport, clear.
    pub open spec fn spec_render_pass(
        self,
        offscreen: Option<u32>,
        width: i32,
        height: i32,
        info: RenderPassInfo,
    ) -> GlView {
        let bound = match offscreen {
            Some(fb) => GlView {
                commands: self.commands.push(GlCommandView::BindFramebuffer(Some(fb))),
                ..self
            },
            None => self,
        };
        bound.spec_viewport(width, height).spec_clear(info)
    }
}

/// The commands that reconcile one capability cache entry: an `Enable` when
/// it must turn on, a `Disable` when it must turn off, nothing when the cache
/// already agrees.
pub open spec fn spec_cap_cmds(want: bool, have: bool, cap: u32) -> Seq<GlCommandView> {
    if want && !have {
        seq![GlCommandView::Enable(cap)]
    } else if !want && have {
        seq![GlCommandView::Disable(cap)]
    } else {
        Seq::empty()
    }
}

impl GlView {
    /// The state after a pipeline opens: the three capabilities reconciled
    /// against the cache (only transitioning ones issue a call), then the
    /// program bound.
    pub open spec fn spec_pipeline(self, info: PipelineInfo, program: u32) -> GlView {
        GlView {
            pipeline: info,
            commands: self.commands + spec_cap_cmds(
                info.depth_test,
                self.pipeline.depth_test,
                GL_DEPTH_TEST,
            ) + spec_cap_cmds(info.alpha_blend, self.pipeline.alpha_blend, GL_BLEND)
                + spec_cap_cmds(info.face_cull, self.pipeline.face_cull, GL_CULL_FACE) + seq![
                GlCommandView::UseProgram(Some(program)),
            ],
            ..self
        }
    }
}

impl Gl {
    /// Open a render pass.  The target's dimensions (the window for the
    /// screen, the square size for a framebuffer) must fit the `i32` the GL
    /// viewport call takes.
    pub fn render_pass<'b>(&mut self, render_target: &RenderTarget<'b>, info: &RenderPassInfo)
        -> (r: RenderPass)
        requires
            match *render_target {
                RenderTarget::Screen => old(self)@.window_dims.0 <= i32::MAX
                    && old(self)@.window_dims.1 <= i32::MAX,
                RenderTarget::Texture(fb) => fb.size <= i32::MAX,
            },
        ensures
            r.offscreen == (*render_target is Texture),
            final(self)@ == match *render_target {
                RenderTarget::Screen => old(self)@.spec_render_pass(
                    None,
                    old(self)@.window_dims.0 as i32,
                    old(self)@.window_dims.1 as i32,
                    *info,
                ),
                RenderTarget::Texture(fb) => old(self)@.spec_render_pass(
                    Some(fb.framebuffer),
                    fb.size as i32,
                    fb.size as i32,
                    *info,
                ),
            },
    {
        let (offscreen, width, height) = match render_target {
            RenderTarget::Screen => {
                (false, self.window_dims.0 as i32, self.window_dims.1 as i32)
            },
            RenderTarget::Texture(fb) => {
                self.push_cmd(GlCommand::BindFramebuffer(Some(fb.framebuffer)));
                (true, fb.size as i32, fb.size as i32)
            },
        };
        self.viewport(width, height);
        match info.clear_color {
            Some(c) => {
                if self.clear_color.0 != c.0 || self.clear_color.1 != c.1 || self.clear_color.2
                    != c.2 {
                    self.push_cmd(GlCommand::ClearColor(c.0, c.1, c.2));
                    self.clear_color = c;
                }
                if info.clear_depth {
                    self.push_cmd(GlCommand::Clear(GL_COLOR_BUFFER_BIT | GL_DEPTH_BUFFER_BIT));
                } else {
                    self.push_cmd(GlCommand::Clear(GL_COLOR_BUFFER_BIT));
                }
            },
            None => {
                if info.clear_depth {
                    self.push_cmd(GlCommand::Clear(GL_DEPTH_BUFFER_BIT));
                }
            },
        }
        proof {
            assert(final(self)@ =~= match *render_target {
                RenderTarget::Screen => old(self)@.spec_render_pass(
                    None,
                    old(self)@.window_dims.0 as i32,
                    old(self)@.window_dims.1 as i32,
                    *info,
                ),
                RenderTarget::Texture(fb) => old(self)@.spec_render_pass(
                    Some(fb.framebuffer),
                    fb.size as i32,
                    fb.size as i32,
                    *info,
                ),
            });
        }
        RenderPass { offscreen }
    }
}

impl RenderPass {
    /// Open a pipeline under this pass: reconcile capabilities and bind the
    /// shader's program.  The texture unit rotation starts at unit 0 with no
    /// locks.
    pub fn pipeline<'d, T: AttributesReprCpacked>(
        &mut self,
        gl: &mut Gl,
        shader: &'d Shader<T>,
        info: PipelineInfo,
    ) -> (r: Pipeline<'d, T>)
        ensures
            *final(self) == *old(self),
            final(gl)@ == old(gl)@.spec_pipeline(info, shader.program),
            r.shader == shader,
            r.texture_active == 0u8,
            r.texture_lock == 0u8,
            r.texture_used == false,
    {
        if info.depth_test && !gl.pipeline.depth_test {
            gl.push_cmd(GlCommand::Enable(GL_DEPTH_TEST));
        } else if !info.depth_test && gl.pipeline.depth_test {
            gl.push_cmd(GlCommand::Disable(GL_DEPTH_TEST));
        }
        gl.pipeline.depth_test = info.depth_test;
        if info.alpha_blend && !gl.pipeline.alpha_blend {
            gl.push_cmd(GlCommand::Enable(GL_BLEND));
        } else if !info.alpha_blend && gl.pipeline.alpha_blend {
            gl.push_cmd(GlCommand::Disable(GL_BLEND));
        }
        gl.pipeline.alpha_blend = info.alpha_blend;
        if info.face_cull && !gl.pipeline.face_cull {
            gl.push_cmd(GlCommand::Enable(GL_CULL_FACE));
        } else if !info.face_cull && gl.pipeline.face_cull {
            gl.push_cmd(GlCommand::Disable(GL_CULL_FACE));
        }
        gl.pipeline.face_cull = info.face_cull;
        gl.push_cmd(GlCommand::UseProgram(Some(shader.program)));
        proof {
            assert(final(gl)@ =~= old(gl)@.spec_pipeline(info, shader.program));
        }
        Pipeline { shader, texture_active: 0, texture_lock: 0, texture_used: false }
    }

    /// Close the pass: restore the default framebuffer binding when the
    /// target was offscreen.
    pub fn end(self, gl: &mut Gl)
        ensures
            final(gl)@ == (GlView {
                commands: if self.offscreen {
                    old(gl)@.commands.push(GlCommandView::BindFramebuffer(None))
                } else {
                    old(gl)@.commands
                },
                ..old(gl)@
            }),
    {
        if self.offscreen {
            gl.push_cmd(GlCommand::BindFramebuffer(None));
        }
        proof {
            assert(final(gl)@ =~= (GlView {
                commands: if self.offscreen {
                    old(gl)@.commands.push(GlCommandView::BindFramebuffer(None))
                } else {
                    old(gl)@.commands
                },
                ..old(gl)@
            }));
        }
    }
}

/// The attribute pointer command for one recorded attribute: float
/// attributes through `glVertexAttribPointer`, integer attributes through
/// `glVertexAttribIPointer`.
pub open spec fn spec_pointer_cmd(attr: (BufferType, u32, i32), stride: i32) -> GlCommandView {
    match attr.0 {
        BufferType::Float { size } => GlCommandView::VertexAttribPointerF32 {
            location: attr.1,
            size: size as i32,
            stride,
            offset: attr.2,
        },
        BufferType::Int { signed, size } => GlCommandView::VertexAttribPointerI32 {
            location: attr.1,
            signed,
            size: size as i32,
            stride,
            offset: attr.2,
        },
    }
}

/// The per-attribute setup a draw emits: point each recorded attribute at
/// its slot, then enable its array.
pub open spec fn spec_attrib_setup_cmds(attrs: Seq<(BufferType, u32, i32)>, stride: i32) -> Seq<
    GlCommandView,
>
    decreases attrs.len(),
{
    if attrs.len() == 0 {
        Seq::empty()
    } else {
        spec_attrib_setup_cmds(attrs.drop_last(), stride) + seq![
            spec_pointer_cmd(attrs.last(), stride),
            GlCommandView::EnableVertexAttribArray(attrs.last().1),
        ]
    }
}

/// The per-attribute teardown a draw emits: disable every attribute array it
/// enabled.
pub open spec fn spec_attrib_disable_cmds(attrs: Seq<(BufferType, u32, i32)>) -> Seq<
    GlCommandView,
>
    decreases attrs.len(),
{
    if attrs.len() == 0 {
        Seq::empty()
    } else {
        spec_attrib_disable_cmds(attrs.drop_last()).push(
            GlCommandView::DisableVertexAttribArray(attrs.last().1),
        )
    }
}

/// The whole command sequence of one draw: bind the vertex buffer, set up
/// the attributes, issue the (indexed or non-indexed) draw, disable the
/// attributes, unbind.
pub open spec fn spec_draw_cmds(
    attrs: Seq<(BufferType, u32, i32)>,
    stride: i32,
    vertex_buffer: u32,
    primitives: Primitives,
    index_buffer: Option<u32>,
    offset: i32,
    count: i32,
) -> Seq<GlCommandView> {
    seq![GlCommandView::BindArrayBuffer(Some(vertex_buffer))] + spec_attrib_setup_cmds(
        attrs,
        stride,
    ) + (match index_buffer {
        None => seq![GlCommandView::DrawArrays(primitives.spec_gl_name(), offset, count)],
        Some(ib) => seq![
            GlCommandView::BindElementBuffer(Some(ib)),
            GlCommandView::DrawElements(primitives.spec_gl_name(), count, offset),
            GlCommandView::BindElementBuffer(None),
        ],
    }) + spec_attrib_disable_cmds(attrs) + seq![GlCommandView::BindArrayBuffer(None)]
}

/// The unit the rotation would hand out next, trying `8 - k` more
/// candidates starting at offset `k` from the cursor: the first unit in
/// rotation order whose lock bit is clear.
pub open spec fn pick_from(active: u8, lock: u8, k: int) -> Option<u8>
    decreases 8 - k,
{
    if k < 0 || k >= 8 {
        None
    } else {
        let unit = (((k + active) % 8) as u8);
        if lock & (1u8 << unit) == 0u8 {
            Some(unit)
        } else {
            pick_from(active, lock, k + 1)
        }
    }
}

/// The texture unit a bind picks: the first unit in rotation order from the
/// cursor whose lock bit is clear, if any unit is free.
pub open spec fn spec_pick_unit(active: u8, lock: u8) -> Option<u8> {
    pick_from(active, lock, 0)
}

/// The unit state after one texture bind: the cursor moves past the picked
/// unit, and a persistent bind locks it; with every unit locked nothing
/// changes.
pub open spec fn spec_bind_texture(active: u8, lock: u8, persistent: bool) -> (u8, u8) {
    match spec_pick_unit(active, lock) {
        Some(unit) => (
            ((unit + 1) % 8) as u8,
            if persistent {
                lock | (1u8 << unit)
            } else {
                lock
            },
        ),
        None => (active, lock),
    }
}

impl<'b, T: AttributesReprCpacked> Pipeline<'b, T> {
    /// The rotation cursor stays inside the 8 hardware units.
    pub open spec fn wf(self) -> bool {
        self.texture_active < 8
    }

    /// Assign a non-texture uniform value through its key.  The key must
    /// belong to the bound shader — using a key from another shader is a
    /// reproducible contract violation — and the value's GL type must be
    /// the key's.
    pub fn uniform_key(&mut self, gl: &mut Gl, key: &UniformKey, value: &UniformValue)
        requires
            key.shader_id == old(self).shader.id,
            key.ty == value.spec_code(),
        ensures
            *final(self) == *old(self),
            final(gl)@ == (GlView {
                commands: old(gl)@.commands.push(GlCommandView::Uniform(key.key, *value)),
                ..old(gl)@
            }),
    {
        gl.push_cmd(GlCommand::Uniform(key.key, *value));
    }

    /// Assign a non-texture uniform value by name: look the key up in the
    /// bound shader, then assign.  The uniform must exist with the value's
    /// type.
    pub fn uniform_name(&mut self, gl: &mut Gl, name: &str, value: &UniformValue)
        requires
            ({
                let us = crate::gl::shader::uniforms_view(old(self).shader.uniforms@);
                match crate::gl::shader::uniform_index_of(us, name@) {
                    Some(i) => us[i].2 == value.spec_code(),
                    None => false,
                }
            }),
        ensures
            *final(self) == *old(self),
            ({
                let us = crate::gl::shader::uniforms_view(old(self).shader.uniforms@);
                let i = crate::gl::shader::uniform_index_of(us, name@).unwrap();
                final(gl)@ == (GlView {
                    commands: old(gl)@.commands.push(GlCommandView::Uniform(us[i].1, *value)),
                    ..old(gl)@
                })
            }),
    {
        let key = self.shader.get_key(name, value.code());
        gl.push_cmd(GlCommand::Uniform(key.key, *value));
    }

    /// Bind a texture for sampling: allocate the next free texture unit in
    /// round-robin order from the rotating cursor, skipping locked units;
    /// set the sampler uniform to the unit; advance the cursor past it; and,
    /// for a persistent texture, lock the unit for the rest of this pipeline
    /// scope.  With all 8 units locked no unit is touched.  The key must
    /// belong to the bound shader and must be a 2D sampler.
    pub fn uniform_texture<const P: bool>(
        &mut self,
        gl: &mut Gl,
        key: &UniformKey,
        texture: &Texture<P>,
    )
        requires
            old(self).wf(),
            key.shader_id == old(self).shader.id,
            key.ty == GL_SAMPLER_2D,
        ensures
            final(self).wf(),
            final(self).shader == old(self).shader,
            final(self).texture_used == true,
            (final(self).texture_active, final(self).texture_lock) == spec_bind_texture(
                old(self).texture_active,
                old(self).texture_lock,
                P,
            ),
            match spec_pick_unit(old(self).texture_active, old(self).texture_lock) {
                Some(unit) => {
                    &&& final(self).texture_active == ((unit + 1) % 8) as u8
                    &&& final(self).texture_lock == if P {
                        old(self).texture_lock | (1u8 << unit)
                    } else {
                        old(self).texture_lock
                    }
                    &&& final(gl)@ == (GlView {
                        commands: old(gl)@.commands + seq![
                            GlCommandView::Uniform(key.key, UniformValue::Int(unit as i32)),
                            GlCommandView::ActiveTexture(unit as u32),
                            GlCommandView::BindTexture(Some(texture.texture)),
                        ],
                        ..old(gl)@
                    })
                },
                None => {
                    &&& final(self).texture_active == old(self).texture_active
                    &&& final(self).texture_lock == old(self).texture_lock
                    &&& *final(gl) == *old(gl)
                },
            },
    {
        let mut k: u8 = 0;
        let mut found: Option<u8> = None;
        while k < 8
            invariant_except_break
                found is None,
            invariant
                0 <= k <= 8,
                self.texture_active < 8,
                pick_from(self.texture_active, self.texture_lock, 0) == pick_from(
                    self.texture_active,
                    self.texture_lock,
                    k as int,
                ),
            ensures
                found == spec_pick_unit(self.texture_active, self.texture_lock),
                match found {
                    Some(unit) => unit < 8 && self.texture_lock & (1u8 << unit) == 0u8,
                    None => true,
                },
            decreases 8 - k,
        {
            let unit = (k + self.texture_active) % 8;
            if self.texture_lock & (1u8 << unit) == 0 {
                found = Some(unit);
                break;
            }
            k = k + 1;
        }
        match found {
            Some(unit) => {
                gl.push_cmd(GlCommand::Uniform(key.key, UniformValue::Int(unit as i32)));
                gl.push_cmd(GlCommand::ActiveTexture(unit as u32));
                gl.push_cmd(GlCommand::BindTexture(Some(texture.texture)));
                self.texture_active = (unit + 1) % 8;
                if P {
                    self.texture_lock = self.texture_lock | (1u8 << unit);
                }
                proof {
                    assert(final(gl)@ =~= (GlView {
                        commands: old(gl)@.commands + seq![
                            GlCommandView::Uniform(key.key, UniformValue::Int(unit as i32)),
                            GlCommandView::ActiveTexture(unit as u32),
                            GlCommandView::BindTexture(Some(texture.texture)),
                        ],
                        ..old(gl)@
                    }));
                }
            },
            None => {},
        }
        self.texture_used = true;
    }

    /// Dispatch a draw call.  The vertex buffer is bound and each of the
    /// shader's recorded attributes is pointed at its slot with the vertex
    /// stride; an indexed draw goes through the index buffer with 16-bit
    /// indices; afterwards every enabled attribute array is disabled again
    /// and the vertex buffer unbound.  The drawn range must stay inside the
    /// vertex buffer (non-indexed) or the index buffer (indexed); running
    /// past the end is a fatal contract violation, never a silent clamp, so
    /// the bound is a precondition here.
    pub fn draw(
        &mut self,
        gl: &mut Gl,
        primitives: Primitives,
        vertices: &VertexBuffer<T>,
        indices: Option<&IndexBuffer>,
        offset: u32,
        count: u32,
    )
        requires
            vertices.wf(),
            offset <= i32::MAX,
            count <= i32::MAX,
            match indices {
                None => offset + count <= vertices.length,
                Some(ib) => offset + count <= ib.length,
            },
        ensures
            *final(self) == *old(self),
            final(gl)@ == (GlView {
                commands: old(gl)@.commands + spec_draw_cmds(
                    old(self).shader.attributes@,
                    vertices.stride as i32,
                    vertices.buffer,
                    primitives,
                    match indices {
                        None => None,
                        Some(ib) => Some(ib.buffer),
                    },
                    offset as i32,
                    count as i32,
                ),
                ..old(gl)@
            }),
    {
        gl.push_cmd(GlCommand::BindArrayBuffer(Some(vertices.buffer)));
        let stride = vertices.stride as i32;
        let n = self.shader.attributes.len();
        let ghost attrs = self.shader.attributes@;
        let mut i: usize = 0;
        while i < n
            invariant
                n == attrs.len(),
                attrs == self.shader.attributes@,
                stride == vertices.stride as i32,
                0 <= i <= n,
                gl@ == (GlView {
                    commands: old(gl)@.commands.push(
                        GlCommandView::BindArrayBuffer(Some(vertices.buffer)),
                    ) + spec_attrib_setup_cmds(attrs.take(i as int), stride),
                    ..old(gl)@
                }),
            decreases n - i,
        {
            let (ty, location, attr_offset) = self.shader.attributes[i];
            match ty {
                BufferType::Float { size } => {
                    gl.push_cmd(GlCommand::VertexAttribPointerF32 {
                        location,
                        size: size as i32,
                        stride,
                        offset: attr_offset,
                    });
                },
                BufferType::Int { signed, size } => {
                    gl.push_cmd(GlCommand::VertexAttribPointerI32 {
                        location,
                        signed,
                        size: size as i32,
                        stride,
                        offset: attr_offset,
                    });
                },
            }
            gl.push_cmd(GlCommand::EnableVertexAttribArray(location));
            proof {
                assert(attrs.take(i as int + 1).drop_last() =~= attrs.take(i as int));
                assert(attrs.take(i as int + 1).last() == attrs[i as int]);
                assert(gl@ =~= (GlView {
                    commands: old(gl)@.commands.push(
                        GlCommandView::BindArrayBuffer(Some(vertices.buffer)),
                    ) + spec_attrib_setup_cmds(attrs.take(i as int + 1), stride),
                    ..old(gl)@
                }));
            }
            i = i + 1;
        }
        proof {
            assert(attrs.take(n as int) =~= attrs);
        }
        match indices {
            None => {
                gl.push_cmd(GlCommand::DrawArrays(
                    primitives.gl_name(),
                    offset as i32,
                    count as i32,
                ));
            },
            Some(ib) => {
                gl.push_cmd(GlCommand::BindElementBuffer(Some(ib.buffer)));
                gl.push_cmd(GlCommand::DrawElements(
                    primitives.gl_name(),
                    count as i32,
                    offset as i32,
                ));
                gl.push_cmd(GlCommand::BindElementBuffer(None));
            },
        }
        let ghost mid = gl@.commands;
        let mut i: usize = 0;
        while i < n
            invariant
                n == attrs.len(),
                attrs == self.shader.attributes@,
                0 <= i <= n,
                gl@ == (GlView {
                    commands: mid + spec_attrib_disable_cmds(attrs.take(i as int)),
                    ..old(gl)@
                }),
            decreases n - i,
        {
            let (_, location, _) = self.shader.attributes[i];
            gl.push_cmd(GlCommand::DisableVertexAttribArray(location));
            proof {
                assert(attrs.take(i as int + 1).drop_last() =~= attrs.take(i as int));
                assert(attrs.take(i as int + 1).last() == attrs[i as int]);
                assert(gl@ =~= (GlView {
                    commands: mid + spec_attrib_disable_cmds(attrs.take(i as int + 1)),
                    ..old(gl)@
                }));
            }
            i = i + 1;
        }
        gl.push_cmd(GlCommand::BindArrayBuffer(None));
        proof {
            assert(attrs.take(n as int) =~= attrs);
            assert(final(gl)@ =~= (GlView {
                commands: old(gl)@.commands + spec_draw_cmds(
                    old(self).shader.attributes@,
                    vertices.stride as i32,
                    vertices.buffer,
                    primitives,
                    match indices {
                        None => None,
                        Some(ib) => Some(ib.buffer),
                    },
                    offset as i32,
                    count as i32,
                ),
                ..old(gl)@
            }));
        }
    }

    /// Close the pipeline: unbind the texture when one was used in this
    /// scope, and unbind the program.
    pub fn end(self, gl: &mut Gl)
        ensures
            final(gl)@ == (GlView {
                commands: (if self.texture_used {
                    old(gl)@.commands.push(GlCommandView::BindTexture(None))
                } else {
                    old(gl)@.commands
                }).push(GlCommandView::UseProgram(None)),
                ..old(gl)@
            }),
    {
        if self.texture_used {
            gl.push_cmd(GlCommand::BindTexture(None));
        }
        gl.push_cmd(GlCommand::UseProgram(None));
        proof {
            assert(final(gl)@ =~= (GlView {
                commands: (if self.texture_used {
                    old(gl)@.commands.push(GlCommandView::BindTexture(None))
                } else {
                    old(gl)@.commands
                }).push(GlCommandView::UseProgram(None)),
                ..old(gl)@
            }));
        }
    }
}

} // verus!
