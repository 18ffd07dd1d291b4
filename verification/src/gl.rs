//! The GL context core: a state tracker that decides which GPU commands are
//! issued and records them in a command log.
//!
//! The context never talks to a driver.  Every raw call it decides to make is
//! appended to [`Gl::commands`] as a [`GlCommand`] value; an unverified
//! executor outside the library drains the log in order and performs the
//! calls.  The contracts state, for each operation, exactly which commands it
//! appends and how the cached state changes.

use vstd::prelude::*;

pub mod consts;
pub mod buffer;
pub mod texture;
pub mod framebuffer;
pub mod shader;
pub mod render;
pub mod laws;

pub use buffer::{AttributesReprCpacked, BufferAccess, BufferType, IndexBuffer, VertexBuffer};
pub use framebuffer::{Framebuffer, FramebufferAttachment, FramebufferConfig};
pub use render::{Pipeline, Primitives, RenderPass, RenderPassInfo, RenderTarget};
pub use shader::{ActiveAttribute, ActiveUniform, Shader, UniformKey};
pub use texture::{Texture, TextureChannel, TextureConfig, TextureWrap};

verus! {

use crate::gl::consts::GL_DEPTH_TEST;
use crate::gl::consts::GL_LEQUAL;
use crate::gl::consts::GL_BLEND;
use crate::gl::consts::GL_FUNC_ADD;
use crate::gl::consts::GL_SRC_ALPHA;
use crate::gl::consts::GL_ONE_MINUS_SRC_ALPHA;
use crate::gl::consts::GL_CULL_FACE;
use crate::gl::consts::GL_BACK;
use crate::gl::consts::GL_UNPACK_ALIGNMENT;

/// One raw GPU call, recorded instead of performed.  The executor outside the
/// library drains the log and performs each command against the real driver,
/// in order.  Fields that the driver takes as `f32` carry IEEE 754 bit
/// patterns as `u32`, so the log itself stays free of floating point.
#[derive(Debug, Clone, PartialEq)]
pub enum GlCommand {
    /// `glEnable(cap)`.
    Enable(u32),
    /// `glDisable(cap)`.
    Disable(u32),
    /// `glDepthFunc(func)`.
    DepthFunc(u32),
    /// `glBlendEquation(mode)`.
    BlendEquation(u32),
    /// `glBlendFunc(src, dst)`.
    BlendFunc(u32, u32),
    /// `glCullFace(face)`.
    CullFace(u32),
    /// `glPixelStorei(param, value)`.
    PixelStore(u32, i32),
    /// `glClearColor(r, g, b, 1.0)`; the channels are `f32` bit patterns.
    ClearColor(u32, u32, u32),
    /// `glClear(mask)`.
    Clear(u32),
    /// `glViewport(0, 0, width, height)`.
    Viewport(i32, i32),
    /// Create the buffer object the log names by this id.
    CreateBuffer(u32),
    /// `glBindBuffer(GL_ARRAY_BUFFER, _)`; `None` unbinds.
    BindArrayBuffer(Option<u32>),
    /// `glBindBuffer(GL_ELEMENT_ARRAY_BUFFER, _)`; `None` unbinds.
    BindElementBuffer(Option<u32>),
    /// `glBufferData(target, byte_size, NULL, usage)`.
    BufferDataSize(u32, i32, u32),
    /// `glBufferSubData(target, byte_offset, data)`.
    BufferSubData(u32, i32, Vec<u8>),
    /// Create the texture object the log names by this id.
    CreateTexture(u32),
    /// `glBindTexture(GL_TEXTURE_2D, _)`; `None` unbinds.
    BindTexture(Option<u32>),
    /// `glTexImage2D(GL_TEXTURE_2D, 0, format, size, size, 0, format,
    /// GL_UNSIGNED_BYTE, data)`.
    TexImage2d { format: u32, size: i32, data: Option<Vec<u8>> },
    /// `glTexParameteri(GL_TEXTURE_2D, param, value)`.
    TexParameter(u32, i32),
    /// `glGenerateMipmap(GL_TEXTURE_2D)`.
    GenerateMipmap,
    /// Create the framebuffer object the log names by this id.
    CreateFramebuffer(u32),
    /// `glBindFramebuffer(GL_FRAMEBUFFER, _)`; `None` unbinds.
    BindFramebuffer(Option<u32>),
    /// `glFramebufferTexture2D(GL_FRAMEBUFFER, GL_COLOR_ATTACHMENT0,
    /// GL_TEXTURE_2D, texture, 0)`.
    FramebufferTexture2d(u32),
    /// Create the renderbuffer object the log names by this id.
    CreateRenderbuffer(u32),
    /// `glBindRenderbuffer(GL_RENDERBUFFER, _)`; `None` unbinds.
    BindRenderbuffer(Option<u32>),
    /// `glRenderbufferStorage(GL_RENDERBUFFER, GL_DEPTH_COMPONENT16, size, size)`.
    RenderbufferStorage(i32),
    /// `glFramebufferRenderbuffer(GL_FRAMEBUFFER, GL_DEPTH_ATTACHMENT,
    /// GL_RENDERBUFFER, renderbuffer)`.
    FramebufferRenderbuffer(u32),
    /// `glBindAttribLocation(program, location, name)`.
    BindAttribLocation(u32, u32, String),
    /// `glLinkProgram(program)`.
    LinkProgram(u32),
    /// `glUseProgram(_)`; `None` unbinds.
    UseProgram(Option<u32>),
    /// One of the `glUniform*` calls, chosen by the value's variant.
    Uniform(u32, UniformValue),
    /// `glActiveTexture(GL_TEXTURE0 + unit)`.
    ActiveTexture(u32),
    /// `glVertexAttribPointer(location, size, GL_FLOAT, false, stride, offset)`.
    VertexAttribPointerF32 { location: u32, size: i32, stride: i32, offset: i32 },
    /// `glVertexAttribIPointer(location, size, GL_INT or GL_UNSIGNED_INT,
    /// stride, offset)`.
    VertexAttribPointerI32 { location: u32, signed: bool, size: i32, stride: i32, offset: i32 },
    /// `glEnableVertexAttribArray(location)`.
    EnableVertexAttribArray(u32),
    /// `glDisableVertexAttribArray(location)`.
    DisableVertexAttribArray(u32),
    /// `glDrawArrays(mode, first, count)`.
    DrawArrays(u32, i32, i32),
    /// `glDrawElements(mode, count, GL_UNSIGNED_SHORT, offset)`.
    DrawElements(u32, i32, i32),
    /// Delete the buffer object with this id.
    DeleteBuffer(u32),
    /// Delete the texture object with this id.
    DeleteTexture(u32),
    /// Delete the program object with this id.
    DeleteProgram(u32),
    /// Delete the framebuffer object with this id.
    DeleteFramebuffer(u32),
    /// Delete the renderbuffer object with this id.
    DeleteRenderbuffer(u32),
}

/// The mathematical model of a [`GlCommand`]: identical except that owned
/// payloads appear as sequences.
pub enum GlCommandView {
    Enable(u32),
    Disable(u32),
    DepthFunc(u32),
    BlendEquation(u32),
    BlendFunc(u32, u32),
    CullFace(u32),
    PixelStore(u32, i32),
    ClearColor(u32, u32, u32),
    Clear(u32),
    Viewport(i32, i32),
    CreateBuffer(u32),
    BindArrayBuffer(Option<u32>),
    BindElementBuffer(Option<u32>),
    BufferDataSize(u32, i32, u32),
    BufferSubData(u32, i32, Seq<u8>),
    CreateTexture(u32),
    BindTexture(Option<u32>),
    TexImage2d { format: u32, size: i32, data: Option<Seq<u8>> },
    TexParameter(u32, i32),
    GenerateMipmap,
    CreateFramebuffer(u32),
    BindFramebuffer(Option<u32>),
    FramebufferTexture2d(u32),
    CreateRenderbuffer(u32),
    BindRenderbuffer(Option<u32>),
    RenderbufferStorage(i32),
    FramebufferRenderbuffer(u32),
    BindAttribLocation(u32, u32, Seq<char>),
    LinkProgram(u32),
    UseProgram(Option<u32>),
    Uniform(u32, UniformValue),
    ActiveTexture(u32),
    VertexAttribPointerF32 { location: u32, size: i32, stride: i32, offset: i32 },
    VertexAttribPointerI32 { location: u32, signed: bool, size: i32, stride: i32, offset: i32 },
    EnableVertexAttribArray(u32),
    DisableVertexAttribArray(u32),
    DrawArrays(u32, i32, i32),
    DrawElements(u32, i32, i32),
    DeleteBuffer(u32),
    DeleteTexture(u32),
    DeleteProgram(u32),
    DeleteFramebuffer(u32),
    DeleteRenderbuffer(u32),
}

impl View for GlCommand {
    type V = GlCommandView;

    open spec fn view(&self) -> GlCommandView {
        match self {
            GlCommand::Enable(a) => GlCommandView::Enable(*a),
            GlCommand::Disable(a) => GlCommandView::Disable(*a),
            GlCommand::DepthFunc(a) => GlCommandView::DepthFunc(*a),
            GlCommand::BlendEquation(a) => GlCommandView::BlendEquation(*a),
            GlCommand::BlendFunc(a, b) => GlCommandView::BlendFunc(*a, *b),
            GlCommand::CullFace(a) => GlCommandView::CullFace(*a),
            GlCommand::PixelStore(a, b) => GlCommandView::PixelStore(*a, *b),
            GlCommand::ClearColor(r, g, b) => GlCommandView::ClearColor(*r, *g, *b),
            GlCommand::Clear(m) => GlCommandView::Clear(*m),
            GlCommand::Viewport(w, h) => GlCommandView::Viewport(*w, *h),
            GlCommand::CreateBuffer(a) => GlCommandView::CreateBuffer(*a),
            GlCommand::BindArrayBuffer(a) => GlCommandView::BindArrayBuffer(*a),
            GlCommand::BindElementBuffer(a) => GlCommandView::BindElementBuffer(*a),
            GlCommand::BufferDataSize(a, b, c) => GlCommandView::BufferDataSize(*a, *b, *c),
            GlCommand::BufferSubData(a, b, d) => GlCommandView::BufferSubData(*a, *b, d@),
            GlCommand::CreateTexture(a) => GlCommandView::CreateTexture(*a),
            GlCommand::BindTexture(a) => GlCommandView::BindTexture(*a),
            GlCommand::TexImage2d { format, size, data } => GlCommandView::TexImage2d {
                format: *format,
                size: *size,
                data: match data {
                    Some(d) => Some(d@),
                    None => None,
                },
            },
            GlCommand::TexParameter(a, b) => GlCommandView::TexParameter(*a, *b),
            GlCommand::GenerateMipmap => GlCommandView::GenerateMipmap,
            GlCommand::CreateFramebuffer(a) => GlCommandView::CreateFramebuffer(*a),
            GlCommand::BindFramebuffer(a) => GlCommandView::BindFramebuffer(*a),
            GlCommand::FramebufferTexture2d(a) => GlCommandView::FramebufferTexture2d(*a),
            GlCommand::CreateRenderbuffer(a) => GlCommandView::CreateRenderbuffer(*a),
            GlCommand::BindRenderbuffer(a) => GlCommandView::BindRenderbuffer(*a),
            GlCommand::RenderbufferStorage(a) => GlCommandView::RenderbufferStorage(*a),
            GlCommand::FramebufferRenderbuffer(a) => GlCommandView::FramebufferRenderbuffer(*a),
            GlCommand::BindAttribLocation(a, b, n) => GlCommandView::BindAttribLocation(*a, *b, n@),
            GlCommand::LinkProgram(a) => GlCommandView::LinkProgram(*a),
            GlCommand::UseProgram(a) => GlCommandView::UseProgram(*a),
            GlCommand::Uniform(a, v) => GlCommandView::Uniform(*a, *v),
            GlCommand::ActiveTexture(a) => GlCommandView::ActiveTexture(*a),
            GlCommand::VertexAttribPointerF32 { location, size, stride, offset } =>
                GlCommandView::VertexAttribPointerF32 {
                    location: *location,
                    size: *size,
                    stride: *stride,
                    offset: *offset,
                },
            GlCommand::VertexAttribPointerI32 { location, signed, size, stride, offset } =>
                GlCommandView::VertexAttribPointerI32 {
                    location: *location,
                    signed: *signed,
                    size: *size,
                    stride: *stride,
                    offset: *offset,
                },
            GlCommand::EnableVertexAttribArray(a) => GlCommandView::EnableVertexAttribArray(*a),
            GlCommand::DisableVertexAttribArray(a) => GlCommandView::DisableVertexAttribArray(*a),
            GlCommand::DrawArrays(a, b, c) => GlCommandView::DrawArrays(*a, *b, *c),
            GlCommand::DrawElements(a, b, c) => GlCommandView::DrawElements(*a, *b, *c),
            GlCommand::DeleteBuffer(a) => GlCommandView::DeleteBuffer(*a),
            GlCommand::DeleteTexture(a) => GlCommandView::DeleteTexture(*a),
            GlCommand::DeleteProgram(a) => GlCommandView::DeleteProgram(*a),
            GlCommand::DeleteFramebuffer(a) => GlCommandView::DeleteFramebuffer(*a),
            GlCommand::DeleteRenderbuffer(a) => GlCommandView::DeleteRenderbuffer(*a),
        }
    }
}

/// A shader-global input value, carried by a `Uniform` command.  Floats are
/// IEEE 754 bit patterns as `u32`; matrices are column-major, as GL takes
/// them.
#[derive(Debug, Clone, Copy, PartialEq)]
pub enum UniformValue {
    Float(u32),
    FloatVec2(u32, u32),
    FloatVec3(u32, u32, u32),
    FloatVec4(u32, u32, u32, u32),
    Int(i32),
    IntVec2(i32, i32),
    IntVec3(i32, i32, i32),
    IntVec4(i32, i32, i32, i32),
    Uint(u32),
    UintVec2(u32, u32),
    UintVec3(u32, u32, u32),
    UintVec4(u32, u32, u32, u32),
    Mat2([u32; 4]),
    Mat3([u32; 9]),
    Mat4([u32; 16]),
}

impl UniformValue {
    /// The GL type enumerant of the uniforms this value can be assigned to.
    pub open spec fn spec_code(self) -> u32 {
        match self {
            UniformValue::Float(..) => consts::GL_FLOAT,
            UniformValue::FloatVec2(..) => consts::GL_FLOAT_VEC2,
            UniformValue::FloatVec3(..) => consts::GL_FLOAT_VEC3,
            UniformValue::FloatVec4(..) => consts::GL_FLOAT_VEC4,
            UniformValue::Int(..) => consts::GL_INT,
            UniformValue::IntVec2(..) => consts::GL_INT_VEC2,
            UniformValue::IntVec3(..) => consts::GL_INT_VEC3,
            UniformValue::IntVec4(..) => consts::GL_INT_VEC4,
            UniformValue::Uint(..) => consts::GL_UNSIGNED_INT,
            UniformValue::UintVec2(..) => consts::GL_UNSIGNED_INT_VEC2,
            UniformValue::UintVec3(..) => consts::GL_UNSIGNED_INT_VEC3,
            UniformValue::UintVec4(..) => consts::GL_UNSIGNED_INT_VEC4,
            UniformValue::Mat2(..) => consts::GL_FLOAT_MAT2,
            UniformValue::Mat3(..) => consts::GL_FLOAT_MAT3,
            UniformValue::Mat4(..) => consts::GL_FLOAT_MAT4,
        }
    }

    pub fn code(&self) -> (r: u32)
        ensures
            r == self.spec_code(),
    {
        match self {
            UniformValue::Float(..) => consts::GL_FLOAT,
            UniformValue::FloatVec2(..) => consts::GL_FLOAT_VEC2,
            UniformValue::FloatVec3(..) => consts::GL_FLOAT_VEC3,
            UniformValue::FloatVec4(..) => consts::GL_FLOAT_VEC4,
            UniformValue::Int(..) => consts::GL_INT,
            UniformValue::IntVec2(..) => consts::GL_INT_VEC2,
            UniformValue::IntVec3(..) => consts::GL_INT_VEC3,
            UniformValue::IntVec4(..) => consts::GL_INT_VEC4,
            UniformValue::Uint(..) => consts::GL_UNSIGNED_INT,
            UniformValue::UintVec2(..) => consts::GL_UNSIGNED_INT_VEC2,
            UniformValue::UintVec3(..) => consts::GL_UNSIGNED_INT_VEC3,
            UniformValue::UintVec4(..) => consts::GL_UNSIGNED_INT_VEC4,
            UniformValue::Mat2(..) => consts::GL_FLOAT_MAT2,
            UniformValue::Mat3(..) => consts::GL_FLOAT_MAT3,
            UniformValue::Mat4(..) => consts::GL_FLOAT_MAT4,
        }
    }
}

/// Which pipeline capabilities are enabled: depth test, alpha blending, face
/// culling.
#[derive(Debug, Clone, Copy, PartialEq, Eq, Structural)]
pub struct PipelineInfo {
    pub depth_test: bool,
    pub alpha_blend: bool,
    pub face_cull: bool,
}

/// The mathematical model of a [`Gl`] context.
#[verifier::ext_equal]
pub struct GlView {
    pub window_dims: (u32, u32),
    pub glsl_vertex_header: Seq<char>,
    pub glsl_fragment_header: Seq<char>,
    pub shader_id: u32,
    pub viewport: (i32, i32),
    pub clear_color: (u32, u32, u32),
    pub attributes: Seq<Seq<char>>,
    pub pipeline: PipelineInfo,
    pub next_object: u32,
    pub commands: Seq<GlCommandView>,
}

/// The GL context: cached global state plus the command log.
///
/// The cached fields mirror what the driver currently holds, so that
/// operations can skip calls that would not change anything.  `attributes` is
/// the context-global attribute slot table: the name at index `i` is bound to
/// vertex attribute slot `i` in every shader compiled against this context.
pub struct Gl {
    /// Written by the event loop on window resize; read when a screen render
    /// pass resolves its viewport size.
    pub window_dims: (u32, u32),
    /// Prefix prepended to every vertex shader source.
    pub glsl_vertex_header: String,
    /// Prefix prepended to every fragment shader source.
    pub glsl_fragment_header: String,
    /// The id the next compiled shader will carry.
    pub shader_id: u32,
    /// Cached viewport dimensions; `(-1, -1)` is the never-matching sentinel.
    pub viewport: (i32, i32),
    /// Cached clear color, as `f32` bit patterns.
    pub clear_color: (u32, u32, u32),
    /// The attribute slot table: the name at index `i` owns slot `i`.
    pub attributes: Vec<String>,
    /// Cached capability state.
    pub pipeline: PipelineInfo,
    /// The id the next GPU object (buffer, texture, ...) will carry.
    pub next_object: u32,
    /// The command log.  The executor drains it in order.
    pub commands: Vec<GlCommand>,
}

impl View for Gl {
    type V = GlView;

    open spec fn view(&self) -> GlView {
        GlView {
            window_dims: self.window_dims,
            glsl_vertex_header: self.glsl_vertex_header@,
            glsl_fragment_header: self.glsl_fragment_header@,
            shader_id: self.shader_id,
            viewport: self.viewport,
            clear_color: self.clear_color,
            attributes: self.attributes@.map_values(|s: String| s@),
            pipeline: self.pipeline,
            next_object: self.next_object,
            commands: self.commands@.map_values(|c: GlCommand| c@),
        }
    }
}

/// The slot of `name` in the attribute table `t`: the first index holding
/// `name`, if any.
pub open spec fn slot_of(t: Seq<Seq<char>>, name: Seq<char>) -> Option<int> {
    t.index_of_first(name)
}

/// The slot of a name is pinned by its first occurrence.
pub proof fn lemma_slot_of_found(t: Seq<Seq<char>>, name: Seq<char>, i: int)
    requires
        0 <= i < t.len(),
        t[i] == name,
        forall|j: int| 0 <= j < i ==> t[j] != name,
    ensures
        slot_of(t, name) == Some(i),
{
    t.index_of_first_ensures(name);
    assert(t.contains(name));
    let k = t.index_of_first(name).unwrap();
    if k < i {
        assert(t[k] != name);
    }
    if i < k {
        assert(t[i] != name);
    }
}

/// A name that occurs nowhere in the table has no slot.
pub proof fn lemma_slot_of_none(t: Seq<Seq<char>>, name: Seq<char>)
    requires
        forall|j: int| 0 <= j < t.len() ==> t[j] != name,
    ensures
        slot_of(t, name) is None,
{
    t.index_of_first_ensures(name);
    if t.contains(name) {
        let w = choose|i: int| 0 <= i < t.len() && t[i] == name;
        assert(t[w] != name);
    }
}

/// The table after a name is looked up: unchanged when present, extended by
/// one slot when new.
pub open spec fn table_insert(t: Seq<Seq<char>>, name: Seq<char>) -> Seq<Seq<char>> {
    if slot_of(t, name) is Some {
        t
    } else {
        t.push(name)
    }
}

/// The slot that a lookup of `name` in `t` resolves to (allocating when new).
pub open spec fn slot_after_insert(t: Seq<Seq<char>>, name: Seq<char>) -> int {
    match slot_of(t, name) {
        Some(i) => i,
        None => t.len() as int,
    }
}

impl GlView {
    /// The state after `viewport(width, height)`: a no-op when the cache
    /// matches, otherwise one `Viewport` command and the cache updated.
    pub open spec fn spec_viewport(self, width: i32, height: i32) -> GlView {
        if self.viewport == (width, height) {
            self
        } else {
            GlView {
                viewport: (width, height),
                commands: self.commands.push(GlCommandView::Viewport(width, height)),
                ..self
            }
        }
    }
}

impl Gl {
    /// A fresh context over a ready driver surface.  The command log starts
    /// with the fixed initialization sequence: depth test on with `LEQUAL`,
    /// blending off but configured for standard alpha blending, back-face
    /// culling on, unpack alignment 1.  The cached viewport is the `(-1, -1)`
    /// sentinel so the first real viewport call is never skipped.
    pub fn new(glsl_vertex_header: &str, glsl_fragment_header: &str) -> (r: Gl)
        ensures
            r@.window_dims == (0u32, 0u32),
            r@.glsl_vertex_header == glsl_vertex_header@,
            r@.glsl_fragment_header == glsl_fragment_header@,
            r@.shader_id == 0u32,
            r@.viewport == (-1i32, -1i32),
            r@.clear_color == (0u32, 0u32, 0u32),
            r@.attributes == Seq::<Seq<char>>::empty(),
            r@.pipeline == (PipelineInfo { depth_test: true, alpha_blend: false, face_cull: true }),
            r@.next_object == 1u32,
            r@.commands == seq![
                GlCommandView::ClearColor(0u32, 0u32, 0u32),
                GlCommandView::Enable(GL_DEPTH_TEST),
                GlCommandView::DepthFunc(GL_LEQUAL),
                GlCommandView::Disable(GL_BLEND),
                GlCommandView::BlendEquation(GL_FUNC_ADD),
                GlCommandView::BlendFunc(GL_SRC_ALPHA, GL_ONE_MINUS_SRC_ALPHA),
                GlCommandView::Enable(GL_CULL_FACE),
                GlCommandView::CullFace(GL_BACK),
                GlCommandView::PixelStore(GL_UNPACK_ALIGNMENT, 1i32),
            ],
    {
        let mut commands: Vec<GlCommand> = Vec::new();
        commands.push(GlCommand::ClearColor(0, 0, 0));
        commands.push(GlCommand::Enable(GL_DEPTH_TEST));
        commands.push(GlCommand::DepthFunc(GL_LEQUAL));
        commands.push(GlCommand::Disable(GL_BLEND));
        commands.push(GlCommand::BlendEquation(GL_FUNC_ADD));
        commands.push(GlCommand::BlendFunc(GL_SRC_ALPHA, GL_ONE_MINUS_SRC_ALPHA));
        commands.push(GlCommand::Enable(GL_CULL_FACE));
        commands.push(GlCommand::CullFace(GL_BACK));
        commands.push(GlCommand::PixelStore(GL_UNPACK_ALIGNMENT, 1));
        proof {
            assert(commands@.map_values(|c: GlCommand| c@) =~= seq![
                GlCommandView::ClearColor(0u32, 0u32, 0u32),
                GlCommandView::Enable(GL_DEPTH_TEST),
                GlCommandView::DepthFunc(GL_LEQUAL),
                GlCommandView::Disable(GL_BLEND),
                GlCommandView::BlendEquation(GL_FUNC_ADD),
                GlCommandView::BlendFunc(GL_SRC_ALPHA, GL_ONE_MINUS_SRC_ALPHA),
                GlCommandView::Enable(GL_CULL_FACE),
                GlCommandView::CullFace(GL_BACK),
                GlCommandView::PixelStore(GL_UNPACK_ALIGNMENT, 1i32),
            ]);
        }
        let r = Gl {
            window_dims: (0, 0),
            glsl_vertex_header: glsl_vertex_header.to_owned(),
            glsl_fragment_header: glsl_fragment_header.to_owned(),
            shader_id: 0,
            viewport: (-1, -1),
            clear_color: (0, 0, 0),
            attributes: Vec::new(),
            pipeline: PipelineInfo { depth_test: true, alpha_blend: false, face_cull: true },
            next_object: 1,
            commands,
        };
        proof {
            assert(r@.attributes =~= Seq::<Seq<char>>::empty());
        }
        r
    }

    /// Set the viewport, skipping the driver call when the cached dimensions
    /// already match.
    pub fn viewport(&mut self, width: i32, height: i32)
        ensures
            final(self)@ == old(self)@.spec_viewport(width, height),
    {
        if self.viewport.0 != width || self.viewport.1 != height {
            self.commands.push(GlCommand::Viewport(width, height));
            self.viewport = (width, height);
        }
        proof {
            assert(final(self)@ =~= old(self)@.spec_viewport(width, height));
        }
    }

    /// Append one command to the log.
    pub(crate) fn push_cmd(&mut self, c: GlCommand)
        ensures
            final(self)@ == (GlView { commands: old(self)@.commands.push(c@), ..old(self)@ }),
    {
        let ghost cv = c@;
        self.commands.push(c);
        proof {
            assert(final(self)@ =~= (GlView {
                commands: old(self)@.commands.push(cv),
                ..old(self)@
            }));
        }
    }

    /// Allocate a fresh GPU object id.
    pub(crate) fn alloc_object(&mut self) -> (r: u32)
        requires
            old(self)@.next_object < u32::MAX,
        ensures
            r == old(self)@.next_object,
            final(self)@ == (GlView { next_object: (old(self)@.next_object + 1) as u32, ..old(self)@ }),
    {
        let r = self.next_object;
        self.next_object = self.next_object + 1;
        proof {
            assert(final(self)@ =~= (GlView {
                next_object: (old(self)@.next_object + 1) as u32,
                ..old(self)@
            }));
        }
        r
    }

    /// The number of attribute names the slot table holds.
    pub fn attribute_count(&self) -> (r: usize)
        ensures
            r == self@.attributes.len(),
    {
        self.attributes.len()
    }

    /// The slot bound to `name`, when the table has seen the name.
    pub fn attribute_slot(&self, name: &str) -> (r: Option<u32>)
        requires
            self@.attributes.len() <= u32::MAX,
        ensures
            match r {
                Some(slot) => slot_of(self@.attributes, name@) == Some(slot as int),
                None => slot_of(self@.attributes, name@) is None,
            },
    {
        let owned = name.to_owned();
        let n = self.attributes.len();
        let mut i: usize = 0;
        while i < n
            invariant
                n == self.attributes.len(),
                self@.attributes.len() <= u32::MAX,
                0 <= i <= n,
                forall|j: int| 0 <= j < i ==> self@.attributes[j] != name@,
                owned@ == name@,
            decreases n - i,
        {
            if self.attributes[i] == owned {
                proof {
                    lemma_slot_of_found(self@.attributes, name@, i as int);
                }
                return Some(i as u32);
            }
            i = i + 1;
        }
        proof {
            lemma_slot_of_none(self@.attributes, name@);
        }
        None
    }

    /// Resolve the stable global slot for an attribute name, allocating the
    /// next unused slot the first time the name is seen.
    pub(crate) fn attribute_location(&mut self, name: &str) -> (r: u32)
        requires
            old(self)@.attributes.len() < u32::MAX,
        ensures
            r == slot_after_insert(old(self)@.attributes, name@),
            final(self)@ == (GlView {
                attributes: table_insert(old(self)@.attributes, name@),
                ..old(self)@
            }),
    {
        let found = self.attribute_slot(name);
        match found {
            Some(slot) => {
                proof {
                    assert(final(self)@ =~= (GlView {
                        attributes: table_insert(old(self)@.attributes, name@),
                        ..old(self)@
                    }));
                }
                slot
            },
            None => {
                let slot = self.attributes.len() as u32;
                self.attributes.push(name.to_owned());
                proof {
                    assert(self@.attributes =~= old(self)@.attributes.push(name@));
                    assert(final(self)@ =~= (GlView {
                        attributes: table_insert(old(self)@.attributes, name@),
                        ..old(self)@
                    }));
                }
                slot
            },
        }
    }
}

} // verus!
