//! Vertex and index buffers, and the static description of a vertex layout.

use vstd::prelude::*;
use std::marker::PhantomData;

verus! {

use crate::gl::Gl;
use crate::gl::GlView;
use crate::gl::GlCommand;
use crate::gl::GlCommandView;
use crate::gl::consts::GL_ARRAY_BUFFER;
use crate::gl::consts::GL_ELEMENT_ARRAY_BUFFER;
use crate::gl::consts::GL_STATIC_DRAW;
use crate::gl::consts::GL_STREAM_DRAW;
use crate::gl::consts::GL_DYNAMIC_DRAW;
use crate::gl::consts::GL_FLOAT;
use crate::gl::consts::GL_FLOAT_VEC2;
use crate::gl::consts::GL_FLOAT_VEC3;
use crate::gl::consts::GL_FLOAT_VEC4;
use crate::gl::consts::GL_INT;
use crate::gl::consts::GL_INT_VEC2;
use crate::gl::consts::GL_INT_VEC3;
use crate::gl::consts::GL_INT_VEC4;
use crate::gl::consts::GL_UNSIGNED_INT;
use crate::gl::consts::GL_UNSIGNED_INT_VEC2;
use crate::gl::consts::GL_UNSIGNED_INT_VEC3;
use crate::gl::consts::GL_UNSIGNED_INT_VEC4;

/// The GLSL-level type of one vertex attribute: a float or integer vector of
/// 1 to 4 components.
#[derive(Debug, Clone, Copy, PartialEq, Eq, Structural)]
pub enum BufferType {
    Float { size: u8 },
    Int { signed: bool, size: u8 },
}

impl BufferType {
    /// A component count the GL type system knows.
    pub open spec fn is_valid(self) -> bool {
        match self {
            BufferType::Float { size } => 1 <= size <= 4,
            BufferType::Int { signed: _, size } => 1 <= size <= 4,
        }
    }

    /// The GL enumerant the driver reports for an attribute of this type.
    pub open spec fn spec_code(self) -> u32 {
        match self {
            BufferType::Float { size } => {
                if size == 1 { GL_FLOAT }
                else if size == 2 { GL_FLOAT_VEC2 }
                else if size == 3 { GL_FLOAT_VEC3 }
                else { GL_FLOAT_VEC4 }
            },
            BufferType::Int { signed: true, size } => {
                if size == 1 { GL_INT }
                else if size == 2 { GL_INT_VEC2 }
                else if size == 3 { GL_INT_VEC3 }
                else { GL_INT_VEC4 }
            },
            BufferType::Int { signed: false, size } => {
                if size == 1 { GL_UNSIGNED_INT }
                else if size == 2 { GL_UNSIGNED_INT_VEC2 }
                else if size == 3 { GL_UNSIGNED_INT_VEC3 }
                else { GL_UNSIGNED_INT_VEC4 }
            },
        }
    }

    pub fn code(&self) -> (r: u32)
        requires
            self.is_valid(),
        ensures
            r == self.spec_code(),
    {
        match self {
            BufferType::Float { size } => {
                if *size == 1 { GL_FLOAT }
                else if *size == 2 { GL_FLOAT_VEC2 }
                else if *size == 3 { GL_FLOAT_VEC3 }
                else { GL_FLOAT_VEC4 }
            },
            BufferType::Int { signed: true, size } => {
                if *size == 1 { GL_INT }
                else if *size == 2 { GL_INT_VEC2 }
                else if *size == 3 { GL_INT_VEC3 }
                else { GL_INT_VEC4 }
            },
            BufferType::Int { signed: false, size } => {
                if *size == 1 { GL_UNSIGNED_INT }
                else if *size == 2 { GL_UNSIGNED_INT_VEC2 }
                else if *size == 3 { GL_UNSIGNED_INT_VEC3 }
                else { GL_UNSIGNED_INT_VEC4 }
            },
        }
    }

    /// How many bytes one attribute of this type occupies in a vertex: four
    /// per component.
    pub open spec fn spec_byte_size(self) -> int {
        match self {
            BufferType::Float { size } => 4 * size,
            BufferType::Int { signed: _, size } => 4 * size,
        }
    }

    pub fn byte_size(&self) -> (r: u32)
        ensures
            r == self.spec_byte_size(),
    {
        match self {
            BufferType::Float { size } => 4 * (*size as u32),
            BufferType::Int { signed: _, size } => 4 * (*size as u32),
        }
    }
}

/// How often the caller expects to rewrite a buffer; mapped to the GL usage
/// hints.
#[derive(Debug, Clone, Copy, PartialEq, Eq, Structural)]
pub enum BufferAccess {
    Static,
    Stream,
    Dynamic,
}

impl BufferAccess {
    /// The GL usage-hint enumerant.
    pub open spec fn spec_code(self) -> u32 {
        match self {
            BufferAccess::Static => GL_STATIC_DRAW,
            BufferAccess::Stream => GL_STREAM_DRAW,
            BufferAccess::Dynamic => GL_DYNAMIC_DRAW,
        }
    }

    pub fn code(&self) -> (r: u32)
        ensures
            r == self.spec_code(),
    {
        match self {
            BufferAccess::Static => GL_STATIC_DRAW,
            BufferAccess::Stream => GL_STREAM_DRAW,
            BufferAccess::Dynamic => GL_DYNAMIC_DRAW,
        }
    }
}

/// The view of a declared attribute list: each entry is the attribute's type
/// and its shader name.
pub open spec fn decls_view(s: Seq<(BufferType, String)>) -> Seq<(BufferType, Seq<char>)> {
    s.map_values(|a: (BufferType, String)| (a.0, a.1@))
}

/// The byte stride of a vertex with the given attribute list: the sum of the
/// attributes' byte sizes.
pub open spec fn spec_stride(attrs: Seq<(BufferType, Seq<char>)>) -> int
    decreases attrs.len(),
{
    if attrs.len() == 0 {
        0
    } else {
        spec_stride(attrs.drop_last()) + attrs.last().0.spec_byte_size()
    }
}

/// A stride is never negative.
pub proof fn lemma_stride_nonneg(attrs: Seq<(BufferType, Seq<char>)>)
    ensures
        spec_stride(attrs) >= 0,
    decreases attrs.len(),
{
    if attrs.len() > 0 {
        lemma_stride_nonneg(attrs.drop_last());
    }
}

/// Taking one more attribute adds exactly its byte size.
pub proof fn lemma_stride_take_step(attrs: Seq<(BufferType, Seq<char>)>, i: int)
    requires
        0 <= i < attrs.len(),
    ensures
        spec_stride(attrs.take(i + 1)) == spec_stride(attrs.take(i)) + attrs[i].0.spec_byte_size(),
{
    assert(attrs.take(i + 1).drop_last() =~= attrs.take(i));
    assert(attrs.take(i + 1).last() == attrs[i]);
}

/// A prefix never strides farther than the whole list.
pub proof fn lemma_stride_prefix_le(attrs: Seq<(BufferType, Seq<char>)>, i: int)
    requires
        0 <= i <= attrs.len(),
    ensures
        0 <= spec_stride(attrs.take(i)) <= spec_stride(attrs),
    decreases attrs.len() - i,
{
    lemma_stride_nonneg(attrs.take(i));
    if i == attrs.len() {
        assert(attrs.take(i) =~= attrs);
    } else {
        lemma_stride_take_step(attrs, i);
        lemma_stride_prefix_le(attrs, i + 1);
    }
}

/// The static description of a vertex layout: a fixed list of attributes,
/// each with a type and the name it has in shader source, plus a byte
/// encoding of one vertex that lays the attributes out contiguously in
/// declaration order.
pub trait AttributesReprCpacked: Sized {
    /// The declared attribute list.
    spec fn spec_attributes() -> Seq<(BufferType, Seq<char>)>;

    /// The byte encoding of one vertex.
    spec fn spec_bytes(&self) -> Seq<u8>;

    /// Every vertex encodes to exactly one stride of bytes.
    proof fn lemma_bytes_len(&self)
        ensures
            self.spec_bytes().len() == spec_stride(Self::spec_attributes()),
    ;

    fn attributes() -> (r: Vec<(BufferType, String)>)
        ensures
            decls_view(r@) == Self::spec_attributes(),
    ;

    fn to_bytes(&self) -> (r: Vec<u8>)
        ensures
            r@ == self.spec_bytes(),
    ;
}

/// The four little-endian bytes of a 32-bit value.
pub open spec fn u32_le(x: u32) -> Seq<u8> {
    seq![
        (x & 0xff) as u8,
        ((x >> 8) & 0xff) as u8,
        ((x >> 16) & 0xff) as u8,
        ((x >> 24) & 0xff) as u8,
    ]
}

/// Append a 32-bit value to a byte vector, little-endian.
pub fn push_u32_le(out: &mut Vec<u8>, x: u32)
    ensures
        final(out)@ == old(out)@ + u32_le(x),
{
    out.push((x & 0xff) as u8);
    out.push(((x >> 8) & 0xff) as u8);
    out.push(((x >> 16) & 0xff) as u8);
    out.push(((x >> 24) & 0xff) as u8);
    proof {
        assert(final(out)@ =~= old(out)@ + u32_le(x));
    }
}

/// The concatenated byte encoding of a run of vertices.
pub open spec fn bytes_of<T: AttributesReprCpacked>(s: Seq<T>) -> Seq<u8>
    decreases s.len(),
{
    if s.len() == 0 {
        Seq::empty()
    } else {
        bytes_of(s.drop_last()) + s.last().spec_bytes()
    }
}

/// Encoding one more vertex appends exactly its bytes.
pub proof fn lemma_bytes_of_take_step<T: AttributesReprCpacked>(s: Seq<T>, i: int)
    requires
        0 <= i < s.len(),
    ensures
        bytes_of(s.take(i + 1)) == bytes_of(s.take(i)) + s[i].spec_bytes(),
{
    assert(s.take(i + 1).drop_last() =~= s.take(i));
    assert(s.take(i + 1).last() == s[i]);
}

/// An owned GPU array buffer sized for `length` vertices of layout `T`.
pub struct VertexBuffer<T: AttributesReprCpacked> {
    /// The id the command log uses for the underlying buffer object.
    pub buffer: u32,
    /// How many vertices the buffer holds room for.
    pub length: u32,
    /// The byte stride of one vertex; equal to `T`'s declared stride.
    pub stride: u32,
    pub _phantom: PhantomData<T>,
}

impl<T: AttributesReprCpacked> VertexBuffer<T> {
    /// The buffer's stride field agrees with `T`'s declared layout, and a
    /// full buffer of bytes stays addressable with the `i32` offsets the GL
    /// API takes.
    pub open spec fn wf(self) -> bool {
        &&& self.stride == spec_stride(T::spec_attributes())
        &&& self.length * self.stride <= i32::MAX
    }

    #[inline]
    pub fn len(&self) -> (r: u32)
        ensures
            r == self.length,
    {
        self.length
    }

    /// Whether a write of `count` vertices starting at `offset` stays inside
    /// the buffer.
    pub fn in_bounds(&self, offset: u32, count: usize) -> (r: bool)
        ensures
            r == (offset + count <= self.length),
    {
        count <= u32::MAX as usize - offset as usize
            && offset as usize + count <= self.length as usize
    }

    /// Upload `data` starting at vertex `offset`.  A write past the end of
    /// the buffer is a fatal contract violation, so the bound is a
    /// precondition here.
    #[inline]
    pub fn data(&mut self, gl: &mut Gl, offset: u32, data: &[T])
        requires
            old(self).wf(),
            offset + data@.len() <= old(self).length,
        ensures
            *final(self) == *old(self),
            final(gl)@ == (GlView {
                commands: old(gl)@.commands
                    + seq![
                        GlCommandView::BindArrayBuffer(Some(old(self).buffer)),
                        GlCommandView::BufferSubData(
                            GL_ARRAY_BUFFER,
                            (offset * old(self).stride) as i32,
                            bytes_of::<T>(data@),
                        ),
                        GlCommandView::BindArrayBuffer(None),
                    ],
                ..old(gl)@
            }),
    {
        proof {
            lemma_stride_nonneg(T::spec_attributes());
            assert(offset * self.stride <= self.length * self.stride) by (nonlinear_arith)
                requires
                    offset <= self.length,
                    self.stride >= 0,
            ;
        }
        let mut bytes: Vec<u8> = Vec::new();
        let mut i: usize = 0;
        while i < data.len()
            invariant
                i <= data@.len(),
                bytes@ == bytes_of(data@.take(i as int)),
            decreases data@.len() - i,
        {
            let mut v = data[i].to_bytes();
            proof {
                lemma_bytes_of_take_step(data@, i as int);
            }
            bytes.append(&mut v);
            i = i + 1;
        }
        proof {
            assert(data@.take(data@.len() as int) =~= data@);
        }
        gl.commands.push(GlCommand::BindArrayBuffer(Some(self.buffer)));
        gl.commands.push(GlCommand::BufferSubData(
            GL_ARRAY_BUFFER,
            (offset * self.stride) as i32,
            bytes,
        ));
        gl.commands.push(GlCommand::BindArrayBuffer(None));
        proof {
            assert(final(gl)@ =~= (GlView {
                commands: old(gl)@.commands
                    + seq![
                        GlCommandView::BindArrayBuffer(Some(old(self).buffer)),
                        GlCommandView::BufferSubData(
                            GL_ARRAY_BUFFER,
                            (offset * old(self).stride) as i32,
                            bytes_of::<T>(data@),
                        ),
                        GlCommandView::BindArrayBuffer(None),
                    ],
                ..old(gl)@
            }));
        }
    }
}

/// An owned GPU element buffer of 16-bit unsigned indices.
pub struct IndexBuffer {
    /// The id the command log uses for the underlying buffer object.
    pub buffer: u32,
    /// How many indices the buffer holds room for.
    pub length: u32,
}

/// The little-endian byte encoding of a run of 16-bit indices.
pub open spec fn index_bytes_of(s: Seq<u16>) -> Seq<u8>
    decreases s.len(),
{
    if s.len() == 0 {
        Seq::empty()
    } else {
        index_bytes_of(s.drop_last()) + seq![
            (s.last() & 0xff) as u8,
            (s.last() >> 8) as u8,
        ]
    }
}

/// Encoding one more index appends exactly its two bytes.
pub proof fn lemma_index_bytes_take_step(s: Seq<u16>, i: int)
    requires
        0 <= i < s.len(),
    ensures
        index_bytes_of(s.take(i + 1)) == index_bytes_of(s.take(i)) + seq![
            (s[i] & 0xff) as u8,
            (s[i] >> 8) as u8,
        ],
{
    assert(s.take(i + 1).drop_last() =~= s.take(i));
    assert(s.take(i + 1).last() == s[i]);
}

impl IndexBuffer {
    #[inline]
    pub fn len(&self) -> (r: u32)
        ensures
            r == self.length,
    {
        self.length
    }

    /// Whether a write of `count` indices starting at `offset` stays inside
    /// the buffer.
    pub fn in_bounds(&self, offset: u32, count: usize) -> (r: bool)
        ensures
            r == (offset + count <= self.length),
    {
        count <= u32::MAX as usize - offset as usize
            && offset as usize + count <= self.length as usize
    }

    /// Upload `data` starting at index `offset`.  A write past the end of
    /// the buffer is a fatal contract violation, so the bound is a
    /// precondition here.
    #[inline]
    pub fn data(&mut self, gl: &mut Gl, offset: u32, data: &[u16])
        requires
            old(self).length * 2 <= i32::MAX,
            offset + data@.len() <= old(self).length,
        ensures
            *final(self) == *old(self),
            final(gl)@ == (GlView {
                commands: old(gl)@.commands
                    + seq![
                        GlCommandView::BindElementBuffer(Some(old(self).buffer)),
                        GlCommandView::BufferSubData(
                            GL_ELEMENT_ARRAY_BUFFER,
                            (offset * 2) as i32,
                            index_bytes_of(data@),
                        ),
                        GlCommandView::BindElementBuffer(None),
                    ],
                ..old(gl)@
            }),
    {
        let mut bytes: Vec<u8> = Vec::new();
        let mut i: usize = 0;
        while i < data.len()
            invariant
                i <= data@.len(),
                bytes@ == index_bytes_of(data@.take(i as int)),
            decreases data@.len() - i,
        {
            let v = data[i];
            proof {
                lemma_index_bytes_take_step(data@, i as int);
            }
            bytes.push((v & 0xff) as u8);
            bytes.push((v >> 8) as u8);
            i = i + 1;
        }
        proof {
            assert(data@.take(data@.len() as int) =~= data@);
        }
        gl.commands.push(GlCommand::BindElementBuffer(Some(self.buffer)));
        gl.commands.push(GlCommand::BufferSubData(
            GL_ELEMENT_ARRAY_BUFFER,
            (offset * 2) as i32,
            bytes,
        ));
        gl.commands.push(GlCommand::BindElementBuffer(None));
        proof {
            assert(final(gl)@ =~= (GlView {
                commands: old(gl)@.commands
                    + seq![
                        GlCommandView::BindElementBuffer(Some(old(self).buffer)),
                        GlCommandView::BufferSubData(
                            GL_ELEMENT_ARRAY_BUFFER,
                            (offset * 2) as i32,
                            index_bytes_of(data@),
                        ),
                        GlCommandView::BindElementBuffer(None),
                    ],
                ..old(gl)@
            }));
        }
    }
}

impl Gl {
    /// Allocate a GPU array buffer for `length` vertices of layout `T`.
    pub fn new_vertex_buffer<T: AttributesReprCpacked>(
        &mut self,
        length: u32,
        access: BufferAccess,
    ) -> (r: VertexBuffer<T>)
        requires
            old(self)@.next_object < u32::MAX,
            spec_stride(T::spec_attributes()) <= u32::MAX,
            length * spec_stride(T::spec_attributes()) <= i32::MAX,
        ensures
            r.wf(),
            r.length == length,
            r.buffer == old(self)@.next_object,
            final(self)@ == (GlView {
                next_object: (old(self)@.next_object + 1) as u32,
                commands: old(self)@.commands + seq![
                    GlCommandView::CreateBuffer(old(self)@.next_object),
                    GlCommandView::BindArrayBuffer(Some(old(self)@.next_object)),
                    GlCommandView::BufferDataSize(
                        GL_ARRAY_BUFFER,
                        (length * spec_stride(T::spec_attributes())) as i32,
                        access.spec_code(),
                    ),
                    GlCommandView::BindArrayBuffer(None),
                ],
                ..old(self)@
            }),
    {
        let stride = compute_stride::<T>();
        let buffer = self.alloc_object();
        let byte_len: u64 = length as u64 * stride as u64;
        self.commands.push(GlCommand::CreateBuffer(buffer));
        self.commands.push(GlCommand::BindArrayBuffer(Some(buffer)));
        self.commands.push(GlCommand::BufferDataSize(GL_ARRAY_BUFFER, byte_len as i32, access.code()));
        self.commands.push(GlCommand::BindArrayBuffer(None));
        proof {
            lemma_stride_nonneg(T::spec_attributes());
            assert(final(self)@ =~= (GlView {
                next_object: (old(self)@.next_object + 1) as u32,
                commands: old(self)@.commands + seq![
                    GlCommandView::CreateBuffer(old(self)@.next_object),
                    GlCommandView::BindArrayBuffer(Some(old(self)@.next_object)),
                    GlCommandView::BufferDataSize(
                        GL_ARRAY_BUFFER,
                        (length * spec_stride(T::spec_attributes())) as i32,
                        access.spec_code(),
                    ),
                    GlCommandView::BindArrayBuffer(None),
                ],
                ..old(self)@
            }));
        }
        VertexBuffer { buffer, length, stride, _phantom: PhantomData }
    }

    /// Allocate a GPU element buffer for `length` 16-bit indices.
    pub fn new_index_buffer(&mut self, length: u32, access: BufferAccess) -> (r: IndexBuffer)
        requires
            old(self)@.next_object < u32::MAX,
            length * 2 <= i32::MAX,
        ensures
            r.length == length,
            r.buffer == old(self)@.next_object,
            final(self)@ == (GlView {
                next_object: (old(self)@.next_object + 1) as u32,
                commands: old(self)@.commands + seq![
                    GlCommandView::CreateBuffer(old(self)@.next_object),
                    GlCommandView::BindElementBuffer(Some(old(self)@.next_object)),
                    GlCommandView::BufferDataSize(
                        GL_ELEMENT_ARRAY_BUFFER,
                        (length * 2) as i32,
                        access.spec_code(),
                    ),
                    GlCommandView::BindElementBuffer(None),
                ],
                ..old(self)@
            }),
    {
        let buffer = self.alloc_object();
        let byte_len: u64 = length as u64 * 2;
        self.commands.push(GlCommand::CreateBuffer(buffer));
        self.commands.push(GlCommand::BindElementBuffer(Some(buffer)));
        self.commands.push(GlCommand::BufferDataSize(GL_ELEMENT_ARRAY_BUFFER, byte_len as i32, access.code()));
        self.commands.push(GlCommand::BindElementBuffer(None));
        proof {
            assert(final(self)@ =~= (GlView {
                next_object: (old(self)@.next_object + 1) as u32,
                commands: old(self)@.commands + seq![
                    GlCommandView::CreateBuffer(old(self)@.next_object),
                    GlCommandView::BindElementBuffer(Some(old(self)@.next_object)),
                    GlCommandView::BufferDataSize(
                        GL_ELEMENT_ARRAY_BUFFER,
                        (length * 2) as i32,
                        access.spec_code(),
                    ),
                    GlCommandView::BindElementBuffer(None),
                ],
                ..old(self)@
            }));
        }
        IndexBuffer { buffer, length }
    }
}

impl Gl {
    /// Release a vertex buffer's GPU object.  Resources do not delete
    /// themselves: the command log lives in the context, so release is an
    /// explicit call.
    pub fn delete_vertex_buffer<T: AttributesReprCpacked>(&mut self, buffer: VertexBuffer<T>)
        ensures
            final(self)@ == (GlView {
                commands: old(self)@.commands.push(GlCommandView::DeleteBuffer(buffer.buffer)),
                ..old(self)@
            }),
    {
        self.push_cmd(GlCommand::DeleteBuffer(buffer.buffer));
    }

    /// Release an index buffer's GPU object.
    pub fn delete_index_buffer(&mut self, buffer: IndexBuffer)
        ensures
            final(self)@ == (GlView {
                commands: old(self)@.commands.push(GlCommandView::DeleteBuffer(buffer.buffer)),
                ..old(self)@
            }),
    {
        self.push_cmd(GlCommand::DeleteBuffer(buffer.buffer));
    }
}

/// The declared byte stride of layout `T`, computed from its attribute list.
pub fn compute_stride<T: AttributesReprCpacked>() -> (r: u32)
    requires
        spec_stride(T::spec_attributes()) <= u32::MAX,
    ensures
        r == spec_stride(T::spec_attributes()),
{
    let attrs = T::attributes();
    let ghost view = T::spec_attributes();
    let mut sum: u32 = 0;
    let mut i: usize = 0;
    while i < attrs.len()
        invariant
            decls_view(attrs@) == view,
            view == T::spec_attributes(),
            spec_stride(view) <= u32::MAX,
            i <= attrs@.len(),
            sum == spec_stride(view.take(i as int)),
        decreases attrs@.len() - i,
    {
        let bs = attrs[i].0.byte_size();
        proof {
            assert(view[i as int].0 == attrs@[i as int].0);
            lemma_stride_take_step(view, i as int);
            lemma_stride_prefix_le(view, i as int + 1);
        }
        sum = sum + bs;
        i = i + 1;
    }
    proof {
        assert(view.take(attrs@.len() as int) =~= view);
    }
    sum
}

} // verus!
