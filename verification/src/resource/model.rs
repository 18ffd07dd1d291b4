//! Mesh extraction: turning raw binary buffers into typed vertex and index
//! data, and uploading the result.
//!
//! A mesh file carries its geometry as byte buffers described by accessors:
//! an element of `elem_size` bytes every `stride` bytes, `count` times,
//! starting at `base`.  Walking those buffers, widening or narrowing the
//! indices, and assembling per-vertex records from up to five parallel
//! streams is this module's logic; parsing the file's structure (which
//! accessor lives where) is the document parser's work and stays outside the
//! library.  Float channels are handled as IEEE 754 bit patterns in `u32`,
//! read little-endian as the file format stores them.

use vstd::prelude::*;

verus! {

use crate::gl::Gl;
use crate::gl::GlView;
use crate::gl::buffer::AttributesReprCpacked;
use crate::gl::buffer::BufferAccess;
use crate::gl::buffer::IndexBuffer;
use crate::gl::buffer::VertexBuffer;
use crate::gl::buffer::spec_stride;
use crate::gl::buffer::bytes_of;
use crate::gl::buffer::index_bytes_of;
use crate::gl::GlCommandView;
use crate::gl::consts::GL_ARRAY_BUFFER;
use crate::gl::consts::GL_ELEMENT_ARRAY_BUFFER;
use crate::gl::consts::GL_STATIC_DRAW;

/// The 16-bit little-endian value at byte position `p`.
pub open spec fn u16_le_at(data: Seq<u8>, p: int) -> u16 {
    (data[p] + data[p + 1] * 0x100) as u16
}

/// The 32-bit little-endian value at byte position `p`.
pub open spec fn u32_le_at(data: Seq<u8>, p: int) -> u32 {
    (data[p] + data[p + 1] * 0x100 + data[p + 2] * 0x10000 + data[p + 3] * 0x1000000) as u32
}

/// The 16-bit indices one element yields: its bytes taken as consecutive
/// little-endian 16-bit values.
pub open spec fn elem_indices_u16(data: Seq<u8>, start: int, elem_size: int) -> Seq<u16> {
    Seq::new((elem_size / 2) as nat, |k: int| u16_le_at(data, start + 2 * k))
}

/// The 16-bit indices one element of 32-bit values yields: each value
/// truncated, as a narrowing cast does.
pub open spec fn elem_indices_u32(data: Seq<u8>, start: int, elem_size: int) -> Seq<u16> {
    Seq::new((elem_size / 4) as nat, |k: int| (u32_le_at(data, start + 4 * k) % 0x10000) as u16)
}

/// The float bit patterns one element yields: its bytes taken as
/// consecutive little-endian 32-bit values.
pub open spec fn elem_f32_bits(data: Seq<u8>, start: int, elem_size: int) -> Seq<u32> {
    Seq::new((elem_size / 4) as nat, |k: int| u32_le_at(data, start + 4 * k))
}

/// All indices an accessor of 16-bit values yields over `count` elements.
pub open spec fn spec_indices_u16(
    data: Seq<u8>,
    base: int,
    stride: int,
    elem_size: int,
    count: int,
) -> Seq<u16>
    decreases count,
{
    if count <= 0 {
        Seq::empty()
    } else {
        spec_indices_u16(data, base, stride, elem_size, count - 1) + elem_indices_u16(
            data,
            base + stride * (count - 1),
            elem_size,
        )
    }
}

/// All indices an accessor of 32-bit values yields over `count` elements.
pub open spec fn spec_indices_u32(
    data: Seq<u8>,
    base: int,
    stride: int,
    elem_size: int,
    count: int,
) -> Seq<u16>
    decreases count,
{
    if count <= 0 {
        Seq::empty()
    } else {
        spec_indices_u32(data, base, stride, elem_size, count - 1) + elem_indices_u32(
            data,
            base + stride * (count - 1),
            elem_size,
        )
    }
}

/// All float bit patterns an accessor yields over `count` elements.
pub open spec fn spec_f32_bits(
    data: Seq<u8>,
    base: int,
    stride: int,
    elem_size: int,
    count: int,
) -> Seq<u32>
    decreases count,
{
    if count <= 0 {
        Seq::empty()
    } else {
        spec_f32_bits(data, base, stride, elem_size, count - 1) + elem_f32_bits(
            data,
            base + stride * (count - 1),
            elem_size,
        )
    }
}

/// Every element of the walk stays inside the buffer.
pub open spec fn accessor_in_bounds(
    data_len: int,
    base: int,
    stride: int,
    elem_size: int,
    count: int,
) -> bool {
    count > 0 ==> base + stride * (count - 1) + elem_size <= data_len
}

/// Earlier elements of the walk start no later than the last one.
proof fn lemma_walk_monotone(base: int, stride: int, i: int, count: int)
    requires
        stride >= 0,
        0 <= i < count,
    ensures
        base + stride * i <= base + stride * (count - 1),
{
    assert(stride * i <= stride * (count - 1)) by (nonlinear_arith)
        requires
            stride >= 0,
            i <= count - 1,
    ;
}

/// Read a 16-bit little-endian value from a byte slice.
pub fn read_u16_le(data: &[u8], p: usize) -> (r: u16)
    requires
        p + 2 <= data@.len(),
    ensures
        r == u16_le_at(data@, p as int),
{
    let lo = data[p];
    let hi = data[p + 1];
    lo as u16 + (hi as u16) * 0x100
}

/// Read a 32-bit little-endian value from a byte slice.
pub fn read_u32_le(data: &[u8], p: usize) -> (r: u32)
    requires
        p + 4 <= data@.len(),
    ensures
        r == u32_le_at(data@, p as int),
{
    let b0 = data[p];
    let b1 = data[p + 1];
    let b2 = data[p + 2];
    let b3 = data[p + 3];
    b0 as u32 + (b1 as u32) * 0x100 + (b2 as u32) * 0x10000 + (b3 as u32) * 0x1000000
}

/// Extract 16-bit indices from an accessor of 16-bit values.
pub fn extract_indices_u16(
    data: &[u8],
    base: usize,
    stride: usize,
    elem_size: usize,
    count: usize,
) -> (r: Vec<u16>)
    requires
        accessor_in_bounds(data@.len() as int, base as int, stride as int, elem_size as int, count as int),
    ensures
        r@ == spec_indices_u16(data@, base as int, stride as int, elem_size as int, count as int),
{
    let dlen: usize = data.len();
    let mut out: Vec<u16> = Vec::new();
    let mut i: usize = 0;
    while i < count
        invariant
            accessor_in_bounds(
                data@.len() as int,
                base as int,
                stride as int,
                elem_size as int,
                count as int,
            ),
            dlen == data@.len(),
            0 <= i <= count,
            out@ == spec_indices_u16(data@, base as int, stride as int, elem_size as int, i as int),
        decreases count - i,
    {
        proof {
            lemma_walk_monotone(base as int, stride as int, i as int, count as int);
        }
        let start = base + stride * i;
        let m = elem_size / 2;
        let mut k: usize = 0;
        while k < m
            invariant
                accessor_in_bounds(
                    data@.len() as int,
                    base as int,
                    stride as int,
                    elem_size as int,
                    count as int,
                ),
                dlen == data@.len(),
                0 <= i < count,
                start == base + stride * i,
                start + elem_size <= data@.len(),
                m == elem_size as int / 2,
                0 <= k <= m,
                out@ == spec_indices_u16(
                    data@,
                    base as int,
                    stride as int,
                    elem_size as int,
                    i as int,
                ) + elem_indices_u16(data@, start as int, elem_size as int).take(k as int),
            decreases m - k,
        {
            let v = read_u16_le(data, start + 2 * k);
            out.push(v);
            proof {
                assert(elem_indices_u16(data@, start as int, elem_size as int).take(k as int + 1)
                    =~= elem_indices_u16(data@, start as int, elem_size as int).take(k as int).push(
                    u16_le_at(data@, start as int + 2 * (k as int)),
                ));
            }
            k = k + 1;
        }
        proof {
            assert(elem_indices_u16(data@, start as int, elem_size as int).take(m as int)
                =~= elem_indices_u16(data@, start as int, elem_size as int));
        }
        i = i + 1;
    }
    out
}

/// Extract 16-bit indices from an accessor of 32-bit values, truncating
/// each to its low 16 bits.
pub fn extract_indices_u32(
    data: &[u8],
    base: usize,
    stride: usize,
    elem_size: usize,
    count: usize,
) -> (r: Vec<u16>)
    requires
        accessor_in_bounds(data@.len() as int, base as int, stride as int, elem_size as int, count as int),
    ensures
        r@ == spec_indices_u32(data@, base as int, stride as int, elem_size as int, count as int),
{
    let dlen: usize = data.len();
    let mut out: Vec<u16> = Vec::new();
    let mut i: usize = 0;
    while i < count
        invariant
            accessor_in_bounds(
                data@.len() as int,
                base as int,
                stride as int,
                elem_size as int,
                count as int,
            ),
            dlen == data@.len(),
            0 <= i <= count,
            out@ == spec_indices_u32(data@, base as int, stride as int, elem_size as int, i as int),
        decreases count - i,
    {
        proof {
            lemma_walk_monotone(base as int, stride as int, i as int, count as int);
        }
        let start = base + stride * i;
        let m = elem_size / 4;
        let mut k: usize = 0;
        while k < m
            invariant
                accessor_in_bounds(
                    data@.len() as int,
                    base as int,
                    stride as int,
                    elem_size as int,
                    count as int,
                ),
                dlen == data@.len(),
                0 <= i < count,
                start == base + stride * i,
                start + elem_size <= data@.len(),
                m == elem_size as int / 4,
                0 <= k <= m,
                out@ == spec_indices_u32(
                    data@,
                    base as int,
                    stride as int,
                    elem_size as int,
                    i as int,
                ) + elem_indices_u32(data@, start as int, elem_size as int).take(k as int),
            decreases m - k,
        {
            let v = read_u32_le(data, start + 4 * k);
            out.push(v as u16);
            proof {
                assert(v as u16 == (v % 0x10000) as u16) by (bit_vector);
                assert(v as u16 == (u32_le_at(data@, start as int + 4 * (k as int)) % 0x10000)
                    as u16);
                assert(elem_indices_u32(data@, start as int, elem_size as int).take(k as int + 1)
                    =~= elem_indices_u32(data@, start as int, elem_size as int).take(k as int).push(
                    (u32_le_at(data@, start as int + 4 * (k as int)) % 0x10000) as u16,
                ));
            }
            k = k + 1;
        }
        proof {
            assert(elem_indices_u32(data@, start as int, elem_size as int).take(m as int)
                =~= elem_indices_u32(data@, start as int, elem_size as int));
        }
        i = i + 1;
    }
    out
}

/// Extract float bit patterns from an accessor of 32-bit floats.
pub fn extract_f32_bits(
    data: &[u8],
    base: usize,
    stride: usize,
    elem_size: usize,
    count: usize,
) -> (r: Vec<u32>)
    requires
        accessor_in_bounds(data@.len() as int, base as int, stride as int, elem_size as int, count as int),
    ensures
        r@ == spec_f32_bits(data@, base as int, stride as int, elem_size as int, count as int),
{
    let dlen: usize = data.len();
    let mut out: Vec<u32> = Vec::new();
    let mut i: usize = 0;
    while i < count
        invariant
            accessor_in_bounds(
                data@.len() as int,
                base as int,
                stride as int,
                elem_size as int,
                count as int,
            ),
            dlen == data@.len(),
            0 <= i <= count,
            out@ == spec_f32_bits(data@, base as int, stride as int, elem_size as int, i as int),
        decreases count - i,
    {
        proof {
            lemma_walk_monotone(base as int, stride as int, i as int, count as int);
        }
        let start = base + stride * i;
        let m = elem_size / 4;
        let mut k: usize = 0;
        while k < m
            invariant
                accessor_in_bounds(
                    data@.len() as int,
                    base as int,
                    stride as int,
                    elem_size as int,
                    count as int,
                ),
                dlen == data@.len(),
                0 <= i < count,
                start == base + stride * i,
                start + elem_size <= data@.len(),
                m == elem_size as int / 4,
                0 <= k <= m,
                out@ == spec_f32_bits(
                    data@,
                    base as int,
                    stride as int,
                    elem_size as int,
                    i as int,
                ) + elem_f32_bits(data@, start as int, elem_size as int).take(k as int),
            decreases m - k,
        {
            let v = read_u32_le(data, start + 4 * k);
            out.push(v);
            proof {
                assert(elem_f32_bits(data@, start as int, elem_size as int).take(k as int + 1)
                    =~= elem_f32_bits(data@, start as int, elem_size as int).take(k as int).push(
                    u32_le_at(data@, start as int + 4 * (k as int)),
                ));
            }
            k = k + 1;
        }
        proof {
            assert(elem_f32_bits(data@, start as int, elem_size as int).take(m as int)
                =~= elem_f32_bits(data@, start as int, elem_size as int));
        }
        i = i + 1;
    }
    out
}

/// One assembled vertex record, with every float channel an IEEE 754 bit
/// pattern.  A stream that ran out contributes zeros (the bit pattern of
/// `0.0`); a color's fourth channel is dropped.
#[derive(Debug, Clone, Copy, PartialEq, Eq)]
pub struct VertexData {
    pub position: (u32, u32, u32),
    pub normal: (u32, u32, u32),
    pub tangent: (u32, u32, u32, u32),
    pub tex_coord: (u32, u32),
    pub color: (u32, u32, u32),
}

/// A vertex layout that can be built from an assembled mesh record.
pub trait BuildFromGltf: AttributesReprCpacked {
    /// What `build` constructs from a record.
    spec fn spec_build(data: VertexData) -> Self;

    fn build(data: VertexData) -> (r: Self)
        ensures
            r == Self::spec_build(data),
    ;
}

/// The larger of two values.
pub open spec fn spec_max(a: int, b: int) -> int {
    if a >= b {
        a
    } else {
        b
    }
}

/// How many vertices the five streams assemble to: enough for the longest
/// stream, counted in complete records.
pub open spec fn spec_vertex_count(p: int, n: int, t: int, tc: int, c: int) -> int {
    spec_max(spec_max(spec_max(spec_max(p / 3, n / 3), t / 4), tc / 2), c / 4)
}

/// The record vertex `i` assembles to: each stream contributes its `i`-th
/// complete chunk, or zeros once it has run out.
pub open spec fn spec_vertex_at(
    ps: Seq<u32>,
    ns: Seq<u32>,
    ts: Seq<u32>,
    tcs: Seq<u32>,
    cs: Seq<u32>,
    i: int,
) -> VertexData {
    VertexData {
        position: if i < ps.len() / 3 {
            (ps[3 * i], ps[3 * i + 1], ps[3 * i + 2])
        } else {
            (0, 0, 0)
        },
        normal: if i < ns.len() / 3 {
            (ns[3 * i], ns[3 * i + 1], ns[3 * i + 2])
        } else {
            (0, 0, 0)
        },
        tangent: if i < ts.len() / 4 {
            (ts[4 * i], ts[4 * i + 1], ts[4 * i + 2], ts[4 * i + 3])
        } else {
            (0, 0, 0, 0)
        },
        tex_coord: if i < tcs.len() / 2 {
            (tcs[2 * i], tcs[2 * i + 1])
        } else {
            (0, 0)
        },
        color: if i < cs.len() / 4 {
            (cs[4 * i], cs[4 * i + 1], cs[4 * i + 2])
        } else {
            (0, 0, 0)
        },
    }
}

/// Assemble vertex records from the five attribute streams.
pub fn assemble_vertices(
    positions: &[u32],
    normals: &[u32],
    tangents: &[u32],
    tex_coords: &[u32],
    colors: &[u32],
) -> (r: Vec<VertexData>)
    ensures
        r@ == Seq::new(
            spec_vertex_count(
                positions@.len() as int,
                normals@.len() as int,
                tangents@.len() as int,
                tex_coords@.len() as int,
                colors@.len() as int,
            ) as nat,
            |i: int| spec_vertex_at(positions@, normals@, tangents@, tex_coords@, colors@, i),
        ),
{
    let np = positions.len() / 3;
    let nn = normals.len() / 3;
    let nt = tangents.len() / 4;
    let ntc = tex_coords.len() / 2;
    let nc = colors.len() / 4;
    let mut count = np;
    if nn > count {
        count = nn;
    }
    if nt > count {
        count = nt;
    }
    if ntc > count {
        count = ntc;
    }
    if nc > count {
        count = nc;
    }
    let ghost total = spec_vertex_count(
        positions@.len() as int,
        normals@.len() as int,
        tangents@.len() as int,
        tex_coords@.len() as int,
        colors@.len() as int,
    );
    let mut out: Vec<VertexData> = Vec::new();
    let mut i: usize = 0;
    while i < count
        invariant
            positions@.len() <= usize::MAX,
            normals@.len() <= usize::MAX,
            tangents@.len() <= usize::MAX,
            tex_coords@.len() <= usize::MAX,
            colors@.len() <= usize::MAX,
            np == positions@.len() as int / 3,
            nn == normals@.len() as int / 3,
            nt == tangents@.len() as int / 4,
            ntc == tex_coords@.len() as int / 2,
            nc == colors@.len() as int / 4,
            count == total,
            0 <= i <= count,
            out@ == Seq::new(i as nat, |j: int| spec_vertex_at(
                positions@,
                normals@,
                tangents@,
                tex_coords@,
                colors@,
                j,
            )),
        decreases count - i,
    {
        let position = if i < np {
            (positions[3 * i], positions[3 * i + 1], positions[3 * i + 2])
        } else {
            (0, 0, 0)
        };
        let normal = if i < nn {
            (normals[3 * i], normals[3 * i + 1], normals[3 * i + 2])
        } else {
            (0, 0, 0)
        };
        let tangent = if i < nt {
            (tangents[4 * i], tangents[4 * i + 1], tangents[4 * i + 2], tangents[4 * i + 3])
        } else {
            (0, 0, 0, 0)
        };
        let tex_coord = if i < ntc {
            (tex_coords[2 * i], tex_coords[2 * i + 1])
        } else {
            (0, 0)
        };
        let color = if i < nc {
            (colors[4 * i], colors[4 * i + 1], colors[4 * i + 2])
        } else {
            (0, 0, 0)
        };
        out.push(VertexData { position, normal, tangent, tex_coord, color });
        proof {
            assert(out@ =~= Seq::new(i as nat + 1, |j: int| spec_vertex_at(
                positions@,
                normals@,
                tangents@,
                tex_coords@,
                colors@,
                j,
            )));
        }
        i = i + 1;
    }
    out
}

/// Build typed vertices from assembled records.
pub fn build_vertices<V: BuildFromGltf>(data: &Vec<VertexData>) -> (r: Vec<V>)
    ensures
        r@ == data@.map_values(|d: VertexData| V::spec_build(d)),
{
    let mut out: Vec<V> = Vec::new();
    let mut i: usize = 0;
    while i < data.len()
        invariant
            0 <= i <= data@.len(),
            out@ == data@.take(i as int).map_values(|d: VertexData| V::spec_build(d)),
        decreases data@.len() - i,
    {
        out.push(V::build(data[i]));
        proof {
            assert(out@ =~= data@.take(i as int + 1).map_values(
                |d: VertexData| V::spec_build(d),
            ));
        }
        i = i + 1;
    }
    proof {
        assert(data@.take(data@.len() as int) =~= data@);
    }
    out
}

/// A mesh uploaded to the GPU: its vertex buffer and its index buffer.
pub struct Model<V: BuildFromGltf> {
    pub vertices: VertexBuffer<V>,
    pub indices: IndexBuffer,
}

impl Gl {
    /// Upload a mesh: allocate a vertex and an index buffer of exactly the
    /// data's lengths and fill both from the start.
    pub fn new_model<V: BuildFromGltf>(&mut self, vertices: &Vec<V>, indices: &Vec<u16>) -> (r:
        Model<V>)
        requires
            old(self)@.next_object + 2 <= u32::MAX,
            vertices@.len() <= u32::MAX,
            indices@.len() <= u32::MAX,
            spec_stride(V::spec_attributes()) <= u32::MAX,
            vertices@.len() * spec_stride(V::spec_attributes()) <= i32::MAX,
            indices@.len() * 2 <= i32::MAX,
        ensures
            r.vertices.wf(),
            r.vertices.length == vertices@.len(),
            r.vertices.buffer == old(self)@.next_object,
            r.indices.length == indices@.len(),
            r.indices.buffer == old(self)@.next_object + 1,
            final(self)@ == (GlView {
                next_object: (old(self)@.next_object + 2) as u32,
                commands: old(self)@.commands + seq![
                    GlCommandView::CreateBuffer(old(self)@.next_object),
                    GlCommandView::BindArrayBuffer(Some(old(self)@.next_object)),
                    GlCommandView::BufferDataSize(
                        GL_ARRAY_BUFFER,
                        (vertices@.len() * spec_stride(V::spec_attributes())) as i32,
                        GL_STATIC_DRAW,
                    ),
                    GlCommandView::BindArrayBuffer(None),
                    GlCommandView::CreateBuffer((old(self)@.next_object + 1) as u32),
                    GlCommandView::BindElementBuffer(Some((old(self)@.next_object + 1) as u32)),
                    GlCommandView::BufferDataSize(
                        GL_ELEMENT_ARRAY_BUFFER,
                        (indices@.len() * 2) as i32,
                        GL_STATIC_DRAW,
                    ),
                    GlCommandView::BindElementBuffer(None),
                    GlCommandView::BindArrayBuffer(Some(old(self)@.next_object)),
                    GlCommandView::BufferSubData(GL_ARRAY_BUFFER, 0, bytes_of::<V>(vertices@)),
                    GlCommandView::BindArrayBuffer(None),
                    GlCommandView::BindElementBuffer(Some((old(self)@.next_object + 1) as u32)),
                    GlCommandView::BufferSubData(
                        GL_ELEMENT_ARRAY_BUFFER,
                        0,
                        index_bytes_of(indices@),
                    ),
                    GlCommandView::BindElementBuffer(None),
                ],
                ..old(self)@
            }),
    {
        let vb = self.new_vertex_buffer::<V>(vertices.len() as u32, BufferAccess::Static);
        let ib = self.new_index_buffer(indices.len() as u32, BufferAccess::Static);
        let mut vb = vb;
        let mut ib = ib;
        vb.data(self, 0, vertices.as_slice());
        ib.data(self, 0, indices.as_slice());
        proof {
            assert(final(self)@ =~= (GlView {
                next_object: (old(self)@.next_object + 2) as u32,
                commands: old(self)@.commands + seq![
                    GlCommandView::CreateBuffer(old(self)@.next_object),
                    GlCommandView::BindArrayBuffer(Some(old(self)@.next_object)),
                    GlCommandView::BufferDataSize(
                        GL_ARRAY_BUFFER,
                        (vertices@.len() * spec_stride(V::spec_attributes())) as i32,
                        GL_STATIC_DRAW,
                    ),
                    GlCommandView::BindArrayBuffer(None),
                    GlCommandView::CreateBuffer((old(self)@.next_object + 1) as u32),
                    GlCommandView::BindElementBuffer(Some((old(self)@.next_object + 1) as u32)),
                    GlCommandView::BufferDataSize(
                        GL_ELEMENT_ARRAY_BUFFER,
                        (indices@.len() * 2) as i32,
                        GL_STATIC_DRAW,
                    ),
                    GlCommandView::BindElementBuffer(None),
                    GlCommandView::BindArrayBuffer(Some(old(self)@.next_object)),
                    GlCommandView::BufferSubData(GL_ARRAY_BUFFER, 0, bytes_of::<V>(vertices@)),
                    GlCommandView::BindArrayBuffer(None),
                    GlCommandView::BindElementBuffer(Some((old(self)@.next_object + 1) as u32)),
                    GlCommandView::BufferSubData(
                        GL_ELEMENT_ARRAY_BUFFER,
                        0,
                        index_bytes_of(indices@),
                    ),
                    GlCommandView::BindElementBuffer(None),
                ],
                ..old(self)@
            }));
        }
        Model { vertices: vb, indices: ib }
    }
}

} // verus!
