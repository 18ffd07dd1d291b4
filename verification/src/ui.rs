//! The vertex layout of the built-in UI renderer: a screen position, glyph
//! texture coordinates and a color per vertex.  Channels are IEEE 754 bit
//! patterns as `u32`, like everything float-valued in this library; the
//! renderer around the library converts.

use vstd::prelude::*;

verus! {

use crate::gl::buffer::AttributesReprCpacked;
use crate::gl::buffer::BufferType;
use crate::gl::buffer::decls_view;
use crate::gl::buffer::spec_stride;
use crate::gl::buffer::u32_le;
use crate::gl::buffer::push_u32_le;
use crate::resource::model::BuildFromGltf;
use crate::resource::model::VertexData;

/// One UI vertex: position (`vec2`), glyph coordinates (`vec2`), color
/// (`vec4`), each channel an `f32` bit pattern.
#[derive(Debug, Clone, Copy, PartialEq)]
pub struct Vertex {
    pub pos: (u32, u32),
    pub coords: (u32, u32),
    pub color: (u32, u32, u32, u32),
}

/// The byte stride of one UI vertex: two floats of position, two of
/// texture coordinates, four of color.
pub proof fn lemma_vertex_stride()
    ensures
        spec_stride(Vertex::spec_attributes()) == 32,
{
    let a = Vertex::spec_attributes();
    let s2 = seq![
        (BufferType::Float { size: 2 }, "in_pos"@),
        (BufferType::Float { size: 2 }, "in_coords"@),
    ];
    let s1 = seq![(BufferType::Float { size: 2 }, "in_pos"@)];
    assert(a.drop_last() =~= s2);
    assert(s2.drop_last() =~= s1);
    assert(s1.drop_last() =~= Seq::<(BufferType, Seq<char>)>::empty());
    assert(spec_stride(Seq::<(BufferType, Seq<char>)>::empty()) == 0);
    assert(spec_stride(s1) == 8);
    assert(spec_stride(s2) == 16);
}

impl AttributesReprCpacked for Vertex {
    open spec fn spec_attributes() -> Seq<(BufferType, Seq<char>)> {
        seq![
            (BufferType::Float { size: 2 }, "in_pos"@),
            (BufferType::Float { size: 2 }, "in_coords"@),
            (BufferType::Float { size: 4 }, "in_color"@),
        ]
    }

    open spec fn spec_bytes(&self) -> Seq<u8> {
        u32_le(self.pos.0) + u32_le(self.pos.1) + u32_le(self.coords.0) + u32_le(self.coords.1)
            + u32_le(self.color.0) + u32_le(self.color.1) + u32_le(self.color.2) + u32_le(
            self.color.3,
        )
    }

    proof fn lemma_bytes_len(&self) {
        lemma_vertex_stride();
    }

    fn attributes() -> (r: Vec<(BufferType, String)>) {
        let mut v: Vec<(BufferType, String)> = Vec::new();
        v.push((BufferType::Float { size: 2 }, "in_pos".to_owned()));
        v.push((BufferType::Float { size: 2 }, "in_coords".to_owned()));
        v.push((BufferType::Float { size: 4 }, "in_color".to_owned()));
        proof {
            assert(decls_view(v@) =~= Self::spec_attributes());
        }
        v
    }

    fn to_bytes(&self) -> (r: Vec<u8>) {
        let mut out: Vec<u8> = Vec::new();
        push_u32_le(&mut out, self.pos.0);
        push_u32_le(&mut out, self.pos.1);
        push_u32_le(&mut out, self.coords.0);
        push_u32_le(&mut out, self.coords.1);
        push_u32_le(&mut out, self.color.0);
        push_u32_le(&mut out, self.color.1);
        push_u32_le(&mut out, self.color.2);
        push_u32_le(&mut out, self.color.3);
        proof {
            assert(out@ =~= self.spec_bytes());
        }
        out
    }
}

/// The bit pattern of `1.0f32`, used as the alpha of a mesh-built color.
pub const OPAQUE_ALPHA_BITS: u32 = 0x3F800000;

impl BuildFromGltf for Vertex {
    open spec fn spec_build(data: VertexData) -> Self {
        Vertex {
            pos: (data.position.0, data.position.1),
            coords: data.tex_coord,
            color: (data.color.0, data.color.1, data.color.2, OPAQUE_ALPHA_BITS),
        }
    }

    fn build(data: VertexData) -> (r: Self) {
        Vertex {
            pos: (data.position.0, data.position.1),
            coords: data.tex_coord,
            color: (data.color.0, data.color.1, data.color.2, OPAQUE_ALPHA_BITS),
        }
    }
}

} // verus!
