//! Mesh extraction: accessor walking, index narrowing, vertex assembly,
//! and upload.

use gru_opengl::gl::consts::{GL_ARRAY_BUFFER, GL_ELEMENT_ARRAY_BUFFER};
use gru_opengl::gl::{Gl, GlCommand};
use gru_opengl::resource::model::{
    assemble_vertices, build_vertices, extract_f32_bits, extract_indices_u16,
    extract_indices_u32, read_u16_le, read_u32_le, VertexData,
};
use gru_opengl::ui::{Vertex, OPAQUE_ALPHA_BITS};

#[test]
fn little_endian_reads() {
    let data = [0x01u8, 0x02, 0x03, 0x04, 0x05];
    assert_eq!(read_u16_le(&data, 0), 0x0201);
    assert_eq!(read_u16_le(&data, 3), 0x0504);
    assert_eq!(read_u32_le(&data, 1), 0x05040302);
}

#[test]
fn extracts_u16_indices_with_stride() {
    // Two-byte elements every four bytes, starting at byte 1.
    let data = [0xFFu8, 0x01, 0x00, 0xFF, 0xFF, 0x02, 0x00, 0xFF, 0xFF, 0x03, 0x00];
    let indices = extract_indices_u16(&data, 1, 4, 2, 3);
    assert_eq!(indices, vec![1, 2, 3]);
}

#[test]
fn extracts_u32_indices_by_truncation() {
    let mut data = Vec::new();
    data.extend_from_slice(&0x0001_0005u32.to_le_bytes());
    data.extend_from_slice(&0x0000_0007u32.to_le_bytes());
    let indices = extract_indices_u32(&data, 0, 4, 4, 2);
    // The upper half of a 32-bit index is dropped by the narrowing cast.
    assert_eq!(indices, vec![5, 7]);
}

#[test]
fn extracts_f32_bit_patterns() {
    let mut data = Vec::new();
    data.extend_from_slice(&1.5f32.to_le_bytes());
    data.extend_from_slice(&(-2.0f32).to_le_bytes());
    let bits = extract_f32_bits(&data, 0, 4, 4, 2);
    assert_eq!(bits, vec![1.5f32.to_bits(), (-2.0f32).to_bits()]);
}

#[test]
fn packed_element_yields_all_chunks() {
    // One element of eight bytes holds four 16-bit indices.
    let data = [1u8, 0, 2, 0, 3, 0, 4, 0];
    let indices = extract_indices_u16(&data, 0, 8, 8, 1);
    assert_eq!(indices, vec![1, 2, 3, 4]);
}

#[test]
fn assembles_vertices_with_defaults_for_short_streams() {
    let one = 1.0f32.to_bits();
    let two = 2.0f32.to_bits();
    // Two positions, one normal, no tangents/tex_coords/colors.
    let positions = [one, one, one, two, two, two];
    let normals = [one, two, one];
    let vertices = assemble_vertices(&positions, &normals, &[], &[], &[]);
    assert_eq!(
        vertices,
        vec![
            VertexData {
                position: (one, one, one),
                normal: (one, two, one),
                tangent: (0, 0, 0, 0),
                tex_coord: (0, 0),
                color: (0, 0, 0),
            },
            VertexData {
                position: (two, two, two),
                normal: (0, 0, 0),
                tangent: (0, 0, 0, 0),
                tex_coord: (0, 0),
                color: (0, 0, 0),
            },
        ]
    );
}

#[test]
fn assembly_drops_the_color_alpha_channel() {
    let c = [10u32, 20, 30, 40];
    let vertices = assemble_vertices(&[], &[], &[], &[], &c);
    assert_eq!(vertices.len(), 1);
    assert_eq!(vertices[0].color, (10, 20, 30));
}

#[test]
fn build_vertices_maps_records() {
    let record = VertexData {
        position: (1, 2, 3),
        normal: (0, 0, 0),
        tangent: (0, 0, 0, 0),
        tex_coord: (4, 5),
        color: (6, 7, 8),
    };
    let built: Vec<Vertex> = build_vertices(&vec![record]);
    assert_eq!(
        built,
        vec![Vertex { pos: (1, 2), coords: (4, 5), color: (6, 7, 8, OPAQUE_ALPHA_BITS) }]
    );
}

#[test]
fn new_model_allocates_and_uploads_both_buffers() {
    let mut gl = Gl::new("", "");
    gl.commands.clear();
    let vertices = vec![Vertex { pos: (1, 2), coords: (3, 4), color: (5, 6, 7, 8) }];
    let indices: Vec<u16> = vec![0, 0, 0];
    let model = gl.new_model(&vertices, &indices);
    assert_eq!(model.vertices.len(), 1);
    assert_eq!(model.indices.len(), 3);
    let mut vertex_bytes = Vec::new();
    for field in [1u32, 2, 3, 4, 5, 6, 7, 8] {
        vertex_bytes.extend_from_slice(&field.to_le_bytes());
    }
    assert_eq!(
        gl.commands,
        vec![
            GlCommand::CreateBuffer(1),
            GlCommand::BindArrayBuffer(Some(1)),
            GlCommand::BufferDataSize(GL_ARRAY_BUFFER, 32, 0x88E4),
            GlCommand::BindArrayBuffer(None),
            GlCommand::CreateBuffer(2),
            GlCommand::BindElementBuffer(Some(2)),
            GlCommand::BufferDataSize(GL_ELEMENT_ARRAY_BUFFER, 6, 0x88E4),
            GlCommand::BindElementBuffer(None),
            GlCommand::BindArrayBuffer(Some(1)),
            GlCommand::BufferSubData(GL_ARRAY_BUFFER, 0, vertex_bytes),
            GlCommand::BindArrayBuffer(None),
            GlCommand::BindElementBuffer(Some(2)),
            GlCommand::BufferSubData(GL_ELEMENT_ARRAY_BUFFER, 0, vec![0, 0, 0, 0, 0, 0]),
            GlCommand::BindElementBuffer(None),
        ]
    );
}
