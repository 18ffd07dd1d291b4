//! Buffer allocation, bounds checking, and data upload.

use gru_opengl::gl::consts::{
    GL_ARRAY_BUFFER, GL_DYNAMIC_DRAW, GL_ELEMENT_ARRAY_BUFFER, GL_STATIC_DRAW,
};
use gru_opengl::gl::{BufferAccess, Gl, GlCommand};
use gru_opengl::ui::Vertex;

fn fresh_gl() -> Gl {
    let mut gl = Gl::new("", "");
    gl.commands.clear();
    gl
}

fn vertex(tag: u32) -> Vertex {
    Vertex { pos: (tag, tag + 1), coords: (tag + 2, tag + 3), color: (tag + 4, tag + 5, tag + 6, tag + 7) }
}

#[test]
fn new_vertex_buffer_allocates_stride_times_length() {
    let mut gl = fresh_gl();
    let vb = gl.new_vertex_buffer::<Vertex>(3, BufferAccess::Static);
    assert_eq!(vb.len(), 3);
    assert_eq!(vb.stride, 32);
    assert_eq!(
        gl.commands,
        vec![
            GlCommand::CreateBuffer(1),
            GlCommand::BindArrayBuffer(Some(1)),
            GlCommand::BufferDataSize(GL_ARRAY_BUFFER, 96, GL_STATIC_DRAW),
            GlCommand::BindArrayBuffer(None),
        ]
    );
}

#[test]
fn new_index_buffer_allocates_two_bytes_per_index() {
    let mut gl = fresh_gl();
    let ib = gl.new_index_buffer(5, BufferAccess::Dynamic);
    assert_eq!(ib.len(), 5);
    assert_eq!(
        gl.commands,
        vec![
            GlCommand::CreateBuffer(1),
            GlCommand::BindElementBuffer(Some(1)),
            GlCommand::BufferDataSize(GL_ELEMENT_ARRAY_BUFFER, 10, GL_DYNAMIC_DRAW),
            GlCommand::BindElementBuffer(None),
        ]
    );
}

#[test]
fn vertex_bounds_hold_exactly_when_write_fits() {
    let mut gl = fresh_gl();
    let vb = gl.new_vertex_buffer::<Vertex>(4, BufferAccess::Static);
    // Every violating combination is rejected; every fitting one accepted.
    for offset in 0..6u32 {
        for count in 0..6usize {
            assert_eq!(
                vb.in_bounds(offset, count),
                offset as usize + count <= 4,
                "offset {offset} count {count}"
            );
        }
    }
    // The check also guards the u32 extreme.
    assert!(!vb.in_bounds(u32::MAX, 1));
}

#[test]
fn index_bounds_hold_exactly_when_write_fits() {
    let mut gl = fresh_gl();
    let ib = gl.new_index_buffer(3, BufferAccess::Static);
    for offset in 0..5u32 {
        for count in 0..5usize {
            assert_eq!(
                ib.in_bounds(offset, count),
                offset as usize + count <= 3,
                "offset {offset} count {count}"
            );
        }
    }
}

#[test]
fn vertex_data_uploads_encoded_bytes_at_byte_offset() {
    let mut gl = fresh_gl();
    let mut vb = gl.new_vertex_buffer::<Vertex>(3, BufferAccess::Static);
    gl.commands.clear();
    let v = vertex(0x01020304);
    vb.data(&mut gl, 2, &[v]);
    let mut expected = Vec::new();
    for field in [
        0x01020304u32,
        0x01020305,
        0x01020306,
        0x01020307,
        0x01020308,
        0x01020309,
        0x0102030a,
        0x0102030b,
    ] {
        expected.extend_from_slice(&field.to_le_bytes());
    }
    assert_eq!(
        gl.commands,
        vec![
            GlCommand::BindArrayBuffer(Some(1)),
            GlCommand::BufferSubData(GL_ARRAY_BUFFER, 64, expected),
            GlCommand::BindArrayBuffer(None),
        ]
    );
}

#[test]
fn vertex_data_succeeds_at_exact_boundary() {
    let mut gl = fresh_gl();
    let mut vb = gl.new_vertex_buffer::<Vertex>(3, BufferAccess::Static);
    gl.commands.clear();
    assert!(vb.in_bounds(1, 2));
    vb.data(&mut gl, 1, &[vertex(1), vertex(9)]);
    match &gl.commands[1] {
        GlCommand::BufferSubData(target, offset, bytes) => {
            assert_eq!(*target, GL_ARRAY_BUFFER);
            assert_eq!(*offset, 32);
            assert_eq!(bytes.len(), 64);
        }
        other => panic!("expected BufferSubData, got {other:?}"),
    }
}

#[test]
fn index_data_uploads_little_endian_pairs() {
    let mut gl = fresh_gl();
    let mut ib = gl.new_index_buffer(4, BufferAccess::Static);
    gl.commands.clear();
    ib.data(&mut gl, 1, &[0x1234, 0xABCD]);
    assert_eq!(
        gl.commands,
        vec![
            GlCommand::BindElementBuffer(Some(1)),
            GlCommand::BufferSubData(GL_ELEMENT_ARRAY_BUFFER, 2, vec![0x34, 0x12, 0xCD, 0xAB]),
            GlCommand::BindElementBuffer(None),
        ]
    );
}

#[test]
fn delete_buffers_emit_delete_commands() {
    let mut gl = fresh_gl();
    let vb = gl.new_vertex_buffer::<Vertex>(1, BufferAccess::Static);
    let ib = gl.new_index_buffer(1, BufferAccess::Static);
    gl.commands.clear();
    gl.delete_vertex_buffer(vb);
    gl.delete_index_buffer(ib);
    assert_eq!(gl.commands, vec![GlCommand::DeleteBuffer(1), GlCommand::DeleteBuffer(2)]);
}
