//! Shader registration: slot assignment, re-bind commands, layout offsets,
//! uniform keys.

use gru_opengl::gl::consts::{
    GL_FLOAT, GL_FLOAT_VEC2, GL_FLOAT_VEC4, GL_SAMPLER_2D,
};
use gru_opengl::gl::shader::attributes_compatible;
use gru_opengl::gl::{
    ActiveAttribute, ActiveUniform, BufferType, Gl, GlCommand,
};
use gru_opengl::ui::Vertex;

fn fresh_gl() -> Gl {
    let mut gl = Gl::new("", "");
    gl.commands.clear();
    gl
}

fn active(name: &str, ty: u32) -> ActiveAttribute {
    ActiveAttribute { name: name.to_string(), ty }
}

fn uniform(name: &str, location: u32, ty: u32) -> ActiveUniform {
    ActiveUniform { name: name.to_string(), location, ty }
}

#[test]
fn new_shader_binds_each_active_attribute_and_relinks() {
    let mut gl = fresh_gl();
    let shader = gl.new_shader::<Vertex>(
        &vec![
            active("in_coords", GL_FLOAT_VEC2),
            active("in_pos", GL_FLOAT_VEC2),
        ],
        Vec::new(),
    );
    // Slots follow order of first sight: in_coords 0, in_pos 1.
    assert_eq!(
        gl.commands,
        vec![
            GlCommand::BindAttribLocation(1, 0, "in_coords".to_string()),
            GlCommand::BindAttribLocation(1, 1, "in_pos".to_string()),
            GlCommand::LinkProgram(1),
        ]
    );
    // The layout lists the declared attributes with their slots and byte
    // offsets: in_pos (slot 1) at 0, in_coords (slot 0) at 8, in_color
    // (freshly allocated slot 2) at 16.
    assert_eq!(
        shader.attributes,
        vec![
            (BufferType::Float { size: 2 }, 1, 0),
            (BufferType::Float { size: 2 }, 0, 8),
            (BufferType::Float { size: 4 }, 2, 16),
        ]
    );
    assert_eq!(shader.stride, 32);
    assert_eq!(shader.program, 1);
}

#[test]
fn get_key_carries_location_shader_id_and_type() {
    let mut gl = fresh_gl();
    let shader = gl.new_shader::<Vertex>(
        &Vec::new(),
        vec![uniform("u_time", 7, GL_FLOAT), uniform("glyphs", 3, GL_SAMPLER_2D)],
    );
    let key = shader.get_key("u_time", GL_FLOAT);
    assert_eq!(key.key, 7);
    assert_eq!(key.shader_id, shader.id);
    assert_eq!(key.ty, GL_FLOAT);
    let tex = shader.get_key("glyphs", GL_SAMPLER_2D);
    assert_eq!(tex.key, 3);
}

#[test]
fn has_uniform_checks_name_and_type() {
    let mut gl = fresh_gl();
    let shader = gl.new_shader::<Vertex>(&Vec::new(), vec![uniform("u_time", 0, GL_FLOAT)]);
    assert!(shader.has_uniform("u_time", GL_FLOAT));
    assert!(!shader.has_uniform("u_time", GL_FLOAT_VEC2));
    assert!(!shader.has_uniform("missing", GL_FLOAT));
}

#[test]
fn keys_of_different_shaders_are_incompatible() {
    // A key obtained from shader A never carries shader B's id, whatever
    // the order of compilation.
    let mut gl = fresh_gl();
    let a = gl.new_shader::<Vertex>(&Vec::new(), vec![uniform("u_time", 0, GL_FLOAT)]);
    let b = gl.new_shader::<Vertex>(&Vec::new(), vec![uniform("u_time", 0, GL_FLOAT)]);
    let key_a = a.get_key("u_time", GL_FLOAT);
    assert_ne!(a.id, b.id);
    assert_eq!(key_a.shader_id, a.id);
    assert_ne!(key_a.shader_id, b.id);
}

#[test]
fn compatible_when_types_agree_or_driver_elides() {
    let decls = vec![
        (BufferType::Float { size: 2 }, "in_pos".to_string()),
        (BufferType::Float { size: 4 }, "in_color".to_string()),
    ];
    // Exact agreement.
    assert!(attributes_compatible(
        &decls,
        &vec![active("in_pos", GL_FLOAT_VEC2), active("in_color", GL_FLOAT_VEC4)],
    ));
    // The driver elided in_color: tolerated.
    assert!(attributes_compatible(&decls, &vec![active("in_pos", GL_FLOAT_VEC2)]));
    // An extra active the layout does not declare: tolerated.
    assert!(attributes_compatible(
        &decls,
        &vec![active("in_pos", GL_FLOAT_VEC2), active("stray", GL_FLOAT)],
    ));
}

#[test]
fn incompatible_when_reported_type_differs() {
    let decls = vec![(BufferType::Float { size: 2 }, "in_pos".to_string())];
    assert!(!attributes_compatible(&decls, &vec![active("in_pos", GL_FLOAT_VEC4)]));
}

#[test]
fn delete_shader_emits_delete_program() {
    let mut gl = fresh_gl();
    let shader = gl.new_shader::<Vertex>(&Vec::new(), Vec::new());
    gl.commands.clear();
    gl.delete_shader(shader);
    assert_eq!(gl.commands, vec![GlCommand::DeleteProgram(1)]);
}
