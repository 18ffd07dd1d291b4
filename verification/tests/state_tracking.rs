//! The context's cached-state behavior: initialization, viewport caching,
//! attribute slot stability.

use gru_opengl::gl::consts::{
    GL_BACK, GL_BLEND, GL_CULL_FACE, GL_DEPTH_TEST, GL_FLOAT_VEC2, GL_FUNC_ADD, GL_LEQUAL,
    GL_ONE_MINUS_SRC_ALPHA, GL_SRC_ALPHA, GL_UNPACK_ALIGNMENT,
};
use gru_opengl::gl::{ActiveAttribute, Gl, GlCommand};
use gru_opengl::ui::Vertex;

fn fresh_gl() -> Gl {
    let mut gl = Gl::new("#version 110", "#version 110");
    gl.commands.clear();
    gl
}

#[test]
fn initialization_command_sequence() {
    let gl = Gl::new("#version 110", "#version 110");
    assert_eq!(
        gl.commands,
        vec![
            GlCommand::ClearColor(0, 0, 0),
            GlCommand::Enable(GL_DEPTH_TEST),
            GlCommand::DepthFunc(GL_LEQUAL),
            GlCommand::Disable(GL_BLEND),
            GlCommand::BlendEquation(GL_FUNC_ADD),
            GlCommand::BlendFunc(GL_SRC_ALPHA, GL_ONE_MINUS_SRC_ALPHA),
            GlCommand::Enable(GL_CULL_FACE),
            GlCommand::CullFace(GL_BACK),
            GlCommand::PixelStore(GL_UNPACK_ALIGNMENT, 1),
        ]
    );
    assert_eq!(gl.viewport, (-1, -1));
    assert_eq!(gl.shader_id, 0);
}

#[test]
fn viewport_same_dims_issues_call_at_most_once() {
    let mut gl = fresh_gl();
    gl.viewport(640, 480);
    gl.viewport(640, 480);
    assert_eq!(gl.commands, vec![GlCommand::Viewport(640, 480)]);
}

#[test]
fn viewport_changed_dims_issue_one_call_per_change() {
    let mut gl = fresh_gl();
    gl.viewport(640, 480);
    gl.viewport(800, 600);
    gl.viewport(800, 600);
    gl.viewport(640, 480);
    assert_eq!(
        gl.commands,
        vec![
            GlCommand::Viewport(640, 480),
            GlCommand::Viewport(800, 600),
            GlCommand::Viewport(640, 480),
        ]
    );
}

#[test]
fn viewport_first_call_never_skipped() {
    // The cache starts at the (-1, -1) sentinel, so even a (0, 0) viewport
    // is issued.
    let mut gl = fresh_gl();
    gl.viewport(0, 0);
    assert_eq!(gl.commands, vec![GlCommand::Viewport(0, 0)]);
}

fn active(name: &str, ty: u32) -> ActiveAttribute {
    ActiveAttribute { name: name.to_string(), ty }
}

#[test]
fn attribute_slots_stable_across_shaders() {
    // Two shaders that both declare "in_pos": the name keeps the slot the
    // first compile assigned, in every later shader.
    let mut gl = fresh_gl();
    let a = gl.new_shader::<Vertex>(
        &vec![
            active("in_pos", GL_FLOAT_VEC2),
            active("in_coords", GL_FLOAT_VEC2),
        ],
        Vec::new(),
    );
    let b = gl.new_shader::<Vertex>(&vec![active("in_pos", GL_FLOAT_VEC2)], Vec::new());
    assert_eq!(gl.attribute_slot("in_pos"), Some(0));
    assert_eq!(gl.attribute_slot("in_coords"), Some(1));
    // Declared names the driver elided still get slots, in declaration order.
    assert_eq!(gl.attribute_slot("in_color"), Some(2));
    // Both layouts place "in_pos" (the first declared attribute) at slot 0.
    assert_eq!(a.attributes[0], b.attributes[0]);
}

#[test]
fn shader_ids_count_up() {
    let mut gl = fresh_gl();
    let a = gl.new_shader::<Vertex>(&Vec::new(), Vec::new());
    let b = gl.new_shader::<Vertex>(&Vec::new(), Vec::new());
    assert_eq!(a.id, 0);
    assert_eq!(b.id, 1);
    assert_eq!(gl.shader_id, 2);
}

#[test]
fn source_helpers_prepend_headers() {
    let gl = Gl::new("#version 110", "#version 300 es");
    assert_eq!(gl.vertex_source("void main() {}"), "#version 110\nvoid main() {}");
    assert_eq!(gl.fragment_source("void main() {}"), "#version 300 es\nvoid main() {}");
}
