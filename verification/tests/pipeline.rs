//! Render passes, pipelines, texture unit rotation, and draw dispatch.

use gru_opengl::gl::consts::{
    GL_BLEND, GL_COLOR_BUFFER_BIT, GL_CULL_FACE, GL_DEPTH_BUFFER_BIT, GL_DEPTH_TEST, GL_FLOAT,
    GL_SAMPLER_2D, GL_TRIANGLES,
};
use gru_opengl::gl::{
    ActiveUniform, BufferAccess, Gl, GlCommand, PipelineInfo, Primitives, RenderPassInfo,
    RenderTarget, TextureChannel, TextureConfig, TextureWrap, UniformValue,
};
use gru_opengl::ui::Vertex;

fn fresh_gl() -> Gl {
    let mut gl = Gl::new("", "");
    gl.commands.clear();
    gl
}

fn uniform(name: &str, location: u32, ty: u32) -> ActiveUniform {
    ActiveUniform { name: name.to_string(), location, ty }
}

#[test]
fn screen_pass_sets_viewport_and_clears() {
    let mut gl = fresh_gl();
    gl.window_dims = (800, 600);
    let pass = gl.render_pass(
        &RenderTarget::Screen,
        &RenderPassInfo { clear_color: Some((1, 2, 3)), clear_depth: true },
    );
    assert_eq!(
        gl.commands,
        vec![
            GlCommand::Viewport(800, 600),
            GlCommand::ClearColor(1, 2, 3),
            GlCommand::Clear(GL_COLOR_BUFFER_BIT | GL_DEPTH_BUFFER_BIT),
        ]
    );
    gl.commands.clear();
    pass.end(&mut gl);
    // A screen pass has nothing to unbind.
    assert_eq!(gl.commands, Vec::new());
}

#[test]
fn cached_clear_color_issues_no_clear_color_call() {
    let mut gl = fresh_gl();
    gl.window_dims = (100, 100);
    let info = RenderPassInfo { clear_color: Some((5, 6, 7)), clear_depth: false };
    let pass = gl.render_pass(&RenderTarget::Screen, &info);
    pass.end(&mut gl);
    gl.commands.clear();
    let pass = gl.render_pass(&RenderTarget::Screen, &info);
    pass.end(&mut gl);
    // Same viewport, same clear color: only the clear itself remains.
    assert_eq!(gl.commands, vec![GlCommand::Clear(GL_COLOR_BUFFER_BIT)]);
}

#[test]
fn depth_only_clear() {
    let mut gl = fresh_gl();
    gl.window_dims = (4, 4);
    let pass = gl.render_pass(
        &RenderTarget::Screen,
        &RenderPassInfo { clear_color: None, clear_depth: true },
    );
    pass.end(&mut gl);
    assert_eq!(
        gl.commands,
        vec![GlCommand::Viewport(4, 4), GlCommand::Clear(GL_DEPTH_BUFFER_BIT)]
    );
}

#[test]
fn offscreen_pass_binds_and_unbinds_framebuffer() {
    let mut gl = fresh_gl();
    let fb = gl.new_framebuffer(&gru_opengl::gl::FramebufferConfig {
        depth: false,
        size: 16,
        wrap: TextureWrap::Clamp,
    });
    gl.commands.clear();
    let pass = gl.render_pass(
        &RenderTarget::Texture(&fb),
        &RenderPassInfo { clear_color: None, clear_depth: false },
    );
    assert_eq!(
        gl.commands,
        vec![GlCommand::BindFramebuffer(Some(1)), GlCommand::Viewport(16, 16)]
    );
    gl.commands.clear();
    pass.end(&mut gl);
    assert_eq!(gl.commands, vec![GlCommand::BindFramebuffer(None)]);
}

#[test]
fn pipeline_reconciles_only_transitioning_capabilities() {
    let mut gl = fresh_gl();
    gl.window_dims = (2, 2);
    let shader = gl.new_shader::<Vertex>(&Vec::new(), Vec::new());
    let mut pass = gl.render_pass(
        &RenderTarget::Screen,
        &RenderPassInfo { clear_color: None, clear_depth: false },
    );
    gl.commands.clear();
    // The cache starts depth on, blend off, cull on.
    let pl = pass.pipeline(
        &mut gl,
        &shader,
        PipelineInfo { depth_test: false, alpha_blend: false, face_cull: true },
    );
    assert_eq!(
        gl.commands,
        vec![GlCommand::Disable(GL_DEPTH_TEST), GlCommand::UseProgram(Some(1))]
    );
    gl.commands.clear();
    pl.end(&mut gl);
    assert_eq!(gl.commands, vec![GlCommand::UseProgram(None)]);
    // Re-opening with the same configuration issues no capability call.
    gl.commands.clear();
    let pl = pass.pipeline(
        &mut gl,
        &shader,
        PipelineInfo { depth_test: false, alpha_blend: false, face_cull: true },
    );
    assert_eq!(gl.commands, vec![GlCommand::UseProgram(Some(1))]);
    pl.end(&mut gl);
    pass.end(&mut gl);
}

#[test]
fn pipeline_enables_blending_and_disables_culling() {
    let mut gl = fresh_gl();
    gl.window_dims = (2, 2);
    let shader = gl.new_shader::<Vertex>(&Vec::new(), Vec::new());
    let mut pass = gl.render_pass(
        &RenderTarget::Screen,
        &RenderPassInfo { clear_color: None, clear_depth: false },
    );
    gl.commands.clear();
    let pl = pass.pipeline(
        &mut gl,
        &shader,
        PipelineInfo { depth_test: true, alpha_blend: true, face_cull: false },
    );
    assert_eq!(
        gl.commands,
        vec![
            GlCommand::Enable(GL_BLEND),
            GlCommand::Disable(GL_CULL_FACE),
            GlCommand::UseProgram(Some(1)),
        ]
    );
    pl.end(&mut gl);
    pass.end(&mut gl);
}

#[test]
fn uniform_key_dispatches_value() {
    let mut gl = fresh_gl();
    gl.window_dims = (2, 2);
    let shader = gl.new_shader::<Vertex>(&Vec::new(), vec![uniform("u_time", 9, GL_FLOAT)]);
    let key = shader.get_key("u_time", GL_FLOAT);
    let mut pass = gl.render_pass(
        &RenderTarget::Screen,
        &RenderPassInfo { clear_color: None, clear_depth: false },
    );
    let mut pl = pass.pipeline(
        &mut gl,
        &shader,
        PipelineInfo { depth_test: true, alpha_blend: false, face_cull: true },
    );
    gl.commands.clear();
    pl.uniform_key(&mut gl, &key, &UniformValue::Float(1.25f32.to_bits()));
    pl.uniform_name(&mut gl, "u_time", &UniformValue::Float(2.5f32.to_bits()));
    assert_eq!(
        gl.commands,
        vec![
            GlCommand::Uniform(9, UniformValue::Float(1.25f32.to_bits())),
            GlCommand::Uniform(9, UniformValue::Float(2.5f32.to_bits())),
        ]
    );
    pl.end(&mut gl);
    pass.end(&mut gl);
}

fn texture_setup(gl: &mut Gl) -> gru_opengl::gl::Texture<false> {
    let config = TextureConfig {
        size: 1,
        channel: TextureChannel::A,
        mipmap: false,
        wrap_s: TextureWrap::Clamp,
        wrap_t: TextureWrap::Clamp,
    };
    gl.new_texture::<false>(&config, &[0])
}

#[test]
fn ninth_texture_bind_reuses_unit_zero() {
    let mut gl = fresh_gl();
    gl.window_dims = (2, 2);
    let shader =
        gl.new_shader::<Vertex>(&Vec::new(), vec![uniform("glyphs", 0, GL_SAMPLER_2D)]);
    let key = shader.get_key("glyphs", GL_SAMPLER_2D);
    let texture = texture_setup(&mut gl);
    let mut pass = gl.render_pass(
        &RenderTarget::Screen,
        &RenderPassInfo { clear_color: None, clear_depth: false },
    );
    let mut pl = pass.pipeline(
        &mut gl,
        &shader,
        PipelineInfo { depth_test: true, alpha_blend: false, face_cull: true },
    );
    let mut units = Vec::new();
    for _ in 0..9 {
        gl.commands.clear();
        pl.uniform_texture(&mut gl, &key, &texture);
        match gl.commands[1] {
            GlCommand::ActiveTexture(unit) => units.push(unit),
            ref other => panic!("expected ActiveTexture, got {other:?}"),
        }
    }
    assert_eq!(units, vec![0, 1, 2, 3, 4, 5, 6, 7, 0]);
    pl.end(&mut gl);
    pass.end(&mut gl);
}

#[test]
fn persistent_texture_is_never_evicted() {
    let mut gl = fresh_gl();
    gl.window_dims = (2, 2);
    let shader =
        gl.new_shader::<Vertex>(&Vec::new(), vec![uniform("glyphs", 0, GL_SAMPLER_2D)]);
    let key = shader.get_key("glyphs", GL_SAMPLER_2D);
    let persistent = {
        let config = TextureConfig {
            size: 1,
            channel: TextureChannel::A,
            mipmap: false,
            wrap_s: TextureWrap::Clamp,
            wrap_t: TextureWrap::Clamp,
        };
        gl.new_texture::<true>(&config, &[0])
    };
    let other = texture_setup(&mut gl);
    let mut pass = gl.render_pass(
        &RenderTarget::Screen,
        &RenderPassInfo { clear_color: None, clear_depth: false },
    );
    let mut pl = pass.pipeline(
        &mut gl,
        &shader,
        PipelineInfo { depth_test: true, alpha_blend: false, face_cull: true },
    );
    gl.commands.clear();
    pl.uniform_texture(&mut gl, &key, &persistent);
    match gl.commands[1] {
        GlCommand::ActiveTexture(unit) => assert_eq!(unit, 0),
        ref other => panic!("expected ActiveTexture, got {other:?}"),
    }
    // Six further non-persistent binds: none lands on the locked unit 0.
    for _ in 0..6 {
        gl.commands.clear();
        pl.uniform_texture(&mut gl, &key, &other);
        match gl.commands[1] {
            GlCommand::ActiveTexture(unit) => assert_ne!(unit, 0),
            ref other => panic!("expected ActiveTexture, got {other:?}"),
        }
    }
    pl.end(&mut gl);
    pass.end(&mut gl);
}

#[test]
fn bind_with_all_units_locked_touches_nothing() {
    let mut gl = fresh_gl();
    gl.window_dims = (2, 2);
    let shader =
        gl.new_shader::<Vertex>(&Vec::new(), vec![uniform("glyphs", 0, GL_SAMPLER_2D)]);
    let key = shader.get_key("glyphs", GL_SAMPLER_2D);
    let persistent = {
        let config = TextureConfig {
            size: 1,
            channel: TextureChannel::A,
            mipmap: false,
            wrap_s: TextureWrap::Clamp,
            wrap_t: TextureWrap::Clamp,
        };
        gl.new_texture::<true>(&config, &[0])
    };
    let mut pass = gl.render_pass(
        &RenderTarget::Screen,
        &RenderPassInfo { clear_color: None, clear_depth: false },
    );
    let mut pl = pass.pipeline(
        &mut gl,
        &shader,
        PipelineInfo { depth_test: true, alpha_blend: false, face_cull: true },
    );
    for _ in 0..8 {
        pl.uniform_texture(&mut gl, &key, &persistent);
    }
    gl.commands.clear();
    // Every unit is locked: the ninth persistent bind issues no command.
    pl.uniform_texture(&mut gl, &key, &persistent);
    assert_eq!(gl.commands, Vec::new());
    pl.end(&mut gl);
    pass.end(&mut gl);
}

#[test]
fn pipeline_end_unbinds_texture_only_when_used() {
    let mut gl = fresh_gl();
    gl.window_dims = (2, 2);
    let shader =
        gl.new_shader::<Vertex>(&Vec::new(), vec![uniform("glyphs", 0, GL_SAMPLER_2D)]);
    let key = shader.get_key("glyphs", GL_SAMPLER_2D);
    let texture = texture_setup(&mut gl);
    let mut pass = gl.render_pass(
        &RenderTarget::Screen,
        &RenderPassInfo { clear_color: None, clear_depth: false },
    );
    let mut pl = pass.pipeline(
        &mut gl,
        &shader,
        PipelineInfo { depth_test: true, alpha_blend: false, face_cull: true },
    );
    pl.uniform_texture(&mut gl, &key, &texture);
    gl.commands.clear();
    pl.end(&mut gl);
    assert_eq!(gl.commands, vec![GlCommand::BindTexture(None), GlCommand::UseProgram(None)]);
    pass.end(&mut gl);
}

#[test]
fn indexed_draw_succeeds_at_exact_boundary() {
    let mut gl = fresh_gl();
    gl.window_dims = (2, 2);
    let shader = gl.new_shader::<Vertex>(&Vec::new(), Vec::new());
    let vertices = gl.new_vertex_buffer::<Vertex>(4, BufferAccess::Static);
    let indices = gl.new_index_buffer(6, BufferAccess::Static);
    let mut pass = gl.render_pass(
        &RenderTarget::Screen,
        &RenderPassInfo { clear_color: None, clear_depth: false },
    );
    let mut pl = pass.pipeline(
        &mut gl,
        &shader,
        PipelineInfo { depth_test: true, alpha_blend: false, face_cull: true },
    );
    // The bound is the index buffer's length: offset + count == 6 passes.
    assert!(indices.in_bounds(2, 4));
    assert!(!indices.in_bounds(3, 4));
    gl.commands.clear();
    pl.draw(&mut gl, Primitives::Triangles, &vertices, Some(&indices), 2, 4);
    assert_eq!(
        gl.commands,
        vec![
            GlCommand::BindArrayBuffer(Some(vertices.buffer)),
            GlCommand::VertexAttribPointerF32 { location: 0, size: 2, stride: 32, offset: 0 },
            GlCommand::EnableVertexAttribArray(0),
            GlCommand::VertexAttribPointerF32 { location: 1, size: 2, stride: 32, offset: 8 },
            GlCommand::EnableVertexAttribArray(1),
            GlCommand::VertexAttribPointerF32 { location: 2, size: 4, stride: 32, offset: 16 },
            GlCommand::EnableVertexAttribArray(2),
            GlCommand::BindElementBuffer(Some(indices.buffer)),
            GlCommand::DrawElements(GL_TRIANGLES, 4, 2),
            GlCommand::BindElementBuffer(None),
            GlCommand::DisableVertexAttribArray(0),
            GlCommand::DisableVertexAttribArray(1),
            GlCommand::DisableVertexAttribArray(2),
            GlCommand::BindArrayBuffer(None),
        ]
    );
    pl.end(&mut gl);
    pass.end(&mut gl);
}

#[test]
fn non_indexed_draw_bound_is_the_vertex_buffer() {
    let mut gl = fresh_gl();
    let vertices = gl.new_vertex_buffer::<Vertex>(5, BufferAccess::Static);
    // offset + count == 5 fits; one more does not.
    assert!(vertices.in_bounds(2, 3));
    assert!(!vertices.in_bounds(2, 4));
}
