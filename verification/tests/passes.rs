use webgl_thing::input::InputManager;
use webgl_thing::render_passes::{
    cloud_pass_config, fractal_pass_config, raster_pass_config, setup_pixel_shader,
    FractalUniformProvider, GL_TRIANGLES, GL_UNSIGNED_INT,
};
use webgl_thing::scalar::Scalar;
use webgl_thing::webgl_utils::render_pass::{
    GlCommand, ProgramInterface, RenderPassConfig, RenderPassError,
};

fn s(x: f32) -> Scalar {
    Scalar::from_bits(x.to_bits())
}

fn fractal_config() -> RenderPassConfig<FractalUniformProvider> {
    fractal_pass_config(String::from("vert src"), String::from("frag src"))
}

fn full_interface() -> ProgramInterface {
    ProgramInterface {
        attribute_locations: vec![0],
        uniform_locations: vec![Some(1), Some(2), Some(3), Some(4)],
        texture_locations: vec![],
    }
}

fn is_uniform_write(c: &GlCommand) -> bool {
    matches!(
        c,
        GlCommand::SetUniformMatrix4 { .. } | GlCommand::SetUniformFloat { .. }
    )
}

#[test]
fn configure_with_absent_uniform_succeeds_and_draw_skips_it() {
    // A uniform name the program lacks is skipped: compilation succeeds
    // and the draw writes one uniform per resolved binding only.
    let cfg = fractal_config();
    let link = ProgramInterface {
        attribute_locations: vec![0],
        uniform_locations: vec![Some(1), None, Some(3), Some(4)],
        texture_locations: vec![],
    };
    let pass = cfg.configure(Ok(link)).expect("compilation must succeed");
    assert_eq!(pass.uniforms.len(), 3);
    assert_eq!(pass.uniforms[0].name, "invProjMat");
    assert_eq!(pass.uniforms[1].name, "viewProjMat");
    assert_eq!(pass.uniforms[2].name, "time");
    let cam = InputManager::new().camera;
    let cmds = pass.draw(&cam, s(12.0));
    let writes = cmds.iter().filter(|c| is_uniform_write(c)).count();
    assert_eq!(writes, 3);
}

#[test]
fn configure_with_invalid_shader_returns_error() {
    // A backend compile failure comes back as an error value.
    let cfg = fractal_config();
    let r = cfg.configure(Err(String::from("Error compiling shader.")));
    match r {
        Err(RenderPassError::Shader(msg)) => assert_eq!(msg, "Error compiling shader."),
        _ => panic!("expected a shader error"),
    }
}

#[test]
fn configure_with_missing_texture_fails() {
    let cfg = cloud_pass_config(String::from("v"), String::from("f"), 9);
    let link = ProgramInterface {
        attribute_locations: vec![0],
        uniform_locations: vec![Some(1), Some(2), Some(3), Some(4)],
        texture_locations: vec![None],
    };
    match cfg.configure(Ok(link)) {
        Err(RenderPassError::TextureNotFound(name)) => assert_eq!(name, "colorTex"),
        _ => panic!("expected a missing-texture error"),
    }
}

#[test]
fn configure_with_absent_attribute_omits_it() {
    let cfg = fractal_config();
    let link = ProgramInterface {
        attribute_locations: vec![-1],
        uniform_locations: vec![Some(1), Some(2), Some(3), Some(4)],
        texture_locations: vec![],
    };
    let pass = cfg.configure(Ok(link)).expect("compilation must succeed");
    assert_eq!(pass.attributes.len(), 0);
}

#[test]
fn draw_and_draw_instanced_zero_issue_identical_commands() {
    // draw() and draw_instanced(0) produce the same backend sequence.
    let pass = fractal_config().configure(Ok(full_interface())).expect("must compile");
    let cam = InputManager::new().camera;
    let a = pass.draw(&cam, s(1.5));
    let b = pass.draw_instanced(&cam, s(1.5), 0);
    assert_eq!(a, b);
    assert!(matches!(a[a.len() - 3], GlCommand::DrawElements { .. }));
}

#[test]
fn draw_instanced_differs_only_in_draw_call() {
    let pass = fractal_config().configure(Ok(full_interface())).expect("must compile");
    let cam = InputManager::new().camera;
    let plain = pass.draw_instanced(&cam, s(1.5), 0);
    let inst = pass.draw_instanced(&cam, s(1.5), 7);
    assert_eq!(plain.len(), inst.len());
    let call_at = plain.len() - 3;
    for i in 0..plain.len() {
        if i == call_at {
            assert!(matches!(plain[i], GlCommand::DrawElements { .. }));
            assert!(
                matches!(inst[i], GlCommand::DrawElementsInstanced { instances: 7, .. })
            );
        } else {
            assert_eq!(plain[i], inst[i]);
        }
    }
}

#[test]
fn draw_binds_and_unbinds_symmetrically() {
    let pass = fractal_config().configure(Ok(full_interface())).expect("must compile");
    let cam = InputManager::new().camera;
    let cmds = pass.draw(&cam, s(0.0));
    assert_eq!(cmds[0], GlCommand::UseProgram(true));
    assert_eq!(cmds[1], GlCommand::BindVertexArray(true));
    assert_eq!(cmds[cmds.len() - 2], GlCommand::UseProgram(false));
    assert_eq!(cmds[cmds.len() - 1], GlCommand::BindVertexArray(false));
}

#[test]
fn textures_get_sequential_units_from_zero() {
    let cfg = cloud_pass_config(String::from("v"), String::from("f"), 9);
    let link = ProgramInterface {
        attribute_locations: vec![0],
        uniform_locations: vec![Some(1), Some(2), Some(3), Some(4)],
        texture_locations: vec![Some(5)],
    };
    let pass = cfg.configure(Ok(link)).expect("must compile");
    assert_eq!(pass.textures.len(), 1);
    // The first declared texture sits on the backend's first unit.
    assert_eq!(pass.textures[0].unit, 0x84C0);
    assert_eq!(pass.textures[0].texture, 9);
    assert_eq!(pass.textures[0].location, 5);
    let cam = InputManager::new().camera;
    let cmds = pass.draw(&cam, s(0.0));
    assert!(cmds.iter().any(|c| matches!(c, GlCommand::ActiveTexture { unit: 0x84C0 })));
    assert!(cmds.iter().any(|c| matches!(c, GlCommand::BindTexture2d { texture: 9 })));
}

#[test]
fn pass_descriptions_carry_declared_shape() {
    let raster = raster_pass_config(String::from("rv"), String::from("rf"));
    assert_eq!(raster.draw_mode, GL_TRIANGLES);
    assert_eq!(raster.draw_count, 3);
    assert_eq!(raster.draw_type, GL_UNSIGNED_INT);
    assert_eq!(raster.index_buffer_data, vec![2, 1, 0]);
    assert_eq!(raster.uniforms.len(), 1);
    assert_eq!(raster.uniforms[0].name, "mvp");
    assert_eq!(raster.attributes.len(), 1);
    assert_eq!(raster.attributes[0].name, "vertPos");
    assert_eq!(raster.attributes[0].stride, 8);

    let pixel = setup_pixel_shader(String::from("pv"), String::from("pf"));
    assert_eq!(pixel.draw_count, 6);
    assert_eq!(pixel.index_buffer_data, vec![3, 1, 0, 0, 2, 3]);
    assert_eq!(
        pixel.attributes[0].data,
        vec![
            (-1.0f32).to_bits(),
            1.0f32.to_bits(),
            1.0f32.to_bits(),
            1.0f32.to_bits(),
            (-1.0f32).to_bits(),
            (-1.0f32).to_bits(),
            1.0f32.to_bits(),
            (-1.0f32).to_bits(),
        ]
    );
}

#[test]
fn provider_time_slot_passes_time_through() {
    let pass = fractal_config().configure(Ok(full_interface())).expect("must compile");
    let cam = InputManager::new().camera;
    let cmds = pass.draw(&cam, s(42.5));
    let mut found = false;
    for c in cmds.iter() {
        if let GlCommand::SetUniformFloat { location, value } = c {
            assert_eq!(*location, 4);
            assert_eq!(value.bits, 42.5f32.to_bits());
            found = true;
        }
    }
    assert!(found);
}
