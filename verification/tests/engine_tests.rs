use eva_engine::engine::Engine;
use eva_engine::engine::CLEAR_ALPHA_BITS;
use eva_engine::engine::CLEAR_BLUE_BITS;
use eva_engine::engine::CLEAR_GREEN_BITS;
use eva_engine::engine::CLEAR_RED_BITS;
use eva_engine::engine::DEFAULT_HEIGHT;
use eva_engine::engine::DEFAULT_WIDTH;
use eva_engine::engine::FAR_PLANE_BITS;
use eva_engine::engine::FOV_Y_DEGREES;
use eva_engine::engine::NEAR_PLANE_BITS;
use eva_engine::engine::VIEW_OFFSET_X_BITS;
use eva_engine::engine::VIEW_OFFSET_Y_BITS;
use eva_engine::engine::VIEW_OFFSET_Z_BITS;
use eva_engine::events::Action;
use eva_engine::events::Event;
use eva_engine::events::Key;
use eva_engine::geometry_renderer::PassCommand;

#[test]
fn new_engine_starts_at_default_extent() {
    let e = Engine::new(1);
    assert_eq!(e.surface_config.width, DEFAULT_WIDTH);
    assert_eq!(e.surface_config.height, DEFAULT_HEIGHT);
    assert_eq!(DEFAULT_WIDTH, 2560);
    assert_eq!(DEFAULT_HEIGHT, 1440);
}

#[test]
fn resize_stores_exact_extent() {
    let mut e = Engine::new(1);
    for (w, h) in [(800u32, 600u32), (1u32, 1u32), (2560u32, 1440u32), (123u32, 4567u32)] {
        let action = e.handle_event(Event::Resized { width: w, height: h });
        assert_eq!(action, Action::Reconfigure { width: w, height: h });
        assert_eq!(e.surface_config.width, w);
        assert_eq!(e.surface_config.height, h);
    }
}

#[test]
fn resize_to_zero_extent_is_ignored() {
    let mut e = Engine::new(1);
    let before = e.surface_config;
    assert_eq!(e.handle_event(Event::Resized { width: 0, height: 600 }), Action::Wait);
    assert_eq!(e.handle_event(Event::Resized { width: 800, height: 0 }), Action::Wait);
    assert_eq!(e.surface_config, before);
}

#[test]
fn resize_then_render_presents_at_new_extent() {
    let mut e = Engine::new(1);
    e.handle_event(Event::Resized { width: 800, height: 600 });
    let action = e.handle_event(Event::FrameTick);
    match action {
        Action::RenderFrame { plan } => {
            assert_eq!(plan.width, 800);
            assert_eq!(plan.height, 600);
        }
        other => panic!("a frame tick must plan a frame, got {:?}", other),
    }
    let cmds = e.render();
    let draws = cmds
        .iter()
        .filter(|c| matches!(c, PassCommand::DrawIndexed { .. }))
        .count();
    assert_eq!(draws, 1);
}

#[test]
fn close_request_for_own_window_exits() {
    let mut e = Engine::new(42);
    assert_eq!(e.handle_event(Event::CloseRequested { window_id: 42 }), Action::Exit);
}

#[test]
fn close_request_for_other_window_waits() {
    let mut e = Engine::new(42);
    assert_eq!(e.handle_event(Event::CloseRequested { window_id: 7 }), Action::Wait);
}

#[test]
fn escape_key_exits() {
    let mut e = Engine::new(1);
    assert_eq!(e.handle_event(Event::KeyPressed { key: Key::Escape }), Action::Exit);
}

#[test]
fn other_key_waits() {
    let mut e = Engine::new(1);
    assert_eq!(e.handle_event(Event::KeyPressed { key: Key::Other }), Action::Wait);
}

#[test]
fn pointer_motion_forwards_raw_deltas() {
    let mut e = Engine::new(1);
    let dx = 1.5f64;
    let dy = -2.25f64;
    let action = e.handle_event(Event::PointerMotion {
        dx_bits: dx.to_bits(),
        dy_bits: dy.to_bits(),
    });
    match action {
        Action::RotateCamera { dx_bits, dy_bits } => {
            assert_eq!(f64::from_bits(dx_bits), dx);
            assert_eq!(f64::from_bits(dy_bits), dy);
        }
        other => panic!("pointer motion must steer the camera, got {:?}", other),
    }
}

#[test]
fn frame_plan_carries_projection_parameters() {
    let e = Engine::new(1);
    let plan = e.frame_plan();
    assert_eq!(plan.fov_y_degrees, 90);
    assert_eq!(plan.fov_y_degrees, FOV_Y_DEGREES);
    assert_eq!(f32::from_bits(plan.near_bits), 0.1);
    assert_eq!(f32::from_bits(plan.far_bits), 1000.0);
    assert_eq!(plan.near_bits, NEAR_PLANE_BITS);
    assert_eq!(plan.far_bits, FAR_PLANE_BITS);
    assert_eq!(plan.width, 2560);
    assert_eq!(plan.height, 1440);
}

#[test]
fn frame_clears_to_opaque_green() {
    let e = Engine::new(1);
    let plan = e.frame_plan();
    assert_eq!(f64::from_bits(plan.clear_red_bits), 0.0);
    assert_eq!(f64::from_bits(plan.clear_green_bits), 1.0);
    assert_eq!(f64::from_bits(plan.clear_blue_bits), 0.0);
    assert_eq!(f64::from_bits(plan.clear_alpha_bits), 1.0);
    assert_eq!(plan.clear_red_bits, CLEAR_RED_BITS);
    assert_eq!(plan.clear_green_bits, CLEAR_GREEN_BITS);
    assert_eq!(plan.clear_blue_bits, CLEAR_BLUE_BITS);
    assert_eq!(plan.clear_alpha_bits, CLEAR_ALPHA_BITS);
}

#[test]
fn view_offset_is_one_unit_along_z() {
    let offset = glam::Vec3::new(
        f32::from_bits(VIEW_OFFSET_X_BITS),
        f32::from_bits(VIEW_OFFSET_Y_BITS),
        f32::from_bits(VIEW_OFFSET_Z_BITS),
    );
    assert_eq!(offset, glam::Vec3::new(0.0, 0.0, 1.0));
}
