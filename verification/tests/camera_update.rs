use camera_core::camera::{Camera, CameraController, Key};
use camera_core::fx::FX_ONE;

#[test]
fn pan_right_one_second_advances_target_by_exp_minus_one() {
    // Start at position (0, 0), zoom 1.0, speed 1.0; hold "pan right" for one
    // second in 60 steps of about 16.67 ms. The target advances by
    // 1.0 * 1.0 * e^-1 * 1.0 ~ 0.367879 whole units, within 1%.
    let mut camera = Camera::new(0, 0, FX_ONE, FX_ONE);
    let mut ctl = CameraController::new(FX_ONE);
    ctl.process_keyboard(Key::PanRight, true);
    for _ in 0..60 {
        ctl.update_camera(&mut camera, 16_667);
    }
    let tx = camera.position_target().0;
    let expected: i64 = 367_879;
    assert!((tx - expected).abs() <= expected / 100, "target_x = {tx}");
    // the held key only drives the x axis, and zoom stays at rest
    assert_eq!(camera.position_target().1, 0);
    assert_eq!(camera.zoom(), FX_ONE);
    assert_eq!(camera.zoom_target(), FX_ONE);
}

#[test]
fn position_converges_monotonically_to_a_fixed_target() {
    let mut camera = Camera::new(0, 0, 0, FX_ONE);
    let mut ctl = CameraController::new(FX_ONE);
    // move the target once, then release: the target is fixed from here on
    ctl.process_keyboard(Key::PanRight, true);
    ctl.update_camera(&mut camera, 100_000);
    ctl.process_keyboard(Key::PanRight, false);
    let target = camera.position_target().0;
    let mut last = camera.position().0;
    assert!(last <= target);
    for _ in 0..50 {
        ctl.update_camera(&mut camera, 16_667);
        let pos = camera.position().0;
        // monotone toward the target, never past it: no oscillation
        assert!(pos >= last);
        assert!(pos <= target);
        last = pos;
    }
    // and it actually closes most of the gap
    assert!(target - last < target / 10);
}

#[test]
fn zoom_hold_advances_zoom_target_at_half_speed() {
    let mut camera = Camera::new(0, 0, FX_ONE, FX_ONE);
    let mut ctl = CameraController::new(FX_ONE);
    ctl.process_keyboard(Key::ZoomIn, true);
    // one step of 0.1 s: zoom target += 1.0 * 1.0 * 0.5 * 0.1 = 0.05
    ctl.update_camera(&mut camera, 100_000);
    assert_eq!(camera.zoom_target(), 1_050_000);
    // smoothing factor 5 * 0.1 = 0.5: zoom covers half the gap
    assert_eq!(camera.zoom(), 1_025_000);
}

#[test]
fn opposite_pan_keys_cancel() {
    let mut camera = Camera::new(0, 0, 0, FX_ONE);
    let mut ctl = CameraController::new(FX_ONE);
    ctl.process_keyboard(Key::PanLeft, true);
    ctl.process_keyboard(Key::PanRight, true);
    ctl.update_camera(&mut camera, 50_000);
    assert_eq!(camera.position_target().0, 0);
    assert_eq!(camera.position().0, 0);
}

#[test]
fn update_leaves_aspect_alone() {
    let mut camera = Camera::new(7, -9, 250_000, 1_777_778);
    let mut ctl = CameraController::new(FX_ONE);
    ctl.process_keyboard(Key::PanUp, true);
    ctl.process_keyboard(Key::ZoomOut, true);
    for _ in 0..10 {
        ctl.update_camera(&mut camera, 16_667);
    }
    assert_eq!(camera.aspect(), 1_777_778);
}

#[test]
fn large_dt_overshoots_the_target() {
    // The smoothing factor SMOOTHING * dt is deliberately not clamped: a
    // stalled frame (here 0.5 s, factor 2.5) lands past the target.
    let mut camera = Camera::new(0, 0, FX_ONE, FX_ONE);
    let mut ctl = CameraController::new(FX_ONE);
    ctl.process_keyboard(Key::ZoomIn, true);
    ctl.update_camera(&mut camera, 500_000);
    // zoom target: 1.0 + 1.0 * 0.5 * 0.5 = 1.25; factor 2.5 overshoots to 1.625
    assert_eq!(camera.zoom_target(), 1_250_000);
    assert_eq!(camera.zoom(), 1_625_000);
}
