use camera_core::camera::{Camera, CameraController, CameraUniform, Key};
use camera_core::fx::FX_ONE;

#[test]
fn new_uniform_is_the_neutral_snapshot() {
    let u = CameraUniform::new();
    assert_eq!(u.pos_x, 0);
    assert_eq!(u.pos_y, 0);
    assert_eq!(u.zoom, 0);
    assert_eq!(u.aspect, FX_ONE);
}

#[test]
fn update_overwrites_every_field_from_the_camera() {
    let camera = Camera::new(5, -6, 70_000, 1_500_000);
    let mut u = CameraUniform::new();
    u.update(&camera);
    assert_eq!(u.pos_x, 5);
    assert_eq!(u.pos_y, -6);
    assert_eq!(u.zoom, 70_000);
    assert_eq!(u.aspect, 1_500_000);
}

#[test]
fn update_is_referentially_transparent() {
    // two snapshots of one unmodified camera are identical, whatever state
    // the uniforms held before
    let mut camera = Camera::new(123, 456, 789_000, FX_ONE);
    let mut ctl = CameraController::new(FX_ONE);
    ctl.process_keyboard(Key::PanLeft, true);
    ctl.update_camera(&mut camera, 16_667);
    let mut u1 = CameraUniform::new();
    let mut u2 = CameraUniform::new();
    u2.update(&Camera::new(-1, -1, -1, -1));
    u1.update(&camera);
    u2.update(&camera);
    assert_eq!(u1, u2);
    // and updating again from the same camera changes nothing
    let before = u1;
    u1.update(&camera);
    assert_eq!(u1, before);
}
