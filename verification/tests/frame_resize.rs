use camera_core::camera::Camera;
use camera_core::frame::{handle_resize, plan_recovery, Recovery, SurfaceConfig, SurfaceIssue};
use camera_core::fx::FX_ONE;

#[test]
fn degenerate_resize_is_a_no_op() {
    let mut camera = Camera::new(0, 0, FX_ONE, 1_333_333);
    let mut config = SurfaceConfig { width: 640, height: 480 };
    let accepted = handle_resize(&mut camera, &mut config, 0, 480);
    assert!(!accepted);
    assert_eq!(config, SurfaceConfig { width: 640, height: 480 });
    assert_eq!(camera.aspect(), 1_333_333);
    let accepted = handle_resize(&mut camera, &mut config, 640, 0);
    assert!(!accepted);
    assert_eq!(config, SurfaceConfig { width: 640, height: 480 });
    assert_eq!(camera.aspect(), 1_333_333);
}

#[test]
fn resize_updates_config_and_aspect() {
    let mut camera = Camera::new(0, 0, FX_ONE, FX_ONE);
    let mut config = SurfaceConfig { width: 640, height: 480 };
    let accepted = handle_resize(&mut camera, &mut config, 800, 600);
    assert!(accepted);
    assert_eq!(config, SurfaceConfig { width: 800, height: 600 });
    // 800 / 600 = 1.333333 in fixed point, truncated
    assert_eq!(camera.aspect(), 1_333_333);
}

#[test]
fn surface_issues_map_to_their_recoveries() {
    assert_eq!(plan_recovery(SurfaceIssue::Lost), Recovery::Reconfigure);
    assert_eq!(plan_recovery(SurfaceIssue::Outdated), Recovery::RetryNextFrame);
    assert_eq!(plan_recovery(SurfaceIssue::Timeout), Recovery::RetryNextFrame);
    assert_eq!(plan_recovery(SurfaceIssue::OutOfMemory), Recovery::Exit);
}
