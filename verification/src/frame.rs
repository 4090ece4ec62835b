//! Per-frame decisions owed to the render loop: applying a window resize to
//! the surface configuration and the camera aspect, and choosing how to
//! recover from a failed frame. The render backend itself (device, surface,
//! pipelines) lives with the embedder; these functions only decide.

use vstd::prelude::*;
use vstd::arithmetic::div_mod::{lemma_div_nonincreasing, lemma_div_pos_is_pos};
use crate::camera::{Camera, CameraView};
use crate::fx::{fx_valid, fx_sat, FX_ONE, FX_MAX};

verus! {

/// The logical part of the render surface configuration: the output size in
/// pixels. The backend-specific rest (format, present mode) stays with the
/// embedder.
#[derive(Clone, Copy, PartialEq, Eq, Structural, Debug)]
pub struct SurfaceConfig {
    pub width: u32,
    pub height: u32,
}

/// The viewport ratio `width / height` in fixed point, saturated.
pub open spec fn aspect_of(width: int, height: int) -> int {
    fx_sat((width * FX_ONE) / height)
}

/// Compute the viewport ratio `width / height` in fixed point.
fn aspect_ratio(width: u32, height: u32) -> (a: i64)
    requires
        height > 0,
    ensures
        a == aspect_of(width as int, height as int),
        fx_valid(a as int),
{
    let n: u64 = (width as u64) * 1_000_000;
    let q: u64 = n / (height as u64);
    proof {
        lemma_div_nonincreasing(n as int, height as int);
        lemma_div_pos_is_pos(n as int, height as int);
    }
    if q > (FX_MAX as u64) {
        FX_MAX
    } else {
        q as i64
    }
}

/// Apply a window resize. With both dimensions positive the configuration
/// takes the new size and the camera's aspect follows; a resize to a
/// degenerate size (zero width or height) is a no-op, leaving the prior
/// configuration and camera untouched, so the embedder must not reconfigure
/// the surface.
pub fn handle_resize(camera: &mut Camera, config: &mut SurfaceConfig, width: u32, height: u32) -> (accepted: bool)
    ensures
        accepted == (width > 0 && height > 0),
        accepted ==> *final(config) == (SurfaceConfig { width, height }),
        accepted ==> final(camera)@ == (CameraView {
            aspect: aspect_of(width as int, height as int),
            ..old(camera)@
        }),
        !accepted ==> *final(config) == *old(config) && *final(camera) == *old(camera),
{
    if width > 0 && height > 0 {
        config.width = width;
        config.height = height;
        let a: i64 = aspect_ratio(width, height);
        camera.set_aspect(a);
        true
    } else {
        false
    }
}

/// A failed attempt to acquire the current frame from the render surface.
#[derive(Clone, Copy, PartialEq, Eq, Structural, Debug)]
pub enum SurfaceIssue {
    /// The surface is lost and must be rebuilt.
    Lost,
    /// The surface no longer matches the window (e.g. a pending resize).
    Outdated,
    /// Acquiring a frame timed out.
    Timeout,
    /// The device is out of memory.
    OutOfMemory,
}

/// What the render loop does about a failed frame.
#[derive(Clone, Copy, PartialEq, Eq, Structural, Debug)]
pub enum Recovery {
    /// Reconfigure the surface at the current size, then continue.
    Reconfigure,
    /// Transient: skip this frame and retry on the next one.
    RetryNextFrame,
    /// Fatal: terminate the application.
    Exit,
}

/// The recovery each surface issue calls for: a lost surface is
/// reconfigured at the current size, out-of-memory is fatal, and the
/// transient issues resolve themselves by the next frame.
pub open spec fn recovery_of(issue: SurfaceIssue) -> Recovery {
    match issue {
        SurfaceIssue::Lost => Recovery::Reconfigure,
        SurfaceIssue::Outdated => Recovery::RetryNextFrame,
        SurfaceIssue::Timeout => Recovery::RetryNextFrame,
        SurfaceIssue::OutOfMemory => Recovery::Exit,
    }
}

/// Decide how the render loop recovers from a failed frame.
pub fn plan_recovery(issue: SurfaceIssue) -> (r: Recovery)
    ensures
        r == recovery_of(issue),
{
    match issue {
        SurfaceIssue::Lost => Recovery::Reconfigure,
        SurfaceIssue::Outdated => Recovery::RetryNextFrame,
        SurfaceIssue::Timeout => Recovery::RetryNextFrame,
        SurfaceIssue::OutOfMemory => Recovery::Exit,
    }
}

} // verus!
