//! The camera state model, its input-driven controller, and the fixed-layout
//! snapshot handed to the renderer each frame.
//!
//! A `Camera` holds a current pan position and zoom together with target
//! values; each frame the controller advances the targets from the held
//! inputs and smooths the current values toward them. All scalars are in
//! fixed point (see [`crate::fx`]).

use vstd::prelude::*;
use vstd::arithmetic::div_mod::{
    lemma_div_is_ordered, lemma_div_multiples_vanish, lemma_div_pos_is_pos, lemma_div_of0,
    lemma_fundamental_div_mod, lemma_fundamental_div_mod_converse,
};
use vstd::arithmetic::mul::lemma_mul_is_commutative;
use crate::fx::{
    fx_valid, fx_sat, fx_mul_s, fx_add_s, fx_lerp_s, exp_fx_s, fx_mul, fx_add_sat, lerp, exp_fx,
    fx_saturate, lemma_lerp_converges, FX_ONE, FX_MAX,
};

verus! {

/// The mathematical value of a [`Camera`]: its seven fixed-point scalars as
/// unbounded integers.
#[verifier::ext_equal]
pub struct CameraView {
    pub position_x: int,
    pub position_y: int,
    pub target_x: int,
    pub target_y: int,
    pub zoom: int,
    pub zoom_target: int,
    pub aspect: int,
}

impl CameraView {
    /// Every scalar lies in the representable fixed-point range.
    pub open spec fn wf(self) -> bool {
        &&& fx_valid(self.position_x)
        &&& fx_valid(self.position_y)
        &&& fx_valid(self.target_x)
        &&& fx_valid(self.target_y)
        &&& fx_valid(self.zoom)
        &&& fx_valid(self.zoom_target)
        &&& fx_valid(self.aspect)
    }
}

/// Pan-and-zoom camera state. `position` and `zoom` smooth toward
/// `position_target` and `zoom_target`; the targets are advanced by the
/// controller, so the current values never jump. `aspect` changes only on a
/// window resize. All fields are fixed-point scalars (micro-units).
#[derive(Clone, Copy, Debug)]
pub struct Camera {
    position_x: i64,
    position_y: i64,
    target_x: i64,
    target_y: i64,
    zoom: i64,
    zoom_target: i64,
    aspect: i64,
}

impl View for Camera {
    type V = CameraView;

    closed spec fn view(&self) -> CameraView {
        CameraView {
            position_x: self.position_x as int,
            position_y: self.position_y as int,
            target_x: self.target_x as int,
            target_y: self.target_y as int,
            zoom: self.zoom as int,
            zoom_target: self.zoom_target as int,
            aspect: self.aspect as int,
        }
    }
}

impl Camera {
    /// The camera's scalars lie in the representable range.
    pub open spec fn wf(&self) -> bool {
        self@.wf()
    }

    /// A camera at rest: position and zoom already equal to their targets.
    pub fn new(position_x: i64, position_y: i64, zoom: i64, aspect: i64) -> (c: Camera)
        requires
            fx_valid(position_x as int),
            fx_valid(position_y as int),
            fx_valid(zoom as int),
            fx_valid(aspect as int),
        ensures
            c@ == (CameraView {
                position_x: position_x as int,
                position_y: position_y as int,
                target_x: position_x as int,
                target_y: position_y as int,
                zoom: zoom as int,
                zoom_target: zoom as int,
                aspect: aspect as int,
            }),
            c.wf(),
    {
        Camera {
            position_x,
            position_y,
            target_x: position_x,
            target_y: position_y,
            zoom,
            zoom_target: zoom,
            aspect,
        }
    }

    /// Record a new viewport ratio; every other scalar is untouched.
    pub fn set_aspect(&mut self, aspect: i64)
        requires
            fx_valid(aspect as int),
        ensures
            final(self)@ == (CameraView { aspect: aspect as int, ..old(self)@ }),
    {
        self.aspect = aspect;
    }

    /// Current pan position `(x, y)`.
    pub fn position(&self) -> (p: (i64, i64))
        ensures
            p.0 == self@.position_x,
            p.1 == self@.position_y,
    {
        (self.position_x, self.position_y)
    }

    /// Pan target the position is smoothing toward.
    pub fn position_target(&self) -> (p: (i64, i64))
        ensures
            p.0 == self@.target_x,
            p.1 == self@.target_y,
    {
        (self.target_x, self.target_y)
    }

    /// Current zoom (log-scale factor).
    pub fn zoom(&self) -> (z: i64)
        ensures
            z == self@.zoom,
    {
        self.zoom
    }

    /// Zoom target the zoom is smoothing toward.
    pub fn zoom_target(&self) -> (z: i64)
        ensures
            z == self@.zoom_target,
    {
        self.zoom_target
    }

    /// Viewport width / height ratio.
    pub fn aspect(&self) -> (a: i64)
        ensures
            a == self@.aspect,
    {
        self.aspect
    }
}

/// Fixed-layout snapshot of the externally relevant camera state, rebuilt
/// from scratch every frame and uploaded to the renderer. The byte-exact
/// transfer struct lives with the renderer; this is its exact value, field
/// for field.
#[derive(Clone, Copy, PartialEq, Eq, Structural, Debug)]
pub struct CameraUniform {
    pub pos_x: i64,
    pub pos_y: i64,
    pub zoom: i64,
    pub aspect: i64,
}

/// The snapshot a given camera state produces: a pure function of the
/// camera's current position, zoom and aspect.
pub open spec fn uniform_of(c: CameraView) -> CameraUniform {
    CameraUniform {
        pos_x: c.position_x as i64,
        pos_y: c.position_y as i64,
        zoom: c.zoom as i64,
        aspect: c.aspect as i64,
    }
}

impl CameraUniform {
    /// The neutral snapshot: origin position, zero zoom, square aspect.
    pub fn new() -> (u: CameraUniform)
        ensures
            u == (CameraUniform { pos_x: 0i64, pos_y: 0i64, zoom: 0i64, aspect: FX_ONE as i64 }),
    {
        CameraUniform { pos_x: 0, pos_y: 0, zoom: 0, aspect: FX_ONE }
    }

    /// Overwrite every field from the camera: no partial updates, no diffing,
    /// no history — the result depends on the camera state alone.
    pub fn update(&mut self, camera: &Camera)
        ensures
            *final(self) == uniform_of(camera@),
    {
        self.pos_x = camera.position_x;
        self.pos_y = camera.position_y;
        self.zoom = camera.zoom;
        self.aspect = camera.aspect;
    }
}

/// Zoom-axis rate: a held zoom key advances the zoom target by
/// `speed * 0.5` per second.
pub const ZOOM_RATE: i64 = 500_000;

/// Smoothing rate per second toward the targets: each frame the current
/// values move a fraction `SMOOTHING * dt` of the way to their targets.
/// Not clamped, so a stalled frame (large `dt`) can overshoot.
pub const SMOOTHING: i64 = 5;

/// A logical input key, bound to one controller action. The mapping from
/// platform key codes to these is the embedder's configuration detail.
#[derive(Clone, Copy, PartialEq, Eq, Structural, Debug)]
pub enum Key {
    PanUp,
    PanDown,
    PanLeft,
    PanRight,
    ZoomIn,
    ZoomOut,
    SpeedUp,
    SpeedDown,
    /// A key with no binding: reported as not handled, changes nothing.
    Unmapped,
}

/// A mouse-wheel motion, in lines or pixels (fixed-point amounts).
#[derive(Clone, Copy, PartialEq, Eq, Structural, Debug)]
pub enum ScrollDelta {
    Lines { x: i64, y: i64 },
    Pixels { x: i64, y: i64 },
}

/// The mathematical value of a [`CameraController`].
#[verifier::ext_equal]
pub struct ControllerView {
    pub amount_left: int,
    pub amount_right: int,
    pub amount_up: int,
    pub amount_down: int,
    pub amount_in: int,
    pub amount_out: int,
    pub speed: int,
}

/// A velocity field holds `FX_ONE` while its key is held and `0` otherwise.
pub open spec fn is_amount(a: int) -> bool {
    a == 0 || a == FX_ONE
}

impl ControllerView {
    /// Velocity fields are `0` or `FX_ONE`; the speed is a nonnegative
    /// fixed-point scalar.
    pub open spec fn wf(self) -> bool {
        &&& is_amount(self.amount_left)
        &&& is_amount(self.amount_right)
        &&& is_amount(self.amount_up)
        &&& is_amount(self.amount_down)
        &&& is_amount(self.amount_in)
        &&& is_amount(self.amount_out)
        &&& 0 <= self.speed <= FX_MAX
    }
}

/// Converts discrete input edges into continuous state: one velocity field
/// per held directional or zoom key, and a speed multiplier adjusted by
/// dedicated keys. Each frame, [`CameraController::update_camera`] advances
/// the camera from these fields and the elapsed time.
#[derive(Clone, Copy, PartialEq, Eq, Structural, Debug)]
pub struct CameraController {
    amount_left: i64,
    amount_right: i64,
    amount_up: i64,
    amount_down: i64,
    amount_in: i64,
    amount_out: i64,
    speed: i64,
}

impl View for CameraController {
    type V = ControllerView;

    closed spec fn view(&self) -> ControllerView {
        ControllerView {
            amount_left: self.amount_left as int,
            amount_right: self.amount_right as int,
            amount_up: self.amount_up as int,
            amount_down: self.amount_down as int,
            amount_in: self.amount_in as int,
            amount_out: self.amount_out as int,
            speed: self.speed as int,
        }
    }
}

/// `1.0` while the key is held, `0.0` once it is released.
pub open spec fn amount_of(pressed: bool) -> int {
    if pressed {
        FX_ONE as int
    } else {
        0
    }
}

/// The speed raised by one notch: `speed * 1.2`, exactly `6/5` in fixed
/// point, saturated at `FX_MAX`.
pub open spec fn speed_up_s(s: int) -> int {
    fx_sat((6 * s) / 5)
}

/// The speed lowered by one notch: `speed / 1.2`, exactly `5/6` in fixed
/// point (truncated).
pub open spec fn speed_down_s(s: int) -> int {
    (5 * s) / 6
}

/// The controller state after one keyboard edge: a directional or zoom key
/// sets its velocity field from the edge; a speed key rescales the speed on
/// the press edge; an unmapped key changes nothing.
pub open spec fn controller_after_key(c: ControllerView, key: Key, pressed: bool) -> ControllerView {
    match key {
        Key::PanUp => ControllerView { amount_up: amount_of(pressed), ..c },
        Key::PanDown => ControllerView { amount_down: amount_of(pressed), ..c },
        Key::PanLeft => ControllerView { amount_left: amount_of(pressed), ..c },
        Key::PanRight => ControllerView { amount_right: amount_of(pressed), ..c },
        Key::ZoomIn => ControllerView { amount_in: amount_of(pressed), ..c },
        Key::ZoomOut => ControllerView { amount_out: amount_of(pressed), ..c },
        Key::SpeedUp => if pressed {
            ControllerView { speed: speed_up_s(c.speed), ..c }
        } else {
            c
        },
        Key::SpeedDown => if pressed {
            ControllerView { speed: speed_down_s(c.speed), ..c }
        } else {
            c
        },
        Key::Unmapped => c,
    }
}

/// One frame's integration step, in the exact order the executable code
/// performs it: advance the pan targets by
/// `velocity * speed * e^(-zoom) * dt` per axis, advance the zoom target by
/// `zoom_velocity * speed * ZOOM_RATE * dt`, then smooth position and zoom
/// toward the new targets with factor `SMOOTHING * dt`.
pub open spec fn camera_after_update(cam: CameraView, ctl: ControllerView, dt: int) -> CameraView {
    let pan_scale = exp_fx_s(-cam.zoom);
    let step_x = fx_mul_s(fx_mul_s(fx_mul_s(ctl.amount_right - ctl.amount_left, ctl.speed), pan_scale), dt);
    let step_y = fx_mul_s(fx_mul_s(fx_mul_s(ctl.amount_down - ctl.amount_up, ctl.speed), pan_scale), dt);
    let zoom_step = fx_mul_s(fx_mul_s(fx_mul_s(ctl.amount_in - ctl.amount_out, ctl.speed), ZOOM_RATE as int), dt);
    let t = fx_sat(SMOOTHING * dt);
    let target_x = fx_add_s(cam.target_x, step_x);
    let target_y = fx_add_s(cam.target_y, step_y);
    let zoom_target = fx_add_s(cam.zoom_target, zoom_step);
    CameraView {
        position_x: fx_lerp_s(cam.position_x, target_x, t),
        position_y: fx_lerp_s(cam.position_y, target_y, t),
        target_x,
        target_y,
        zoom: fx_lerp_s(cam.zoom, zoom_target, t),
        zoom_target,
        aspect: cam.aspect,
    }
}

/// `speed * 1.2` in fixed point, saturated.
fn speed_up(s: i64) -> (r: i64)
    requires
        0 <= s <= FX_MAX,
    ensures
        r == speed_up_s(s as int),
        0 <= r <= FX_MAX,
{
    let su: u64 = s as u64;
    let q: u64 = (6 * su) / 5;
    if q > (FX_MAX as u64) {
        FX_MAX
    } else {
        q as i64
    }
}

/// `speed / 1.2` in fixed point.
fn speed_down(s: i64) -> (r: i64)
    requires
        0 <= s <= FX_MAX,
    ensures
        r == speed_down_s(s as int),
        0 <= r <= FX_MAX,
{
    let su: u64 = s as u64;
    let q: u64 = (5 * su) / 6;
    proof {
        lemma_div_is_ordered(5 * (su as int), 6 * (su as int), 6);
        lemma_div_multiples_vanish(su as int, 6);
        lemma_mul_is_commutative(su as int, 6);
    }
    q as i64
}

impl CameraController {
    /// The controller's scalars are well formed.
    pub open spec fn wf(&self) -> bool {
        self@.wf()
    }

    /// A controller with no key held and the given speed multiplier.
    pub fn new(speed: i64) -> (c: CameraController)
        requires
            0 <= speed <= FX_MAX,
        ensures
            c@ == (ControllerView {
                amount_left: 0,
                amount_right: 0,
                amount_up: 0,
                amount_down: 0,
                amount_in: 0,
                amount_out: 0,
                speed: speed as int,
            }),
            c.wf(),
    {
        CameraController {
            amount_left: 0,
            amount_right: 0,
            amount_up: 0,
            amount_down: 0,
            amount_in: 0,
            amount_out: 0,
            speed,
        }
    }

    /// Current speed multiplier.
    pub fn speed(&self) -> (s: i64)
        ensures
            s == self@.speed,
    {
        self.speed
    }

    /// Record one keyboard edge. A mapped key is consumed (`true`); an
    /// unmapped key is reported as not handled and changes nothing, so the
    /// event can propagate elsewhere.
    pub fn process_keyboard(&mut self, key: Key, pressed: bool) -> (handled: bool)
        requires
            old(self).wf(),
        ensures
            final(self)@ == controller_after_key(old(self)@, key, pressed),
            handled == (key != Key::Unmapped),
            final(self).wf(),
    {
        let amount: i64 = if pressed {
            FX_ONE
        } else {
            0
        };
        match key {
            Key::PanUp => {
                self.amount_up = amount;
                true
            },
            Key::PanDown => {
                self.amount_down = amount;
                true
            },
            Key::PanLeft => {
                self.amount_left = amount;
                true
            },
            Key::PanRight => {
                self.amount_right = amount;
                true
            },
            Key::ZoomIn => {
                self.amount_in = amount;
                true
            },
            Key::ZoomOut => {
                self.amount_out = amount;
                true
            },
            Key::SpeedUp => {
                if pressed {
                    self.speed = speed_up(self.speed);
                }
                true
            },
            Key::SpeedDown => {
                if pressed {
                    self.speed = speed_down(self.speed);
                }
                true
            },
            Key::Unmapped => false,
        }
    }

    /// Clear every velocity field, as when the window loses focus: the
    /// fields reflect only currently held inputs, and a release edge that
    /// never arrives must not leave a key stuck. The speed multiplier is
    /// kept.
    pub fn release_all(&mut self)
        ensures
            final(self)@ == (ControllerView {
                amount_left: 0,
                amount_right: 0,
                amount_up: 0,
                amount_down: 0,
                amount_in: 0,
                amount_out: 0,
                speed: old(self)@.speed,
            }),
            old(self).wf() ==> final(self).wf(),
    {
        self.amount_left = 0;
        self.amount_right = 0;
        self.amount_up = 0;
        self.amount_down = 0;
        self.amount_in = 0;
        self.amount_out = 0;
    }

    /// Record a mouse-wheel motion. Zoom is driven by held keys in this
    /// scheme, and the two schemes are mutually exclusive per axis, so wheel
    /// deltas are deliberately ignored: the controller is unchanged.
    pub fn process_mouse(&mut self, delta: ScrollDelta)
        ensures
            *final(self) == *old(self),
    {
        let _ = delta;
    }

    /// The per-frame integration step, run exactly once per rendered frame.
    /// `dt` is the elapsed time in fixed-point seconds; it is not clamped,
    /// so a stalled frame can overshoot (callers cap `dt` upstream if they
    /// need stutter resistance). The controller itself is unchanged: all its
    /// fields are held state, none is consumed.
    pub fn update_camera(&mut self, camera: &mut Camera, dt: i64)
        requires
            old(self).wf(),
            old(camera).wf(),
            0 <= dt <= FX_MAX,
        ensures
            *final(self) == *old(self),
            final(camera)@ == camera_after_update(old(camera)@, old(self)@, dt as int),
            final(camera).wf(),
    {
        let pan_scale: i64 = exp_fx(-camera.zoom);
        let vel_x: i64 = self.amount_right - self.amount_left;
        let step_x: i64 = fx_mul(fx_mul(fx_mul(vel_x, self.speed), pan_scale), dt);
        camera.target_x = fx_add_sat(camera.target_x, step_x);
        let vel_y: i64 = self.amount_down - self.amount_up;
        let step_y: i64 = fx_mul(fx_mul(fx_mul(vel_y, self.speed), pan_scale), dt);
        camera.target_y = fx_add_sat(camera.target_y, step_y);
        let vel_z: i64 = self.amount_in - self.amount_out;
        let zoom_step: i64 = fx_mul(fx_mul(fx_mul(vel_z, self.speed), ZOOM_RATE), dt);
        camera.zoom_target = fx_add_sat(camera.zoom_target, zoom_step);
        let t: i64 = fx_saturate(SMOOTHING * dt);
        camera.position_x = lerp(camera.position_x, camera.target_x, t);
        camera.position_y = lerp(camera.position_y, camera.target_y, t);
        camera.zoom = lerp(camera.zoom, camera.zoom_target, t);
    }
}

/// The velocity field a pan or zoom key drives (`0` for the other keys).
pub open spec fn velocity_of(c: ControllerView, key: Key) -> int {
    match key {
        Key::PanUp => c.amount_up,
        Key::PanDown => c.amount_down,
        Key::PanLeft => c.amount_left,
        Key::PanRight => c.amount_right,
        Key::ZoomIn => c.amount_in,
        Key::ZoomOut => c.amount_out,
        Key::SpeedUp => 0,
        Key::SpeedDown => 0,
        Key::Unmapped => 0,
    }
}

/// Law: pressing then releasing a directional or zoom key leaves its
/// velocity field at exactly zero — the same state a lone release edge
/// produces, so no "stuck key" survives the pair.
pub proof fn lemma_press_release_returns_to_zero(c: ControllerView, key: Key)
    requires
        key == Key::PanUp || key == Key::PanDown || key == Key::PanLeft || key == Key::PanRight
            || key == Key::ZoomIn || key == Key::ZoomOut,
    ensures
        velocity_of(controller_after_key(controller_after_key(c, key, true), key, false), key)
            == 0,
        controller_after_key(controller_after_key(c, key, true), key, false)
            == controller_after_key(c, key, false),
{
}

/// Law: an axis whose velocity fields are both zero stops advancing — the
/// next frame step leaves that axis' target exactly where it was, whatever
/// the speed, the zoom and the elapsed time.
pub proof fn lemma_idle_axis_halts_target(cam: CameraView, ctl: ControllerView, dt: int)
    requires
        cam.wf(),
    ensures
        ctl.amount_left == 0 && ctl.amount_right == 0
            ==> camera_after_update(cam, ctl, dt).target_x == cam.target_x,
        ctl.amount_up == 0 && ctl.amount_down == 0
            ==> camera_after_update(cam, ctl, dt).target_y == cam.target_y,
        ctl.amount_in == 0 && ctl.amount_out == 0
            ==> camera_after_update(cam, ctl, dt).zoom_target == cam.zoom_target,
{
    lemma_div_of0(FX_ONE as int);
    let pan_scale = exp_fx_s(-cam.zoom);
    if ctl.amount_left == 0 && ctl.amount_right == 0 {
        assert(fx_mul_s(ctl.amount_right - ctl.amount_left, ctl.speed) == 0);
        assert(fx_mul_s(0, pan_scale) == 0);
        assert(fx_mul_s(0, dt) == 0);
        assert(fx_add_s(cam.target_x, 0) == cam.target_x);
    }
    if ctl.amount_up == 0 && ctl.amount_down == 0 {
        assert(fx_mul_s(ctl.amount_down - ctl.amount_up, ctl.speed) == 0);
        assert(fx_mul_s(0, pan_scale) == 0);
        assert(fx_mul_s(0, dt) == 0);
        assert(fx_add_s(cam.target_y, 0) == cam.target_y);
    }
    if ctl.amount_in == 0 && ctl.amount_out == 0 {
        assert(fx_mul_s(ctl.amount_in - ctl.amount_out, ctl.speed) == 0);
        assert(fx_mul_s(0, ZOOM_RATE as int) == 0);
        assert(fx_mul_s(0, dt) == 0);
        assert(fx_add_s(cam.zoom_target, 0) == cam.zoom_target);
    }
}

/// Law: raising then lowering the speed returns it to the original value to
/// within one micro-unit — a relative error of at most `1e-6` for speeds of
/// one unit or more. Stated away from the saturation bound (within it the
/// raise clamps and the pair cannot round-trip).
pub proof fn lemma_speed_round_trip(s: int)
    requires
        0 <= s,
        6 * s <= 5 * FX_MAX,
    ensures
        s - 1 <= speed_down_s(speed_up_s(s)) <= s,
{
    let q = (6 * s) / 5;
    let r = (6 * s) % 5;
    lemma_fundamental_div_mod(6 * s, 5);
    lemma_div_pos_is_pos(6 * s, 5);
    lemma_div_is_ordered(6 * s, 5 * FX_MAX, 5);
    lemma_mul_is_commutative(FX_MAX as int, 5);
    lemma_div_multiples_vanish(FX_MAX as int, 5);
    assert(speed_up_s(s) == q);
    if r == 0 {
        lemma_fundamental_div_mod_converse(5 * q, 6, s, 0);
    } else {
        lemma_fundamental_div_mod_converse(5 * q, 6, s - 1, 6 - r);
    }
}

/// Law: for bounded steps (`SMOOTHING * dt` at most `FX_ONE`) the smoothing
/// never overshoots: after a frame step, position and zoom lie between their
/// old values and the step's targets. Under fixed velocity inputs and a run
/// of small equal steps, each axis therefore converges monotonically toward
/// its target, without oscillation.
pub proof fn lemma_update_smoothing_converges(cam: CameraView, ctl: ControllerView, dt: int)
    requires
        cam.wf(),
        0 <= dt,
        SMOOTHING * dt <= FX_ONE,
    ensures
        ({
            let c2 = camera_after_update(cam, ctl, dt);
            &&& (cam.position_x <= c2.target_x ==> cam.position_x <= c2.position_x <= c2.target_x)
            &&& (c2.target_x <= cam.position_x ==> c2.target_x <= c2.position_x <= cam.position_x)
            &&& (cam.position_y <= c2.target_y ==> cam.position_y <= c2.position_y <= c2.target_y)
            &&& (c2.target_y <= cam.position_y ==> c2.target_y <= c2.position_y <= cam.position_y)
            &&& (cam.zoom <= c2.zoom_target ==> cam.zoom <= c2.zoom <= c2.zoom_target)
            &&& (c2.zoom_target <= cam.zoom ==> c2.zoom_target <= c2.zoom <= cam.zoom)
        }),
{
    let c2 = camera_after_update(cam, ctl, dt);
    let t = fx_sat(SMOOTHING * dt);
    assert(0 <= t <= FX_ONE);
    lemma_lerp_converges(cam.position_x, c2.target_x, t);
    lemma_lerp_converges(cam.position_y, c2.target_y, t);
    lemma_lerp_converges(cam.zoom, c2.zoom_target, t);
}

/// Law: the snapshot is referentially transparent. Rebuilding it twice from
/// the same camera state gives identical snapshots, because the snapshot is
/// a pure function of that state.
pub proof fn lemma_uniform_update_deterministic(
    c: CameraView,
    u1: CameraUniform,
    u2: CameraUniform,
)
    requires
        u1 == uniform_of(c),
        u2 == uniform_of(c),
    ensures
        u1 == u2,
{
}

} // verus!
