//! The orbit camera.
//!
//! The camera orbits the origin on a circle of radius [`ORBIT_RADIUS_FP`].
//! Its state keeps the raw sum of the cursor x coordinates it has seen; the
//! orbit angle in radians is that sum divided by [`CAM_SCALE`], so a cursor
//! move of `dx` turns the camera by exactly `dx / CAM_SCALE` radians.  A
//! second, fixed axis offset is carried along unchanged, as the demo never
//! reads it.

use crate::fixed::FX_ONE;
use crate::fixed::fx_mul_spec;
use crate::fixed::mag;
use crate::trig::cos_fixed;
use crate::trig::sin_fixed;
use crate::fixed::fx_mul;
use vstd::arithmetic::div_mod::lemma_div_is_ordered;
use vstd::arithmetic::mul::lemma_mul_upper_bound;
use vstd::prelude::*;

verus! {

/// Cursor units per radian of orbit: one cursor unit turns the camera by
/// `1 / CAM_SCALE` radians.
pub const CAM_SCALE: i64 = 100000;

/// Largest accumulated cursor sum the camera accepts (a machine limit: the
/// fixed-point angle derived from it must fit an `i64`).
pub const CAM_RAW_LIMIT: i64 = 8000000000000;

/// Radius of the camera's orbit around the origin, in fixed-point units.
pub const ORBIT_RADIUS_FP: i64 = 3145728;

/// Fixed offset of the camera along its secondary axis, in fixed-point units.
pub const CAM_AXIS_OFFSET_FP: i64 = -4194304;

/// The camera's persistent state.
#[derive(Clone, Copy, PartialEq, Eq, Structural, Debug)]
pub struct CameraState {
    /// Sum of all cursor x coordinates seen so far; the orbit angle in
    /// radians is this sum divided by `CAM_SCALE`.
    pub angle_raw: i64,
    /// Offset along the secondary axis; never changed by any event.
    pub axis_offset: i64,
}

/// The accumulated cursor sum turned into a fixed-point angle:
/// `raw * FX_ONE / CAM_SCALE`, truncated toward zero.
pub open spec fn angle_fx_spec(raw: int) -> int {
    if raw < 0 {
        -((mag(raw) * FX_ONE) / (CAM_SCALE as int))
    } else {
        (mag(raw) * FX_ONE) / (CAM_SCALE as int)
    }
}

impl CameraState {
    /// The state is within the machine limit on accumulated cursor motion.
    pub open spec fn wf(self) -> bool {
        mag(self.angle_raw as int) <= CAM_RAW_LIMIT
    }

    /// The camera's initial state: angle zero, the fixed axis offset.
    pub fn start() -> (c: CameraState)
        ensures
            c.angle_raw == 0,
            c.axis_offset == CAM_AXIS_OFFSET_FP,
            c.wf(),
    {
        CameraState { angle_raw: 0, axis_offset: CAM_AXIS_OFFSET_FP }
    }
}

/// Fold one cursor position into the camera: the x coordinate joins the
/// accumulated sum (turning the camera by `cursor_x / CAM_SCALE` radians),
/// the y coordinate is ignored, the axis offset is kept.
pub fn move_camera(cam: &CameraState, cursor_x: i64, _cursor_y: i64) -> (c: CameraState)
    requires
        cam.wf(),
        mag(cam.angle_raw + cursor_x) <= CAM_RAW_LIMIT,
    ensures
        c.angle_raw == cam.angle_raw + cursor_x,
        c.axis_offset == cam.axis_offset,
        c.wf(),
{
    CameraState { angle_raw: cam.angle_raw + cursor_x, axis_offset: cam.axis_offset }
}

/// The camera's fixed-point orbit angle, exact per `angle_fx_spec`.
pub fn camera_angle_fx(cam: &CameraState) -> (a: i64)
    requires
        cam.wf(),
    ensures
        a as int == angle_fx_spec(cam.angle_raw as int),
        mag(a as int) <= 84000000000000,
{
    let raw = cam.angle_raw;
    let m: u64 = if raw < 0 {
        (-raw) as u64
    } else {
        raw as u64
    };
    proof {
        lemma_mul_upper_bound(m as int, CAM_RAW_LIMIT as int, FX_ONE as int, FX_ONE as int);
        lemma_div_is_ordered(
            (m * (FX_ONE as u64)) as int,
            (CAM_RAW_LIMIT as int) * (FX_ONE as int),
            CAM_SCALE as int,
        );
    }
    let q: u64 = (m * (FX_ONE as u64)) / (CAM_SCALE as u64);
    if raw < 0 {
        -(q as i64)
    } else {
        q as i64
    }
}

/// Where the camera stands: `(cos(angle) * R, 0, sin(angle) * R)` on its
/// orbit circle, in fixed-point units.
pub fn camera_eye(cam: &CameraState) -> (e: (i64, i64, i64))
    requires
        cam.wf(),
    ensures
        e.0 as int == fx_mul_spec(
            cos_fixed(angle_fx_spec(cam.angle_raw as int)),
            ORBIT_RADIUS_FP as int,
        ),
        e.1 == 0,
        e.2 as int == fx_mul_spec(
            sin_fixed(angle_fx_spec(cam.angle_raw as int)),
            ORBIT_RADIUS_FP as int,
        ),
{
    let angle = camera_angle_fx(cam);
    let c = crate::trig::cos_fp(angle);
    let s = crate::trig::sin_fp(angle);
    let x = fx_mul(c, ORBIT_RADIUS_FP);
    let z = fx_mul(s, ORBIT_RADIUS_FP);
    (x, 0, z)
}

/// The angle a cursor sum yields grows with the sum: more rightward cursor
/// motion never turns the camera backward.
pub proof fn lemma_angle_fx_monotone(raw1: int, raw2: int)
    requires
        raw1 <= raw2,
    ensures
        angle_fx_spec(raw1) <= angle_fx_spec(raw2),
{
    if 0 <= raw1 {
        lemma_div_is_ordered(mag(raw1) * FX_ONE, mag(raw2) * FX_ONE, CAM_SCALE as int);
    } else if raw2 < 0 {
        lemma_div_is_ordered(mag(raw2) * FX_ONE, mag(raw1) * FX_ONE, CAM_SCALE as int);
    } else {
        vstd::arithmetic::mul::lemma_mul_nonnegative(mag(raw1), FX_ONE as int);
        vstd::arithmetic::mul::lemma_mul_nonnegative(mag(raw2), FX_ONE as int);
        vstd::arithmetic::div_mod::lemma_div_pos_is_pos(mag(raw1) * FX_ONE, CAM_SCALE as int);
        vstd::arithmetic::div_mod::lemma_div_pos_is_pos(mag(raw2) * FX_ONE, CAM_SCALE as int);
    }
}

} // verus!
