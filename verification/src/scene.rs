//! Vertices and scene generation.
//!
//! The initial scene is a ring of [`CIRCLE_POINT_COUNT`] points, evenly
//! spaced by angle on the unit circle at a fixed depth, each with a random
//! color.  A regeneration replaces the whole scene with
//! [`REGEN_POINT_COUNT`] points whose position components are uniform in
//! `[-1, 1)` and whose color components are uniform in `[0, 1)`, the alpha
//! channel always fully opaque.

use crate::fixed::FX_ONE;
use crate::trig::TWO_PI_FP;
use crate::trig::cos_fixed;
use crate::trig::sin_fixed;
use vstd::prelude::*;

verus! {

/// How many points the initial circular arrangement holds.
pub const CIRCLE_POINT_COUNT: usize = 50;

/// Depth at which the initial circle sits, in fixed-point units (0.99).
pub const CIRCLE_DEPTH_FP: i64 = 1038090;

/// How many points a regeneration produces.
pub const REGEN_POINT_COUNT: usize = 20;

/// One point of the scene: a fixed-point position and an RGBA color.
#[derive(Clone, Copy, PartialEq, Eq, Structural, Debug)]
pub struct Vertex {
    pub pos_x: i64,
    pub pos_y: i64,
    pub pos_z: i64,
    pub col_r: i64,
    pub col_g: i64,
    pub col_b: i64,
    pub col_a: i64,
}

/// The color is in the unit cube, fully opaque.
pub open spec fn color_in_unit(v: Vertex) -> bool {
    &&& 0 <= v.col_r < FX_ONE
    &&& 0 <= v.col_g < FX_ONE
    &&& 0 <= v.col_b < FX_ONE
    &&& v.col_a == FX_ONE
}

/// A regenerated vertex: position components uniform in `[-1, 1)`,
/// color in the unit cube, fully opaque.
pub open spec fn regen_vertex_ok(v: Vertex) -> bool {
    &&& -FX_ONE <= v.pos_x < FX_ONE
    &&& -FX_ONE <= v.pos_y < FX_ONE
    &&& -FX_ONE <= v.pos_z < FX_ONE
    &&& color_in_unit(v)
}

/// The angle of the `i`-th point of the initial circle: `i / count` turns.
pub open spec fn circle_angle_fx(i: int) -> int {
    (i * TWO_PI_FP) / (CIRCLE_POINT_COUNT as int)
}

/// The `i`-th point of the initial circle: on the unit circle at its angle,
/// at the fixed depth, with some color in the unit cube.
pub open spec fn circle_vertex_ok(v: Vertex, i: int) -> bool {
    &&& v.pos_x == cos_fixed(circle_angle_fx(i))
    &&& v.pos_y == sin_fixed(circle_angle_fx(i))
    &&& v.pos_z == CIRCLE_DEPTH_FP
    &&& color_in_unit(v)
}

/// Relies on rand::random_range over `lo..hi`: a sample of that half-open
/// range from the thread-local generator, which panics only when the range
/// is empty.
#[verifier::external_body]
fn sample_range(lo: i64, hi: i64) -> (r: i64)
    requires
        lo < hi,
    ensures
        lo <= r < hi,
{
    rand::random_range(lo..hi)
}

/// A freshly sampled color: each channel uniform in `[0, 1)`, alpha one.
fn random_color() -> (c: (i64, i64, i64))
    ensures
        0 <= c.0 < FX_ONE,
        0 <= c.1 < FX_ONE,
        0 <= c.2 < FX_ONE,
{
    (sample_range(0, FX_ONE), sample_range(0, FX_ONE), sample_range(0, FX_ONE))
}

/// Build the initial scene: `CIRCLE_POINT_COUNT` points evenly spaced by
/// angle around the unit circle at the fixed depth, randomly colored.
pub fn initial_scene() -> (scene: Vec<Vertex>)
    ensures
        scene@.len() == CIRCLE_POINT_COUNT,
        forall|i: int| 0 <= i < scene@.len() ==> circle_vertex_ok(#[trigger] scene@[i], i),
{
    let mut scene: Vec<Vertex> = Vec::new();
    let mut i: usize = 0;
    while i < CIRCLE_POINT_COUNT
        invariant
            i <= CIRCLE_POINT_COUNT,
            scene@.len() == i,
            forall|j: int| 0 <= j < i ==> circle_vertex_ok(#[trigger] scene@[j], j),
        decreases CIRCLE_POINT_COUNT - i,
    {
        let angle_u: u64 = ((i as u64) * (TWO_PI_FP as u64)) / (CIRCLE_POINT_COUNT as u64);
        let angle: i64 = angle_u as i64;
        let c = crate::trig::cos_fp(angle);
        let s = crate::trig::sin_fp(angle);
        let (r, g, b) = random_color();
        scene.push(
            Vertex {
                pos_x: c,
                pos_y: s,
                pos_z: CIRCLE_DEPTH_FP,
                col_r: r,
                col_g: g,
                col_b: b,
                col_a: FX_ONE,
            },
        );
        i = i + 1;
    }
    scene
}

/// Throw the scene away and refill it with `REGEN_POINT_COUNT` random
/// points: positions uniform in `[-1, 1)`, colors in the unit cube.
pub fn regenerate_scene(scene: &mut Vec<Vertex>)
    ensures
        final(scene)@.len() == REGEN_POINT_COUNT,
        forall|i: int|
            0 <= i < final(scene)@.len() ==> regen_vertex_ok(#[trigger] final(scene)@[i]),
{
    scene.clear();
    let mut i: usize = 0;
    while i < REGEN_POINT_COUNT
        invariant
            i <= REGEN_POINT_COUNT,
            scene@.len() == i,
            forall|j: int| 0 <= j < i ==> regen_vertex_ok(#[trigger] scene@[j]),
        decreases REGEN_POINT_COUNT - i,
    {
        let x = sample_range(-FX_ONE, FX_ONE);
        let y = sample_range(-FX_ONE, FX_ONE);
        let z = sample_range(-FX_ONE, FX_ONE);
        let (r, g, b) = random_color();
        scene.push(
            Vertex {
                pos_x: x,
                pos_y: y,
                pos_z: z,
                col_r: r,
                col_g: g,
                col_b: b,
                col_a: FX_ONE,
            },
        );
        i = i + 1;
    }
}

} // verus!
