//! Fixed-point cosine and sine.
//!
//! Angles are fixed-point radians.  An angle is first reduced into one turn,
//! then folded into the first quadrant, where a truncated power series gives
//! the value; the result is clamped into `[-FX_ONE, FX_ONE]`.  The spec
//! functions [`cos_fixed`] and [`sin_fixed`] pin the result down exactly, so
//! every caller's contract is a function of the angle alone.

use crate::fixed::FX_ONE;
use crate::fixed::fx_clamp_one_spec;
use vstd::arithmetic::div_mod::lemma_div_is_ordered;
use vstd::arithmetic::div_mod::lemma_fundamental_div_mod;
use vstd::arithmetic::div_mod::lemma_mod_add_multiples_vanish;
use vstd::arithmetic::div_mod::lemma_mod_multiples_vanish;
use vstd::arithmetic::div_mod::lemma_small_mod;
use vstd::arithmetic::mul::lemma_mul_upper_bound;
use vstd::prelude::*;

verus! {

/// Half a turn in fixed-point radians (an even rounding of pi).
pub const PI_FP: i64 = 3294198;

/// A quarter turn in fixed-point radians.
pub const HALF_PI_FP: i64 = 1647099;

/// One full turn in fixed-point radians.
pub const TWO_PI_FP: i64 = 6588396;

/// An angle reduced into `[0, TWO_PI_FP)`.
pub open spec fn reduce_spec(a: int) -> int {
    a % (TWO_PI_FP as int)
}

/// First-quadrant cosine: `1 - x^2/2 + x^4/24 - x^6/720`, truncated at each
/// scaling step and clamped into one unit.
pub open spec fn poly_cos_spec(x: int) -> int {
    let t = (x * x) / (FX_ONE as int);
    let t2 = (t * t) / (FX_ONE as int);
    let t3 = (t2 * t) / (FX_ONE as int);
    fx_clamp_one_spec(FX_ONE - t / 2 + t2 / 24 - t3 / 720)
}

/// First-quadrant sine: `x - x^3/6 + x^5/120 - x^7/5040`, truncated at each
/// scaling step and clamped into one unit.
pub open spec fn poly_sin_spec(x: int) -> int {
    let t = (x * x) / (FX_ONE as int);
    let x3 = (t * x) / (FX_ONE as int);
    let x5 = (x3 * t) / (FX_ONE as int);
    let x7 = (x5 * t) / (FX_ONE as int);
    fx_clamp_one_spec(x - x3 / 6 + x5 / 120 - x7 / 5040)
}

/// Cosine of a fixed-point angle, by reduction and quadrant folding.
pub open spec fn cos_fixed(a: int) -> int {
    let r = reduce_spec(a);
    if r <= HALF_PI_FP {
        poly_cos_spec(r)
    } else if r <= PI_FP {
        -poly_cos_spec(PI_FP - r)
    } else if r <= PI_FP + HALF_PI_FP {
        -poly_cos_spec(r - PI_FP)
    } else {
        poly_cos_spec(TWO_PI_FP - r)
    }
}

/// Sine of a fixed-point angle, by reduction and quadrant folding.
pub open spec fn sin_fixed(a: int) -> int {
    let r = reduce_spec(a);
    if r <= HALF_PI_FP {
        poly_sin_spec(r)
    } else if r <= PI_FP {
        poly_sin_spec(PI_FP - r)
    } else if r <= PI_FP + HALF_PI_FP {
        -poly_sin_spec(r - PI_FP)
    } else {
        -poly_sin_spec(TWO_PI_FP - r)
    }
}

/// Reduce an angle into `[0, TWO_PI_FP)`.
fn reduce_angle(a: i64) -> (r: i64)
    requires
        -0x7fffffffffffffff <= a,
    ensures
        r as int == reduce_spec(a as int),
        0 <= r < TWO_PI_FP,
{
    if a >= 0 {
        let m: u64 = (a as u64) % (TWO_PI_FP as u64);
        m as i64
    } else {
        let k: u64 = ((-a) as u64) % (TWO_PI_FP as u64);
        proof {
            let t = TWO_PI_FP as int;
            let b = -(a as int);
            lemma_fundamental_div_mod(b, t);
            // a == (-(b / t)) * t + (-(k as int))
            lemma_mod_multiples_vanish(-(b / t), -(k as int), t);
            if k == 0 {
                lemma_small_mod(0, t as nat);
            } else {
                lemma_mod_add_multiples_vanish(-(k as int), t);
                lemma_small_mod((t - k) as nat, t as nat);
            }
        }
        if k == 0 {
            0
        } else {
            (TWO_PI_FP as u64 - k) as i64
        }
    }
}

/// First-quadrant cosine on fixed-point values.
fn poly_cos(x: i64) -> (r: i64)
    requires
        0 <= x <= HALF_PI_FP,
    ensures
        r as int == poly_cos_spec(x as int),
        -FX_ONE <= r <= FX_ONE,
{
    let u = x as u64;
    proof {
        lemma_mul_upper_bound(u as int, HALF_PI_FP as int, u as int, HALF_PI_FP as int);
        lemma_div_is_ordered(
            (u * u) as int,
            (HALF_PI_FP as int) * (HALF_PI_FP as int),
            FX_ONE as int,
        );
    }
    let t: u64 = (u * u) / (FX_ONE as u64);
    proof {
        lemma_mul_upper_bound(t as int, 2600000, t as int, 2600000);
        lemma_div_is_ordered((t * t) as int, 2600000int * 2600000, FX_ONE as int);
    }
    let t2: u64 = (t * t) / (FX_ONE as u64);
    proof {
        lemma_mul_upper_bound(t2 as int, 6450000, t as int, 2600000);
        lemma_div_is_ordered((t2 * t) as int, 6450000int * 2600000, FX_ONE as int);
    }
    let t3: u64 = (t2 * t) / (FX_ONE as u64);
    let acc: i64 = FX_ONE - (t / 2) as i64 + (t2 / 24) as i64 - (t3 / 720) as i64;
    if acc > FX_ONE {
        FX_ONE
    } else if acc < -FX_ONE {
        -FX_ONE
    } else {
        acc
    }
}

/// First-quadrant sine on fixed-point values.
fn poly_sin(x: i64) -> (r: i64)
    requires
        0 <= x <= HALF_PI_FP,
    ensures
        r as int == poly_sin_spec(x as int),
        -FX_ONE <= r <= FX_ONE,
{
    let u = x as u64;
    proof {
        lemma_mul_upper_bound(u as int, HALF_PI_FP as int, u as int, HALF_PI_FP as int);
        lemma_div_is_ordered(
            (u * u) as int,
            (HALF_PI_FP as int) * (HALF_PI_FP as int),
            FX_ONE as int,
        );
    }
    let t: u64 = (u * u) / (FX_ONE as u64);
    proof {
        lemma_mul_upper_bound(t as int, 2600000, u as int, HALF_PI_FP as int);
        lemma_div_is_ordered((t * u) as int, 2600000 * (HALF_PI_FP as int), FX_ONE as int);
    }
    let x3: u64 = (t * u) / (FX_ONE as u64);
    proof {
        lemma_mul_upper_bound(x3 as int, 4100000, t as int, 2600000);
        lemma_div_is_ordered((x3 * t) as int, 4100000int * 2600000, FX_ONE as int);
    }
    let x5: u64 = (x3 * t) / (FX_ONE as u64);
    proof {
        lemma_mul_upper_bound(x5 as int, 10200000, t as int, 2600000);
        lemma_div_is_ordered((x5 * t) as int, 10200000int * 2600000, FX_ONE as int);
    }
    let x7: u64 = (x5 * t) / (FX_ONE as u64);
    let acc: i64 = (u as i64) - (x3 / 6) as i64 + (x5 / 120) as i64 - (x7 / 5040) as i64;
    if acc > FX_ONE {
        FX_ONE
    } else if acc < -FX_ONE {
        -FX_ONE
    } else {
        acc
    }
}

/// Cosine of a fixed-point angle, exact per `cos_fixed`.
pub fn cos_fp(angle_fx: i64) -> (r: i64)
    requires
        -0x7fffffffffffffff <= angle_fx,
    ensures
        r as int == cos_fixed(angle_fx as int),
        -FX_ONE <= r <= FX_ONE,
{
    let red = reduce_angle(angle_fx);
    if red <= HALF_PI_FP {
        poly_cos(red)
    } else if red <= PI_FP {
        -poly_cos(PI_FP - red)
    } else if red <= PI_FP + HALF_PI_FP {
        -poly_cos(red - PI_FP)
    } else {
        poly_cos(TWO_PI_FP - red)
    }
}

/// Sine of a fixed-point angle, exact per `sin_fixed`.
pub fn sin_fp(angle_fx: i64) -> (r: i64)
    requires
        -0x7fffffffffffffff <= angle_fx,
    ensures
        r as int == sin_fixed(angle_fx as int),
        -FX_ONE <= r <= FX_ONE,
{
    let red = reduce_angle(angle_fx);
    if red <= HALF_PI_FP {
        poly_sin(red)
    } else if red <= PI_FP {
        poly_sin(PI_FP - red)
    } else if red <= PI_FP + HALF_PI_FP {
        -poly_sin(red - PI_FP)
    } else {
        -poly_sin(TWO_PI_FP - red)
    }
}

} // verus!
