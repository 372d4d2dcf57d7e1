//! Signed fixed-point scalars.
//!
//! A scalar holds its real value times [`FX_ONE`].  Multiplication and
//! division are carried out on unsigned magnitudes, so their results are
//! pinned down exactly by the spec functions [`fx_mul_spec`] and
//! [`fx_div_spec`] (truncation is always toward zero).

use vstd::arithmetic::div_mod::lemma_div_is_ordered;
use vstd::arithmetic::mul::lemma_mul_upper_bound;
use vstd::prelude::*;

verus! {

/// One unit of the fixed-point scale: a scalar holds its real value times this.
pub const FX_ONE: i64 = 1048576;

/// One half in fixed-point form.
pub const FX_HALF: i64 = 524288;

/// Largest magnitude product that `fx_mul` accepts (fits a `u64` with room).
pub const FX_PRODUCT_LIMIT: i64 = 4611686018427387904;

/// Largest dividend magnitude that `fx_div` accepts: scaled by `FX_ONE` it
/// still fits an `i64`, so every quotient is representable.
pub const FX_DIVIDEND_LIMIT: i64 = 4000000000000;

/// Magnitude of an integer.
pub open spec fn mag(x: int) -> int {
    if x < 0 {
        -x
    } else {
        x
    }
}

/// Fixed-point product: the magnitudes are multiplied, scaled down by
/// `FX_ONE` rounding toward zero, and the sign is reapplied.
pub open spec fn fx_mul_spec(a: int, b: int) -> int {
    if (a < 0) == (b < 0) {
        (mag(a) * mag(b)) / (FX_ONE as int)
    } else {
        -((mag(a) * mag(b)) / (FX_ONE as int))
    }
}

/// Fixed-point quotient: the dividend magnitude is scaled up by `FX_ONE`,
/// divided rounding toward zero, and the sign is reapplied.
pub open spec fn fx_div_spec(a: int, b: int) -> int {
    if (a < 0) == (b < 0) {
        (mag(a) * FX_ONE) / mag(b)
    } else {
        -((mag(a) * FX_ONE) / mag(b))
    }
}

/// Clamp a scalar into `[-FX_ONE, FX_ONE]`.
pub open spec fn fx_clamp_one_spec(v: int) -> int {
    if v > FX_ONE {
        FX_ONE as int
    } else if v < -FX_ONE {
        -FX_ONE as int
    } else {
        v
    }
}

/// The magnitude of a fixed-point product is the scaled-down product of the
/// magnitudes, which two factor bounds bound in turn.
pub proof fn lemma_fx_mul_bound(a: int, b: int, bound_a: int, bound_b: int)
    requires
        mag(a) <= bound_a,
        mag(b) <= bound_b,
    ensures
        mag(fx_mul_spec(a, b)) == mag(a) * mag(b) / (FX_ONE as int),
        mag(a) * mag(b) <= bound_a * bound_b,
        mag(fx_mul_spec(a, b)) <= bound_a * bound_b / (FX_ONE as int),
{
    lemma_mul_upper_bound(mag(a), bound_a, mag(b), bound_b);
    lemma_div_is_ordered(mag(a) * mag(b), bound_a * bound_b, FX_ONE as int);
}

/// Fixed-point multiplication on `i64`, exact per `fx_mul_spec`.
pub fn fx_mul(a: i64, b: i64) -> (r: i64)
    requires
        mag(a as int) <= FX_PRODUCT_LIMIT,
        mag(b as int) <= FX_PRODUCT_LIMIT,
        mag(a as int) * mag(b as int) <= FX_PRODUCT_LIMIT,
    ensures
        r as int == fx_mul_spec(a as int, b as int),
{
    let am: u64 = if a < 0 {
        (-a) as u64
    } else {
        a as u64
    };
    let bm: u64 = if b < 0 {
        (-b) as u64
    } else {
        b as u64
    };
    let q: u64 = (am * bm) / (FX_ONE as u64);
    proof {
        lemma_div_is_ordered(
            (am * bm) as int,
            FX_PRODUCT_LIMIT as int,
            FX_ONE as int,
        );
    }
    if (a < 0) == (b < 0) {
        q as i64
    } else {
        -(q as i64)
    }
}

/// Fixed-point division on `i64`, exact per `fx_div_spec`.
pub fn fx_div(a: i64, b: i64) -> (r: i64)
    requires
        b != 0,
        mag(a as int) <= FX_DIVIDEND_LIMIT,
    ensures
        r as int == fx_div_spec(a as int, b as int),
{
    let am: u64 = if a < 0 {
        (-a) as u64
    } else {
        a as u64
    };
    let bm: u64 = if b == i64::MIN {
        9223372036854775808u64
    } else if b < 0 {
        (-b) as u64
    } else {
        b as u64
    };
    proof {
        lemma_mul_upper_bound(
            am as int,
            FX_DIVIDEND_LIMIT as int,
            FX_ONE as int,
            FX_ONE as int,
        );
    }
    let q: u64 = (am * (FX_ONE as u64)) / bm;
    proof {
        lemma_div_is_ordered(
            (am * (FX_ONE as u64)) as int,
            (FX_DIVIDEND_LIMIT as int) * (FX_ONE as int),
            bm as int,
        );
    }
    if (a < 0) == (b < 0) {
        q as i64
    } else {
        -(q as i64)
    }
}

} // verus!
