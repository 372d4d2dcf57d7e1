//! 4x4 fixed-point matrices and the transform builder.
//!
//! A [`Mat4`] is named by column then row (`cCrR` is column `C`, row `R`),
//! matching the column-major layout the graphics backend's uniform buffer
//! expects.  [`build_transform`] composes, in this order, the depth
//! convention fix, a perspective projection with a 90-degree vertical field
//! of view, and the orbit camera's look-at view; its result is pinned down
//! exactly by [`transform_spec`].

use crate::camera::CameraState;
use crate::camera::ORBIT_RADIUS_FP;
use crate::camera::angle_fx_spec;
use crate::error::RenderError;
use crate::fixed::FX_HALF;
use crate::fixed::FX_ONE;
use crate::fixed::FX_PRODUCT_LIMIT;
use crate::fixed::fx_div;
use crate::fixed::fx_div_spec;
use crate::fixed::fx_mul;
use crate::fixed::fx_mul_spec;
use crate::fixed::lemma_fx_mul_bound;
use crate::fixed::mag;
use crate::trig::cos_fixed;
use crate::trig::sin_fixed;
use vstd::arithmetic::div_mod::lemma_div_is_ordered;
use vstd::prelude::*;

verus! {

/// Near clipping plane of the projection, in fixed-point units (0.01).
pub const NEAR_FP: i64 = 10486;

/// Far clipping plane of the projection, in fixed-point units (1000).
pub const FAR_FP: i64 = 1048576000;

/// Every entry of a perspective matrix fits this magnitude: the leading
/// entry peaks at `FX_ONE * FX_ONE` when the aspect ratio is one single
/// fixed-point unit, the smallest positive value it can take.
pub const PERSP_BOUND: i64 = 1099511627776;

/// Every entry of an orbit view matrix fits this magnitude.
pub const VIEW_BOUND: i64 = 4194304;

/// Every entry of the projection-view product fits this magnitude (see
/// `lemma_pv_bounded`).
pub const PV_BOUND: i64 = 2199023255552;

/// A 4x4 fixed-point matrix, named column-major: `cCrR` is column `C`,
/// row `R`.
#[derive(Clone, Copy, PartialEq, Eq, Structural, Debug)]
pub struct Mat4 {
    pub c0r0: i64,
    pub c0r1: i64,
    pub c0r2: i64,
    pub c0r3: i64,
    pub c1r0: i64,
    pub c1r1: i64,
    pub c1r2: i64,
    pub c1r3: i64,
    pub c2r0: i64,
    pub c2r1: i64,
    pub c2r2: i64,
    pub c2r3: i64,
    pub c3r0: i64,
    pub c3r1: i64,
    pub c3r2: i64,
    pub c3r3: i64,
}

/// The mathematical image of a `Mat4`, over unbounded integers.
pub ghost struct MatSpec {
    pub c0r0: int,
    pub c0r1: int,
    pub c0r2: int,
    pub c0r3: int,
    pub c1r0: int,
    pub c1r1: int,
    pub c1r2: int,
    pub c1r3: int,
    pub c2r0: int,
    pub c2r1: int,
    pub c2r2: int,
    pub c2r3: int,
    pub c3r0: int,
    pub c3r1: int,
    pub c3r2: int,
    pub c3r3: int,
}

/// A matrix as its mathematical image.
pub open spec fn mat_view(m: Mat4) -> MatSpec {
    MatSpec {
        c0r0: m.c0r0 as int,
        c0r1: m.c0r1 as int,
        c0r2: m.c0r2 as int,
        c0r3: m.c0r3 as int,
        c1r0: m.c1r0 as int,
        c1r1: m.c1r1 as int,
        c1r2: m.c1r2 as int,
        c1r3: m.c1r3 as int,
        c2r0: m.c2r0 as int,
        c2r1: m.c2r1 as int,
        c2r2: m.c2r2 as int,
        c2r3: m.c2r3 as int,
        c3r0: m.c3r0 as int,
        c3r1: m.c3r1 as int,
        c3r2: m.c3r2 as int,
        c3r3: m.c3r3 as int,
    }
}

/// Every entry of the matrix fits the given magnitude.
pub open spec fn mat_bounded(m: MatSpec, bound: int) -> bool {
    &&& mag(m.c0r0) <= bound
    &&& mag(m.c0r1) <= bound
    &&& mag(m.c0r2) <= bound
    &&& mag(m.c0r3) <= bound
    &&& mag(m.c1r0) <= bound
    &&& mag(m.c1r1) <= bound
    &&& mag(m.c1r2) <= bound
    &&& mag(m.c1r3) <= bound
    &&& mag(m.c2r0) <= bound
    &&& mag(m.c2r1) <= bound
    &&& mag(m.c2r2) <= bound
    &&& mag(m.c2r3) <= bound
    &&& mag(m.c3r0) <= bound
    &&& mag(m.c3r1) <= bound
    &&& mag(m.c3r2) <= bound
    &&& mag(m.c3r3) <= bound
}

/// One entry of a matrix product: the row of the left factor against the
/// column of the right one.
pub open spec fn mul_entry_spec(
    x0: int,
    x1: int,
    x2: int,
    x3: int,
    y0: int,
    y1: int,
    y2: int,
    y3: int,
) -> int {
    fx_mul_spec(x0, y0) + fx_mul_spec(x1, y1) + fx_mul_spec(x2, y2) + fx_mul_spec(x3, y3)
}

/// The fixed-point matrix product.
pub open spec fn mat_mul_spec(a: MatSpec, b: MatSpec) -> MatSpec {
    MatSpec {
        c0r0: mul_entry_spec(a.c0r0, a.c1r0, a.c2r0, a.c3r0, b.c0r0, b.c0r1, b.c0r2, b.c0r3),
        c0r1: mul_entry_spec(a.c0r1, a.c1r1, a.c2r1, a.c3r1, b.c0r0, b.c0r1, b.c0r2, b.c0r3),
        c0r2: mul_entry_spec(a.c0r2, a.c1r2, a.c2r2, a.c3r2, b.c0r0, b.c0r1, b.c0r2, b.c0r3),
        c0r3: mul_entry_spec(a.c0r3, a.c1r3, a.c2r3, a.c3r3, b.c0r0, b.c0r1, b.c0r2, b.c0r3),
        c1r0: mul_entry_spec(a.c0r0, a.c1r0, a.c2r0, a.c3r0, b.c1r0, b.c1r1, b.c1r2, b.c1r3),
        c1r1: mul_entry_spec(a.c0r1, a.c1r1, a.c2r1, a.c3r1, b.c1r0, b.c1r1, b.c1r2, b.c1r3),
        c1r2: mul_entry_spec(a.c0r2, a.c1r2, a.c2r2, a.c3r2, b.c1r0, b.c1r1, b.c1r2, b.c1r3),
        c1r3: mul_entry_spec(a.c0r3, a.c1r3, a.c2r3, a.c3r3, b.c1r0, b.c1r1, b.c1r2, b.c1r3),
        c2r0: mul_entry_spec(a.c0r0, a.c1r0, a.c2r0, a.c3r0, b.c2r0, b.c2r1, b.c2r2, b.c2r3),
        c2r1: mul_entry_spec(a.c0r1, a.c1r1, a.c2r1, a.c3r1, b.c2r0, b.c2r1, b.c2r2, b.c2r3),
        c2r2: mul_entry_spec(a.c0r2, a.c1r2, a.c2r2, a.c3r2, b.c2r0, b.c2r1, b.c2r2, b.c2r3),
        c2r3: mul_entry_spec(a.c0r3, a.c1r3, a.c2r3, a.c3r3, b.c2r0, b.c2r1, b.c2r2, b.c2r3),
        c3r0: mul_entry_spec(a.c0r0, a.c1r0, a.c2r0, a.c3r0, b.c3r0, b.c3r1, b.c3r2, b.c3r3),
        c3r1: mul_entry_spec(a.c0r1, a.c1r1, a.c2r1, a.c3r1, b.c3r0, b.c3r1, b.c3r2, b.c3r3),
        c3r2: mul_entry_spec(a.c0r2, a.c1r2, a.c2r2, a.c3r2, b.c3r0, b.c3r1, b.c3r2, b.c3r3),
        c3r3: mul_entry_spec(a.c0r3, a.c1r3, a.c2r3, a.c3r3, b.c3r0, b.c3r1, b.c3r2, b.c3r3),
    }
}

/// One entry of a matrix product, with magnitude bounds carried as ghost
/// arguments so the sums cannot overflow.
fn mul_entry(
    x0: i64,
    x1: i64,
    x2: i64,
    x3: i64,
    y0: i64,
    y1: i64,
    y2: i64,
    y3: i64,
    bnd: Ghost<(int, int)>,
) -> (r: i64)
    requires
        0 <= bnd@.0 <= FX_PRODUCT_LIMIT,
        0 <= bnd@.1 <= FX_PRODUCT_LIMIT,
        bnd@.0 * bnd@.1 <= FX_PRODUCT_LIMIT,
        mag(x0 as int) <= bnd@.0,
        mag(x1 as int) <= bnd@.0,
        mag(x2 as int) <= bnd@.0,
        mag(x3 as int) <= bnd@.0,
        mag(y0 as int) <= bnd@.1,
        mag(y1 as int) <= bnd@.1,
        mag(y2 as int) <= bnd@.1,
        mag(y3 as int) <= bnd@.1,
    ensures
        r as int == mul_entry_spec(
            x0 as int,
            x1 as int,
            x2 as int,
            x3 as int,
            y0 as int,
            y1 as int,
            y2 as int,
            y3 as int,
        ),
        mag(r as int) <= 4 * (bnd@.0 * bnd@.1 / (FX_ONE as int)),
{
    proof {
        lemma_fx_mul_bound(x0 as int, y0 as int, bnd@.0, bnd@.1);
        lemma_fx_mul_bound(x1 as int, y1 as int, bnd@.0, bnd@.1);
        lemma_fx_mul_bound(x2 as int, y2 as int, bnd@.0, bnd@.1);
        lemma_fx_mul_bound(x3 as int, y3 as int, bnd@.0, bnd@.1);
        lemma_div_is_ordered(bnd@.0 * bnd@.1, FX_PRODUCT_LIMIT as int, FX_ONE as int);
    }
    let p0 = fx_mul(x0, y0);
    let p1 = fx_mul(x1, y1);
    let p2 = fx_mul(x2, y2);
    let p3 = fx_mul(x3, y3);
    p0 + p1 + p2 + p3
}

/// The fixed-point matrix product, exact per `mat_mul_spec`; the ghost
/// bounds certify that no entry computation can overflow.
pub fn mat_mul(a: &Mat4, b: &Mat4, bnd: Ghost<(int, int)>) -> (r: Mat4)
    requires
        0 <= bnd@.0 <= FX_PRODUCT_LIMIT,
        0 <= bnd@.1 <= FX_PRODUCT_LIMIT,
        bnd@.0 * bnd@.1 <= FX_PRODUCT_LIMIT,
        mat_bounded(mat_view(*a), bnd@.0),
        mat_bounded(mat_view(*b), bnd@.1),
    ensures
        mat_view(r) == mat_mul_spec(mat_view(*a), mat_view(*b)),
        mat_bounded(mat_view(r), 4 * (bnd@.0 * bnd@.1 / (FX_ONE as int))),
{
    Mat4 {
        c0r0: mul_entry(a.c0r0, a.c1r0, a.c2r0, a.c3r0, b.c0r0, b.c0r1, b.c0r2, b.c0r3, bnd),
        c0r1: mul_entry(a.c0r1, a.c1r1, a.c2r1, a.c3r1, b.c0r0, b.c0r1, b.c0r2, b.c0r3, bnd),
        c0r2: mul_entry(a.c0r2, a.c1r2, a.c2r2, a.c3r2, b.c0r0, b.c0r1, b.c0r2, b.c0r3, bnd),
        c0r3: mul_entry(a.c0r3, a.c1r3, a.c2r3, a.c3r3, b.c0r0, b.c0r1, b.c0r2, b.c0r3, bnd),
        c1r0: mul_entry(a.c0r0, a.c1r0, a.c2r0, a.c3r0, b.c1r0, b.c1r1, b.c1r2, b.c1r3, bnd),
        c1r1: mul_entry(a.c0r1, a.c1r1, a.c2r1, a.c3r1, b.c1r0, b.c1r1, b.c1r2, b.c1r3, bnd),
        c1r2: mul_entry(a.c0r2, a.c1r2, a.c2r2, a.c3r2, b.c1r0, b.c1r1, b.c1r2, b.c1r3, bnd),
        c1r3: mul_entry(a.c0r3, a.c1r3, a.c2r3, a.c3r3, b.c1r0, b.c1r1, b.c1r2, b.c1r3, bnd),
        c2r0: mul_entry(a.c0r0, a.c1r0, a.c2r0, a.c3r0, b.c2r0, b.c2r1, b.c2r2, b.c2r3, bnd),
        c2r1: mul_entry(a.c0r1, a.c1r1, a.c2r1, a.c3r1, b.c2r0, b.c2r1, b.c2r2, b.c2r3, bnd),
        c2r2: mul_entry(a.c0r2, a.c1r2, a.c2r2, a.c3r2, b.c2r0, b.c2r1, b.c2r2, b.c2r3, bnd),
        c2r3: mul_entry(a.c0r3, a.c1r3, a.c2r3, a.c3r3, b.c2r0, b.c2r1, b.c2r2, b.c2r3, bnd),
        c3r0: mul_entry(a.c0r0, a.c1r0, a.c2r0, a.c3r0, b.c3r0, b.c3r1, b.c3r2, b.c3r3, bnd),
        c3r1: mul_entry(a.c0r1, a.c1r1, a.c2r1, a.c3r1, b.c3r0, b.c3r1, b.c3r2, b.c3r3, bnd),
        c3r2: mul_entry(a.c0r2, a.c1r2, a.c2r2, a.c3r2, b.c3r0, b.c3r1, b.c3r2, b.c3r3, bnd),
        c3r3: mul_entry(a.c0r3, a.c1r3, a.c2r3, a.c3r3, b.c3r0, b.c3r1, b.c3r2, b.c3r3, bnd),
    }
}

/// The depth-convention fix: identity on x and y, depth remapped from the
/// `[-1, 1]` convention to `[0, 1]` by `z' = z/2 + w/2`.
pub open spec fn conv_spec() -> MatSpec {
    MatSpec {
        c0r0: FX_ONE as int,
        c0r1: 0,
        c0r2: 0,
        c0r3: 0,
        c1r0: 0,
        c1r1: FX_ONE as int,
        c1r2: 0,
        c1r3: 0,
        c2r0: 0,
        c2r1: 0,
        c2r2: FX_HALF as int,
        c2r3: 0,
        c3r0: 0,
        c3r1: 0,
        c3r2: FX_HALF as int,
        c3r3: FX_ONE as int,
    }
}

/// The depth-convention fix as a value.
pub fn depth_convention_matrix() -> (m: Mat4)
    ensures
        mat_view(m) == conv_spec(),
        mat_bounded(mat_view(m), FX_ONE as int),
{
    Mat4 {
        c0r0: FX_ONE,
        c0r1: 0,
        c0r2: 0,
        c0r3: 0,
        c1r0: 0,
        c1r1: FX_ONE,
        c1r2: 0,
        c1r3: 0,
        c2r0: 0,
        c2r1: 0,
        c2r2: FX_HALF,
        c2r3: 0,
        c3r0: 0,
        c3r1: 0,
        c3r2: FX_HALF,
        c3r3: FX_ONE,
    }
}

/// The perspective projection for a 90-degree vertical field of view (whose
/// focal scale is exactly one), the aspect ratio exactly as given, and the
/// fixed near and far planes.
pub open spec fn persp_spec(aspect_fx: int) -> MatSpec {
    MatSpec {
        c0r0: fx_div_spec(FX_ONE as int, aspect_fx),
        c0r1: 0,
        c0r2: 0,
        c0r3: 0,
        c1r0: 0,
        c1r1: FX_ONE as int,
        c1r2: 0,
        c1r3: 0,
        c2r0: 0,
        c2r1: 0,
        c2r2: fx_div_spec((FAR_FP + NEAR_FP) as int, (NEAR_FP - FAR_FP) as int),
        c2r3: -FX_ONE as int,
        c3r0: 0,
        c3r1: 0,
        c3r2: fx_div_spec(
            2 * fx_mul_spec(FAR_FP as int, NEAR_FP as int),
            (NEAR_FP - FAR_FP) as int,
        ),
        c3r3: 0,
    }
}

/// The perspective projection as a value, exact per `persp_spec`.
pub fn perspective_matrix(aspect_fx: i64) -> (m: Mat4)
    requires
        aspect_fx > 0,
    ensures
        mat_view(m) == persp_spec(aspect_fx as int),
        mat_bounded(mat_view(m), PERSP_BOUND as int),
{
    proof {
        vstd::arithmetic::div_mod::lemma_div_nonincreasing(
            (FX_ONE as int) * (FX_ONE as int),
            aspect_fx as int,
        );
        vstd::arithmetic::div_mod::lemma_div_pos_is_pos(
            (FX_ONE as int) * (FX_ONE as int),
            aspect_fx as int,
        );
    }
    let lead = fx_div(FX_ONE, aspect_fx);
    let depth_scale = fx_div(FAR_FP + NEAR_FP, NEAR_FP - FAR_FP);
    let far_near = fx_mul(FAR_FP, NEAR_FP);
    let depth_offset = fx_div(2 * far_near, NEAR_FP - FAR_FP);
    Mat4 {
        c0r0: lead,
        c0r1: 0,
        c0r2: 0,
        c0r3: 0,
        c1r0: 0,
        c1r1: FX_ONE,
        c1r2: 0,
        c1r3: 0,
        c2r0: 0,
        c2r1: 0,
        c2r2: depth_scale,
        c2r3: -FX_ONE,
        c3r0: 0,
        c3r1: 0,
        c3r2: depth_offset,
        c3r3: 0,
    }
}

/// The orbit camera's look-at view: the camera stands at
/// `(cos * R, 0, sin * R)`, looks at the origin, and keeps the vertical axis
/// up, which reduces to this rotation and a depth translation by `-R`.
pub open spec fn orbit_view_spec(cos_fx: int, sin_fx: int) -> MatSpec {
    MatSpec {
        c0r0: sin_fx,
        c0r1: 0,
        c0r2: cos_fx,
        c0r3: 0,
        c1r0: 0,
        c1r1: FX_ONE as int,
        c1r2: 0,
        c1r3: 0,
        c2r0: -cos_fx,
        c2r1: 0,
        c2r2: sin_fx,
        c2r3: 0,
        c3r0: 0,
        c3r1: 0,
        c3r2: -ORBIT_RADIUS_FP as int,
        c3r3: FX_ONE as int,
    }
}

/// The orbit view as a value, exact per `orbit_view_spec`.
pub fn orbit_view_matrix(cos_fx: i64, sin_fx: i64) -> (m: Mat4)
    requires
        -FX_ONE <= cos_fx <= FX_ONE,
        -FX_ONE <= sin_fx <= FX_ONE,
    ensures
        mat_view(m) == orbit_view_spec(cos_fx as int, sin_fx as int),
        mat_bounded(mat_view(m), VIEW_BOUND as int),
{
    Mat4 {
        c0r0: sin_fx,
        c0r1: 0,
        c0r2: cos_fx,
        c0r3: 0,
        c1r0: 0,
        c1r1: FX_ONE,
        c1r2: 0,
        c1r3: 0,
        c2r0: -cos_fx,
        c2r1: 0,
        c2r2: sin_fx,
        c2r3: 0,
        c3r0: 0,
        c3r1: 0,
        c3r2: -ORBIT_RADIUS_FP,
        c3r3: FX_ONE,
    }
}


/// Every entry of the projection-view product fits `PV_BOUND`: in each
/// product entry the projection's one large factor (the leading entry, at
/// most `FX_ONE * FX_ONE`) meets only unit-bounded view entries, and every
/// other factor is small.
pub proof fn lemma_pv_bounded(aspect_fx: int, cos_fx: int, sin_fx: int)
    requires
        aspect_fx >= 1,
        mag(cos_fx) <= FX_ONE,
        mag(sin_fx) <= FX_ONE,
    ensures
        mat_bounded(
            mat_mul_spec(persp_spec(aspect_fx), orbit_view_spec(cos_fx, sin_fx)),
            PV_BOUND as int,
        ),
{
    let p = persp_spec(aspect_fx);
    let v = orbit_view_spec(cos_fx, sin_fx);
    let lead_max = (FX_ONE as int) * (FX_ONE as int);
    vstd::arithmetic::div_mod::lemma_div_nonincreasing(lead_max, aspect_fx);
    vstd::arithmetic::div_mod::lemma_div_pos_is_pos(lead_max, aspect_fx);
    assert(mag(p.c0r0) <= lead_max);
    assert((1048586486int * 1048576) / 1048565514 == 1048596) by (nonlinear_arith);
    assert(mag(p.c2r2) <= 2 * FX_ONE);
    assert((1048576000int * 10486) / 1048576 == 10486000) by (nonlinear_arith);
    assert(fx_mul_spec(FAR_FP as int, NEAR_FP as int) == 10486000);
    assert((20972000int * 1048576) / 1048565514 == 20972) by (nonlinear_arith);
    assert(mag(p.c3r2) <= FX_ONE);
    // Row 0 of the product: only the leading entry contributes, against the
    // view's unit-bounded first row.
    lemma_fx_mul_bound(p.c0r0, v.c0r0, lead_max, FX_ONE as int);
    lemma_fx_mul_bound(p.c0r0, v.c1r0, lead_max, FX_ONE as int);
    lemma_fx_mul_bound(p.c0r0, v.c2r0, lead_max, FX_ONE as int);
    lemma_fx_mul_bound(p.c0r0, v.c3r0, lead_max, FX_ONE as int);
    // Row 1: the unit diagonal against the view's unit-bounded second row.
    lemma_fx_mul_bound(p.c1r1, v.c0r1, FX_ONE as int, FX_ONE as int);
    lemma_fx_mul_bound(p.c1r1, v.c1r1, FX_ONE as int, FX_ONE as int);
    lemma_fx_mul_bound(p.c1r1, v.c2r1, FX_ONE as int, FX_ONE as int);
    lemma_fx_mul_bound(p.c1r1, v.c3r1, FX_ONE as int, FX_ONE as int);
    // Row 2: the two depth entries against the view's depth and w rows; the
    // view's depth row holds at most the orbit radius.
    lemma_fx_mul_bound(p.c2r2, v.c0r2, 2 * FX_ONE as int, ORBIT_RADIUS_FP as int);
    lemma_fx_mul_bound(p.c2r2, v.c1r2, 2 * FX_ONE as int, ORBIT_RADIUS_FP as int);
    lemma_fx_mul_bound(p.c2r2, v.c2r2, 2 * FX_ONE as int, ORBIT_RADIUS_FP as int);
    lemma_fx_mul_bound(p.c2r2, v.c3r2, 2 * FX_ONE as int, ORBIT_RADIUS_FP as int);
    lemma_fx_mul_bound(p.c3r2, v.c0r3, FX_ONE as int, FX_ONE as int);
    lemma_fx_mul_bound(p.c3r2, v.c1r3, FX_ONE as int, FX_ONE as int);
    lemma_fx_mul_bound(p.c3r2, v.c2r3, FX_ONE as int, FX_ONE as int);
    lemma_fx_mul_bound(p.c3r2, v.c3r3, FX_ONE as int, FX_ONE as int);
    // Row 3: minus one against the view's depth row.
    lemma_fx_mul_bound(p.c2r3, v.c0r2, FX_ONE as int, ORBIT_RADIUS_FP as int);
    lemma_fx_mul_bound(p.c2r3, v.c1r2, FX_ONE as int, ORBIT_RADIUS_FP as int);
    lemma_fx_mul_bound(p.c2r3, v.c2r2, FX_ONE as int, ORBIT_RADIUS_FP as int);
    lemma_fx_mul_bound(p.c2r3, v.c3r2, FX_ONE as int, ORBIT_RADIUS_FP as int);
}

/// The full transform for an aspect ratio and a camera: the depth convention
/// fix times the perspective projection times the orbit view.
pub open spec fn transform_spec(aspect_fx: int, angle_raw: int) -> MatSpec {
    let ang = angle_fx_spec(angle_raw);
    mat_mul_spec(
        conv_spec(),
        mat_mul_spec(persp_spec(aspect_fx), orbit_view_spec(cos_fixed(ang), sin_fixed(ang))),
    )
}

/// Build the projection-view transform for one frame.  A non-positive aspect
/// ratio is refused; every positive one yields exactly `transform_spec`.
pub fn build_transform(aspect_fx: i64, camera: &CameraState) -> (res: Result<
    Mat4,
    RenderError,
>)
    requires
        camera.wf(),
    ensures
        res is Err <==> aspect_fx <= 0,
        res matches Err(e) ==> e == RenderError::InvalidAspectRatio,
        res matches Ok(m) ==> mat_view(m) == transform_spec(
            aspect_fx as int,
            camera.angle_raw as int,
        ),
{
    if aspect_fx <= 0 {
        return Err(RenderError::InvalidAspectRatio);
    }
    let angle = crate::camera::camera_angle_fx(camera);
    let c = crate::trig::cos_fp(angle);
    let s = crate::trig::sin_fp(angle);
    let projection = perspective_matrix(aspect_fx);
    let view = orbit_view_matrix(c, s);
    let pv = mat_mul(&projection, &view, Ghost((PERSP_BOUND as int, VIEW_BOUND as int)));
    proof {
        lemma_pv_bounded(aspect_fx as int, c as int, s as int);
    }
    let conv = depth_convention_matrix();
    let total = mat_mul(&conv, &pv, Ghost((FX_ONE as int, PV_BOUND as int)));
    Ok(total)
}

/// Flatten a matrix into the 16-value column-major layout the backend's
/// uniform buffer expects.
pub fn matrix_columns(m: &Mat4) -> (v: Vec<i64>)
    ensures
        v@ =~= seq![
            m.c0r0,
            m.c0r1,
            m.c0r2,
            m.c0r3,
            m.c1r0,
            m.c1r1,
            m.c1r2,
            m.c1r3,
            m.c2r0,
            m.c2r1,
            m.c2r2,
            m.c2r3,
            m.c3r0,
            m.c3r1,
            m.c3r2,
            m.c3r3,
        ],
{
    let mut v: Vec<i64> = Vec::new();
    v.push(m.c0r0);
    v.push(m.c0r1);
    v.push(m.c0r2);
    v.push(m.c0r3);
    v.push(m.c1r0);
    v.push(m.c1r1);
    v.push(m.c1r2);
    v.push(m.c1r3);
    v.push(m.c2r0);
    v.push(m.c2r1);
    v.push(m.c2r2);
    v.push(m.c2r3);
    v.push(m.c3r0);
    v.push(m.c3r1);
    v.push(m.c3r2);
    v.push(m.c3r3);
    v
}

/// Law: every transform the builder yields carries the fixed depth remap.
/// The convention factor's two depth entries are exactly one half, and each
/// depth-row entry of the composed transform is the half-scaled sum of the
/// projection-view matrix's depth and w entries in that column.
pub proof fn lemma_depth_remap(aspect_fx: int, angle_raw: int)
    ensures
        conv_spec().c2r2 == FX_HALF,
        conv_spec().c3r2 == FX_HALF,
        ({
            let ang = angle_fx_spec(angle_raw);
            let pv = mat_mul_spec(
                persp_spec(aspect_fx),
                orbit_view_spec(cos_fixed(ang), sin_fixed(ang)),
            );
            let total = transform_spec(aspect_fx, angle_raw);
            &&& total == mat_mul_spec(conv_spec(), pv)
            &&& total.c0r2 == fx_mul_spec(FX_HALF as int, pv.c0r2) + fx_mul_spec(
                FX_HALF as int,
                pv.c0r3,
            )
            &&& total.c1r2 == fx_mul_spec(FX_HALF as int, pv.c1r2) + fx_mul_spec(
                FX_HALF as int,
                pv.c1r3,
            )
            &&& total.c2r2 == fx_mul_spec(FX_HALF as int, pv.c2r2) + fx_mul_spec(
                FX_HALF as int,
                pv.c2r3,
            )
            &&& total.c3r2 == fx_mul_spec(FX_HALF as int, pv.c3r2) + fx_mul_spec(
                FX_HALF as int,
                pv.c3r3,
            )
        }),
{
}

} // verus!
