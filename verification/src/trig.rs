//! Fixed-point sine and cosine of angles given in degrees.
//!
//! An angle is wrapped into `[0, 360)` degrees, split into a quadrant and a
//! remainder below 90 degrees, and the remainder is converted to radians and
//! fed to a Taylor polynomial. Angles that land exactly on a quadrant
//! boundary therefore come out exact: `sin 0 == 0`, `sin 90 == 1`, and so on.

use vstd::prelude::*;
use vstd::arithmetic::div_mod::lemma_fundamental_div_mod;
use vstd::arithmetic::div_mod::lemma_fundamental_div_mod_converse_mod;
use vstd::arithmetic::div_mod::lemma_mod_division_less_than_divisor;
use vstd::arithmetic::div_mod::lemma_multiply_divide_lt;
use crate::fixed::FP_ONE;
use crate::fixed::clip;
use crate::fixed::fp_add_spec;
use crate::fixed::fp_sub_spec;
use crate::fixed::fp_neg_spec;
use crate::fixed::fp_mul_spec;
use crate::fixed::fp_div_spec;
use crate::fixed::fp_add;
use crate::fixed::fp_sub;
use crate::fixed::fp_neg;
use crate::fixed::fp_mul;
use crate::fixed::fp_div;

verus! {

/// Radians per degree on the fixed-point grid: the nearest representable
/// value of pi / 180.
pub const FP_RAD_PER_DEG: i64 = 1144;

/// A full turn, 360 degrees, in fixed-point.
pub const FP_DEG_360: i64 = 360 * 65536;

/// A quarter turn, 90 degrees, in fixed-point.
pub const FP_DEG_90: i64 = 90 * 65536;

/// 2 in fixed-point, the divisor of the second Taylor term of cosine.
pub const FP_FACT_2: i64 = 2 * 65536;

/// 6 in fixed-point, the divisor of the x^3 Taylor term of sine.
pub const FP_FACT_6: i64 = 6 * 65536;

/// 24 in fixed-point, the divisor of the x^4 Taylor term of cosine.
pub const FP_FACT_24: i64 = 24 * 65536;

/// 120 in fixed-point, the divisor of the x^5 Taylor term of sine.
pub const FP_FACT_120: i64 = 120 * 65536;

/// 720 in fixed-point, the divisor of the x^6 Taylor term of cosine.
pub const FP_FACT_720: i64 = 720 * 65536;

/// 5040 in fixed-point, the divisor of the x^7 Taylor term of sine.
pub const FP_FACT_5040: i64 = 5040 * 65536;

/// 40320 in fixed-point, the divisor of the x^8 Taylor term of cosine.
pub const FP_FACT_40320: i64 = 40320 * 65536;

/// 362880 in fixed-point, the divisor of the x^9 Taylor term of sine.
pub const FP_FACT_362880: i64 = 362880 * 65536;

/// An angle wrapped into `[0, 360)` degrees.
pub open spec fn wrap_deg_spec(a: int) -> int {
    a % (FP_DEG_360 as int)
}

/// The Taylor polynomial of sine up to x^9, on the fixed-point grid.
pub open spec fn sin_poly_spec(x: int) -> int {
    let x2 = fp_mul_spec(x, x);
    let x3 = fp_mul_spec(x2, x);
    let x5 = fp_mul_spec(x3, x2);
    let x7 = fp_mul_spec(x5, x2);
    let x9 = fp_mul_spec(x7, x2);
    fp_add_spec(
        fp_sub_spec(
            fp_add_spec(fp_sub_spec(x, fp_div_spec(x3, FP_FACT_6 as int)), fp_div_spec(x5, FP_FACT_120 as int)),
            fp_div_spec(x7, FP_FACT_5040 as int),
        ),
        fp_div_spec(x9, FP_FACT_362880 as int),
    )
}

/// The Taylor polynomial of cosine up to x^8, on the fixed-point grid.
pub open spec fn cos_poly_spec(x: int) -> int {
    let x2 = fp_mul_spec(x, x);
    let x4 = fp_mul_spec(x2, x2);
    let x6 = fp_mul_spec(x4, x2);
    let x8 = fp_mul_spec(x6, x2);
    fp_add_spec(
        fp_sub_spec(
            fp_add_spec(fp_sub_spec(FP_ONE as int, fp_div_spec(x2, FP_FACT_2 as int)), fp_div_spec(x4, FP_FACT_24 as int)),
            fp_div_spec(x6, FP_FACT_720 as int),
        ),
        fp_div_spec(x8, FP_FACT_40320 as int),
    )
}

/// The quadrant (0 to 3) of a wrapped angle.
pub open spec fn quadrant_spec(a: int) -> int {
    wrap_deg_spec(a) / (FP_DEG_90 as int)
}

/// The part of a wrapped angle below its quadrant boundary, in radians on
/// the fixed-point grid.
pub open spec fn quadrant_radians_spec(a: int) -> int {
    fp_mul_spec(wrap_deg_spec(a) % (FP_DEG_90 as int), FP_RAD_PER_DEG as int)
}

/// Fixed-point sine of an angle in fixed-point degrees.
pub open spec fn fp_sin_deg_spec(a: int) -> int {
    let q = quadrant_spec(a);
    let x = quadrant_radians_spec(a);
    if q == 0 {
        sin_poly_spec(x)
    } else if q == 1 {
        cos_poly_spec(x)
    } else if q == 2 {
        fp_neg_spec(sin_poly_spec(x))
    } else {
        fp_neg_spec(cos_poly_spec(x))
    }
}

/// Fixed-point cosine of an angle in fixed-point degrees.
pub open spec fn fp_cos_deg_spec(a: int) -> int {
    let q = quadrant_spec(a);
    let x = quadrant_radians_spec(a);
    if q == 0 {
        cos_poly_spec(x)
    } else if q == 1 {
        fp_neg_spec(sin_poly_spec(x))
    } else if q == 2 {
        fp_neg_spec(cos_poly_spec(x))
    } else {
        sin_poly_spec(x)
    }
}

/// Wrap an angle into `[0, 360)` degrees.
fn wrap_deg(a: i64) -> (r: i64)
    ensures
        r as int == wrap_deg_spec(a as int),
        0 <= r < FP_DEG_360,
{
    proof {
        lemma_mod_division_less_than_divisor(a as int, FP_DEG_360 as int);
    }
    if a >= 0 {
        ((a as u64) % (FP_DEG_360 as u64)) as i64
    } else {
        let neg = ((-(a as i128)) as u128) % (FP_DEG_360 as u128);
        proof {
            let ai = a as int;
            let mi = FP_DEG_360 as int;
            let ni = -ai;
            lemma_fundamental_div_mod(ni, mi);
            lemma_mod_division_less_than_divisor(ni, mi);
            let qi = ni / mi;
            let ri = ni % mi;
            if ri == 0 {
                assert(ai == (-qi) * mi + 0) by (nonlinear_arith)
                    requires
                        ni == mi * qi + ri,
                        ri == 0,
                        ai == -ni,
                ;
                lemma_fundamental_div_mod_converse_mod(ai, mi, -qi, 0);
            } else {
                assert(ai == (-qi - 1) * mi + (mi - ri)) by (nonlinear_arith)
                    requires
                        ni == mi * qi + ri,
                        ai == -ni,
                ;
                lemma_fundamental_div_mod_converse_mod(ai, mi, -qi - 1, mi - ri);
            }
        }
        if neg == 0 {
            0
        } else {
            (FP_DEG_360 as u128 - neg) as i64
        }
    }
}

/// The Taylor polynomial of sine up to x^9.
fn sin_poly(x: i64) -> (r: i64)
    ensures
        r as int == sin_poly_spec(x as int),
{
    let x2 = fp_mul(x, x);
    let x3 = fp_mul(x2, x);
    let x5 = fp_mul(x3, x2);
    let x7 = fp_mul(x5, x2);
    let x9 = fp_mul(x7, x2);
    fp_add(
        fp_sub(
            fp_add(fp_sub(x, fp_div(x3, FP_FACT_6)), fp_div(x5, FP_FACT_120)),
            fp_div(x7, FP_FACT_5040),
        ),
        fp_div(x9, FP_FACT_362880),
    )
}

/// The Taylor polynomial of cosine up to x^8.
fn cos_poly(x: i64) -> (r: i64)
    ensures
        r as int == cos_poly_spec(x as int),
{
    let x2 = fp_mul(x, x);
    let x4 = fp_mul(x2, x2);
    let x6 = fp_mul(x4, x2);
    let x8 = fp_mul(x6, x2);
    fp_add(
        fp_sub(
            fp_add(fp_sub(FP_ONE, fp_div(x2, FP_FACT_2)), fp_div(x4, FP_FACT_24)),
            fp_div(x6, FP_FACT_720),
        ),
        fp_div(x8, FP_FACT_40320),
    )
}

/// Split a wrapped angle into its quadrant and the radians left below it.
fn quadrant_split(a: i64) -> (qx: (u64, i64))
    ensures
        qx.0 as int == quadrant_spec(a as int),
        qx.1 as int == quadrant_radians_spec(a as int),
        qx.0 <= 3,
{
    let t = wrap_deg(a);
    let qu = (t as u64) / (FP_DEG_90 as u64);
    let rem = ((t as u64) % (FP_DEG_90 as u64)) as i64;
    proof {
        lemma_multiply_divide_lt(t as int, FP_DEG_90 as int, 4);
        lemma_mod_division_less_than_divisor(t as int, FP_DEG_90 as int);
    }
    let x = fp_mul(rem, FP_RAD_PER_DEG);
    (qu, x)
}

/// Fixed-point sine of an angle in fixed-point degrees.
pub fn fp_sin_deg(a: i64) -> (r: i64)
    ensures
        r as int == fp_sin_deg_spec(a as int),
{
    let (q, x) = quadrant_split(a);
    if q == 0 {
        sin_poly(x)
    } else if q == 1 {
        cos_poly(x)
    } else if q == 2 {
        fp_neg(sin_poly(x))
    } else {
        fp_neg(cos_poly(x))
    }
}

/// Fixed-point cosine of an angle in fixed-point degrees.
pub fn fp_cos_deg(a: i64) -> (r: i64)
    ensures
        r as int == fp_cos_deg_spec(a as int),
{
    let (q, x) = quadrant_split(a);
    if q == 0 {
        cos_poly(x)
    } else if q == 1 {
        fp_neg(sin_poly(x))
    } else if q == 2 {
        fp_neg(cos_poly(x))
    } else {
        sin_poly(x)
    }
}

} // verus!
