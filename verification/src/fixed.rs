//! Q47.16 fixed-point scalars: the number held in an `i64` value `v` is
//! `v / 65536`. Every operation saturates at the `i64` range, so all
//! operations are total and their contracts give the exact result.

use vstd::prelude::*;
use vstd::arithmetic::div_mod::lemma_div_nonincreasing;
use vstd::arithmetic::div_mod::lemma_div_pos_is_pos;
use vstd::arithmetic::div_mod::lemma_fundamental_div_mod;
use vstd::arithmetic::div_mod::lemma_fundamental_div_mod_converse_div;

verus! {

/// The fixed-point representation of 1.
pub const FP_ONE: i64 = 65536;

/// The fixed-point representation of 1/2.
pub const FP_HALF: i64 = 32768;

/// The fixed-point representation of 2.
pub const FP_TWO: i64 = 2 * 65536;

/// Saturate a mathematical integer at the `i64` range.
pub open spec fn clip(v: int) -> int {
    if v < i64::MIN as int {
        i64::MIN as int
    } else if v > i64::MAX as int {
        i64::MAX as int
    } else {
        v
    }
}

/// Saturating fixed-point addition.
pub open spec fn fp_add_spec(a: int, b: int) -> int {
    clip(a + b)
}

/// Saturating fixed-point subtraction.
pub open spec fn fp_sub_spec(a: int, b: int) -> int {
    clip(a - b)
}

/// Saturating fixed-point negation.
pub open spec fn fp_neg_spec(a: int) -> int {
    clip(-a)
}

/// Floor division for a nonzero divisor of either sign. Verus's `/` on `int`
/// is Euclidean division, which rounds toward negative infinity exactly when
/// the divisor is positive, so both arms below round down.
pub open spec fn floor_div(a: int, b: int) -> int {
    if b > 0 {
        a / b
    } else {
        (-a) / (-b)
    }
}

/// Saturating fixed-point multiplication: the floor of the real product.
pub open spec fn fp_mul_spec(a: int, b: int) -> int {
    clip(floor_div(a * b, FP_ONE as int))
}

/// Saturating fixed-point division: the floor of the real quotient.
/// Division by zero is defined as zero; the executable operation rules it
/// out by precondition instead.
pub open spec fn fp_div_spec(a: int, b: int) -> int {
    if b == 0 {
        0
    } else {
        clip(floor_div(a * FP_ONE, b))
    }
}

/// A plain integer carried into the fixed-point domain.
pub open spec fn int_to_fp_spec(v: int) -> int {
    clip(v * FP_ONE)
}

/// Saturate a mathematical integer onto the fixed-point grid itself.
pub open spec fn fpc(v: int) -> i64 {
    clip(v) as i64
}

/// A four-term fixed-point inner product, folded left to right.
pub open spec fn fp_dot4_spec(
    a0: int,
    b0: int,
    a1: int,
    b1: int,
    a2: int,
    b2: int,
    a3: int,
    b3: int,
) -> int {
    fp_add_spec(
        fp_add_spec(
            fp_add_spec(fp_mul_spec(a0, b0), fp_mul_spec(a1, b1)),
            fp_mul_spec(a2, b2),
        ),
        fp_mul_spec(a3, b3),
    )
}

/// A three-term fixed-point inner product with a trailing addend, folded
/// left to right.
pub open spec fn fp_dot3_add_spec(
    a0: int,
    b0: int,
    a1: int,
    b1: int,
    a2: int,
    b2: int,
    c: int,
) -> int {
    fp_add_spec(
        fp_add_spec(
            fp_add_spec(fp_mul_spec(a0, b0), fp_mul_spec(a1, b1)),
            fp_mul_spec(a2, b2),
        ),
        c,
    )
}

/// A product of three fixed-point factors, folded left to right.
pub open spec fn fp_tri_spec(a: int, b: int, c: int) -> int {
    fp_mul_spec(fp_mul_spec(a, b), c)
}

/// The determinant of the 3x3 fixed-point matrix
/// `[[a, b, c], [d, e, f], [g, h, i]]`, expanded along the first row and
/// folded left to right:
/// `aei - afh - bdi + bfg + cdh - ceg`.
pub open spec fn fp_det3_spec(
    a: int,
    b: int,
    c: int,
    d: int,
    e: int,
    f: int,
    g: int,
    h: int,
    i: int,
) -> int {
    fp_sub_spec(
        fp_add_spec(
            fp_add_spec(
                fp_sub_spec(fp_sub_spec(fp_tri_spec(a, e, i), fp_tri_spec(a, f, h)), fp_tri_spec(b, d, i)),
                fp_tri_spec(b, f, g),
            ),
            fp_tri_spec(c, d, h),
        ),
        fp_tri_spec(c, e, g),
    )
}

/// Multiplying by one and by zero, and adding zero, are exact on the
/// fixed-point grid.
pub proof fn lemma_fp_identity_ops(a: int)
    requires
        i64::MIN as int <= a <= i64::MAX as int,
    ensures
        fp_mul_spec(a, FP_ONE as int) == a,
        fp_mul_spec(FP_ONE as int, a) == a,
        fp_mul_spec(a, 0) == 0,
        fp_mul_spec(0, a) == 0,
        fp_add_spec(a, 0) == a,
        fp_add_spec(0, a) == a,
{
    vstd::arithmetic::div_mod::lemma_div_multiples_vanish(a, FP_ONE as int);
    assert(a * FP_ONE as int == FP_ONE as int * a);
    assert(a * 0 == 0);
    assert(0 * a == 0);
    vstd::arithmetic::div_mod::lemma_div_of0(FP_ONE as int);
}

pub proof fn lemma_fp_square_nonneg(a: int)
    ensures
        fp_mul_spec(a, a) >= 0,
{
    assert(a * a >= 0) by (nonlinear_arith);
    lemma_div_pos_is_pos(a * a, FP_ONE as int);
}

fn clamp_to_i64(v: i128) -> (r: i64)
    ensures
        r as int == clip(v as int),
{
    if v < i64::MIN as i128 {
        i64::MIN
    } else if v > i64::MAX as i128 {
        i64::MAX
    } else {
        v as i64
    }
}

/// Floor division of an `i128` by a positive divisor, computed through
/// unsigned division so that both the quotient and its sign handling are
/// fully specified.
fn floor_div_i128(a: i128, b: i128) -> (r: i128)
    requires
        b > 0,
        -0x4000_0000_0000_0000_0000_0000_0000_0000 <= a,
    ensures
        r == a as int / b as int,
{
    if a >= 0 {
        let q = (a as u128) / (b as u128);
        proof {
            lemma_div_pos_is_pos(a as int, b as int);
            lemma_div_nonincreasing(a as int, b as int);
        }
        q as i128
    } else {
        let m = (-a) as u128;
        let bu = b as u128;
        let q = m / bu;
        let rem = m % bu;
        proof {
            lemma_div_pos_is_pos(m as int, b as int);
            lemma_div_nonincreasing(m as int, b as int);
            lemma_fundamental_div_mod(m as int, b as int);
        }
        if rem == 0 {
            proof {
                let qi = q as int;
                let bi = b as int;
                assert(a as int == (-qi) * bi + 0) by (nonlinear_arith)
                    requires
                        m as int == bi * qi,
                        a as int == -(m as int),
                ;
                lemma_fundamental_div_mod_converse_div(a as int, bi, -qi, 0);
            }
            -(q as i128)
        } else {
            proof {
                let qi = q as int;
                let bi = b as int;
                let ri = rem as int;
                assert(a as int == (-qi - 1) * bi + (bi - ri)) by (nonlinear_arith)
                    requires
                        m as int == bi * qi + ri,
                        a as int == -(m as int),
                ;
                lemma_fundamental_div_mod_converse_div(a as int, bi, -qi - 1, bi - ri);
            }
            -(q as i128) - 1
        }
    }
}

pub fn fp_add(a: i64, b: i64) -> (r: i64)
    ensures
        r as int == fp_add_spec(a as int, b as int),
{
    clamp_to_i64(a as i128 + b as i128)
}

pub fn fp_sub(a: i64, b: i64) -> (r: i64)
    ensures
        r as int == fp_sub_spec(a as int, b as int),
{
    clamp_to_i64(a as i128 - b as i128)
}

pub fn fp_neg(a: i64) -> (r: i64)
    ensures
        r as int == fp_neg_spec(a as int),
{
    clamp_to_i64(-(a as i128))
}

pub fn fp_mul(a: i64, b: i64) -> (r: i64)
    ensures
        r as int == fp_mul_spec(a as int, b as int),
{
    proof {
        assert(-0x4000_0000_0000_0000_0000_0000_0000_0000
            <= a as int * b as int
            <= 0x4000_0000_0000_0000_0000_0000_0000_0000) by (nonlinear_arith)
            requires
                -0x8000_0000_0000_0000 <= a as int <= 0x7fff_ffff_ffff_ffff,
                -0x8000_0000_0000_0000 <= b as int <= 0x7fff_ffff_ffff_ffff,
        ;
    }
    let p: i128 = (a as i128) * (b as i128);
    let q = floor_div_i128(p, FP_ONE as i128);
    clamp_to_i64(q)
}

pub fn fp_div(a: i64, b: i64) -> (r: i64)
    requires
        b != 0,
    ensures
        r as int == fp_div_spec(a as int, b as int),
{
    proof {
        assert(-0x1_0000_0000_0000_0000_0000 <= a as int * FP_ONE as int
            <= 0x1_0000_0000_0000_0000_0000) by (nonlinear_arith)
            requires
                -0x8000_0000_0000_0000 <= a as int <= 0x7fff_ffff_ffff_ffff,
        ;
    }
    let n: i128 = (a as i128) * (FP_ONE as i128);
    let q = if b > 0 {
        floor_div_i128(n, b as i128)
    } else {
        floor_div_i128(-n, -(b as i128))
    };
    clamp_to_i64(q)
}

/// The integer square root: the greatest `r` with `r * r <= n`.
pub open spec fn isqrt_spec(n: nat) -> nat
    decreases n,
{
    if n < 1 {
        0
    } else {
        let r = 2 * isqrt_spec((n / 4) as nat);
        if (r + 1) * (r + 1) <= n {
            r + 1
        } else {
            r
        }
    }
}

/// The square root of the real number a fixed-point value stands for,
/// rounded down to the fixed-point grid. Negative inputs are sent to zero.
pub open spec fn fp_sqrt_spec(a: int) -> int {
    if a < 0 {
        0
    } else {
        isqrt_spec((a * FP_ONE) as nat) as int
    }
}

pub proof fn lemma_isqrt_spec_bounds(n: nat)
    ensures
        isqrt_spec(n) * isqrt_spec(n) <= n,
        n < (isqrt_spec(n) + 1) * (isqrt_spec(n) + 1),
    decreases n,
{
    if n < 1 {
        assert(isqrt_spec(n) == 0);
        assert(n < (isqrt_spec(n) + 1) * (isqrt_spec(n) + 1)) by (nonlinear_arith)
            requires
                n == 0,
                isqrt_spec(n) == 0,
        ;
    } else {
        let m = (n / 4) as nat;
        lemma_isqrt_spec_bounds(m);
        let s = isqrt_spec(m);
        lemma_fundamental_div_mod(n as int, 4);
        assert(4 * m <= n < 4 * m + 4);
        assert((2 * s) * (2 * s) <= n && n < (2 * s + 2) * (2 * s + 2)) by (nonlinear_arith)
            requires
                s * s <= m,
                m < (s + 1) * (s + 1),
                4 * m <= n < 4 * m + 4,
        ;
        let r = isqrt_spec(n);
        if (2 * s + 1) * (2 * s + 1) <= n {
            assert(r == 2 * s + 1);
            assert(r * r <= n);
            assert(n < (r + 1) * (r + 1)) by (nonlinear_arith)
                requires
                    r == 2 * s + 1,
                    n < (2 * s + 2) * (2 * s + 2),
            ;
        } else {
            assert(r == 2 * s);
            assert(r * r <= n);
            assert(n < (r + 1) * (r + 1));
        }
    }
}

pub proof fn lemma_isqrt_unique(n: nat, r: nat)
    requires
        r * r <= n,
        n < (r + 1) * (r + 1),
    ensures
        r == isqrt_spec(n),
{
    lemma_isqrt_spec_bounds(n);
    let s = isqrt_spec(n);
    assert(r == s) by (nonlinear_arith)
        requires
            r * r <= n,
            n < (r + 1) * (r + 1),
            s * s <= n,
            n < (s + 1) * (s + 1),
    ;
}

/// The integer square root of a value below 2^80, by bisection.
fn isqrt_u128(n: u128) -> (r: u128)
    requires
        n < 0x1_0000_0000_0000_0000_0000,
    ensures
        r as nat == isqrt_spec(n as nat),
{
    let mut lo: u128 = 0;
    let mut hi: u128 = 0x100_0000_0000;
    proof {
        assert((0x100_0000_0000 as int) * (0x100_0000_0000 as int)
            == 0x1_0000_0000_0000_0000_0000) by (nonlinear_arith);
    }
    while lo + 1 < hi
        invariant
            lo < hi <= 0x100_0000_0000,
            lo as int * lo as int <= n as int,
            (n as int) < hi as int * hi as int,
        decreases hi - lo,
    {
        let mid = lo + (hi - lo) / 2;
        proof {
            assert((mid as int) * (mid as int) < 0x1_0000_0000_0000_0000_0000_0000) by (nonlinear_arith)
                requires
                    0 <= mid as int <= 0x100_0000_0000,
            ;
        }
        if mid * mid <= n {
            lo = mid;
        } else {
            hi = mid;
        }
    }
    proof {
        lemma_isqrt_unique(n as nat, lo as nat);
    }
    lo
}

/// The fixed-point square root; zero for a negative input.
pub fn fp_sqrt(a: i64) -> (r: i64)
    ensures
        r as int == fp_sqrt_spec(a as int),
{
    if a < 0 {
        return 0;
    }
    proof {
        assert((a as int) * (FP_ONE as int) < 0x1_0000_0000_0000_0000_0000) by (nonlinear_arith)
            requires
                0 <= a as int <= 0x7fff_ffff_ffff_ffff,
        ;
    }
    let n: u128 = (a as u128) * (FP_ONE as u128);
    let r = isqrt_u128(n);
    proof {
        lemma_isqrt_spec_bounds(n as nat);
        assert(isqrt_spec(n as nat) < 0x1_0000_0000_0000) by (nonlinear_arith)
            requires
                isqrt_spec(n as nat) * isqrt_spec(n as nat) <= (n as nat),
                (n as nat) < 0x1_0000_0000_0000_0000_0000,
        ;
    }
    r as i64
}

/// A four-term fixed-point inner product.
pub fn fp_dot4(a0: i64, b0: i64, a1: i64, b1: i64, a2: i64, b2: i64, a3: i64, b3: i64) -> (r: i64)
    ensures
        r as int == fp_dot4_spec(
            a0 as int,
            b0 as int,
            a1 as int,
            b1 as int,
            a2 as int,
            b2 as int,
            a3 as int,
            b3 as int,
        ),
{
    fp_add(fp_add(fp_add(fp_mul(a0, b0), fp_mul(a1, b1)), fp_mul(a2, b2)), fp_mul(a3, b3))
}

/// A three-term fixed-point inner product with a trailing addend.
pub fn fp_dot3_add(a0: i64, b0: i64, a1: i64, b1: i64, a2: i64, b2: i64, c: i64) -> (r: i64)
    ensures
        r as int == fp_dot3_add_spec(
            a0 as int,
            b0 as int,
            a1 as int,
            b1 as int,
            a2 as int,
            b2 as int,
            c as int,
        ),
{
    fp_add(fp_add(fp_add(fp_mul(a0, b0), fp_mul(a1, b1)), fp_mul(a2, b2)), c)
}

/// A product of three fixed-point factors.
pub fn fp_tri(a: i64, b: i64, c: i64) -> (r: i64)
    ensures
        r as int == fp_tri_spec(a as int, b as int, c as int),
{
    fp_mul(fp_mul(a, b), c)
}

/// The determinant of the 3x3 fixed-point matrix
/// `[[a, b, c], [d, e, f], [g, h, i]]`.
pub fn fp_det3(a: i64, b: i64, c: i64, d: i64, e: i64, f: i64, g: i64, h: i64, i: i64) -> (r: i64)
    ensures
        r as int == fp_det3_spec(
            a as int,
            b as int,
            c as int,
            d as int,
            e as int,
            f as int,
            g as int,
            h as int,
            i as int,
        ),
{
    fp_sub(
        fp_add(
            fp_add(fp_sub(fp_sub(fp_tri(a, e, i), fp_tri(a, f, h)), fp_tri(b, d, i)), fp_tri(b, f, g)),
            fp_tri(c, d, h),
        ),
        fp_tri(c, e, g),
    )
}

pub fn int_to_fp(v: i64) -> (r: i64)
    ensures
        r as int == int_to_fp_spec(v as int),
{
    proof {
        assert(-0x1_0000_0000_0000_0000_0000 <= v as int * FP_ONE as int
            <= 0x1_0000_0000_0000_0000_0000) by (nonlinear_arith)
            requires
                -0x8000_0000_0000_0000 <= v as int <= 0x7fff_ffff_ffff_ffff,
        ;
    }
    clamp_to_i64((v as i128) * (FP_ONE as i128))
}

} // verus!
