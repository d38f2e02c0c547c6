//! Fixed-point scalars.
//!
//! All rendering arithmetic runs over `Fx`, a signed 64-bit fixed-point
//! number with `FP_SCALE` (2^16) units per 1.0. Every operation is total:
//! results saturate at the `i64` range, and a division by zero yields zero
//! (the policy chosen for degenerate camera directions). Each executable
//! operation returns exactly the value of its spec-level mirror, so code
//! built from these operations can be pinned down value by value.

use vstd::prelude::*;
use vstd::math::abs;

verus! {

/// Number of fixed-point units per 1.0.
pub const FP_SCALE: i64 = 65536;

/// The fixed-point representation of 1.0.
pub const FP_ONE: i64 = 65536;

/// The fixed-point representation of 0.5.
pub const FP_HALF: i64 = 32768;

/// A fixed-point scalar value, in units of 1/`FP_SCALE`.
pub type Fx = i64;

/// Clamp an unbounded integer into the `i64` range.
pub open spec fn sat64(x: int) -> i64 {
    if x > i64::MAX {
        i64::MAX
    } else if x < i64::MIN {
        i64::MIN
    } else {
        x as i64
    }
}

/// Division truncating toward zero (as machine division does), total:
/// a zero divisor yields zero.
pub open spec fn div_trunc(a: int, b: int) -> int {
    if b == 0 {
        0
    } else if (a < 0) == (b < 0) {
        abs(a) as int / abs(b) as int
    } else {
        -(abs(a) as int / abs(b) as int)
    }
}

/// Saturating fixed-point addition.
pub open spec fn spec_fp_add(a: Fx, b: Fx) -> Fx {
    sat64(a + b)
}

/// Saturating fixed-point subtraction.
pub open spec fn spec_fp_sub(a: Fx, b: Fx) -> Fx {
    sat64(a - b)
}

/// Saturating fixed-point negation.
pub open spec fn spec_fp_neg(a: Fx) -> Fx {
    sat64(-a)
}

/// Saturating fixed-point absolute value.
pub open spec fn spec_fp_abs(a: Fx) -> Fx {
    sat64(abs(a as int) as int)
}

/// Saturating fixed-point multiplication, truncating toward zero.
pub open spec fn spec_fp_mul(a: Fx, b: Fx) -> Fx {
    sat64(div_trunc(a * b, FP_SCALE as int))
}

/// Saturating fixed-point division, truncating toward zero;
/// a zero divisor yields zero.
pub open spec fn spec_fp_div(a: Fx, b: Fx) -> Fx {
    if b == 0 {
        0
    } else {
        sat64(div_trunc(a * (FP_SCALE as int), b as int))
    }
}

/// `r` is the integer square root of `n`.
pub open spec fn is_sqrt_of(n: int, r: int) -> bool {
    0 <= r && r * r <= n && n < (r + 1) * (r + 1)
}

/// The integer square root of `n` (meaningful for `n >= 0`).
pub open spec fn isqrt(n: int) -> int {
    choose|r: int| is_sqrt_of(n, r)
}

/// Fixed-point square root: zero on non-positive input.
pub open spec fn spec_fp_sqrt(a: Fx) -> Fx {
    if a <= 0 {
        0
    } else {
        isqrt(a * (FP_SCALE as int)) as i64
    }
}

/// The fixed-point value of an unbounded non-negative integer.
pub open spec fn spec_fp_of_int(n: int) -> Fx {
    sat64(n * (FP_SCALE as int))
}

/// The integer square root is unique: any root `r` of `n` is `isqrt(n)`.
pub proof fn lemma_isqrt_unique(n: int, r: int)
    requires
        is_sqrt_of(n, r),
    ensures
        isqrt(n) == r,
{
    assert(exists|x: int| is_sqrt_of(n, x));
    let c = isqrt(n);
    assert(is_sqrt_of(n, c));
    if c < r {
        assert((c + 1) * (c + 1) <= r * r) by (nonlinear_arith)
            requires
                0 <= c + 1,
                c + 1 <= r,
        ;
        assert(false);
    }
    if r < c {
        assert((r + 1) * (r + 1) <= c * c) by (nonlinear_arith)
            requires
                0 <= r + 1,
                r + 1 <= c,
        ;
        assert(false);
    }
}

/// Multiplying by 1.0 is exact.
pub proof fn lemma_fp_mul_one(a: Fx)
    ensures
        spec_fp_mul(a, FP_ONE) == a,
{
    if a >= 0 {
        vstd::arithmetic::div_mod::lemma_div_multiples_vanish(a as int, FP_SCALE as int);
        assert(a * (FP_ONE as int) == (FP_SCALE as int) * (a as int))
            by (nonlinear_arith);
    } else {
        vstd::arithmetic::div_mod::lemma_div_multiples_vanish(-(a as int), FP_SCALE as int);
        assert(a * (FP_ONE as int) == -((FP_SCALE as int) * (-(a as int))))
            by (nonlinear_arith);
    }
}

/// Multiplication is commutative.
pub proof fn lemma_fp_mul_comm(a: Fx, b: Fx)
    ensures
        spec_fp_mul(a, b) == spec_fp_mul(b, a),
{
    vstd::arithmetic::mul::lemma_mul_is_commutative(a as int, b as int);
}

/// A non-negative value scaled by a factor in `[0, 1]` stays within
/// `[0, value]`.
pub proof fn lemma_fp_mul_le_unit(x: Fx, k: Fx)
    requires
        0 <= x,
        0 <= k <= FP_ONE,
    ensures
        0 <= spec_fp_mul(x, k) <= x,
{
    let p = x as int * k as int;
    assert(0 <= p && p <= (FP_SCALE as int) * (x as int)) by (nonlinear_arith)
        requires
            0 <= x,
            0 <= k <= FP_SCALE as int,
            p == x as int * k as int,
    ;
    vstd::arithmetic::div_mod::lemma_div_pos_is_pos(p, FP_SCALE as int);
    vstd::arithmetic::div_mod::lemma_div_is_ordered(p, (FP_SCALE as int) * (x as int), FP_SCALE as int);
    vstd::arithmetic::div_mod::lemma_div_multiples_vanish(x as int, FP_SCALE as int);
}

/// A value scaled by a factor in `[0, 1]` stays between zero and the
/// value, whichever order those are in.
pub proof fn lemma_fp_mul_unit_bounded(d: Fx, t: Fx)
    requires
        0 <= t <= FP_ONE,
    ensures
        d >= 0 ==> 0 <= spec_fp_mul(d, t) <= d,
        d < 0 ==> d <= spec_fp_mul(d, t) <= 0,
{
    if d >= 0 {
        lemma_fp_mul_le_unit(d, t);
    } else {
        let m = -(d as int);
        assert(d as int * t as int == -(m * (t as int))) by (nonlinear_arith)
            requires
                m == -(d as int),
        ;
        assert(0 <= m * (t as int) <= (FP_SCALE as int) * m) by (nonlinear_arith)
            requires
                0 < m,
                0 <= t <= FP_SCALE as int,
        ;
        vstd::arithmetic::div_mod::lemma_div_pos_is_pos(m * (t as int), FP_SCALE as int);
        vstd::arithmetic::div_mod::lemma_div_is_ordered(
            m * (t as int),
            (FP_SCALE as int) * m,
            FP_SCALE as int,
        );
        vstd::arithmetic::div_mod::lemma_div_multiples_vanish(m, FP_SCALE as int);
    }
}

/// Fixed-point addition; the result saturates at the `i64` range.
pub fn fp_add(a: Fx, b: Fx) -> (r: Fx)
    ensures
        r == spec_fp_add(a, b),
{
    let s: i128 = a as i128 + b as i128;
    if s > i64::MAX as i128 {
        i64::MAX
    } else if s < i64::MIN as i128 {
        i64::MIN
    } else {
        s as i64
    }
}

/// Fixed-point subtraction; the result saturates at the `i64` range.
pub fn fp_sub(a: Fx, b: Fx) -> (r: Fx)
    ensures
        r == spec_fp_sub(a, b),
{
    let s: i128 = a as i128 - b as i128;
    if s > i64::MAX as i128 {
        i64::MAX
    } else if s < i64::MIN as i128 {
        i64::MIN
    } else {
        s as i64
    }
}

/// Fixed-point negation; the result saturates at the `i64` range.
pub fn fp_neg(a: Fx) -> (r: Fx)
    ensures
        r == spec_fp_neg(a),
{
    if a == i64::MIN {
        i64::MAX
    } else {
        -a
    }
}

/// Fixed-point absolute value; the result saturates at the `i64` range.
pub fn fp_abs(a: Fx) -> (r: Fx)
    ensures
        r == spec_fp_abs(a),
{
    if a < 0 {
        fp_neg(a)
    } else {
        a
    }
}

/// Clamp a 128-bit magnitude with a sign back into the `i64` range.
fn sat_from_sign_mag(neg: bool, mag: u128) -> (r: i64)
    ensures
        r == sat64(if neg { -(mag as int) } else { mag as int }),
{
    if neg {
        if mag >= 0x8000_0000_0000_0000u128 {
            i64::MIN
        } else {
            -(mag as i64)
        }
    } else {
        if mag > i64::MAX as u128 {
            i64::MAX
        } else {
            mag as i64
        }
    }
}

/// Fixed-point multiplication, truncating toward zero, saturating.
pub fn fp_mul(a: Fx, b: Fx) -> (r: Fx)
    ensures
        r == spec_fp_mul(a, b),
{
    let pa: i128 = a as i128;
    let pb: i128 = b as i128;
    assert(pa * pb <= i128::MAX && i128::MIN < pa * pb) by (nonlinear_arith)
        requires
            -0x8000_0000_0000_0000i128 <= pa <= 0x7fff_ffff_ffff_ffffi128,
            -0x8000_0000_0000_0000i128 <= pb <= 0x7fff_ffff_ffff_ffffi128,
    ;
    let p: i128 = pa * pb;
    let neg: bool = p < 0;
    let mag: u128 = if p < 0 {
        (-p) as u128
    } else {
        p as u128
    };
    let q: u128 = mag / 65536u128;
    assert(mag == abs(p as int));
    assert(q == abs(a * b) as int / (FP_SCALE as int));
    sat_from_sign_mag(neg && q > 0, q)
}

/// Fixed-point division, truncating toward zero, saturating;
/// a zero divisor yields zero.
pub fn fp_div(a: Fx, b: Fx) -> (r: Fx)
    ensures
        r == spec_fp_div(a, b),
{
    if b == 0 {
        return 0;
    }
    let p: i128 = (a as i128) * 65536i128;
    let neg: bool = (a < 0) != (b < 0);
    let mag_p: u128 = if p < 0 {
        (-p) as u128
    } else {
        p as u128
    };
    let bb: i128 = b as i128;
    let mag_b: u128 = if bb < 0 {
        (-bb) as u128
    } else {
        bb as u128
    };
    let q: u128 = mag_p / mag_b;
    assert(mag_p == abs(a * (FP_SCALE as int)));
    assert(mag_b == abs(b as int));
    assert(q == abs(a * (FP_SCALE as int)) as int / abs(b as int) as int);
    sat_from_sign_mag(neg && q > 0, q)
}

/// Fixed-point square root of a non-negative value, by binary search;
/// zero on non-positive input.
pub fn fp_sqrt(a: Fx) -> (r: Fx)
    ensures
        r == spec_fp_sqrt(a),
{
    if a <= 0 {
        return 0;
    }
    let n: u128 = (a as u128) * 65536u128;
    let mut lo: u128 = 0;
    let mut hi: u128 = 0x100_0000_0000u128;
    assert(n < (hi + 1) * (hi + 1)) by (nonlinear_arith)
        requires
            n <= 0x7fff_ffff_ffff_ffffu128 * 65536u128,
            hi == 0x100_0000_0000u128,
    ;
    while lo < hi
        invariant
            lo <= hi <= 0x100_0000_0000u128,
            lo * lo <= n,
            n < (hi + 1) * (hi + 1),
        decreases hi - lo,
    {
        let mid: u128 = lo + (hi - lo + 1) / 2;
        assert(lo < mid <= hi);
        assert(mid * mid <= 0x100_0000_0000u128 * 0x100_0000_0000u128) by (nonlinear_arith)
            requires
                mid <= 0x100_0000_0000u128,
        ;
        let sq: u128 = mid * mid;
        if sq <= n {
            lo = mid;
        } else {
            hi = mid - 1;
        }
    }
    assert(is_sqrt_of(n as int, lo as int));
    proof {
        lemma_isqrt_unique(n as int, lo as int);
    }
    lo as i64
}

/// The fixed-point value of a pixel coordinate (exact: no saturation
/// is possible for 32-bit inputs).
pub fn fp_of_u32(n: u32) -> (r: Fx)
    ensures
        r == spec_fp_of_int(n as int),
        r == n as int * FP_SCALE as int,
{
    (n as i64) * 65536i64
}

/// The fixed-point value of a sample count, saturating.
pub fn fp_of_usize(n: usize) -> (r: Fx)
    ensures
        r == spec_fp_of_int(n as int),
{
    let p: u128 = (n as u128) * 65536u128;
    if p > i64::MAX as u128 {
        i64::MAX
    } else {
        p as i64
    }
}

} // verus!
