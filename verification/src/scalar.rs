//! Saturating fixed-point scalars.
//!
//! A `Scalar` stores an `i64` count of millionths, so the value `1.0` is
//! `1_000_000` raw units. Multiplication and division truncate toward zero
//! after rescaling, and every operation saturates at the `i64` range instead
//! of wrapping. Each operation's result is pinned exactly by a spec function
//! over mathematical integers.

use vstd::prelude::*;

verus! {

/// Raw units per 1.0 of scalar value.
pub const SCALE: i64 = 1_000_000;

/// Comparison tolerance in raw units (one ten-thousandth of a unit).
pub const EPSILON: i64 = 100;

/// Saturate an unbounded integer into the `i64` range.
pub open spec fn fp_clamp(x: int) -> int {
    if x > i64::MAX {
        i64::MAX as int
    } else if x < i64::MIN {
        i64::MIN as int
    } else {
        x
    }
}

/// Division truncating toward zero; meaningful for `d > 0`.
pub open spec fn tdiv(n: int, d: int) -> int
    recommends
        d > 0,
{
    if n >= 0 {
        n / d
    } else {
        -((-n) / d)
    }
}

pub open spec fn fp_add(a: int, b: int) -> int {
    fp_clamp(a + b)
}

pub open spec fn fp_sub(a: int, b: int) -> int {
    fp_clamp(a - b)
}

pub open spec fn fp_neg(a: int) -> int {
    fp_clamp(-a)
}

pub open spec fn fp_abs(a: int) -> int {
    fp_clamp(vstd::math::abs(a) as int)
}

pub open spec fn fp_mul(a: int, b: int) -> int {
    fp_clamp(tdiv(a * b, SCALE as int))
}

pub open spec fn fp_div(a: int, b: int) -> int {
    if b == 0 {
        0
    } else if b > 0 {
        fp_clamp(tdiv(a * (SCALE as int), b))
    } else {
        fp_clamp(tdiv(-(a * (SCALE as int)), -b))
    }
}

/// Integer square root by counting up: the largest `r` with `r * r <= n`.
pub open spec fn isqrt(n: int) -> int
    decreases n,
{
    if n <= 0 {
        0
    } else {
        let r = isqrt(n - 1);
        if (r + 1) * (r + 1) <= n {
            r + 1
        } else {
            r
        }
    }
}

/// Fixed-point square root: negative inputs yield zero.
pub open spec fn fp_sqrt(a: int) -> int {
    if a <= 0 {
        0
    } else {
        isqrt(a * (SCALE as int))
    }
}

/// The floor of a scalar as a plain integer (not in raw units).
pub open spec fn fp_floor(a: int) -> int {
    a / (SCALE as int)
}

/// Fixed-point power with a whole-number exponent, by left-folded products.
pub open spec fn fp_pow(a: int, n: nat) -> int
    decreases n,
{
    if n == 0 {
        SCALE as int
    } else {
        fp_mul(fp_pow(a, (n - 1) as nat), a)
    }
}

pub proof fn lemma_isqrt_bounds(n: int)
    ensures
        isqrt(n) >= 0,
        n >= 0 ==> isqrt(n) * isqrt(n) <= n,
        n >= 0 ==> n < (isqrt(n) + 1) * (isqrt(n) + 1),
    decreases n,
{
    if n > 0 {
        lemma_isqrt_bounds(n - 1);
        let r = isqrt(n - 1);
        if (r + 1) * (r + 1) <= n {
            // Here n == (r + 1) * (r + 1), and the next square up is larger.
            assert(r >= 0 ==> (r + 1) * (r + 1) < (r + 2) * (r + 2)) by (nonlinear_arith);
        }
    }
}

pub proof fn lemma_isqrt_unique(n: int, r: int)
    requires
        n >= 0,
        r >= 0,
        r * r <= n,
        n < (r + 1) * (r + 1),
    ensures
        r == isqrt(n),
{
    lemma_isqrt_bounds(n);
    let s = isqrt(n);
    if r < s {
        vstd::arithmetic::mul::lemma_mul_inequality(r + 1, s, s);
        vstd::arithmetic::mul::lemma_mul_inequality(r + 1, s, r + 1);
        assert((r + 1) * (r + 1) <= s * s);
    }
    if s < r {
        vstd::arithmetic::mul::lemma_mul_inequality(s + 1, r, r);
        vstd::arithmetic::mul::lemma_mul_inequality(s + 1, r, s + 1);
        assert((s + 1) * (s + 1) <= r * r);
    }
}

/// Any value whose square is at most `n` bounds the integer square root
/// from below.
pub proof fn lemma_isqrt_ge(n: int, k: int)
    requires
        0 <= k,
        k * k <= n,
    ensures
        isqrt(n) >= k,
{
    vstd::arithmetic::mul::lemma_mul_nonnegative(k, k);
    lemma_isqrt_bounds(n);
    let s = isqrt(n);
    if s < k {
        vstd::arithmetic::mul::lemma_mul_inequality(s + 1, k, s + 1);
        vstd::arithmetic::mul::lemma_mul_inequality(s + 1, k, k);
        vstd::arithmetic::mul::lemma_mul_is_commutative(k, s + 1);
        assert((s + 1) * (s + 1) <= k * k);
    }
}

/// Multiplying a representable value by one is exact.
pub proof fn lemma_fp_mul_one(x: int)
    requires
        i64::MIN <= x <= i64::MAX,
    ensures
        fp_mul(SCALE as int, x) == x,
        fp_mul(x, SCALE as int) == x,
{
    let sc = SCALE as int;
    if x >= 0 {
        vstd::arithmetic::div_mod::lemma_div_multiples_vanish(x, sc);
        assert(sc * x == x * sc);
    } else {
        assert(-(sc * x) == sc * (-x));
        assert(-(x * sc) == sc * (-x));
        vstd::arithmetic::div_mod::lemma_div_multiples_vanish(-x, sc);
    }
}

/// Sign/magnitude decomposition of a product.
pub proof fn lemma_mul_sign_abs(a: int, b: int)
    ensures
        vstd::math::abs(a * b) == vstd::math::abs(a) * vstd::math::abs(b),
        ((a < 0) != (b < 0)) ==> a * b <= 0,
        ((a < 0) == (b < 0)) ==> a * b >= 0,
{
    assert(vstd::math::abs(a * b) == vstd::math::abs(a) * vstd::math::abs(b)
        && (((a < 0) != (b < 0)) ==> a * b <= 0) && (((a < 0) == (b < 0)) ==> a * b >= 0))
        by (nonlinear_arith);
}

#[derive(Clone, Copy, PartialEq, Eq, Structural, Debug)]
pub struct Scalar {
    pub raw: i64,
}

impl View for Scalar {
    type V = int;

    open spec fn view(&self) -> int {
        self.raw as int
    }
}

impl Scalar {
    /// Build a scalar from a count of millionths; exact.
    pub fn from_millionths(n: i64) -> (r: Scalar)
        ensures
            r@ == n,
    {
        Scalar { raw: n }
    }

    /// Build a scalar from a whole number of units.
    pub fn from_int(n: i64) -> (r: Scalar)
        ensures
            r@ == fp_clamp(n * (SCALE as int)),
    {
        let wide = (n as i128) * (SCALE as i128);
        Scalar { raw: clamp_i128(wide) }
    }

    pub fn add(self, rhs: Scalar) -> (r: Scalar)
        ensures
            r@ == fp_add(self@, rhs@),
    {
        Scalar { raw: clamp_i128(self.raw as i128 + rhs.raw as i128) }
    }

    pub fn sub(self, rhs: Scalar) -> (r: Scalar)
        ensures
            r@ == fp_sub(self@, rhs@),
    {
        Scalar { raw: clamp_i128(self.raw as i128 - rhs.raw as i128) }
    }

    pub fn neg(self) -> (r: Scalar)
        ensures
            r@ == fp_neg(self@),
    {
        Scalar { raw: clamp_i128(-(self.raw as i128)) }
    }

    pub fn abs(self) -> (r: Scalar)
        ensures
            r@ == fp_abs(self@),
    {
        if self.raw >= 0 {
            self
        } else {
            Scalar { raw: clamp_i128(-(self.raw as i128)) }
        }
    }

    pub fn mul(self, rhs: Scalar) -> (r: Scalar)
        ensures
            r@ == fp_mul(self@, rhs@),
    {
        let negative = (self.raw < 0) != (rhs.raw < 0);
        let pa = mag64(self.raw);
        let pb = mag64(rhs.raw);
        proof {
            lemma_mul_sign_abs(self@, rhs@);
            vstd::arithmetic::mul::lemma_mul_upper_bound(
                pa as int,
                0x8000000000000000,
                pb as int,
                0x8000000000000000,
            );
        }
        let q = (pa as u128) * (pb as u128) / (SCALE as u128);
        signed_from_mag(q, negative)
    }

    pub fn div(self, rhs: Scalar) -> (r: Scalar)
        ensures
            r@ == fp_div(self@, rhs@),
    {
        if rhs.raw == 0 {
            Scalar { raw: 0 }
        } else {
            let negative = (self.raw < 0) != (rhs.raw < 0);
            let pa = mag64(self.raw);
            let pb = mag64(rhs.raw);
            proof {
                assert(pb >= 1);
            }
            let q = (pa as u128) * (SCALE as u128) / (pb as u128);
            proof {
                lemma_div_cases(self@, rhs@, pa as int, pb as int, q as int);
            }
            signed_from_mag(q, negative)
        }
    }

    pub fn sqrt(self) -> (r: Scalar)
        ensures
            r@ == fp_sqrt(self@),
    {
        if self.raw <= 0 {
            Scalar { raw: 0 }
        } else {
            let n = (self.raw as u128) * (SCALE as u128);
            let root = isqrt_u128(n);
            proof {
                lemma_isqrt_bounds(n as int);
            }
            Scalar { raw: root as i64 }
        }
    }

    /// The floor of the value as a plain integer.
    pub fn floor(self) -> (r: i64)
        ensures
            r == fp_floor(self@),
    {
        if self.raw >= 0 {
            let q = (self.raw as u64) / (SCALE as u64);
            proof {
                vstd::arithmetic::div_mod::lemma_fundamental_div_mod(self@, SCALE as int);
            }
            q as i64
        } else {
            let m = (-(self.raw as i128)) as u64;
            let q = m / (SCALE as u64);
            let rem = m % (SCALE as u64);
            if rem == 0 {
                proof {
                    vstd::arithmetic::div_mod::lemma_fundamental_div_mod(m as int, SCALE as int);
                    vstd::arithmetic::div_mod::lemma_fundamental_div_mod_converse(
                        self@,
                        SCALE as int,
                        -(q as int),
                        0,
                    );
                }
                -(q as i64)
            } else {
                proof {
                    vstd::arithmetic::div_mod::lemma_fundamental_div_mod(m as int, SCALE as int);
                    vstd::arithmetic::div_mod::lemma_fundamental_div_mod_converse(
                        self@,
                        SCALE as int,
                        -(q as int) - 1,
                        SCALE as int - rem as int,
                    );
                }
                -(q as i64) - 1
            }
        }
    }

    /// Fixed-point power with a whole-number exponent.
    pub fn powi(self, n: u32) -> (r: Scalar)
        ensures
            r@ == fp_pow(self@, n as nat),
    {
        let mut acc = Scalar { raw: SCALE };
        let mut i: u32 = 0;
        while i < n
            invariant
                i <= n,
                acc@ == fp_pow(self@, i as nat),
            decreases n - i,
        {
            acc = acc.mul(self);
            i = i + 1;
        }
        acc
    }

    /// True when the two values differ by less than the tolerance.
    pub fn approx_eq(self, rhs: Scalar) -> (r: bool)
        ensures
            r == (fp_abs(fp_sub(self@, rhs@)) < EPSILON),
    {
        self.sub(rhs).abs().raw < EPSILON
    }

    /// True when the value is within the tolerance of zero.
    pub fn near_zero(self) -> (r: bool)
        ensures
            r == (fp_abs(self@) < EPSILON),
    {
        self.abs().raw < EPSILON
    }
}

/// Saturate a wide intermediate into the `i64` range.
fn clamp_i128(x: i128) -> (r: i64)
    ensures
        r == fp_clamp(x as int),
{
    if x > i64::MAX as i128 {
        i64::MAX
    } else if x < i64::MIN as i128 {
        i64::MIN
    } else {
        x as i64
    }
}

/// Magnitude of an `i64` as a `u64`.
fn mag64(x: i64) -> (r: u64)
    ensures
        r == vstd::math::abs(x as int),
{
    if x >= 0 {
        x as u64
    } else {
        (-(x as i128)) as u64
    }
}

/// Reattach a sign to a truncated magnitude, saturating at the `i64` range.
fn signed_from_mag(q: u128, negative: bool) -> (r: Scalar)
    ensures
        negative ==> r@ == fp_clamp(-(q as int)),
        !negative ==> r@ == fp_clamp(q as int),
{
    if negative {
        if q > i64::MAX as u128 {
            // At q == 2^63 this is the exact value, beyond it the saturation.
            Scalar { raw: i64::MIN }
        } else {
            Scalar { raw: -(q as i64) }
        }
    } else {
        if q > i64::MAX as u128 {
            Scalar { raw: i64::MAX }
        } else {
            Scalar { raw: q as i64 }
        }
    }
}

proof fn lemma_div_cases(a: int, b: int, pa: int, pb: int, q: int)
    requires
        b != 0,
        pa == vstd::math::abs(a),
        pb == vstd::math::abs(b),
        q == (pa * (SCALE as int)) / pb,
    ensures
        ((a < 0) != (b < 0)) ==> fp_div(a, b) == fp_clamp(-q),
        ((a < 0) == (b < 0)) ==> fp_div(a, b) == fp_clamp(q),
{
    lemma_mul_sign_abs(a, SCALE as int);
}

/// Binary-search integer square root on wide unsigned values.
fn isqrt_u128(n: u128) -> (r: u128)
    requires
        n < 0x40000000000u128 * 0x40000000000u128,
    ensures
        r == isqrt(n as int),
        r < 0x40000000000u128,
{
    let mut lo: u128 = 0;
    let mut hi: u128 = 0x40000000000u128;
    while lo + 1 < hi
        invariant
            lo < hi,
            hi <= 0x40000000000u128,
            (lo as int) * (lo as int) <= n as int,
            (n as int) < (hi as int) * (hi as int),
        decreases hi - lo,
    {
        let mid = lo + (hi - lo) / 2;
        proof {
            vstd::arithmetic::mul::lemma_mul_upper_bound(
                mid as int,
                0x40000000000 - 1,
                mid as int,
                0x40000000000 - 1,
            );
        }
        if mid * mid <= n {
            lo = mid;
        } else {
            hi = mid;
        }
    }
    proof {
        lemma_isqrt_unique(n as int, lo as int);
    }
    lo
}

} // verus!
