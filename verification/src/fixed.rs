//! Fixed-point scalars: an `i64` counting millionths of a unit.
//!
//! The engine works on real-valued quantities (coordinates, colors,
//! angles). Each is held as a signed 64-bit count of `SCALE` units per
//! whole, so `1.5` is the raw value `1_500_000`. Multiplication and
//! division rescale and truncate toward zero; every operation saturates
//! at the `i64` range instead of overflowing, and the degenerate cases a
//! float would turn into NaN or an infinity (dividing by zero, the square
//! root of a negative) are given the defined results documented below.

use vstd::prelude::*;

verus! {

/// Raw units per whole unit: six decimal places.
pub const SCALE: i64 = 1_000_000;

/// The absolute value of a mathematical integer.
pub open spec fn abs_int(x: int) -> int {
    if x >= 0 {
        x
    } else {
        -x
    }
}

/// Clamps a mathematical integer into the `i64` range.
pub open spec fn sat64(x: int) -> int {
    if x > i64::MAX {
        i64::MAX as int
    } else if x < i64::MIN {
        i64::MIN as int
    } else {
        x
    }
}

/// Division truncating toward zero (the rounding the executable code
/// performs by dividing magnitudes).
pub open spec fn tdiv(n: int, d: int) -> int
    recommends
        d != 0,
{
    if (n >= 0) == (d >= 0) {
        abs_int(n) / abs_int(d)
    } else {
        -(abs_int(n) / abs_int(d))
    }
}

/// Saturating fixed-point sum.
pub open spec fn fx_add(a: int, b: int) -> int {
    sat64(a + b)
}

/// Saturating fixed-point difference.
pub open spec fn fx_sub(a: int, b: int) -> int {
    sat64(a - b)
}

/// Saturating fixed-point negation.
pub open spec fn fx_neg(a: int) -> int {
    sat64(-a)
}

/// Saturating fixed-point product: rescale by `SCALE`, truncating toward
/// zero.
pub open spec fn fx_mul(a: int, b: int) -> int {
    sat64(tdiv(a * b, SCALE as int))
}

/// Saturating fixed-point quotient. Dividing a nonzero value by zero
/// saturates toward the dividend's sign; `0 / 0` is `0`.
pub open spec fn fx_div(a: int, b: int) -> int {
    if b == 0 {
        if a > 0 {
            i64::MAX as int
        } else if a < 0 {
            i64::MIN as int
        } else {
            0
        }
    } else {
        sat64(tdiv(a * (SCALE as int), b))
    }
}

/// Whether `r` is the integer square root of `n`.
pub open spec fn is_isqrt(r: int, n: int) -> bool {
    0 <= r && r * r <= n && n < (r + 1) * (r + 1)
}

/// The integer square root of a nonnegative integer.
pub open spec fn isqrt(n: int) -> int
    recommends
        n >= 0,
{
    choose|r: int| is_isqrt(r, n)
}

/// Fixed-point square root. Nonpositive inputs (NaN territory for a
/// float) are defined to yield zero.
pub open spec fn fx_sqrt(a: int) -> int {
    if a <= 0 {
        0
    } else {
        isqrt(a * (SCALE as int))
    }
}

/// The smaller of two values.
pub open spec fn fx_min(a: int, b: int) -> int {
    if a < b {
        a
    } else {
        b
    }
}

/// The larger of two values.
pub open spec fn fx_max(a: int, b: int) -> int {
    if a > b {
        a
    } else {
        b
    }
}

/// An integer square root exists for every nonnegative integer.
pub proof fn lemma_isqrt_exists(n: int) -> (r: int)
    requires
        n >= 0,
    ensures
        is_isqrt(r, n),
    decreases n,
{
    if n == 0 {
        assert(is_isqrt(0, 0));
        0
    } else {
        let p = lemma_isqrt_exists(n - 1);
        if (p + 1) * (p + 1) > n {
            assert(is_isqrt(p, n));
            p
        } else {
            assert((p + 1) * (p + 1) == n);
            assert(((p + 1) + 1) * ((p + 1) + 1) > n) by (nonlinear_arith)
                requires
                    p >= 0 && (p + 1) * (p + 1) == n,
            ;
            assert(is_isqrt(p + 1, n));
            p + 1
        }
    }
}

/// The integer square root is unique.
pub proof fn lemma_isqrt_unique(r1: int, r2: int, n: int)
    requires
        is_isqrt(r1, n),
        is_isqrt(r2, n),
    ensures
        r1 == r2,
{
    assert(r1 == r2) by (nonlinear_arith)
        requires
            0 <= r1 && r1 * r1 <= n && n < (r1 + 1) * (r1 + 1) && 0 <= r2 && r2 * r2 <= n && n < (
            r2 + 1) * (r2 + 1),
    ;
}

/// A witness that satisfies `is_isqrt` equals `isqrt(n)`.
pub proof fn lemma_isqrt_is(r: int, n: int)
    requires
        n >= 0,
        is_isqrt(r, n),
    ensures
        isqrt(n) == r,
{
    assert(is_isqrt(isqrt(n), n)) by {
        assert(exists|q: int| is_isqrt(q, n));
    }
    lemma_isqrt_unique(isqrt(n), r, n);
}

/// Euclidean division and remainder are the unique pair with a remainder
/// in `[0, d)`.
pub proof fn lemma_euclid_unique(n: int, d: int, q: int, r: int)
    requires
        d > 0,
        n == q * d + r,
        0 <= r < d,
    ensures
        n / d == q,
        n % d == r,
{
    vstd::arithmetic::div_mod::lemma_fundamental_div_mod(n, d);
    assert(n / d == q && n % d == r) by (nonlinear_arith)
        requires
            d > 0 && n == q * d + r && 0 <= r < d && n == d * (n / d) + (n % d) && 0 <= n % d < d,
    ;
}

/// A fixed-point scalar: `v` millionths of a unit.
#[derive(Clone, Copy, Debug, PartialEq, Eq, Structural)]
pub struct Fx {
    pub v: i64,
}

impl View for Fx {
    type V = int;

    open spec fn view(&self) -> int {
        self.v as int
    }
}

/// The product of two `i64` values stays far inside the `i128` range.
proof fn lemma_i64_prod_bound(a: int, b: int)
    requires
        i64::MIN <= a <= i64::MAX,
        i64::MIN <= b <= i64::MAX,
    ensures
        -(i128::MAX as int) <= a * b <= i128::MAX as int,
{
    assert(-(i128::MAX as int) <= a * b <= i128::MAX as int) by (nonlinear_arith)
        requires
            i64::MIN <= a <= i64::MAX && i64::MIN <= b <= i64::MAX,
    ;
}

/// Divides an `i128` by a nonzero divisor, truncating toward zero and
/// saturating the quotient into the `i64` range.
fn sat_tdiv_i128(p: i128, d: i128) -> (r: i64)
    requires
        d != 0,
        -(i128::MAX as int) <= p,
        -(i128::MAX as int) <= d,
    ensures
        r as int == sat64(tdiv(p as int, d as int)),
{
    let neg: bool = (p < 0) != (d < 0);
    let pm: u128 = if p >= 0 {
        p as u128
    } else {
        (-p) as u128
    };
    let dm: u128 = if d >= 0 {
        d as u128
    } else {
        (-d) as u128
    };
    let q: u128 = pm / dm;
    if neg {
        if q >= 0x8000_0000_0000_0000u128 {
            i64::MIN
        } else {
            -(q as i64)
        }
    } else {
        if q > 0x7fff_ffff_ffff_ffffu128 {
            i64::MAX
        } else {
            q as i64
        }
    }
}

impl Fx {
    /// A whole number of units, saturating at the representable range.
    pub fn from_int(n: i64) -> (r: Fx)
        ensures
            r@ == sat64(n * (SCALE as int)),
    {
        if n > 9_223_372_036_854i64 {
            Fx { v: i64::MAX }
        } else if n < -9_223_372_036_854i64 {
            Fx { v: i64::MIN }
        } else {
            Fx { v: n * SCALE }
        }
    }

    /// A whole number of units from a pixel count, saturating above.
    pub fn from_usize(n: usize) -> (r: Fx)
        ensures
            r@ == sat64(n * (SCALE as int)),
    {
        if n as u64 > 9_223_372_036_854u64 {
            Fx { v: i64::MAX }
        } else {
            Fx { v: (n as i64) * SCALE }
        }
    }

    /// Saturating sum.
    pub fn add(self, other: Fx) -> (r: Fx)
        ensures
            r@ == fx_add(self@, other@),
    {
        match self.v.checked_add(other.v) {
            Some(s) => Fx { v: s },
            None => if self.v >= 0 {
                Fx { v: i64::MAX }
            } else {
                Fx { v: i64::MIN }
            },
        }
    }

    /// Saturating difference.
    pub fn sub(self, other: Fx) -> (r: Fx)
        ensures
            r@ == fx_sub(self@, other@),
    {
        match self.v.checked_sub(other.v) {
            Some(s) => Fx { v: s },
            None => if self.v >= 0 {
                Fx { v: i64::MAX }
            } else {
                Fx { v: i64::MIN }
            },
        }
    }

    /// Saturating negation.
    pub fn neg(self) -> (r: Fx)
        ensures
            r@ == fx_neg(self@),
    {
        if self.v == i64::MIN {
            Fx { v: i64::MAX }
        } else {
            Fx { v: -self.v }
        }
    }

    /// Saturating product, truncating the rescale toward zero.
    pub fn mul(self, other: Fx) -> (r: Fx)
        ensures
            r@ == fx_mul(self@, other@),
    {
        proof {
            lemma_i64_prod_bound(self@, other@);
        }
        let p: i128 = (self.v as i128) * (other.v as i128);
        let r: i64 = sat_tdiv_i128(p, SCALE as i128);
        Fx { v: r }
    }

    /// Saturating quotient; see [`fx_div`] for the division-by-zero
    /// convention.
    pub fn div(self, other: Fx) -> (r: Fx)
        ensures
            r@ == fx_div(self@, other@),
    {
        if other.v == 0 {
            if self.v > 0 {
                Fx { v: i64::MAX }
            } else if self.v < 0 {
                Fx { v: i64::MIN }
            } else {
                Fx { v: 0 }
            }
        } else {
            proof {
                lemma_i64_prod_bound(self@, SCALE as int);
            }
            let p: i128 = (self.v as i128) * (SCALE as i128);
            Fx { v: sat_tdiv_i128(p, other.v as i128) }
        }
    }

    /// Truncating division by a positive whole number (no rescale).
    pub fn div_whole(self, k: i64) -> (r: Fx)
        requires
            k > 0,
        ensures
            r@ == tdiv(self@, k as int),
    {
        let q: i64 = sat_tdiv_i128(self.v as i128, k as i128);
        proof {
            lemma_tdiv_in_range(self@, k as int);
        }
        Fx { v: q }
    }

    /// Fixed-point square root; nonpositive inputs yield zero.
    pub fn sqrt(self) -> (r: Fx)
        ensures
            r@ == fx_sqrt(self@),
    {
        if self.v <= 0 {
            Fx { v: 0 }
        } else {
            let n: u128 = (self.v as u128) * (SCALE as u128);
            let r: u64 = isqrt_u128(n);
            proof {
                lemma_isqrt_is(r as int, n as int);
            }
            Fx { v: r as i64 }
        }
    }
}

/// A quotient truncated toward zero never exceeds the dividend's
/// magnitude.
proof fn lemma_tdiv_in_range(n: int, d: int)
    requires
        d > 0,
        i64::MIN <= n <= i64::MAX,
    ensures
        i64::MIN <= tdiv(n, d) <= i64::MAX,
        sat64(tdiv(n, d)) == tdiv(n, d),
{
    assert(0 <= abs_int(n) / d <= abs_int(n)) by (nonlinear_arith)
        requires
            d > 0 && abs_int(n) >= 0,
    ;
}

/// The integer square root of a `u128` no larger than `2^83`.
fn isqrt_u128(n: u128) -> (r: u64)
    requires
        n <= 0x800_0000_0000_0000_0000_0000u128,
    ensures
        is_isqrt(r as int, n as int),
        r < 0x2_0000_0000_0000u64,
{
    let mut lo: u128 = 0;
    let mut hi: u128 = 0x2_0000_0000_0000u128;
    assert(hi * hi > n) by (nonlinear_arith)
        requires
            hi == 0x2_0000_0000_0000u128 && n <= 0x800_0000_0000_0000_0000_0000u128,
    ;
    while lo + 1 < hi
        invariant
            0 <= lo < hi <= 0x2_0000_0000_0000u128,
            lo * lo <= n,
            hi * hi > n,
        decreases hi - lo,
    {
        let mid: u128 = lo + (hi - lo) / 2;
        assert(lo < mid < hi);
        assert(mid * mid <= 0x4_0000_0000_0000_0000_0000_0000u128) by (nonlinear_arith)
            requires
                0 < mid <= 0x2_0000_0000_0000u128,
        ;
        let sq: u128 = mid * mid;
        if sq <= n {
            lo = mid;
        } else {
            hi = mid;
        }
    }
    assert(hi == lo + 1);
    lo as u64
}

} // verus!
