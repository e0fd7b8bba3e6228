//! Fixed-point sine, cosine and tangent.
//!
//! Angles are radians in fixed-point units. The functions reduce the
//! angle modulo a full turn, fold it into the first quadrant, and
//! evaluate an odd Taylor polynomial of degree nine there, clamped into
//! `[0, SCALE]` so the sine of a quarter turn — and with it the cosine
//! of zero — is exactly one whole unit. The spec functions state that
//! composition exactly; no claim is made beyond it about the real sine
//! (the polynomial is within a few millionths over the reduced range).

use vstd::prelude::*;

use crate::fixed::Fx;
use crate::fixed::SCALE;
use crate::fixed::fx_add;
use crate::fixed::fx_div;
use crate::fixed::fx_mul;
use crate::fixed::fx_neg;
use crate::fixed::fx_sub;
use crate::fixed::lemma_euclid_unique;
use crate::fixed::tdiv;

verus! {

/// A quarter turn in fixed-point radians.
pub const HALF_PI_FX: i64 = 1_570_796;

/// A half turn in fixed-point radians.
pub const PI_FX: i64 = 3_141_593;

/// Three quarter turns in fixed-point radians.
pub const PI_3_2_FX: i64 = 4_712_389;

/// A full turn in fixed-point radians.
pub const TWO_PI_FX: i64 = 6_283_185;

/// The degree-nine Taylor polynomial of the sine at zero, evaluated in
/// fixed point (intended for arguments within a quarter turn).
#[verifier::opaque]
pub open spec fn sin_poly(x: int) -> int {
    let x2 = fx_mul(x, x);
    let x3 = fx_mul(x2, x);
    let x5 = fx_mul(x3, x2);
    let x7 = fx_mul(x5, x2);
    let x9 = fx_mul(x7, x2);
    fx_add(fx_sub(fx_add(fx_sub(x, tdiv(x3, 6)), tdiv(x5, 120)), tdiv(x7, 5040)), tdiv(x9, 362880))
}

/// The sine over a folded quarter turn: the polynomial clamped into
/// `[0, SCALE]`, so the quarter-turn value is exactly one whole unit
/// (the raw polynomial overshoots one by a few millionths there).
pub open spec fn sin_quarter(x: int) -> int {
    let p = sin_poly(x);
    if p < 0 {
        0
    } else if p > SCALE {
        SCALE as int
    } else {
        p
    }
}

/// Fixed-point sine: reduce modulo a full turn, fold into the first
/// quadrant, evaluate the clamped polynomial. The result is always
/// within `[-SCALE, SCALE]`, with `fx_sin(HALF_PI_FX) == SCALE`.
#[verifier::opaque]
pub open spec fn fx_sin(a: int) -> int {
    let r = a % (TWO_PI_FX as int);
    if r <= HALF_PI_FX {
        sin_quarter(r)
    } else if r <= PI_FX {
        sin_quarter(PI_FX - r)
    } else if r <= PI_3_2_FX {
        fx_neg(sin_quarter(r - PI_FX))
    } else {
        fx_neg(sin_quarter(TWO_PI_FX - r))
    }
}

/// Fixed-point cosine: the sine a quarter turn later.
#[verifier::opaque]
pub open spec fn fx_cos(a: int) -> int {
    fx_sin(fx_add(a, HALF_PI_FX as int))
}

/// Fixed-point tangent: sine over cosine.
#[verifier::opaque]
pub open spec fn fx_tan(a: int) -> int {
    fx_div(fx_sin(a), fx_cos(a))
}

/// Reduces an angle to `[0, TWO_PI_FX)` by the Euclidean remainder.
fn reduce_two_pi(a: i64) -> (r: i64)
    ensures
        r as int == (a as int) % (TWO_PI_FX as int),
        0 <= r < TWO_PI_FX,
{
    if a >= 0 {
        ((a as u64) % (TWO_PI_FX as u64)) as i64
    } else {
        let m: i64 = (((-(a as i128)) as u128) % (TWO_PI_FX as u128)) as i64;
        proof {
            let na = -(a as int);
            let tp = TWO_PI_FX as int;
            vstd::arithmetic::div_mod::lemma_fundamental_div_mod(na, tp);
            let q = na / tp;
            assert(na % tp == m);
            if m == 0 {
                lemma_euclid_unique(a as int, tp, -q, 0);
            } else {
                lemma_euclid_unique(a as int, tp, -q - 1, tp - m);
            }
        }
        if m == 0 {
            0
        } else {
            TWO_PI_FX - m
        }
    }
}

/// Evaluates [`sin_poly`] in executable code.
fn sin_poly_exec(x: Fx) -> (r: Fx)
    ensures
        r@ == sin_poly(x@),
{
    proof {
        reveal(sin_poly);
    }
    let x2: Fx = x.mul(x);
    let x3: Fx = x2.mul(x);
    let x5: Fx = x3.mul(x2);
    let x7: Fx = x5.mul(x2);
    let x9: Fx = x7.mul(x2);
    x.sub(x3.div_whole(6)).add(x5.div_whole(120)).sub(x7.div_whole(5040)).add(
        x9.div_whole(362880),
    )
}

/// Evaluates [`sin_quarter`] in executable code.
fn sin_quarter_exec(x: Fx) -> (r: Fx)
    ensures
        r@ == sin_quarter(x@),
{
    let p: Fx = sin_poly_exec(x);
    if p.v < 0 {
        Fx { v: 0 }
    } else if p.v > SCALE {
        Fx { v: SCALE }
    } else {
        p
    }
}

impl Fx {
    /// The fixed-point sine of an angle in radians.
    pub fn sin(self) -> (r: Fx)
        ensures
            r@ == fx_sin(self@),
    {
        proof {
            reveal(fx_sin);
        }
        let red: i64 = reduce_two_pi(self.v);
        if red <= HALF_PI_FX {
            sin_quarter_exec(Fx { v: red })
        } else if red <= PI_FX {
            sin_quarter_exec(Fx { v: PI_FX - red })
        } else if red <= PI_3_2_FX {
            sin_quarter_exec(Fx { v: red - PI_FX }).neg()
        } else {
            sin_quarter_exec(Fx { v: TWO_PI_FX - red }).neg()
        }
    }

    /// The fixed-point cosine of an angle in radians.
    pub fn cos(self) -> (r: Fx)
        ensures
            r@ == fx_cos(self@),
    {
        proof {
            reveal(fx_cos);
        }
        self.add(Fx { v: HALF_PI_FX }).sin()
    }

    /// The fixed-point tangent of an angle in radians.
    pub fn tan(self) -> (r: Fx)
        ensures
            r@ == fx_tan(self@),
    {
        proof {
            reveal(fx_tan);
        }
        self.sin().div(self.cos())
    }
}

/// The sine of zero is exactly zero.
pub proof fn lemma_sin_zero()
    ensures
        fx_sin(0) == 0,
{
    reveal(fx_sin);
    reveal(sin_poly);
    lemma_euclid_unique(0, TWO_PI_FX as int, 0, 0);
    assert(fx_mul(0, 0) == 0);
    assert(tdiv(0, 6) == 0);
    assert(tdiv(0, 120) == 0);
    assert(tdiv(0, 5040) == 0);
    assert(tdiv(0, 362880) == 0);
}

/// The sine of a quarter turn is exactly one whole unit: the clamped
/// polynomial reaches the cap there.
pub proof fn lemma_sin_quarter_turn()
    ensures
        fx_sin(HALF_PI_FX as int) == SCALE as int,
{
    reveal(fx_sin);
    reveal(sin_poly);
    lemma_euclid_unique(HALF_PI_FX as int, TWO_PI_FX as int, 0, HALF_PI_FX as int);
    assert(fx_mul(1_570_796, 1_570_796) == 2_467_400) by {
        lemma_euclid_unique(2_467_400_073_616, 1_000_000, 2_467_400, 73_616);
    }
    assert(fx_mul(2_467_400, 1_570_796) == 3_875_782) by {
        lemma_euclid_unique(3_875_782_050_400, 1_000_000, 3_875_782, 50_400);
    }
    assert(fx_mul(3_875_782, 2_467_400) == 9_563_104) by {
        lemma_euclid_unique(9_563_104_506_800, 1_000_000, 9_563_104, 506_800);
    }
    assert(fx_mul(9_563_104, 2_467_400) == 23_596_002) by {
        lemma_euclid_unique(23_596_002_809_600, 1_000_000, 23_596_002, 809_600);
    }
    assert(fx_mul(23_596_002, 2_467_400) == 58_220_775) by {
        lemma_euclid_unique(58_220_775_334_800, 1_000_000, 58_220_775, 334_800);
    }
    assert(tdiv(3_875_782, 6) == 645_963) by {
        lemma_euclid_unique(3_875_782, 6, 645_963, 4);
    }
    assert(tdiv(9_563_104, 120) == 79_692) by {
        lemma_euclid_unique(9_563_104, 120, 79_692, 64);
    }
    assert(tdiv(23_596_002, 5040) == 4_681) by {
        lemma_euclid_unique(23_596_002, 5040, 4_681, 3_762);
    }
    assert(tdiv(58_220_775, 362880) == 160) by {
        lemma_euclid_unique(58_220_775, 362880, 160, 159_975);
    }
    assert(sin_poly(HALF_PI_FX as int) == 1_000_004);
}

/// The cosine of zero is exactly one whole unit.
pub proof fn lemma_cos_zero()
    ensures
        fx_cos(0) == SCALE as int,
{
    reveal(fx_cos);
    lemma_sin_quarter_turn();
}

/// The sine never leaves `[-SCALE, SCALE]`.
pub proof fn lemma_sin_bounded(a: int)
    ensures
        -(SCALE as int) <= fx_sin(a) <= SCALE as int,
{
    reveal(fx_sin);
}

/// The cosine never leaves `[-SCALE, SCALE]`.
pub proof fn lemma_cos_bounded(a: int)
    ensures
        -(SCALE as int) <= fx_cos(a) <= SCALE as int,
{
    reveal(fx_cos);
    lemma_sin_bounded(fx_add(a, HALF_PI_FX as int));
}

} // verus!
