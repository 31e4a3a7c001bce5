use vstd::math::abs;
use vstd::prelude::*;

use crate::my_complex::{BasicOps, ScalarOps};

verus! {

/// Number of steps per unit: a `Fixed` value counts billionths, so every
/// decimal constant with at most nine fractional digits is represented
/// exactly.
pub const SCALE: i64 = 1_000_000_000;

/// A mathematical integer clipped into the `i64` range: out-of-range values
/// saturate at the nearest bound, standing in for the infinities that the
/// scalar cannot hold.
pub open spec fn clip(x: int) -> i64 {
    if x > i64::MAX {
        i64::MAX
    } else if x < i64::MIN {
        i64::MIN
    } else {
        x as i64
    }
}

/// Division truncated toward zero (the machine rule for signed integers),
/// meaningful for a nonzero divisor.
pub open spec fn tdiv(a: int, b: int) -> int {
    if (a >= 0) == (b >= 0) {
        (abs(a) / abs(b)) as int
    } else {
        -((abs(a) / abs(b)) as int)
    }
}

/// A decimal fixed-point scalar worth `bits / SCALE`. Arithmetic saturates at
/// the ends of the `i64` range instead of overflowing, and division by zero
/// saturates by the sign of the dividend, so every operation is total.
#[derive(Clone, Copy, PartialEq, Eq, Structural, Debug)]
pub struct Fixed {
    pub bits: i64,
}

/// `i64::MAX` is never a saturated `checked_div` result here: the quotient's
/// magnitude never exceeds the dividend's.
proof fn lemma_tdiv_bounded(a: int, b: int)
    requires
        b != 0,
    ensures
        abs(tdiv(a, b)) <= abs(a),
{
    assert(abs(a) / abs(b) <= abs(a)) by (nonlinear_arith)
        requires
            abs(a) >= 0,
            abs(b) >= 1,
    ;
}

/// A product of an `i64` with the scale stays well inside the `i128` range.
proof fn lemma_mul_scale_in_range(v: int)
    requires
        i64::MIN <= v <= i64::MAX,
    ensures
        i128::MIN < v * SCALE < i128::MAX,
{
    assert(i128::MIN < v * SCALE < i128::MAX) by (nonlinear_arith)
        requires
            i64::MIN <= v <= i64::MAX,
            SCALE == 1_000_000_000,
    ;
}

/// Division of `i128` values truncated toward zero, with the two inputs that
/// the machine operation rejects ruled out.
fn tdiv128(a: i128, b: i128) -> (q: i128)
    requires
        b != 0,
        a != i128::MIN,
    ensures
        q == tdiv(a as int, b as int),
{
    proof {
        lemma_tdiv_bounded(a as int, b as int);
    }
    match a.checked_div(b) {
        Some(q) => q,
        None => 0,
    }
}

/// An `i128` clipped into the `i64` range.
fn clip128(q: i128) -> (r: i64)
    ensures
        r == clip(q as int),
{
    if q > i64::MAX as i128 {
        i64::MAX
    } else if q < i64::MIN as i128 {
        i64::MIN
    } else {
        q as i64
    }
}

impl Fixed {
    /// The fixed-point value of a whole number, saturating far outside the
    /// representable range.
    pub open spec fn spec_from_int(v: i64) -> Fixed {
        Fixed { bits: clip(v * SCALE) }
    }

    /// The fixed-point value of the fraction `num / den`, truncated toward
    /// zero at the billionths step.
    pub open spec fn spec_from_ratio(num: i64, den: i64) -> Fixed {
        Fixed { bits: clip(tdiv(num * SCALE, den as int)) }
    }

    pub fn from_int(v: i64) -> (r: Fixed)
        ensures
            r == Self::spec_from_int(v),
    {
        match v.checked_mul(SCALE) {
            Some(b) => Fixed { bits: b },
            None => Fixed { bits: if v >= 0 { i64::MAX } else { i64::MIN } },
        }
    }

    pub fn from_ratio(num: i64, den: i64) -> (r: Fixed)
        requires
            den != 0,
        ensures
            r == Self::spec_from_ratio(num, den),
    {
        proof {
            lemma_mul_scale_in_range(num as int);
        }
        let p: i128 = (num as i128) * (SCALE as i128);
        Fixed { bits: clip128(tdiv128(p, den as i128)) }
    }
}

impl BasicOps for Fixed {
    open spec fn spec_add(self, rhs: Fixed) -> Fixed {
        Fixed { bits: clip(self.bits + rhs.bits) }
    }

    open spec fn spec_sub(self, rhs: Fixed) -> Fixed {
        Fixed { bits: clip(self.bits - rhs.bits) }
    }

    open spec fn spec_mul(self, rhs: Fixed) -> Fixed {
        Fixed { bits: clip(tdiv(self.bits * rhs.bits, SCALE as int)) }
    }

    open spec fn spec_div(self, rhs: Fixed) -> Fixed {
        if rhs.bits == 0 {
            Fixed { bits: if self.bits >= 0 { i64::MAX } else { i64::MIN } }
        } else {
            Fixed { bits: clip(tdiv(self.bits * SCALE, rhs.bits as int)) }
        }
    }

    fn add(self, rhs: Fixed) -> Fixed {
        let s: i128 = (self.bits as i128) + (rhs.bits as i128);
        Fixed { bits: clip128(s) }
    }

    fn sub(self, rhs: Fixed) -> Fixed {
        let s: i128 = (self.bits as i128) - (rhs.bits as i128);
        Fixed { bits: clip128(s) }
    }

    fn mul(self, rhs: Fixed) -> Fixed {
        proof {
            assert((self.bits as int) * (rhs.bits as int) < i128::MAX && (self.bits as int) * (
            rhs.bits as int) > i128::MIN) by (nonlinear_arith)
                requires
                    i64::MIN <= self.bits <= i64::MAX,
                    i64::MIN <= rhs.bits <= i64::MAX,
            ;
        }
        let p: i128 = (self.bits as i128) * (rhs.bits as i128);
        Fixed { bits: clip128(tdiv128(p, SCALE as i128)) }
    }

    fn div(self, rhs: Fixed) -> Fixed {
        if rhs.bits == 0 {
            Fixed { bits: if self.bits >= 0 { i64::MAX } else { i64::MIN } }
        } else {
            proof {
                lemma_mul_scale_in_range(self.bits as int);
            }
            let p: i128 = (self.bits as i128) * (SCALE as i128);
            Fixed { bits: clip128(tdiv128(p, rhs.bits as i128)) }
        }
    }
}

impl ScalarOps for Fixed {
    open spec fn spec_lt(self, rhs: Fixed) -> bool {
        self.bits < rhs.bits
    }

    open spec fn spec_from_u32(v: u32) -> Fixed {
        Fixed { bits: (v * SCALE) as i64 }
    }

    fn lt(self, rhs: Fixed) -> bool {
        self.bits < rhs.bits
    }

    fn from_u32(v: u32) -> Fixed {
        Fixed { bits: (v as i64) * SCALE }
    }
}

} // verus!
