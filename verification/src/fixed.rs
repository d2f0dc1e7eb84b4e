//! Saturating fixed-point numbers with 32 fractional bits.
//!
//! A [`Fixed`] holds a signed 64-bit count of units of 2^-32, so it covers
//! roughly ±2.1e9 with a resolution of about 2.3e-10. Every operation computes
//! the exact result, rounds it toward zero onto the grid and clamps it to the
//! representable range; none of them can fail or overflow.

use vstd::prelude::*;

verus! {

/// The raw count that stands for the number one.
pub const ONE: i64 = 4294967296;

/// The raw count that stands for the number two.
pub const TWO: i64 = 8589934592;

/// `v` clamped to the range of raw counts.
pub open spec fn saturate(v: int) -> int {
    if v < i64::MIN {
        i64::MIN as int
    } else if v > i64::MAX {
        i64::MAX as int
    } else {
        v
    }
}

/// Whether `v` is a raw count, so that [`saturate`] leaves it alone.
pub open spec fn representable(v: int) -> bool {
    i64::MIN <= v <= i64::MAX
}

/// The quotient of `n` by `d`, rounded toward zero. Meaningful for `d != 0`.
pub open spec fn quotient(n: int, d: int) -> int {
    if d > 0 {
        if n >= 0 {
            n / d
        } else {
            -((-n) / d)
        }
    } else {
        if n >= 0 {
            -(n / (-d))
        } else {
            (-n) / (-d)
        }
    }
}

/// Sum of two raw counts.
pub open spec fn sat_add(a: int, b: int) -> int {
    saturate(a + b)
}

/// Difference of two raw counts.
pub open spec fn sat_sub(a: int, b: int) -> int {
    saturate(a - b)
}

/// Negation of a raw count.
pub open spec fn sat_neg(a: int) -> int {
    saturate(-a)
}

/// Product of the numbers that two raw counts stand for, as a raw count.
pub open spec fn sat_mul(a: int, b: int) -> int {
    saturate(quotient(a * b, ONE as int))
}

/// Quotient of the numbers that two raw counts stand for, as a raw count.
///
/// Division by zero follows the sign of the dividend to the end of the range,
/// and zero divided by zero is zero.
pub open spec fn sat_div(a: int, b: int) -> int {
    if b == 0 {
        if a > 0 {
            i64::MAX as int
        } else if a < 0 {
            i64::MIN as int
        } else {
            0
        }
    } else {
        saturate(quotient(a * ONE, b))
    }
}

/// The smaller of two raw counts.
pub open spec fn min_of(a: int, b: int) -> int {
    if a <= b {
        a
    } else {
        b
    }
}

/// A fixed-point number: `raw` units of 2^-32.
#[derive(Clone, Copy, PartialEq, Eq, Structural, PartialOrd, Debug)]
pub struct Fixed {
    pub raw: i64,
}

impl View for Fixed {
    type V = int;

    /// The raw count as a mathematical integer.
    open spec fn view(&self) -> int {
        self.raw as int
    }
}

/// Clamps a wide intermediate result to a [`Fixed`].
fn narrow(v: i128) -> (r: Fixed)
    ensures
        r@ == saturate(v as int),
{
    if v < -9223372036854775808i128 {
        Fixed { raw: i64::MIN }
    } else if v > 9223372036854775807i128 {
        Fixed { raw: i64::MAX }
    } else {
        Fixed { raw: v as i64 }
    }
}

/// Divides rounding toward zero, for either sign of the divisor.
fn wide_quotient(n: i128, d: i128) -> (q: i128)
    requires
        d != 0,
        i128::MIN < n,
        i128::MIN < d,
    ensures
        q == quotient(n as int, d as int),
{
    if d > 0 {
        n / d
    } else {
        let pos_d: i128 = -d;
        let neg_n: i128 = -n;
        proof {
            if n == 0 {
                assert(0int / (pos_d as int) == 0) by (nonlinear_arith)
                    requires
                        pos_d > 0,
                ;
            }
        }
        neg_n / pos_d
    }
}

impl Fixed {
    /// The whole number `n`.
    pub fn from_int(n: i32) -> (r: Fixed)
        ensures
            r@ == n * ONE,
    {
        let wide: i64 = n as i64;
        Fixed { raw: wide * ONE }
    }

    /// `self + rhs`, clamped to the representable range.
    pub fn saturating_add(self, rhs: Fixed) -> (r: Fixed)
        ensures
            r@ == sat_add(self@, rhs@),
    {
        narrow(self.raw as i128 + rhs.raw as i128)
    }

    /// `self - rhs`, clamped to the representable range.
    pub fn saturating_sub(self, rhs: Fixed) -> (r: Fixed)
        ensures
            r@ == sat_sub(self@, rhs@),
    {
        narrow(self.raw as i128 - rhs.raw as i128)
    }

    /// `-self`, clamped to the representable range.
    pub fn saturating_neg(self) -> (r: Fixed)
        ensures
            r@ == sat_neg(self@),
    {
        narrow(-(self.raw as i128))
    }

    /// `self * rhs`, rounded toward zero and clamped.
    pub fn saturating_mul(self, rhs: Fixed) -> (r: Fixed)
        ensures
            r@ == sat_mul(self@, rhs@),
    {
        let a: i128 = self.raw as i128;
        let b: i128 = rhs.raw as i128;
        assert(-0x4000_0000_0000_0000_0000_0000_0000_0000 <= a * b
            <= 0x4000_0000_0000_0000_0000_0000_0000_0000) by (nonlinear_arith)
            requires
                -0x8000_0000_0000_0000 <= a <= 0x8000_0000_0000_0000,
                -0x8000_0000_0000_0000 <= b <= 0x8000_0000_0000_0000,
        ;
        let wide: i128 = a * b;
        narrow(wide_quotient(wide, ONE as i128))
    }

    /// `self / rhs`, rounded toward zero and clamped; see [`sat_div`] for a
    /// zero divisor.
    pub fn saturating_div(self, rhs: Fixed) -> (r: Fixed)
        ensures
            r@ == sat_div(self@, rhs@),
    {
        if rhs.raw == 0 {
            if self.raw > 0 {
                Fixed { raw: i64::MAX }
            } else if self.raw < 0 {
                Fixed { raw: i64::MIN }
            } else {
                Fixed { raw: 0 }
            }
        } else {
            let one: i128 = ONE as i128;
            let wide: i128 = (self.raw as i128) * one;
            narrow(wide_quotient(wide, rhs.raw as i128))
        }
    }

    /// The smaller of `self` and `rhs`.
    pub fn min(self, rhs: Fixed) -> (r: Fixed)
        ensures
            r@ == min_of(self@, rhs@),
    {
        if self.raw <= rhs.raw {
            self
        } else {
            rhs
        }
    }
}

} // verus!
