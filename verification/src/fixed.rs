//! Fixed-point real values: a signed count of hundredths of a unit.
//!
//! The control signal and the sampled service quantities are reals in the
//! model; holding them as hundredths keeps rounding and truncation exact and
//! total. Rounding half-up to one decimal place and truncation toward zero
//! are separate, named steps.

use vstd::prelude::*;

verus! {

/// A real value in fixed point: `hundredths / 100` units.
#[derive(Clone, Copy, Debug, PartialEq, Eq, Structural)]
pub struct Fixed {
    pub hundredths: i64,
}

impl View for Fixed {
    type V = int;

    open spec fn view(&self) -> int {
        self.hundredths as int
    }
}

/// The smaller of two integers.
pub open spec fn imin(a: int, b: int) -> int {
    if a < b {
        a
    } else {
        b
    }
}

/// The larger of two integers.
pub open spec fn imax(a: int, b: int) -> int {
    if a > b {
        a
    } else {
        b
    }
}

/// Half-up rounding of a fixed-point value to one decimal place: the nearest
/// multiple of ten hundredths, exact halves rounded away from zero.
pub open spec fn spec_round1(h: int) -> int {
    if h >= 0 {
        ((h + 5) / 10) * 10
    } else {
        -(((-h + 5) / 10) * 10)
    }
}

/// Truncation of a fixed-point value toward zero, to a whole count of units.
pub open spec fn spec_trunc(h: int) -> int {
    if h >= 0 {
        h / 100
    } else {
        -((-h) / 100)
    }
}

impl Fixed {
    /// The value `h / 100`.
    pub fn from_hundredths(h: i64) -> (r: Fixed)
        ensures
            r@ == h as int,
    {
        Fixed { hundredths: h }
    }

    /// The whole number `n`, as a fixed-point value.
    pub fn from_int(n: i64) -> (r: Fixed)
        requires
            -92_233_720_368_547_758 <= n <= 92_233_720_368_547_758,
        ensures
            r@ == n * 100,
    {
        Fixed { hundredths: n * 100 }
    }

    /// Zero.
    pub fn zero() -> (r: Fixed)
        ensures
            r@ == 0,
    {
        Fixed { hundredths: 0 }
    }

    /// True exactly when the value is strictly positive.
    pub fn is_positive(&self) -> (r: bool)
        ensures
            r == (self@ > 0),
    {
        self.hundredths > 0
    }

    /// Rounds to one decimal place, half up: exact halves move away from zero.
    pub fn round1(self) -> (r: Fixed)
        requires
            -(i64::MAX - 5) <= self@ <= i64::MAX - 5,
        ensures
            r@ == spec_round1(self@),
    {
        if self.hundredths >= 0 {
            Fixed { hundredths: ((self.hundredths + 5) / 10) * 10 }
        } else {
            let m: i64 = -self.hundredths;
            Fixed { hundredths: -(((m + 5) / 10) * 10) }
        }
    }

    /// Truncates toward zero to a whole count of units.
    pub fn trunc(self) -> (r: i64)
        requires
            self@ > i64::MIN,
        ensures
            r == spec_trunc(self@),
    {
        if self.hundredths >= 0 {
            self.hundredths / 100
        } else {
            let m: i64 = -self.hundredths;
            -(m / 100)
        }
    }
}

/// Half-up rounding moves a value by strictly less than ten hundredths:
/// for a non-negative value `h`, the rounded value lies in `[h - 4, h + 5]`.
pub proof fn lemma_round1_close(h: int)
    requires
        h >= 0,
    ensures
        h - 4 <= spec_round1(h) <= h + 5,
        spec_round1(h) >= 0,
        spec_round1(h) % 10 == 0,
{
    let q = (h + 5) / 10;
    assert(q * 10 + (h + 5) % 10 == h + 5) by {
        vstd::arithmetic::div_mod::lemma_fundamental_div_mod(h + 5, 10);
    };
}

/// Truncation of a non-negative value bounded by `n * 100` yields at most `n`.
pub proof fn lemma_trunc_bound(h: int, n: int)
    requires
        0 <= h <= n * 100,
        0 <= n,
    ensures
        0 <= spec_trunc(h) <= n,
{
    assert((h / 100) * 100 + h % 100 == h) by {
        vstd::arithmetic::div_mod::lemma_fundamental_div_mod(h, 100);
    };
    assert(h / 100 <= n) by {
        if h / 100 > n {
            assert((h / 100) * 100 >= (n + 1) * 100) by (nonlinear_arith)
                requires
                    h / 100 >= n + 1,
            ;
        }
    };
}

} // verus!
