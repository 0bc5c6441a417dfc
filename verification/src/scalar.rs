//! Exact scalar coordinate values.
//!
//! Canonical events carry positions, deltas and normalized axis values.
//! All of them arise from a handful of exact operations on integers — a
//! shift by half the window extent, a scaling by a whole number, a division
//! by a fixed axis maximum — so a rational number with a 64-bit numerator
//! and denominator represents every value this library ever produces, with
//! no rounding anywhere.

use vstd::prelude::*;

verus! {

/// Largest denominator accepted for a window extent handed to the
/// translator; keeps the centering transform within 64-bit arithmetic.
pub const EXTENT_DEN_MAX: i64 = 0x4000_0000;

/// Largest numerator accepted for a window extent handed to the
/// translator; keeps the centering transform within 64-bit arithmetic.
pub const EXTENT_NUM_MAX: i64 = 0x1000_0000_0000_0000;

/// An exact scalar value: the rational `num / den`.
///
/// Two scalars with different representations may denote the same value;
/// the spec predicates below therefore speak of the denoted value through
/// cross-multiplication, never of the fields alone.
#[derive(Clone, Copy, PartialEq, Eq, Structural, Debug)]
pub struct Scalar {
    /// Numerator.
    pub num: i64,
    /// Denominator; positive for a well-formed scalar.
    pub den: i64,
}

impl Scalar {
    /// A well-formed scalar has a positive denominator.
    pub open spec fn wf(self) -> bool {
        self.den >= 1
    }

    /// `self` denotes the rational value `n / d`.
    pub open spec fn is_ratio(self, n: int, d: int) -> bool {
        self.wf() && d > 0 && self.num * d == n * self.den
    }

    /// `self` denotes the integer `n`.
    pub open spec fn is_integer(self, n: int) -> bool {
        self.wf() && self.num == n * self.den
    }

    /// `self` denotes `p - e/2`: the pixel coordinate `p` shifted so that
    /// half the window extent `e` — the window centre — becomes the origin.
    pub open spec fn is_centered(self, p: int, e: Scalar) -> bool {
        self.wf() && e.wf() && 2 * self.num * e.den == (2 * p * e.den - e.num) * self.den
    }

    /// `self` denotes `-(p - e/2)`: as `is_centered`, with the axis flipped
    /// so that up is positive in the canonical frame.
    pub open spec fn is_centered_flipped(self, p: int, e: Scalar) -> bool {
        self.wf() && e.wf() && 2 * self.num * e.den == (e.num - 2 * p * e.den) * self.den
    }

    /// A usable window extent: positive, and small enough in both fields
    /// that the centering transform cannot overflow 64-bit arithmetic.
    pub open spec fn wf_extent(self) -> bool {
        1 <= self.den <= EXTENT_DEN_MAX && 1 <= self.num <= EXTENT_NUM_MAX
    }
}

} // verus!
