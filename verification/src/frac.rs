//! Non-negative rational values with a positive denominator.
//!
//! Frame delays are rational milliseconds (so that repeated frame advances
//! accumulate no rounding drift), frame rates are rational frames per second,
//! and the aspect-fit sizing helpers return exact rational dimensions.

use vstd::prelude::*;

verus! {

/// A non-negative rational number `num / den`.
///
/// Well-formed values have `den > 0`; every constructor of this library
/// establishes that, and every function taking a `Frac` preserves it.
#[derive(PartialEq, Eq, Structural, Clone, Copy, Debug)]
pub struct Frac {
    pub num: u64,
    pub den: u64,
}

impl Frac {
    /// A `Frac` denotes a rational only when its denominator is positive.
    pub open spec fn wf(self) -> bool {
        self.den > 0
    }

    /// `self <= other` as rationals (cross multiplication).
    pub open spec fn rat_le(self, other: Frac) -> bool {
        self.num * other.den <= other.num * self.den
    }

    /// A rational is positive exactly when its numerator is.
    pub open spec fn is_positive(self) -> bool {
        self.num > 0
    }
}

} // verus!
