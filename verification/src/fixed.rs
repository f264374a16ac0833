//! Sensor samples as sign-and-magnitude fixed-point numbers.
//!
//! The renderer never computes with fractional values; it only compares them
//! against thresholds and prints them with two decimal places. A sample is
//! therefore carried as the truncation of the measured value toward zero to
//! hundredths of its unit, plus the sign of the measurement. Keeping the sign
//! apart from the magnitude preserves the distinction between a reading of
//! `0.004` and one of `-0.004`: both truncate to zero hundredths, but the
//! second still prints with a leading minus.

use vstd::prelude::*;

verus! {

/// A measured value, truncated toward zero to hundredths of its unit.
///
/// `neg` records whether the measurement was strictly negative; `centi` is
/// the magnitude in hundredths. `Fixed { neg: true, centi: 7 }` stands for a
/// measurement in `(-0.08, -0.07]`.
#[derive(Clone, Copy, Debug, PartialEq, Eq, Structural)]
pub struct Fixed {
    pub neg: bool,
    pub centi: u32,
}

impl Fixed {
    /// The signed number of hundredths this sample truncated to.
    pub open spec fn signed_centi(self) -> int {
        if self.neg {
            -(self.centi as int)
        } else {
            self.centi as int
        }
    }

    /// A sample of exactly zero, measured as non-negative.
    pub open spec fn spec_zero() -> Fixed {
        Fixed { neg: false, centi: 0 }
    }

    /// A sample of exactly zero, measured as non-negative.
    pub fn zero() -> (z: Fixed)
        ensures
            z == Fixed::spec_zero(),
    {
        Fixed { neg: false, centi: 0 }
    }
}

} // verus!
