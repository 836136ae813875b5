//! The calibrated input channels of the control board.
//!
//! Each physical analog control reports raw values in a range measured once
//! at calibration time. The channel types carry that range; the sampler uses
//! it to normalize raw readings into the semantic UI values.

use vstd::prelude::*;

verus! {

/// A calibrated potentiometer.
///
/// The calibration is a raw value range, established once at startup and
/// fixed for the life of the board; the minimum is strictly below the
/// maximum.
pub trait CalibratedPotentiometer: Sized {
    /// The minimum raw value reported by the potentiometer.
    spec fn spec_min() -> u16;

    /// The maximum raw value reported by the potentiometer.
    spec fn spec_max() -> u16;

    /// A calibrated range is never empty.
    proof fn lemma_calibrated()
        ensures
            Self::spec_min() < Self::spec_max(),
    ;

    /// Returns the minimum raw value reported by the potentiometer.
    fn min() -> (r: u16)
        ensures
            r == Self::spec_min(),
    ;

    /// Returns the maximum raw value reported by the potentiometer.
    fn max() -> (r: u16)
        ensures
            r == Self::spec_max(),
    ;
}

/// The first rotation potentiometer.
pub struct R1;

/// The second rotation potentiometer.
pub struct R2;

/// The third rotation potentiometer.
pub struct R3;

/// The fourth rotation potentiometer.
pub struct R4;

/// The first slider.
pub struct S1;

/// The second slider.
pub struct S2;

impl CalibratedPotentiometer for R1 {
    closed spec fn spec_min() -> u16 {
        53
    }

    closed spec fn spec_max() -> u16 {
        3832
    }

    proof fn lemma_calibrated() {
    }

    fn min() -> u16 {
        53
    }

    fn max() -> u16 {
        3832
    }
}

impl CalibratedPotentiometer for R2 {
    closed spec fn spec_min() -> u16 {
        53
    }

    closed spec fn spec_max() -> u16 {
        3832
    }

    proof fn lemma_calibrated() {
    }

    fn min() -> u16 {
        53
    }

    fn max() -> u16 {
        3832
    }
}

impl CalibratedPotentiometer for R3 {
    closed spec fn spec_min() -> u16 {
        60
    }

    closed spec fn spec_max() -> u16 {
        3832
    }

    proof fn lemma_calibrated() {
    }

    fn min() -> u16 {
        60
    }

    fn max() -> u16 {
        3832
    }
}

impl CalibratedPotentiometer for R4 {
    closed spec fn spec_min() -> u16 {
        53
    }

    closed spec fn spec_max() -> u16 {
        3832
    }

    proof fn lemma_calibrated() {
    }

    fn min() -> u16 {
        53
    }

    fn max() -> u16 {
        3832
    }
}

impl CalibratedPotentiometer for S1 {
    closed spec fn spec_min() -> u16 {
        30
    }

    closed spec fn spec_max() -> u16 {
        4020
    }

    proof fn lemma_calibrated() {
    }

    fn min() -> u16 {
        30
    }

    fn max() -> u16 {
        4020
    }
}

impl CalibratedPotentiometer for S2 {
    closed spec fn spec_min() -> u16 {
        30
    }

    closed spec fn spec_max() -> u16 {
        4020
    }

    proof fn lemma_calibrated() {
    }

    fn min() -> u16 {
        30
    }

    fn max() -> u16 {
        4020
    }
}

} // verus!
