//! LED strip utilities.

use vstd::prelude::*;

verus! {

/// LED strip extension trait: implemented by whatever drives the physical
/// strip.
pub trait LedStripExt {
    /// Switches off the LED strip.
    fn off(&mut self);
}

} // verus!
