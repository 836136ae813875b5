//! Busy-wait delay arithmetic.

use vstd::prelude::*;

verus! {

/// A basic busy-wait delay, counting processor cycles.
#[derive(Debug, Clone, Copy, PartialEq, Eq, Structural)]
pub struct AsmDelay {
    /// The AHB frequency in Hz.
    ahb_frequency: u32,
}

impl AsmDelay {
    /// The AHB frequency in Hz, for use in specifications.
    pub closed spec fn spec_ahb_frequency(&self) -> u32 {
        self.ahb_frequency
    }

    /// Initialises a delay for a bus frequency in Hz.
    pub fn new(ahb_frequency: u32) -> (r: Self)
        ensures
            r.spec_ahb_frequency() == ahb_frequency,
    {
        Self { ahb_frequency }
    }

    /// Returns how many processor cycles a delay of `us` microseconds
    /// takes at the configured frequency, truncated downward.
    pub fn delay_ticks_us(&self, us: u32) -> (r: u64)
        ensures
            r == us as int * self.spec_ahb_frequency() as int / 1_000_000,
    {
        proof {
            assert(us as int * self.ahb_frequency as int <= 0xffff_ffff * 0xffff_ffff)
                by (nonlinear_arith)
                requires
                    us <= 0xffff_ffff,
                    self.ahb_frequency <= 0xffff_ffff,
            ;
        }
        (us as u64) * (self.ahb_frequency as u64) / 1_000_000
    }

    /// Returns how many processor cycles a delay of `ms` milliseconds
    /// takes at the configured frequency.
    pub fn delay_ticks_ms(&self, ms: u16) -> (r: u64)
        ensures
            r == ms as int * 1000 * self.spec_ahb_frequency() as int / 1_000_000,
    {
        self.delay_ticks_us(ms as u32 * 1000)
    }
}

} // verus!
