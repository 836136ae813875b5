//! Constants describing the LED installation.

use vstd::prelude::*;

verus! {

/// The number of LEDs per strip.
pub const LEDS_PER_STRIP: usize = 13;

/// The number of LEDs per half strip.
pub const LEDS_PER_HALF_STRIP: usize = 7;

/// The number of LED strips per side.
pub const STRIPS_PER_SIDE: usize = 2;

/// The total number of LEDs.
pub const NUM_LEDS: usize = LEDS_PER_STRIP * STRIPS_PER_SIDE * 4;

/// The size of the buffer for the LED driver.
pub const LED_BUFFER_SIZE: usize = NUM_LEDS * 12 + 20;

/// The refresh rate of the render task, in ticks per second.
pub const REFRESH_RATE: u32 = 50;

} // verus!
