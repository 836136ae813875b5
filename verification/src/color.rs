//! Colors and brightness scaling.

use vstd::prelude::*;

use crate::state::Brightness;

verus! {

/// One LED's color.
#[derive(Debug, Clone, Copy, PartialEq, Eq, Structural)]
pub struct Color {
    /// The red channel.
    pub r: u8,
    /// The green channel.
    pub g: u8,
    /// The blue channel.
    pub b: u8,
}

impl Color {
    /// Black: all channels off.
    pub fn black() -> (r: Self)
        ensures
            r == (Color { r: 0, g: 0, b: 0 }),
    {
        Self { r: 0, g: 0, b: 0 }
    }
}

/// One channel scaled by a brightness: `c * (brightness + 1) / 256`,
/// truncated. Full brightness keeps the channel as it is; zero brightness
/// darkens every channel to zero.
pub open spec fn spec_scale_channel(c: u8, brightness: u8) -> u8 {
    (c * (brightness + 1) / 256) as u8
}

/// A color with every channel scaled by a brightness.
pub open spec fn spec_scale_color(c: Color, brightness: u8) -> Color {
    Color {
        r: spec_scale_channel(c.r, brightness),
        g: spec_scale_channel(c.g, brightness),
        b: spec_scale_channel(c.b, brightness),
    }
}

/// Relies on smart_leds::brightness: each channel of each color comes back
/// as `channel * (brightness + 1) / 256`, truncated, in order.
#[verifier::external_body]
fn scale_colors(colors: &Vec<Color>, brightness: u8) -> (r: Vec<Color>)
    ensures
        r@.len() == colors@.len(),
        forall|i: int| 0 <= i < colors@.len() ==> r@[i] == spec_scale_color(colors@[i], brightness),
{
    smart_leds::brightness(
        colors.iter().map(|c| smart_leds::RGB8 { r: c.r, g: c.g, b: c.b }),
        brightness,
    )
        .map(|c| Color { r: c.r, g: c.g, b: c.b })
        .collect()
}

/// Scales a whole frame by a brightness, channel by channel.
pub fn scale_frame(colors: &Vec<Color>, brightness: Brightness) -> (r: Vec<Color>)
    ensures
        r@.len() == colors@.len(),
        forall|i: int| 0 <= i < colors@.len()
            ==> r@[i] == spec_scale_color(colors@[i], brightness.spec_value()),
{
    scale_colors(colors, brightness.value())
}

} // verus!
