//! Types modeling the state of the user interface.

use vstd::prelude::*;

use crate::constants::LEDS_PER_STRIP;

verus! {

/// The state of the user interface.
///
/// A snapshot is produced once per sampler tick or once per accepted
/// protocol override, compared by equality to detect changes, and superseded
/// wholesale by the next one.
#[derive(Debug, Clone, Copy, PartialEq, Eq, Structural)]
pub struct UIState {
    /// The mode.
    pub mode: Mode,
    /// The brightness of the LED strip.
    pub brightness: Brightness,
    /// The speed of transitions.
    pub speed: Speed,
    /// The color temperature.
    pub temperature: Temperature,
    /// The state of the LCD screen.
    pub screen_state: ScreenState,
}

/// The mode.
#[derive(Debug, Clone, Copy, PartialEq, Eq, Structural)]
pub enum Mode {
    /// The off mode.
    ///
    /// The installation is off, only checking UI updates.
    Off,

    /// The random unicolor mode.
    ///
    /// All LEDs are following the same random color progression.
    RandomUnicolor,

    /// The rainbow fontain mode.
    ///
    /// LED strips show a symmetrical rainbow divergence.
    RainbowFontain,
}

/// The brightness of the LED strip.
///
/// A linear scale applied multiplicatively to every output color channel.
#[derive(Debug, Clone, Copy, PartialEq, Eq, Structural)]
pub struct Brightness(u8);

/// The speed of transitions, stored as the transition time in milliseconds.
///
/// The sampler maps the raw speed control into `MIN..=MAX`; larger raw
/// values yield a shorter transition time.
#[derive(Debug, Clone, Copy, PartialEq, Eq, Structural)]
pub struct Speed(u32);

/// The color temperature.
///
/// Negative values bias color generation toward warm colors, positive
/// values toward cold ones.
#[derive(Debug, Clone, Copy, PartialEq, Eq, Structural)]
pub struct Temperature(i8);

/// The screen state.
#[derive(Debug, Clone, Copy, PartialEq, Eq, Structural)]
pub enum ScreenState {
    /// The screen is off.
    Off,
    /// The screen is on.
    On,
}

impl Default for Mode {
    /// The default mode is off.
    fn default() -> (r: Self)
        ensures
            r == Mode::Off,
    {
        Self::Off
    }
}

impl Default for Brightness {
    /// The default brightness is the minimum.
    fn default() -> (r: Self)
        ensures
            r.value() == 0,
    {
        Self(0)
    }
}

impl Default for Speed {
    /// The default speed is the fastest, i.e. the minimum transition time.
    fn default() -> (r: Self)
        ensures
            r.transition_time() == Speed::MIN,
    {
        Self(Self::MIN)
    }
}

impl Default for Temperature {
    /// The default temperature is neutral.
    fn default() -> (r: Self)
        ensures
            r.value() == 0,
    {
        Self(0)
    }
}

impl Default for ScreenState {
    /// The screen starts off.
    fn default() -> (r: Self)
        ensures
            r == ScreenState::Off,
    {
        Self::Off
    }
}

impl Default for UIState {
    /// Every field takes its own default.
    fn default() -> (r: Self)
        ensures
            r.mode == Mode::Off,
            r.brightness.value() == 0,
            r.speed.transition_time() == Speed::MIN,
            r.temperature.value() == 0,
            r.screen_state == ScreenState::Off,
    {
        Self {
            mode: Mode::Off,
            brightness: Brightness(0),
            speed: Speed(Speed::MIN),
            temperature: Temperature(0),
            screen_state: ScreenState::Off,
        }
    }
}

impl Brightness {
    /// The minimum brightness value.
    pub const MIN: u8 = 0;
    /// The maximum brightness value.
    pub const MAX: u8 = 255;

    /// The brightness value, for use in specifications.
    pub closed spec fn spec_value(&self) -> u8 {
        self.0
    }

    /// Creates a new brightness.
    pub fn new(value: u8) -> (r: Self)
        ensures
            r.value() == value,
    {
        Self(value)
    }

    /// Returns the brightness value.
    #[verifier::when_used_as_spec(spec_value)]
    pub fn value(&self) -> (r: u8)
        ensures
            r == self.spec_value(),
    {
        self.0
    }
}

impl Speed {
    /// The minimum transition time, in milliseconds.
    pub const MIN: u32 = 100;
    /// The maximum transition time, in milliseconds.
    pub const MAX: u32 = 13_000;

    /// The transition time in milliseconds, for use in specifications.
    pub closed spec fn spec_transition_time(&self) -> u32 {
        self.0
    }

    /// Creates a new speed from a transition time in milliseconds.
    pub fn new(transition_time: u32) -> (r: Self)
        ensures
            r.transition_time() == transition_time,
    {
        Self(transition_time)
    }

    /// Returns the duration of a transition, in milliseconds.
    #[verifier::when_used_as_spec(spec_transition_time)]
    pub fn transition_time(&self) -> (r: u32)
        ensures
            r == self.spec_transition_time(),
    {
        self.0
    }
}

impl Temperature {
    /// The minimum temperature value.
    pub const MIN: i8 = -85;
    /// The maximum temperature value.
    pub const MAX: i8 = 85;

    /// The temperature value, for use in specifications.
    pub closed spec fn spec_value(&self) -> i8 {
        self.0
    }

    /// Creates a new temperature.
    ///
    /// Negative values give warmer colors, positive values colder ones.
    pub fn new(value: i8) -> (r: Self)
        ensures
            r.value() == value,
    {
        Self(value)
    }

    /// Returns the temperature value.
    #[verifier::when_used_as_spec(spec_value)]
    pub fn value(&self) -> (r: i8)
        ensures
            r == self.spec_value(),
    {
        self.0
    }
}

/// Two brightness values with the same scalar are the same brightness.
pub proof fn lemma_brightness_determined(a: Brightness, b: Brightness)
    requires
        a.spec_value() == b.spec_value(),
    ensures
        a == b,
{
}

/// Two speeds with the same transition time are the same speed.
pub proof fn lemma_speed_determined(a: Speed, b: Speed)
    requires
        a.spec_transition_time() == b.spec_transition_time(),
    ensures
        a == b,
{
}

/// Two temperatures with the same scalar are the same temperature.
pub proof fn lemma_temperature_determined(a: Temperature, b: Temperature)
    requires
        a.spec_value() == b.spec_value(),
    ensures
        a == b,
{
}

/// The size of patterns, bounded by the length of a strip.
#[derive(Debug, Clone, Copy, PartialEq, Eq, Structural)]
pub struct PatternSize(u8);

/// The color distance between the main and secondary color of a pattern.
#[derive(Debug, Clone, Copy, PartialEq, Eq, Structural)]
pub struct ColorDistance(u8);

/// An error that can happen when creating a `PatternSize`.
#[derive(Debug, Clone, Copy, PartialEq, Eq, Structural)]
pub enum NewPatternSizeError {
    /// The pattern size is too big.
    TooBig,
}

impl Default for PatternSize {
    /// The default pattern covers four LEDs.
    fn default() -> (r: Self)
        ensures
            r.value() == 4,
    {
        Self(4)
    }
}

impl PatternSize {
    /// The pattern size value, for use in specifications.
    pub closed spec fn spec_value(&self) -> u8 {
        self.0
    }

    /// Creates a new pattern size.
    ///
    /// The `value` is the size of the complete pattern; it may not exceed
    /// the length of a strip.
    pub fn new(value: u8) -> (r: Result<Self, NewPatternSizeError>)
        ensures
            value as usize <= LEDS_PER_STRIP ==> (r matches Ok(p) && p.value() == value),
            value as usize > LEDS_PER_STRIP ==> (r matches Err(e) && e == NewPatternSizeError::TooBig),
    {
        if value as usize <= LEDS_PER_STRIP {
            Ok(Self(value))
        } else {
            Err(NewPatternSizeError::TooBig)
        }
    }

    /// Returns the pattern size value.
    #[verifier::when_used_as_spec(spec_value)]
    pub fn value(&self) -> (r: u8)
        ensures
            r == self.spec_value(),
    {
        self.0
    }
}

impl Default for ColorDistance {
    /// The default color distance is zero.
    fn default() -> (r: Self)
        ensures
            r.value() == 0,
    {
        Self(0)
    }
}

impl ColorDistance {
    /// The color distance value, for use in specifications.
    pub closed spec fn spec_value(&self) -> u8 {
        self.0
    }

    /// Creates a new color distance.
    pub fn new(value: u8) -> (r: Self)
        ensures
            r.value() == value,
    {
        Self(value)
    }

    /// Returns the color distance value.
    #[verifier::when_used_as_spec(spec_value)]
    pub fn value(&self) -> (r: u8)
        ensures
            r == self.spec_value(),
    {
        self.0
    }
}

} // verus!
