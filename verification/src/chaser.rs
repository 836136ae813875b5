//! The effect pipeline: chasers, sequences and their configurations.
//!
//! A chaser is a mode-indexed, stateful generator: once per rendering tick
//! it yields a sequence, one frame's worth of per-LED colors. The
//! mathematics inside the color generators — the random-walk interpolation
//! of the unicolor effect, the hue wheel of the rainbow — are the
//! generators' own concern and enter the pipeline as one
//! [`GeneratorFrame`] value per tick; what the pipeline itself guarantees
//! is the dispatch over the closed variant set, the shape of every frame,
//! and the round trip between a sequence and its configuration.

use vstd::prelude::*;

use crate::color::Color;
use crate::constants::{LEDS_PER_HALF_STRIP, LEDS_PER_STRIP, NUM_LEDS};
use crate::state::{Mode, Temperature};

verus! {

/// The shared timing context, pushed into the active chaser every tick.
#[derive(Debug, Clone, Copy, PartialEq, Eq, Structural)]
pub struct TimeConfig {
    /// The refresh rate of the render task, in ticks per second.
    pub refresh_rate: u32,
    /// The duration over which a color change completes, in milliseconds.
    pub transition_time_ms: u32,
}

impl TimeConfig {
    /// Creates a new time configuration.
    pub fn new(refresh_rate: u32, transition_time_ms: u32) -> (r: Self)
        ensures
            r == (TimeConfig { refresh_rate, transition_time_ms }),
    {
        Self { refresh_rate, transition_time_ms }
    }
}

/// One tick's worth of output from the color generators.
///
/// The random-walk color of the unicolor effect and the half-strip palette
/// of the rainbow effect are produced outside the pipeline; the pipeline
/// takes them as values and is exact for every value they may take.
pub struct GeneratorFrame {
    /// The color the unicolor random walk reached this tick.
    pub main_color: Color,
    /// The rainbow palette for one half strip this tick.
    pub half_strip: Vec<Color>,
}

impl GeneratorFrame {
    /// A generator frame is well-formed when its palette covers exactly one
    /// half strip.
    pub open spec fn wf(&self) -> bool {
        self.half_strip@.len() == LEDS_PER_HALF_STRIP
    }
}

/// The state of a random unicolor chaser.
///
/// The two distribution bounds — one bounding the color-channel delta per
/// transition, one bounding the transition duration window — are fixed at
/// construction and never altered afterwards; only the live time
/// configuration and temperature change, once per tick.
#[derive(Debug, Clone, Copy, PartialEq, Eq, Structural)]
pub struct RandomUnicolorChaser {
    /// The refresh rate the chaser was constructed with.
    pub refresh_rate: u32,
    /// The lower bound of the color-channel delta distribution.
    pub delta_low: i16,
    /// The upper bound of the color-channel delta distribution.
    pub delta_high: i16,
    /// The lower bound of the transition duration window, in milliseconds.
    pub transition_low_ms: u32,
    /// The upper bound of the transition duration window, in milliseconds.
    pub transition_high_ms: u32,
    /// The live timing context, overwritten every tick.
    pub time_config: TimeConfig,
    /// The live color temperature bias, overwritten every tick.
    pub temperature: i8,
}

/// The state of a rainbow fontain chaser.
///
/// The effect is temperature-insensitive: it accepts and ignores the bias.
#[derive(Debug, Clone, Copy, PartialEq, Eq, Structural)]
pub struct RainbowFontainChaser {
    /// The live timing context, overwritten every tick.
    pub time_config: TimeConfig,
}

impl RandomUnicolorChaser {
    /// Creates a new random unicolor chaser.
    ///
    /// The distribution bounds are fixed here for the chaser's whole life;
    /// the live transition time starts at one second, until the first tick
    /// pushes the current speed.
    pub fn new(
        refresh_rate: u32,
        delta_low: i16,
        delta_high: i16,
        transition_low_ms: u32,
        transition_high_ms: u32,
    ) -> (r: Self)
        ensures
            r == (RandomUnicolorChaser {
                refresh_rate,
                delta_low,
                delta_high,
                transition_low_ms,
                transition_high_ms,
                time_config: TimeConfig { refresh_rate, transition_time_ms: 1000 },
                temperature: 0,
            }),
    {
        Self {
            refresh_rate,
            delta_low,
            delta_high,
            transition_low_ms,
            transition_high_ms,
            time_config: TimeConfig { refresh_rate, transition_time_ms: 1000 },
            temperature: 0,
        }
    }
}

/// A chaser: the generator behind the currently selected mode.
#[derive(Debug, Clone, Copy, PartialEq, Eq, Structural)]
pub enum Chaser {
    /// No chaser: the off mode.
    Off,
    /// A random unicolor chaser.
    RandomUnicolor(RandomUnicolorChaser),
    /// A rainbow fontain chaser.
    RainbowFontain(RainbowFontainChaser),
}

impl Chaser {
    /// The mode this chaser realizes.
    pub open spec fn spec_mode(&self) -> Mode {
        match self {
            Chaser::Off => Mode::Off,
            Chaser::RandomUnicolor(_) => Mode::RandomUnicolor,
            Chaser::RainbowFontain(_) => Mode::RainbowFontain,
        }
    }

    /// This chaser with its live timing context overwritten; everything
    /// else, the construction-time distribution bounds included, is kept.
    pub open spec fn spec_with_time_config(self, tc: TimeConfig) -> Chaser {
        match self {
            Chaser::Off => Chaser::Off,
            Chaser::RandomUnicolor(c) => Chaser::RandomUnicolor(
                RandomUnicolorChaser { time_config: tc, ..c },
            ),
            Chaser::RainbowFontain(c) => Chaser::RainbowFontain(
                RainbowFontainChaser { time_config: tc },
            ),
        }
    }

    /// This chaser with its temperature bias overwritten where the variant
    /// is temperature-sensitive, and unchanged where it is not.
    pub open spec fn spec_with_temperature(self, temperature: i8) -> Chaser {
        match self {
            Chaser::RandomUnicolor(c) => Chaser::RandomUnicolor(
                RandomUnicolorChaser { temperature, ..c },
            ),
            _ => self,
        }
    }

    /// Returns the mode this chaser realizes.
    pub fn mode(&self) -> (r: Mode)
        ensures
            r == self.spec_mode(),
    {
        match self {
            Chaser::Off => Mode::Off,
            Chaser::RandomUnicolor(_) => Mode::RandomUnicolor,
            Chaser::RainbowFontain(_) => Mode::RainbowFontain,
        }
    }

    /// Overwrites the chaser's timing context, without resetting its
    /// progress or its construction-time distribution bounds.
    pub fn set_time_config(&mut self, time_config: &TimeConfig)
        ensures
            *final(self) == old(self).spec_with_time_config(*time_config),
    {
        match self {
            Chaser::Off => (),
            Chaser::RandomUnicolor(chaser) => {
                chaser.time_config = *time_config;
            },
            Chaser::RainbowFontain(chaser) => {
                chaser.time_config = *time_config;
            },
        }
    }

    /// Overwrites the chaser's color temperature bias in place; variants
    /// that are temperature-insensitive accept and ignore it.
    pub fn set_temperature(&mut self, temperature: Temperature)
        ensures
            *final(self) == old(self).spec_with_temperature(temperature.spec_value()),
    {
        match self {
            Chaser::Off => (),
            Chaser::RandomUnicolor(chaser) => {
                chaser.temperature = temperature.value();
            },
            Chaser::RainbowFontain(_) => (),
        }
    }

    /// Advances one tick: yields the sequence for the current frame, built
    /// from this tick's generator output. `None` only signals "no active
    /// effect", i.e. the off mode; the chaser's own state is untouched.
    pub fn next(&mut self, frame: GeneratorFrame) -> (r: Option<Sequence>)
        requires
            frame.wf(),
        ensures
            *final(self) == *old(self),
            *old(self) is Off <==> r is None,
            *old(self) is RandomUnicolor ==> r == Some(Sequence::Unicolor(UnicolorSequence {
                color: frame.main_color,
                index: 0,
            })),
            *old(self) is RainbowFontain ==> (r matches Some(s)
                && (s matches Sequence::SymmetricRainbow(q)
                && q.half_strip@ == frame.half_strip@ && q.index == 0)),
    {
        match self {
            Chaser::Off => None,
            Chaser::RandomUnicolor(_) => Some(Sequence::Unicolor(UnicolorSequence {
                color: frame.main_color,
                index: 0,
            })),
            Chaser::RainbowFontain(_) => Some(Sequence::SymmetricRainbow(
                SymmetricRainbowSequence { half_strip: frame.half_strip, index: 0 },
            )),
        }
    }
}

/// A unicolor sequence: the same color for every LED of the frame.
#[derive(Debug, Clone, PartialEq, Eq, Structural)]
pub struct UnicolorSequence {
    /// The color of every LED this frame.
    pub color: Color,
    /// How many colors have been yielded so far.
    pub index: usize,
}

/// A symmetric rainbow sequence: a half-strip palette, mirrored into one
/// strip and duplicated across every strip of the installation, one
/// coherent frame over the whole installation.
#[derive(Debug, Clone, PartialEq, Eq)]
pub struct SymmetricRainbowSequence {
    /// The palette of one half strip.
    pub half_strip: Vec<Color>,
    /// How many colors have been yielded so far.
    pub index: usize,
}

/// A sequence: one frame's worth of per-LED colors, yielded lazily.
#[derive(Debug, Clone, PartialEq, Eq)]
pub enum Sequence {
    /// A unicolor sequence.
    Unicolor(UnicolorSequence),
    /// A symmetric rainbow sequence.
    SymmetricRainbow(SymmetricRainbowSequence),
}

/// One strip's colors: the half-strip palette followed by its mirror
/// image, covering the odd middle position once.
pub open spec fn spec_mirror(half: Seq<Color>) -> Seq<Color>
    recommends
        half.len() == LEDS_PER_HALF_STRIP,
{
    Seq::new(LEDS_PER_STRIP as nat, |j: int| if j < LEDS_PER_HALF_STRIP {
        half[j]
    } else {
        half[LEDS_PER_STRIP - 1 - j]
    })
}

impl Sequence {
    /// A sequence is well-formed when its palette covers exactly one half
    /// strip and its progress has not run past the frame.
    pub open spec fn wf(&self) -> bool {
        match self {
            Sequence::Unicolor(s) => s.index <= NUM_LEDS,
            Sequence::SymmetricRainbow(s) => s.half_strip@.len() == LEDS_PER_HALF_STRIP
                && s.index <= NUM_LEDS,
        }
    }

    /// The frame this sequence yields: exactly one color per LED.
    pub open spec fn spec_frame(&self) -> Seq<Color> {
        match self {
            Sequence::Unicolor(s) => Seq::new(NUM_LEDS as nat, |i: int| s.color),
            Sequence::SymmetricRainbow(s) => Seq::new(
                NUM_LEDS as nat,
                |i: int| spec_mirror(s.half_strip@)[i % (LEDS_PER_STRIP as int)],
            ),
        }
    }

    /// How many colors this sequence has yielded so far.
    pub open spec fn spec_index(&self) -> int {
        match self {
            Sequence::Unicolor(s) => s.index as int,
            Sequence::SymmetricRainbow(s) => s.index as int,
        }
    }

    /// This sequence with its progress advanced by one color.
    pub open spec fn spec_advanced(self) -> Sequence {
        match self {
            Sequence::Unicolor(s) => Sequence::Unicolor(UnicolorSequence {
                index: (s.index + 1) as usize,
                ..s
            }),
            Sequence::SymmetricRainbow(s) => Sequence::SymmetricRainbow(SymmetricRainbowSequence {
                index: (s.index + 1) as usize,
                ..s
            }),
        }
    }

    /// Yields the next color of the frame, terminating after exactly one
    /// color per LED.
    pub fn next(&mut self) -> (r: Option<Color>)
        requires
            old(self).wf(),
        ensures
            final(self).wf(),
            old(self).spec_index() < NUM_LEDS ==> (r == Some(old(self).spec_frame()[old(self).spec_index()])
                && *final(self) == old(self).spec_advanced()),
            old(self).spec_index() >= NUM_LEDS ==> (r is None && *final(self) == *old(self)),
    {
        match self {
            Sequence::Unicolor(s) => {
                if s.index < NUM_LEDS {
                    s.index = s.index + 1;
                    Some(s.color)
                } else {
                    None
                }
            },
            Sequence::SymmetricRainbow(s) => {
                if s.index < NUM_LEDS {
                    let pos = s.index % LEDS_PER_STRIP;
                    let color = if pos < LEDS_PER_HALF_STRIP {
                        s.half_strip[pos]
                    } else {
                        s.half_strip[LEDS_PER_STRIP - 1 - pos]
                    };
                    s.index = s.index + 1;
                    Some(color)
                } else {
                    None
                }
            },
        }
    }

    /// The configuration this sequence can be rebuilt from.
    pub open spec fn spec_config(&self) -> Config {
        match self {
            Sequence::Unicolor(s) => Config::Unicolor(UnicolorConfig { color: s.color }),
            Sequence::SymmetricRainbow(s) => Config::Rainbow(RainbowConfig {
                half_strip: s.half_strip,
            }),
        }
    }

    /// Builds a fresh sequence from a configuration, its progress at the
    /// start of the frame.
    pub fn new(config: Config) -> (r: Sequence)
        requires
            config.wf(),
        ensures
            r.wf(),
            r.spec_index() == 0,
            r.spec_config() == config,
    {
        match config {
            Config::Unicolor(c) => Sequence::Unicolor(UnicolorSequence { color: c.color, index: 0 }),
            Config::Rainbow(c) => Sequence::SymmetricRainbow(SymmetricRainbowSequence {
                half_strip: c.half_strip,
                index: 0,
            }),
        }
    }

    /// Returns the sequence's configuration: together with
    /// [`Sequence::new`], the tunable parameter set round-trips.
    pub fn config(&self) -> (r: Config)
        requires
            self.wf(),
        ensures
            r.wf(),
            (*self) matches Sequence::Unicolor(s) ==> r == Config::Unicolor(UnicolorConfig {
                color: s.color,
            }),
            (*self) matches Sequence::SymmetricRainbow(s) ==> (r matches Config::Rainbow(c)
                && c.half_strip@ == s.half_strip@),
    {
        match self {
            Sequence::Unicolor(s) => Config::Unicolor(UnicolorConfig { color: s.color }),
            Sequence::SymmetricRainbow(s) => {
                let half = s.half_strip.clone();
                proof {
                    assert forall|i: int| 0 <= i < s.half_strip@.len() implies half@[i]
                        == s.half_strip@[i] by {}
                    assert(half@ =~= s.half_strip@);
                }
                Config::Rainbow(RainbowConfig { half_strip: half })
            },
        }
    }

    /// Returns the externally meaningful color of the frame: the color of a
    /// unicolor sequence, or the start of a rainbow's palette.
    pub fn get_main_color(&self) -> (r: Color)
        requires
            self.wf(),
        ensures
            r == self.spec_config().spec_main_color(),
    {
        match self {
            Sequence::Unicolor(s) => s.color,
            Sequence::SymmetricRainbow(s) => s.half_strip[0],
        }
    }

    /// Collects the rest of the frame into a buffer, one color per LED.
    pub fn collect_frame(&mut self) -> (r: Vec<Color>)
        requires
            old(self).wf(),
            old(self).spec_index() == 0,
        ensures
            r@ == old(self).spec_frame(),
            final(self).wf(),
    {
        let mut out: Vec<Color> = Vec::new();
        loop
            invariant
                self.wf(),
                self.spec_index() == out@.len() <= NUM_LEDS,
                out@ =~= old(self).spec_frame().take(out@.len() as int),
                self.spec_frame() == old(self).spec_frame(),
            decreases NUM_LEDS - self.spec_index(),
        {
            match self.next() {
                Some(color) => {
                    out.push(color);
                },
                None => {
                    proof {
                        assert(out@ =~= old(self).spec_frame());
                    }
                    return out;
                },
            }
        }
    }
}

/// The configuration of a unicolor sequence.
#[derive(Debug, Clone, Copy, PartialEq, Eq, Structural)]
pub struct UnicolorConfig {
    /// The color of every LED of the frame.
    pub color: Color,
}

/// The configuration of a symmetric rainbow sequence.
#[derive(Debug, Clone, PartialEq, Eq)]
pub struct RainbowConfig {
    /// The palette of one half strip; its first entry is the main color.
    pub half_strip: Vec<Color>,
}

/// A sequence configuration: the externally meaningful parameter set of a
/// sequence, readable and writable independent of the generators' internal
/// randomness.
#[derive(Debug, Clone, PartialEq, Eq)]
pub enum Config {
    /// A unicolor sequence configuration.
    Unicolor(UnicolorConfig),
    /// A rainbow sequence configuration.
    Rainbow(RainbowConfig),
}

impl Config {
    /// A configuration is well-formed when its palette, if any, covers
    /// exactly one half strip.
    pub open spec fn wf(&self) -> bool {
        match self {
            Config::Unicolor(_) => true,
            Config::Rainbow(c) => c.half_strip@.len() == LEDS_PER_HALF_STRIP,
        }
    }

    /// The externally meaningful color of the configuration.
    pub open spec fn spec_main_color(&self) -> Color {
        match self {
            Config::Unicolor(c) => c.color,
            Config::Rainbow(c) => c.half_strip@[0],
        }
    }

    /// Returns the main color.
    pub fn main_color(&self) -> (r: Color)
        requires
            self.wf(),
        ensures
            r == self.spec_main_color(),
    {
        match self {
            Config::Unicolor(c) => c.color,
            Config::Rainbow(c) => c.half_strip[0],
        }
    }

    /// Sets the main color, leaving the rest of the configuration as it
    /// was.
    pub fn set_main_color(&mut self, color: Color)
        requires
            old(self).wf(),
        ensures
            final(self).wf(),
            final(self).spec_main_color() == color,
            *old(self) is Unicolor ==> *final(self) == Config::Unicolor(UnicolorConfig { color }),
            *old(self) is Rainbow ==> ((*final(self)) matches Config::Rainbow(c)
                && old(self)->Rainbow_0.half_strip@.update(0, color) == c.half_strip@),
    {
        match self {
            Config::Unicolor(c) => {
                c.color = color;
            },
            Config::Rainbow(c) => {
                c.half_strip.set(0, color);
            },
        }
    }
}

} // verus!
