//! The physical user interface: calibrated sampling of the analog controls.
//!
//! Raw readings come from the analog-to-digital converter as 16-bit values.
//! Each logical control is read as the arithmetic mean of a fixed number of
//! consecutive raw reads, and the mean is linearly mapped from the control's
//! calibrated raw range into the destination scalar's output range, with
//! saturation at both bounds. The scaling uses integer scale-factor division
//! with truncation, so it is deterministic.

use core::ops::Range;

use vstd::arithmetic::div_mod::{
    lemma_div_is_ordered, lemma_div_multiples_vanish, lemma_div_nonincreasing, lemma_div_of0,
    lemma_div_pos_is_pos, lemma_fundamental_div_mod, lemma_mod_division_less_than_divisor,
};
use vstd::prelude::*;

use crate::peripheral::CalibratedPotentiometer;
use crate::state::{Brightness, Mode, ScreenState, Speed, Temperature, UIState};

verus! {

/// The number of consecutive raw reads averaged per sampled control.
pub const ITERATIONS: u32 = 200;

/// The sum of a sequence of raw readings.
pub open spec fn spec_sum(s: Seq<u16>) -> int
    decreases s.len(),
{
    if s.len() == 0 {
        0
    } else {
        spec_sum(s.drop_last()) + s.last()
    }
}

/// Returns the arithmetic mean of a batch of consecutive raw reads,
/// truncated downward, suppressing sensor noise.
pub fn sample_mean(samples: &Vec<u16>) -> (r: u16)
    requires
        1 <= samples@.len() <= 0x10000,
    ensures
        r == spec_sum(samples@) / samples@.len() as int,
{
    let mut sum: u32 = 0;
    let mut i: usize = 0;
    while i < samples.len()
        invariant
            i <= samples@.len() <= 0x10000,
            sum == spec_sum(samples@.take(i as int)),
            sum <= i * 0xffff,
        decreases samples@.len() - i,
    {
        proof {
            assert(samples@.take(i + 1).drop_last() =~= samples@.take(i as int));
            assert(samples@.take(i + 1).last() == samples@[i as int]);
        }
        sum = sum + samples[i] as u32;
        i = i + 1;
    }
    proof {
        assert(samples@.take(samples@.len() as int) =~= samples@);
        let len = samples@.len() as int;
        lemma_div_is_ordered(sum as int, len * 0xffff, len);
        assert(len * 0xffff / len == 0xffff) by {
            lemma_div_multiples_vanish(0xffff, len);
        };
        lemma_div_pos_is_pos(sum as int, len);
    }
    (sum / (samples.len() as u32)) as u16
}

/// The linear mapping of a raw reading `v` from the calibrated raw range
/// `[a0, a1]` into the output range `[o0, o1]`, with truncating integer
/// scale-factor division and saturation at both output bounds.
pub open spec fn spec_scale_to_range(v: u16, a0: u16, a1: u16, o0: int, o1: int) -> int
    recommends
        a0 < a1,
        o0 < o1,
{
    let base: int = if v >= a0 { v - a0 } else { 0 };
    let adc_dynamic: int = a1 - a0;
    let output_dynamic: int = o1 - o0;
    let scaled: int = if adc_dynamic >= output_dynamic {
        base / (adc_dynamic / output_dynamic)
    } else {
        base * (output_dynamic / adc_dynamic + 1)
    };
    if scaled + o0 < o1 {
        scaled + o0
    } else {
        o1
    }
}

/// Maps a raw reading into an output range, given the bounds of the
/// calibrated raw range and of the output range.
///
/// The result is always within the output bounds, for every raw value: a
/// reading below the calibrated range saturates to the lower output bound
/// and a reading above it to the upper one.
pub fn scale_to_range(adc_value: u16, adc_min: u16, adc_max: u16, out_min: i32, out_max: i32) -> (r: i32)
    requires
        adc_min < adc_max,
        out_min < out_max,
        out_max - out_min < 0x7fff_ffff,
    ensures
        r == spec_scale_to_range(adc_value, adc_min, adc_max, out_min as int, out_max as int),
        out_min <= r <= out_max,
        adc_value <= adc_min ==> r == out_min,
        adc_value >= adc_max ==> r == out_max,
{
    let adc_dynamic: i64 = (adc_max - adc_min) as i64;
    let output_dynamic: i64 = out_max as i64 - out_min as i64;

    // Value in 0..=adc_dynamic.
    let base_value: i64 = if adc_value >= adc_min {
        (adc_value - adc_min) as i64
    } else {
        0
    };

    // Value scaled towards 0..=output_dynamic; truncating division can leave
    // it short of the top in one direction and push it past the top in the
    // other, hence the saturation below.
    let scaled_value: i64 = if adc_dynamic >= output_dynamic {
        let scale: i64 = adc_dynamic / output_dynamic;
        proof {
            let base = base_value as int;
            let ad = adc_dynamic as int;
            let od = output_dynamic as int;
            lemma_div_is_ordered(od, ad, od);
            assert(od / od == 1) by {
                lemma_div_multiples_vanish(1, od);
            };
            let q = ad / od;
            lemma_div_pos_is_pos(base, q);
            lemma_div_is_ordered(base, 0xffff, q);
            lemma_div_of0(q);
            if adc_value >= adc_max {
                lemma_fundamental_div_mod(ad, od);
                lemma_mod_division_less_than_divisor(ad, od);
                assert(q * od <= ad);
                lemma_div_is_ordered(q * od, base, q);
                assert(q * od / q == od) by {
                    lemma_div_multiples_vanish(od, q);
                };
            }
        }
        base_value / scale
    } else {
        let scale: i64 = output_dynamic / adc_dynamic + 1;
        proof {
            let base = base_value as int;
            let ad = adc_dynamic as int;
            let od = output_dynamic as int;
            let s = scale as int;
            lemma_div_pos_is_pos(od, ad);
            lemma_div_nonincreasing(od, ad);
            assert(0 <= base * s <= 0xffff * s) by (nonlinear_arith)
                requires
                    0 <= base <= 0xffff,
                    s >= 1,
            ;
            assert(base == 0 ==> base * s == 0) by (nonlinear_arith);
            if adc_value >= adc_max {
                lemma_fundamental_div_mod(od, ad);
                lemma_mod_division_less_than_divisor(od, ad);
                let k = od / ad;
                let m = od % ad;
                assert(ad * s > od) by (nonlinear_arith)
                    requires
                        od == ad * k + m,
                        m < ad,
                        s == k + 1,
                ;
                assert(base * s >= ad * s) by (nonlinear_arith)
                    requires
                        base >= ad,
                        s >= 1,
                ;
            }
        }
        base_value * scale
    };

    // Value in out_min..=out_max.
    let shifted: i64 = scaled_value + out_min as i64;
    if shifted < out_max as i64 {
        shifted as i32
    } else {
        out_max
    }
}

/// Maps a raw reading into an output range.
///
/// The ranges are half-open as written, but saturation at the top makes the
/// upper bound reachable: the result lies in `start..=end` of the output
/// range.
pub fn adc_to_range(adc_value: u16, adc_range: Range<u16>, output_range: Range<i32>) -> (r: i32)
    requires
        adc_range.start < adc_range.end,
        output_range.start < output_range.end,
        output_range.end - output_range.start < 0x7fff_ffff,
    ensures
        r == spec_scale_to_range(
            adc_value,
            adc_range.start,
            adc_range.end,
            output_range.start as int,
            output_range.end as int,
        ),
        output_range.start <= r <= output_range.end,
        adc_value <= adc_range.start ==> r == output_range.start,
        adc_value >= adc_range.end ==> r == output_range.end,
{
    scale_to_range(
        adc_value,
        adc_range.start,
        adc_range.end,
        output_range.start,
        output_range.end,
    )
}

/// Maps a raw reading into an output range, inverted: the lowest raw value
/// yields the top of the output range and the highest raw value its bottom.
pub fn adc_to_inverted_range(value: u16, adc_range: Range<u16>, output_range: Range<i32>) -> (r: i32)
    requires
        adc_range.start < adc_range.end,
        output_range.start < output_range.end,
        0 <= output_range.start,
        output_range.end < 0x7fff_ffff,
    ensures
        r == output_range.end - spec_scale_to_range(
            value,
            adc_range.start,
            adc_range.end,
            0,
            output_range.end - output_range.start,
        ),
        output_range.start <= r <= output_range.end,
        value <= adc_range.start ==> r == output_range.end,
        value >= adc_range.end ==> r == output_range.start,
{
    let output_dynamic: i32 = output_range.end - output_range.start;
    let scaled: i32 = scale_to_range(value, adc_range.start, adc_range.end, 0, output_dynamic);
    output_range.end - scaled
}

/// One averaged raw reading per logical control, plus the state of the
/// screen toggle button.
///
/// The analog-to-digital conversion itself happens at the hardware boundary;
/// the sampler receives its results as plain values.
#[derive(Debug, Clone, Copy, PartialEq, Eq, Structural)]
pub struct RawSample {
    /// The averaged raw reading of the mode control.
    pub mode: u16,
    /// The averaged raw reading of the brightness control.
    pub brightness: u16,
    /// The averaged raw reading of the speed control.
    pub speed: u16,
    /// The averaged raw reading of the temperature control.
    pub temperature: u16,
    /// Whether the screen toggle button is pressed.
    pub screen_on: bool,
}

/// The physical user interface, generic over the calibrated controls
/// backing each logical input.
pub struct PhysicalUI<PMode, PBrightness, PSpeed, PTemperature> {
    p_mode: PMode,
    p_brightness: PBrightness,
    p_speed: PSpeed,
    p_temperature: PTemperature,
}

impl<
    PMode: CalibratedPotentiometer,
    PBrightness: CalibratedPotentiometer,
    PSpeed: CalibratedPotentiometer,
    PTemperature: CalibratedPotentiometer,
> PhysicalUI<PMode, PBrightness, PSpeed, PTemperature> {
    /// Creates a new physical UI.
    pub fn new(
        p_mode: PMode,
        p_brightness: PBrightness,
        p_speed: PSpeed,
        p_temperature: PTemperature,
    ) -> Self {
        Self {
            p_mode,
            p_brightness,
            p_speed,
            p_temperature,
        }
    }

    /// The midpoint of the mode control's calibrated raw range: readings
    /// below it select the off mode, readings at or above it the random
    /// unicolor mode.
    pub open spec fn spec_mode_threshold() -> int {
        PMode::spec_min() + (PMode::spec_max() - PMode::spec_min()) / 2
    }

    /// Maps an averaged raw reading of the mode control to a mode.
    pub fn read_mode(&self, raw_mean: u16) -> (r: Mode)
        ensures
            r == (if raw_mean < Self::spec_mode_threshold() {
                Mode::Off
            } else {
                Mode::RandomUnicolor
            }),
    {
        proof {
            PMode::lemma_calibrated();
        }
        let min = PMode::min();
        let max = PMode::max();

        if raw_mean < min + (max - min) / 2 {
            Mode::Off
        } else {
            Mode::RandomUnicolor
        }
    }

    /// Maps an averaged raw reading of the brightness control to a
    /// brightness, linearly over the control's calibrated range and
    /// saturating at both bounds.
    pub fn read_brightness(&self, raw_mean: u16) -> (r: Brightness)
        ensures
            r.value() == spec_scale_to_range(
                raw_mean,
                PBrightness::spec_min(),
                PBrightness::spec_max(),
                Brightness::MIN as int,
                Brightness::MAX as int,
            ),
            raw_mean <= PBrightness::spec_min() ==> r.value() == Brightness::MIN,
            raw_mean >= PBrightness::spec_max() ==> r.value() == Brightness::MAX,
    {
        proof {
            PBrightness::lemma_calibrated();
        }
        let value = scale_to_range(
            raw_mean,
            PBrightness::min(),
            PBrightness::max(),
            Brightness::MIN as i32,
            Brightness::MAX as i32,
        );

        Brightness::new(value as u8)
    }

    /// Maps an averaged raw reading of the speed control to a speed.
    ///
    /// The mapping is inverted: the lowest raw value yields the maximum
    /// transition time (the slowest transitions) and the highest raw value
    /// the minimum transition time (the fastest).
    pub fn read_speed(&self, raw_mean: u16) -> (r: Speed)
        ensures
            r.transition_time() == Speed::MAX - spec_scale_to_range(
                raw_mean,
                PSpeed::spec_min(),
                PSpeed::spec_max(),
                0,
                Speed::MAX - Speed::MIN,
            ),
            raw_mean <= PSpeed::spec_min() ==> r.transition_time() == Speed::MAX,
            raw_mean >= PSpeed::spec_max() ==> r.transition_time() == Speed::MIN,
            Speed::MIN <= r.transition_time() <= Speed::MAX,
    {
        proof {
            PSpeed::lemma_calibrated();
        }
        let transition_ms = adc_to_inverted_range(
            raw_mean,
            Range { start: PSpeed::min(), end: PSpeed::max() },
            Range { start: Speed::MIN as i32, end: Speed::MAX as i32 },
        );

        Speed::new(transition_ms as u32)
    }

    /// Maps an averaged raw reading of the temperature control to a color
    /// temperature, linearly over the control's calibrated range and
    /// saturating at both bounds.
    pub fn read_temperature(&self, raw_mean: u16) -> (r: Temperature)
        ensures
            r.value() == spec_scale_to_range(
                raw_mean,
                PTemperature::spec_min(),
                PTemperature::spec_max(),
                Temperature::MIN as int,
                Temperature::MAX as int,
            ),
            raw_mean <= PTemperature::spec_min() ==> r.value() == Temperature::MIN,
            raw_mean >= PTemperature::spec_max() ==> r.value() == Temperature::MAX,
    {
        proof {
            PTemperature::lemma_calibrated();
        }
        let value = scale_to_range(
            raw_mean,
            PTemperature::min(),
            PTemperature::max(),
            Temperature::MIN as i32,
            Temperature::MAX as i32,
        );

        Temperature::new(value as i8)
    }

    /// Maps the state of the screen toggle button to a screen state.
    pub fn read_screen_state(&self, pressed: bool) -> (r: ScreenState)
        ensures
            r == (if pressed {
                ScreenState::On
            } else {
                ScreenState::Off
            }),
    {
        if pressed {
            ScreenState::On
        } else {
            ScreenState::Off
        }
    }

    /// Reads the current state of the UI from one averaged raw sample per
    /// control.
    pub fn read_state(&self, raw: RawSample) -> (r: UIState)
        ensures
            r.mode == (if raw.mode < Self::spec_mode_threshold() {
                Mode::Off
            } else {
                Mode::RandomUnicolor
            }),
            r.brightness.value() == spec_scale_to_range(
                raw.brightness,
                PBrightness::spec_min(),
                PBrightness::spec_max(),
                Brightness::MIN as int,
                Brightness::MAX as int,
            ),
            r.speed.transition_time() == Speed::MAX - spec_scale_to_range(
                raw.speed,
                PSpeed::spec_min(),
                PSpeed::spec_max(),
                0,
                Speed::MAX - Speed::MIN,
            ),
            r.temperature.value() == spec_scale_to_range(
                raw.temperature,
                PTemperature::spec_min(),
                PTemperature::spec_max(),
                Temperature::MIN as int,
                Temperature::MAX as int,
            ),
            r.screen_state == (if raw.screen_on {
                ScreenState::On
            } else {
                ScreenState::Off
            }),
    {
        UIState {
            mode: self.read_mode(raw.mode),
            brightness: self.read_brightness(raw.brightness),
            speed: self.read_speed(raw.speed),
            temperature: self.read_temperature(raw.temperature),
            screen_state: self.read_screen_state(raw.screen_on),
        }
    }
}

} // verus!
