//! Calibrated sampling: scaling, saturation and inversion.

use totem::peripheral::{CalibratedPotentiometer, R1, R2, R3, S1};
use totem::physical::{adc_to_inverted_range, adc_to_range, sample_mean, PhysicalUI, RawSample};
use totem::state::{Mode, ScreenState};

#[test]
fn brightness_min_maps_to_zero() {
    assert_eq!(adc_to_range(53, 53..3832, 0..255), 0);
}

#[test]
fn brightness_below_min_saturates_to_zero() {
    assert_eq!(adc_to_range(0, 53..3832, 0..255), 0);
}

#[test]
fn brightness_max_maps_to_full() {
    assert_eq!(adc_to_range(3832, 53..3832, 0..255), 255);
}

#[test]
fn brightness_above_max_saturates_to_full() {
    assert_eq!(adc_to_range(65535, 53..3832, 0..255), 255);
}

#[test]
fn brightness_midpoint_maps_near_half() {
    // With a 0..4096 raw range the scale factor is 4096 / 255 = 16, so the
    // midpoint reading 2048 maps to 2048 / 16 = 128.
    assert_eq!(adc_to_range(2048, 0..4096, 0..255), 128);
}

#[test]
fn scaling_stays_in_bounds_across_the_raw_domain() {
    for v in (0..=65535).step_by(97) {
        let r = adc_to_range(v as u16, 53..3832, 0..255);
        assert!((0..=255).contains(&r));

        let t = adc_to_range(v as u16, 60..3832, -85..85);
        assert!((-85..=85).contains(&t));

        let s = adc_to_inverted_range(v as u16, 30..4020, 100..13000);
        assert!((100..=13000).contains(&s));
    }
}

#[test]
fn temperature_endpoints() {
    assert_eq!(adc_to_range(60, 60..3832, -85..85), -85);
    assert_eq!(adc_to_range(3832, 60..3832, -85..85), 85);
}

#[test]
fn speed_is_inverted_slowest_at_min() {
    // A raw slider value at its calibrated minimum yields the maximum
    // transition time.
    assert_eq!(adc_to_inverted_range(30, 30..4020, 100..13000), 13000);
}

#[test]
fn speed_is_inverted_fastest_at_max() {
    // A raw slider value at its calibrated maximum yields the minimum
    // transition time.
    assert_eq!(adc_to_inverted_range(4020, 30..4020, 100..13000), 100);
}

#[test]
fn sample_mean_averages_and_truncates() {
    assert_eq!(sample_mean(&vec![10, 20, 30]), 20);
    assert_eq!(sample_mean(&vec![10, 11]), 10);
    assert_eq!(sample_mean(&vec![65535; 200]), 65535);
    assert_eq!(sample_mean(&vec![7]), 7);
}

#[test]
fn physical_ui_reads_a_whole_state() {
    let ui: PhysicalUI<R1, R2, S1, R3> = PhysicalUI::new(R1, R2, S1, R3);

    let state = ui.read_state(RawSample {
        mode: 3832,
        brightness: 3832,
        speed: 30,
        temperature: 60,
        screen_on: true,
    });

    assert_eq!(state.mode, Mode::RandomUnicolor);
    assert_eq!(state.brightness.value(), 255);
    assert_eq!(state.speed.transition_time(), 13000);
    assert_eq!(state.temperature.value(), -85);
    assert_eq!(state.screen_state, ScreenState::On);
}

#[test]
fn physical_ui_mode_threshold_is_the_range_midpoint() {
    let ui: PhysicalUI<R1, R2, S1, R3> = PhysicalUI::new(R1, R2, S1, R3);

    // R1 is calibrated 53..3832; the midpoint is 53 + (3832 - 53) / 2 = 1942.
    assert_eq!(ui.read_mode(1941), Mode::Off);
    assert_eq!(ui.read_mode(1942), Mode::RandomUnicolor);
    assert_eq!(ui.read_mode(0), Mode::Off);
    assert_eq!(ui.read_mode(4095), Mode::RandomUnicolor);
}

#[test]
fn calibrations_match_the_board() {
    assert_eq!((R1::min(), R1::max()), (53, 3832));
    assert_eq!((R2::min(), R2::max()), (53, 3832));
    assert_eq!((R3::min(), R3::max()), (60, 3832));
    assert_eq!((S1::min(), S1::max()), (30, 4020));
}
