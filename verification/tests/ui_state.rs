//! The UI state types and the remotely driven UI.

use totem::graphical::GraphicalUI;
use totem::state::{
    Brightness, ColorDistance, Mode, NewPatternSizeError, PatternSize, ScreenState, Speed,
    Temperature, UIState,
};

#[test]
fn defaults_are_the_quiet_state() {
    let s = UIState::default();
    assert_eq!(s.mode, Mode::Off);
    assert_eq!(s.brightness.value(), 0);
    assert_eq!(s.speed.transition_time(), Speed::MIN);
    assert_eq!(s.temperature.value(), 0);
    assert_eq!(s.screen_state, ScreenState::Off);
}

#[test]
fn scalar_constructors_keep_their_values() {
    assert_eq!(Brightness::new(200).value(), 200);
    assert_eq!(Speed::new(12345).transition_time(), 12345);
    assert_eq!(Temperature::new(-85).value(), -85);
    assert_eq!(Temperature::new(85).value(), 85);
    assert_eq!(ColorDistance::new(7).value(), 7);
}

#[test]
fn documented_bounds() {
    assert_eq!((Brightness::MIN, Brightness::MAX), (0, 255));
    assert_eq!((Speed::MIN, Speed::MAX), (100, 13_000));
    assert_eq!((Temperature::MIN, Temperature::MAX), (-85, 85));
}

#[test]
fn pattern_size_is_bounded_by_a_strip() {
    assert_eq!(PatternSize::new(0).map(|p| p.value()), Ok(0));
    assert_eq!(PatternSize::new(13).map(|p| p.value()), Ok(13));
    assert_eq!(PatternSize::new(14).map(|p| p.value()), Err(NewPatternSizeError::TooBig));
    assert_eq!(PatternSize::default().value(), 4);
}

#[test]
fn graphical_ui_hands_out_what_was_set() {
    let mut ui = GraphicalUI::new();
    assert_eq!(ui.read_state(), UIState::default());

    let s = UIState {
        mode: Mode::RainbowFontain,
        brightness: Brightness::new(40),
        speed: Speed::new(900),
        temperature: Temperature::new(15),
        screen_state: ScreenState::On,
    };
    ui.set_state(s);

    assert_eq!(ui.read_state(), s);
    assert_eq!(ui.read_mode(), Mode::RainbowFontain);
    assert_eq!(ui.read_brightness().value(), 40);
    assert_eq!(ui.read_speed().transition_time(), 900);
    assert_eq!(ui.read_temperature().value(), 15);
    assert_eq!(ui.read_screen_state(), ScreenState::On);
}
