//! The graphical user interface: a UI state driven remotely.
//!
//! Instead of sampling physical controls, this interface holds the last
//! state pushed over the serial link and hands it out on every read.

use vstd::prelude::*;

use crate::state::{Brightness, Mode, ScreenState, Speed, Temperature, UIState};

verus! {

/// The graphical user interface.
#[derive(Debug, Clone, Copy, PartialEq, Eq, Structural)]
pub struct GraphicalUI {
    state: UIState,
}

impl GraphicalUI {
    /// The state the UI currently holds, for use in specifications.
    pub closed spec fn spec_state(&self) -> UIState {
        self.state
    }

    /// Creates a new graphical UI, holding the default state.
    pub fn new() -> (r: Self)
        ensures
            r.spec_state().mode == Mode::Off,
            r.spec_state().brightness.spec_value() == 0,
            r.spec_state().speed.spec_transition_time() == Speed::MIN,
            r.spec_state().temperature.spec_value() == 0,
            r.spec_state().screen_state == ScreenState::Off,
    {
        Self { state: UIState::default() }
    }

    /// Sets the state.
    pub fn set_state(&mut self, state: UIState)
        ensures
            final(self).spec_state() == state,
    {
        self.state = state;
    }

    /// Reads the current state of the UI.
    pub fn read_state(&self) -> (r: UIState)
        ensures
            r == self.spec_state(),
    {
        self.state
    }

    /// Reads the mode.
    pub fn read_mode(&self) -> (r: Mode)
        ensures
            r == self.spec_state().mode,
    {
        self.state.mode
    }

    /// Reads the brightness.
    pub fn read_brightness(&self) -> (r: Brightness)
        ensures
            r == self.spec_state().brightness,
    {
        self.state.brightness
    }

    /// Reads the speed.
    pub fn read_speed(&self) -> (r: Speed)
        ensures
            r == self.spec_state().speed,
    {
        self.state.speed
    }

    /// Reads the temperature.
    pub fn read_temperature(&self) -> (r: Temperature)
        ensures
            r == self.spec_state().temperature,
    {
        self.state.temperature
    }

    /// Reads the screen state.
    pub fn read_screen_state(&self) -> (r: ScreenState)
        ensures
            r == self.spec_state().screen_state,
    {
        self.state.screen_state
    }
}

} // verus!
