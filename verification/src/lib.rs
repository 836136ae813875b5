//! Control-loop logic for an interactive LED light installation.
//!
//! The crate models the core of the firmware: calibrated sampling of the
//! analog controls, the wire codec for remote state overrides, the effect
//! pipeline dispatch, and the decision logic of the periodic tasks.

pub mod chaser;
pub mod codec;
pub mod color;
pub mod constants;
pub mod delay;
pub mod ercp;
pub mod graphical;
pub mod led_strip;
pub mod peripheral;
pub mod physical;
pub mod state;
pub mod tasks;
