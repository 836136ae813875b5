//! The decision logic of the periodic tasks.
//!
//! The tasks run under a cooperative priority scheduler: each invocation
//! does one unit of work and expresses "waiting" only by asking for a
//! future invocation. The scheduling, the peripheral writes and the timer
//! arithmetic of the runtime stay at the hardware boundary; what each task
//! decides on an invocation — which messages to send, whether to re-arm,
//! what to write — is computed here, from plain state and one event.

use vstd::prelude::*;

use crate::chaser::{
    spec_mirror, Chaser, GeneratorFrame, RainbowFontainChaser, RandomUnicolorChaser, TimeConfig,
};
use crate::color::{spec_scale_color, scale_frame, Color};
use crate::constants::{LEDS_PER_STRIP, NUM_LEDS, REFRESH_RATE};
use crate::state::{Brightness, Mode, ScreenState, Speed, UIState};

verus! {

/// A message to the render task.
#[derive(Debug, Clone, Copy, PartialEq, Eq, Structural)]
pub enum LedTaskMessage {
    /// The UI state changed: reconfigure the pipeline.
    UpdateMode(UIState),
    /// Produce the next frame.
    Next,
}

/// A message to the display task.
#[derive(Debug, Clone, Copy, PartialEq, Eq, Structural)]
pub enum ScreenTaskMessage {
    /// Start cycling informational messages.
    Start,
    /// Stop cycling and blank the display.
    Stop,
    /// Show the next message and re-arm.
    Next,
}

/// The UI sampling task: reads the shared UI snapshot once per invocation
/// and relays changes to the other tasks as discrete messages.
pub struct UiTask {
    /// The most recently relayed UI state.
    pub ui_state: UIState,
}

/// What one UI task invocation decided.
pub struct UiStepOutcome {
    /// The message to send to the render task, if the state changed.
    pub led_message: Option<LedTaskMessage>,
    /// The message to send to the display task, if the mode or the screen
    /// state changed.
    pub screen_message: Option<ScreenTaskMessage>,
}

/// The display task message a mode and screen state call for: the display
/// runs only when some effect is active and the screen is switched on.
pub open spec fn spec_screen_message_for(mode: Mode, screen_state: ScreenState) -> ScreenTaskMessage {
    if mode is Off {
        ScreenTaskMessage::Stop
    } else if screen_state is Off {
        ScreenTaskMessage::Stop
    } else {
        ScreenTaskMessage::Start
    }
}

impl UiTask {
    /// Creates the UI task, with the default state as the last one seen.
    pub fn new() -> (r: Self)
        ensures
            r.ui_state.mode == Mode::Off,
            r.ui_state.brightness.spec_value() == 0,
            r.ui_state.speed.spec_transition_time() == Speed::MIN,
            r.ui_state.temperature.spec_value() == 0,
            r.ui_state.screen_state == ScreenState::Off,
    {
        Self { ui_state: UIState::default() }
    }

    /// One invocation: compares the freshly read state with the last one
    /// seen and relays changes.
    ///
    /// An unchanged state causes no downstream work at all. A changed state
    /// goes to the render task wholesale; the display task hears of it only
    /// when the mode or the screen state changed.
    pub fn step(&mut self, state: UIState) -> (r: UiStepOutcome)
        ensures
            state == old(self).ui_state ==> (*final(self) == *old(self)
                && r.led_message is None && r.screen_message is None),
            state != old(self).ui_state ==> {
                &&& final(self).ui_state == state
                &&& r.led_message == Some(LedTaskMessage::UpdateMode(state))
                &&& (state.mode != old(self).ui_state.mode
                    || state.screen_state != old(self).ui_state.screen_state)
                    ==> r.screen_message == Some(spec_screen_message_for(state.mode, state.screen_state))
                &&& (state.mode == old(self).ui_state.mode
                    && state.screen_state == old(self).ui_state.screen_state)
                    ==> r.screen_message is None
            },
    {
        if state != self.ui_state {
            let screen_message = if state.mode != self.ui_state.mode
                || state.screen_state != self.ui_state.screen_state {
                Some(match (state.mode, state.screen_state) {
                    (Mode::Off, _) => ScreenTaskMessage::Stop,
                    (_, ScreenState::Off) => ScreenTaskMessage::Stop,
                    (_, ScreenState::On) => ScreenTaskMessage::Start,
                })
            } else {
                None
            };

            self.ui_state = state;

            UiStepOutcome {
                led_message: Some(LedTaskMessage::UpdateMode(state)),
                screen_message,
            }
        } else {
            UiStepOutcome { led_message: None, screen_message: None }
        }
    }
}

/// The lower bound of the color-channel delta distribution a fresh random
/// unicolor chaser is seeded with.
pub const COLOR_DELTA_LOW: i16 = 0;

/// The upper bound of the color-channel delta distribution a fresh random
/// unicolor chaser is seeded with.
pub const COLOR_DELTA_HIGH: i16 = 255;

/// The lower bound of the transition duration window a fresh random
/// unicolor chaser is seeded with, in milliseconds.
pub const TRANSITION_WINDOW_LOW_MS: u32 = 300;

/// The upper bound of the transition duration window a fresh random
/// unicolor chaser is seeded with, in milliseconds.
pub const TRANSITION_WINDOW_HIGH_MS: u32 = 5_000;

/// The chaser freshly constructed for a mode, before the tick's parameters
/// are pushed into it.
pub open spec fn spec_fresh_chaser(mode: Mode) -> Chaser {
    match mode {
        Mode::Off => Chaser::Off,
        Mode::RandomUnicolor => Chaser::RandomUnicolor(RandomUnicolorChaser {
            refresh_rate: REFRESH_RATE,
            delta_low: COLOR_DELTA_LOW,
            delta_high: COLOR_DELTA_HIGH,
            transition_low_ms: TRANSITION_WINDOW_LOW_MS,
            transition_high_ms: TRANSITION_WINDOW_HIGH_MS,
            time_config: TimeConfig { refresh_rate: REFRESH_RATE, transition_time_ms: 1000 },
            temperature: 0,
        }),
        Mode::RainbowFontain => Chaser::RainbowFontain(RainbowFontainChaser {
            time_config: TimeConfig { refresh_rate: REFRESH_RATE, transition_time_ms: 1000 },
        }),
    }
}

/// The period between two render task invocations, in milliseconds, for a
/// refresh rate in ticks per second.
///
/// The division truncates: a refresh rate that does not evenly divide one
/// second drifts slightly slow, which is expected.
pub fn render_period_ms(refresh_rate: u32) -> (r: u32)
    requires
        refresh_rate >= 1,
    ensures
        r == 1000 as int / refresh_rate as int,
{
    1000 / refresh_rate
}

/// What one render task invocation decided to do for a produced frame.
pub struct RenderOutcome {
    /// Re-arm the next invocation this many milliseconds after this one.
    pub reschedule_after_ms: u32,
    /// The brightness-scaled colors to write to the LED strip.
    pub frame: Vec<Color>,
    /// The color to forward to the auxiliary display, when it is driven.
    pub screen_color: Option<Color>,
}

/// What applying a UI state to the render task asks the runtime to do.
#[derive(Debug, Clone, Copy, PartialEq, Eq, Structural)]
pub struct ApplyOutcome {
    /// Enqueue an immediate render tick, so the first frame of a freshly
    /// selected effect appears without waiting a full cycle.
    pub enqueue_next: bool,
    /// Blank the LED strip: the installation just switched off.
    pub blank_strip: bool,
}

/// The render task: owns the LED strip and the active chaser, runs at a
/// fixed cadence, and turns the selected mode and parameters into frames.
pub struct RenderTask {
    /// The active chaser; its variant always matches the last accepted
    /// mode.
    pub chaser: Chaser,
    /// The brightness applied to every produced frame.
    pub brightness: Brightness,
    /// The shared timing context, pushed into the chaser every tick.
    pub time_config: TimeConfig,
    /// Whether the auxiliary display is forwarded a frame color.
    pub drive_screen: bool,
    /// How many chasers have been constructed so far; a mode transition is
    /// exactly one reconstruction, and a tick without a mode change none.
    pub generation: Ghost<nat>,
}

impl RenderTask {
    /// Creates the render task: no active effect, minimum brightness, one
    /// second of transition time until the first tick pushes the current
    /// speed.
    pub fn new() -> (r: Self)
        ensures
            r.chaser is Off,
            r.brightness.spec_value() == 0,
            r.time_config == (TimeConfig { refresh_rate: REFRESH_RATE, transition_time_ms: 1000 }),
            r.drive_screen == false,
            r.generation@ == 0,
    {
        Self {
            chaser: Chaser::Off,
            brightness: Brightness::default(),
            time_config: TimeConfig::new(REFRESH_RATE, 1000),
            drive_screen: false,
            generation: Ghost(0),
        }
    }

    /// Applies a changed UI state to the pipeline.
    ///
    /// The chaser is replaced by a freshly constructed one exactly when the
    /// accepted mode differs from the mode backing the active chaser, and
    /// never otherwise; on every call, mode change or not, the latest
    /// timing, brightness, temperature and display-drive parameters are
    /// pushed. Switching to the random unicolor mode asks for an immediate
    /// render tick; switching off asks for the strip to be blanked.
    pub fn apply_update(&mut self, ui_state: UIState) -> (r: ApplyOutcome)
        ensures
            final(self).chaser.spec_mode() == ui_state.mode,
            ui_state.mode == old(self).chaser.spec_mode() ==> (final(self).generation
                == old(self).generation && final(self).chaser == old(self).chaser
                .spec_with_time_config(final(self).time_config)
                .spec_with_temperature(ui_state.temperature.spec_value())),
            ui_state.mode != old(self).chaser.spec_mode() ==> (final(self).generation@
                == old(self).generation@ + 1 && final(self).chaser == spec_fresh_chaser(ui_state.mode)
                .spec_with_time_config(final(self).time_config)
                .spec_with_temperature(ui_state.temperature.spec_value())),
            final(self).brightness == ui_state.brightness,
            final(self).time_config == (TimeConfig {
                refresh_rate: old(self).time_config.refresh_rate,
                transition_time_ms: ui_state.speed.spec_transition_time(),
            }),
            final(self).drive_screen <==> ui_state.screen_state is On,
            r.enqueue_next <==> (ui_state.mode is RandomUnicolor
                && !(old(self).chaser is RandomUnicolor)),
            r.blank_strip <==> (ui_state.mode is Off && !(old(self).chaser is Off)),
    {
        let mut enqueue_next = false;
        let mut blank_strip = false;

        match ui_state.mode {
            Mode::Off => {
                if !matches!(self.chaser, Chaser::Off) {
                    blank_strip = true;
                    self.chaser = Chaser::Off;
                    proof {
                        self.generation@ = self.generation@ + 1;
                    }
                }
            },

            Mode::RandomUnicolor => {
                if !matches!(self.chaser, Chaser::RandomUnicolor(_)) {
                    self.chaser = Chaser::RandomUnicolor(RandomUnicolorChaser::new(
                        REFRESH_RATE,
                        COLOR_DELTA_LOW,
                        COLOR_DELTA_HIGH,
                        TRANSITION_WINDOW_LOW_MS,
                        TRANSITION_WINDOW_HIGH_MS,
                    ));
                    proof {
                        self.generation@ = self.generation@ + 1;
                    }
                    enqueue_next = true;
                }
            },

            Mode::RainbowFontain => {
                if !matches!(self.chaser, Chaser::RainbowFontain(_)) {
                    self.chaser = Chaser::RainbowFontain(RainbowFontainChaser {
                        time_config: TimeConfig::new(REFRESH_RATE, 1000),
                    });
                    proof {
                        self.generation@ = self.generation@ + 1;
                    }
                }
            },
        }

        self.brightness = ui_state.brightness;
        self.time_config.transition_time_ms = ui_state.speed.transition_time();
        let time_config = self.time_config;
        self.chaser.set_time_config(&time_config);
        self.chaser.set_temperature(ui_state.temperature);
        self.drive_screen = matches!(ui_state.screen_state, ScreenState::On);

        ApplyOutcome { enqueue_next, blank_strip }
    }

    /// One render tick: asks the pipeline for the next frame.
    ///
    /// With no active effect nothing happens this tick. Otherwise the
    /// produced sequence is scaled by the current brightness, the task asks
    /// to be re-armed one period later, and the frame's main color is
    /// forwarded to the display when display drive is on.
    pub fn render_next(&mut self, generated: GeneratorFrame) -> (r: Option<RenderOutcome>)
        requires
            generated.wf(),
            old(self).time_config.refresh_rate >= 1,
        ensures
            *final(self) == *old(self),
            r is Some <==> !(old(self).chaser is Off),
            r matches Some(o) ==> {
                &&& o.reschedule_after_ms == 1000 as int / old(self).time_config.refresh_rate as int
                &&& o.frame@.len() == NUM_LEDS
                &&& old(self).chaser is RandomUnicolor ==> {
                    &&& forall|i: int| 0 <= i < NUM_LEDS ==> o.frame@[i] == spec_scale_color(
                        generated.main_color,
                        old(self).brightness.spec_value(),
                    )
                    &&& o.screen_color == (if old(self).drive_screen {
                        Some(generated.main_color)
                    } else {
                        None::<Color>
                    })
                }
                &&& old(self).chaser is RainbowFontain ==> {
                    &&& forall|i: int| 0 <= i < NUM_LEDS ==> o.frame@[i] == spec_scale_color(
                        spec_mirror(generated.half_strip@)[i % (LEDS_PER_STRIP as int)],
                        old(self).brightness.spec_value(),
                    )
                    &&& o.screen_color == (if old(self).drive_screen {
                        Some(generated.half_strip@[0])
                    } else {
                        None::<Color>
                    })
                }
                &&& (old(self).drive_screen <==> o.screen_color is Some)
            },
    {
        let sequence = self.chaser.next(generated);

        match sequence {
            None => None,
            Some(mut sequence) => {
                let period = render_period_ms(self.time_config.refresh_rate);

                let screen_color = if self.drive_screen {
                    Some(sequence.get_main_color())
                } else {
                    None
                };

                let raw_frame = sequence.collect_frame();
                let frame = scale_frame(&raw_frame, self.brightness);

                Some(RenderOutcome { reschedule_after_ms: period, frame, screen_color })
            },
        }
    }
}

/// The period between two message-cycle ticks of the display task, in
/// milliseconds.
pub const SCREEN_PERIOD_MS: u32 = 4_000;

/// The display task: cycles a small fixed list of informational messages
/// while running, and blanks the display when stopped.
pub struct ScreenTask {
    /// Whether a cancellable handle to a scheduled message-cycle tick is
    /// held.
    pub pending_next: bool,
    /// The index of the message to show on the next tick.
    pub index: usize,
    /// The length of the fixed message list.
    pub message_count: usize,
}

/// What one display task invocation asks the runtime to do.
#[derive(Debug, Clone, Copy, PartialEq, Eq, Structural)]
pub struct ScreenStepOutcome {
    /// Enqueue an immediate message-cycle tick.
    pub enqueue_next_now: bool,
    /// Re-arm a message-cycle tick this many milliseconds from now, and
    /// hold on to its handle.
    pub schedule_next_after_ms: Option<u32>,
    /// Cancel the held tick handle. Cancelling a handle that already fired
    /// or was already cancelled is a no-op, not an error.
    pub cancel_pending: bool,
    /// Clear the display.
    pub clear_display: bool,
    /// Set the display backlight to this color.
    pub backlight: Option<Color>,
    /// Write the two-line message with this index.
    pub show_message: Option<usize>,
}

impl ScreenTask {
    /// The task is well-formed when the message list is not empty and the
    /// index stays inside it.
    pub open spec fn wf(&self) -> bool {
        1 <= self.message_count && self.index < self.message_count
    }

    /// Creates the display task, stopped, for a fixed message list.
    pub fn new(message_count: usize) -> (r: Self)
        requires
            message_count >= 1,
        ensures
            r.wf(),
            r.pending_next == false,
            r.index == 0,
            r.message_count == message_count,
    {
        Self { pending_next: false, index: 0, message_count }
    }

    /// One invocation of the display task.
    ///
    /// `Start` is a no-op while a tick is already scheduled; otherwise it
    /// lights the backlight and enqueues the first message-cycle tick.
    /// `Stop` cancels the held tick handle if any — cancellation is
    /// idempotent — blanks the display and resets the message index.
    /// `Next` re-arms itself one period later, shows the current message
    /// and advances the index modulo the list length.
    pub fn step(&mut self, message: ScreenTaskMessage) -> (r: ScreenStepOutcome)
        requires
            old(self).wf(),
        ensures
            final(self).wf(),
            final(self).message_count == old(self).message_count,
            message is Start ==> (*final(self) == *old(self) && r == (ScreenStepOutcome {
                enqueue_next_now: !old(self).pending_next,
                schedule_next_after_ms: None::<u32>,
                cancel_pending: false,
                clear_display: false,
                backlight: if !old(self).pending_next {
                    Some(Color { r: 255, g: 255, b: 255 })
                } else {
                    None::<Color>
                },
                show_message: None::<usize>,
            })),
            message is Stop ==> (final(self).pending_next == false && final(self).index == 0
                && r == (ScreenStepOutcome {
                enqueue_next_now: false,
                schedule_next_after_ms: None::<u32>,
                cancel_pending: old(self).pending_next,
                clear_display: true,
                backlight: Some(Color { r: 0, g: 0, b: 0 }),
                show_message: None::<usize>,
            })),
            message is Next ==> (final(self).pending_next == true
                && final(self).index == (old(self).index + 1) as int % old(self).message_count as int
                && r == (ScreenStepOutcome {
                enqueue_next_now: false,
                schedule_next_after_ms: Some(SCREEN_PERIOD_MS),
                cancel_pending: false,
                clear_display: true,
                backlight: None::<Color>,
                show_message: Some(old(self).index),
            })),
    {
        match message {
            ScreenTaskMessage::Start => {
                if !self.pending_next {
                    ScreenStepOutcome {
                        enqueue_next_now: true,
                        schedule_next_after_ms: None,
                        cancel_pending: false,
                        clear_display: false,
                        backlight: Some(Color { r: 255, g: 255, b: 255 }),
                        show_message: None,
                    }
                } else {
                    ScreenStepOutcome {
                        enqueue_next_now: false,
                        schedule_next_after_ms: None,
                        cancel_pending: false,
                        clear_display: false,
                        backlight: None,
                        show_message: None,
                    }
                }
            },

            ScreenTaskMessage::Stop => {
                let cancel_pending = self.pending_next;
                self.pending_next = false;
                self.index = 0;

                ScreenStepOutcome {
                    enqueue_next_now: false,
                    schedule_next_after_ms: None,
                    cancel_pending,
                    clear_display: true,
                    backlight: Some(Color::black()),
                    show_message: None,
                }
            },

            ScreenTaskMessage::Next => {
                let shown = self.index;
                self.pending_next = true;
                self.index = self.index + 1;
                if self.index == self.message_count {
                    self.index = 0;
                }

                proof {
                    if old(self).index + 1 < old(self).message_count {
                        vstd::arithmetic::div_mod::lemma_small_mod(
                            (old(self).index + 1) as nat,
                            old(self).message_count as nat,
                        );
                    } else {
                        vstd::arithmetic::div_mod::lemma_mod_self_0(
                            old(self).message_count as int,
                        );
                    }
                }

                ScreenStepOutcome {
                    enqueue_next_now: false,
                    schedule_next_after_ms: Some(SCREEN_PERIOD_MS),
                    cancel_pending: false,
                    clear_display: true,
                    backlight: None,
                    show_message: Some(shown),
                }
            },
        }
    }
}

} // verus!
