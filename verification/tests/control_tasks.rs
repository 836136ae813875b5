//! The decision logic of the periodic tasks.

use totem::chaser::{Chaser, GeneratorFrame};
use totem::color::Color;
use totem::constants::{LEDS_PER_HALF_STRIP, NUM_LEDS};
use totem::delay::AsmDelay;
use totem::state::{Brightness, Mode, ScreenState, Speed, Temperature, UIState};
use totem::tasks::{
    render_period_ms, LedTaskMessage, RenderTask, ScreenTask, ScreenTaskMessage, UiTask,
    SCREEN_PERIOD_MS,
};

fn state(mode: Mode, brightness: u8, speed_ms: u32, screen: ScreenState) -> UIState {
    UIState {
        mode,
        brightness: Brightness::new(brightness),
        speed: Speed::new(speed_ms),
        temperature: Temperature::new(0),
        screen_state: screen,
    }
}

fn generated() -> GeneratorFrame {
    GeneratorFrame {
        main_color: Color { r: 100, g: 50, b: 25 },
        half_strip: vec![Color { r: 1, g: 2, b: 3 }; LEDS_PER_HALF_STRIP],
    }
}

#[test]
fn ui_task_ignores_an_unchanged_state() {
    let mut task = UiTask::new();
    let s = state(Mode::RandomUnicolor, 10, 500, ScreenState::On);

    let first = task.step(s);
    assert_eq!(first.led_message, Some(LedTaskMessage::UpdateMode(s)));
    assert_eq!(first.screen_message, Some(ScreenTaskMessage::Start));

    let second = task.step(s);
    assert_eq!(second.led_message, None);
    assert_eq!(second.screen_message, None);
}

#[test]
fn ui_task_relays_screen_changes_only_when_mode_or_screen_moved() {
    let mut task = UiTask::new();
    let on = state(Mode::RandomUnicolor, 10, 500, ScreenState::On);
    task.step(on);

    // Only the brightness moves: the render task hears of it, the display
    // task does not.
    let brighter = state(Mode::RandomUnicolor, 200, 500, ScreenState::On);
    let outcome = task.step(brighter);
    assert_eq!(outcome.led_message, Some(LedTaskMessage::UpdateMode(brighter)));
    assert_eq!(outcome.screen_message, None);

    // Switching the screen off stops the display task.
    let screen_off = state(Mode::RandomUnicolor, 200, 500, ScreenState::Off);
    let outcome = task.step(screen_off);
    assert_eq!(outcome.screen_message, Some(ScreenTaskMessage::Stop));

    // Switching the mode off stops it too, whatever the screen state.
    let off = state(Mode::Off, 200, 500, ScreenState::On);
    let outcome = task.step(off);
    assert_eq!(outcome.screen_message, Some(ScreenTaskMessage::Stop));
}

#[test]
fn same_mode_twice_does_not_reconstruct_the_chaser() {
    // Mode transition idempotence: the second update with the same mode
    // refreshes brightness, speed and temperature but keeps the chaser,
    // and asks for no extra render tick.
    let mut task = RenderTask::new();

    let first = task.apply_update(state(Mode::RandomUnicolor, 10, 500, ScreenState::Off));
    assert!(first.enqueue_next);
    assert!(!first.blank_strip);
    let chaser_after_first = task.chaser;

    let second = task.apply_update(state(Mode::RandomUnicolor, 99, 7000, ScreenState::On));
    assert!(!second.enqueue_next);
    assert!(!second.blank_strip);

    // The chaser was kept: only its live parameters moved.
    match (chaser_after_first, task.chaser) {
        (Chaser::RandomUnicolor(before), Chaser::RandomUnicolor(after)) => {
            assert_eq!(
                (before.delta_low, before.delta_high),
                (after.delta_low, after.delta_high)
            );
            assert_eq!(
                (before.transition_low_ms, before.transition_high_ms),
                (after.transition_low_ms, after.transition_high_ms)
            );
            assert_eq!(after.time_config.transition_time_ms, 7000);
        }
        _ => unreachable!(),
    }
    assert_eq!(task.brightness.value(), 99);
    assert!(task.drive_screen);
}

#[test]
fn switching_off_blanks_the_strip_once() {
    let mut task = RenderTask::new();
    task.apply_update(state(Mode::RandomUnicolor, 10, 500, ScreenState::Off));

    let off = task.apply_update(state(Mode::Off, 10, 500, ScreenState::Off));
    assert!(off.blank_strip);
    assert!(!off.enqueue_next);

    let again = task.apply_update(state(Mode::Off, 20, 500, ScreenState::Off));
    assert!(!again.blank_strip);
}

#[test]
fn render_cadence_matches_the_refresh_rate() {
    // With a refresh rate of 50 ticks per second the re-arm period is
    // exactly 20 ms; a rate that does not divide 1000 truncates downward.
    assert_eq!(render_period_ms(50), 20);
    assert_eq!(render_period_ms(60), 16);
    assert_eq!(render_period_ms(1), 1000);
    assert_eq!(render_period_ms(1001), 0);
}

#[test]
fn render_next_does_nothing_while_off() {
    let mut task = RenderTask::new();
    assert!(task.render_next(generated()).is_none());
}

#[test]
fn render_next_scales_and_reschedules() {
    let mut task = RenderTask::new();
    task.apply_update(state(Mode::RandomUnicolor, 127, 500, ScreenState::On));

    let outcome = task.render_next(generated()).unwrap();

    assert_eq!(outcome.reschedule_after_ms, 20);
    assert_eq!(outcome.frame.len(), NUM_LEDS);
    // Brightness 127 halves each channel of the generated color.
    assert!(outcome.frame.iter().all(|c| *c == Color { r: 50, g: 25, b: 12 }));
    // Display drive is on, so the unscaled main color is forwarded.
    assert_eq!(outcome.screen_color, Some(Color { r: 100, g: 50, b: 25 }));
}

#[test]
fn render_next_forwards_no_color_with_display_drive_off() {
    let mut task = RenderTask::new();
    task.apply_update(state(Mode::RandomUnicolor, 255, 500, ScreenState::Off));

    let outcome = task.render_next(generated()).unwrap();
    assert_eq!(outcome.screen_color, None);
}

#[test]
fn screen_task_cycles_messages_and_wraps() {
    let mut task = ScreenTask::new(2);

    let start = task.step(ScreenTaskMessage::Start);
    assert!(start.enqueue_next_now);
    assert_eq!(start.backlight, Some(Color { r: 255, g: 255, b: 255 }));
    assert!(!start.clear_display);

    let first = task.step(ScreenTaskMessage::Next);
    assert_eq!(first.show_message, Some(0));
    assert_eq!(first.schedule_next_after_ms, Some(SCREEN_PERIOD_MS));
    assert!(first.clear_display);

    let second = task.step(ScreenTaskMessage::Next);
    assert_eq!(second.show_message, Some(1));

    // The index wraps to the start of the list.
    let third = task.step(ScreenTaskMessage::Next);
    assert_eq!(third.show_message, Some(0));
}

#[test]
fn screen_task_start_is_a_no_op_while_armed() {
    let mut task = ScreenTask::new(2);
    task.step(ScreenTaskMessage::Start);
    task.step(ScreenTaskMessage::Next);

    let again = task.step(ScreenTaskMessage::Start);
    assert!(!again.enqueue_next_now);
    assert_eq!(again.backlight, None);
}

#[test]
fn screen_task_stop_cancels_blanks_and_resets() {
    let mut task = ScreenTask::new(2);
    task.step(ScreenTaskMessage::Start);
    task.step(ScreenTaskMessage::Next);
    task.step(ScreenTaskMessage::Next);

    let stop = task.step(ScreenTaskMessage::Stop);
    assert!(stop.cancel_pending);
    assert!(stop.clear_display);
    assert_eq!(stop.backlight, Some(Color { r: 0, g: 0, b: 0 }));

    // Stopping again cancels nothing: cancellation is idempotent.
    let stop_again = task.step(ScreenTaskMessage::Stop);
    assert!(!stop_again.cancel_pending);

    // After a stop the cycle starts over at the first message.
    task.step(ScreenTaskMessage::Start);
    let next = task.step(ScreenTaskMessage::Next);
    assert_eq!(next.show_message, Some(0));
}

#[test]
fn delay_tick_arithmetic() {
    let delay = AsmDelay::new(80_000_000);
    assert_eq!(delay.delay_ticks_us(1), 80);
    assert_eq!(delay.delay_ticks_us(1_000_000), 80_000_000);
    assert_eq!(delay.delay_ticks_ms(1000), 80_000_000);
}
