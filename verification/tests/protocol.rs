//! The protocol bridge: routing, acknowledges and rejections.

use totem::codec::encode_ui_state;
use totem::ercp::{
    ui_update, Command, ErcpContext, NackReason, Reply, RouteOutcome, TotemRouter, UI_UPDATE,
};
use totem::state::{Brightness, Mode, ScreenState, Speed, Temperature, UIState};

fn sample_state() -> UIState {
    UIState {
        mode: Mode::RandomUnicolor,
        brightness: Brightness::new(200),
        speed: Speed::new(2500),
        temperature: Temperature::new(-10),
        screen_state: ScreenState::On,
    }
}

#[test]
fn valid_override_is_acknowledged_and_applied() {
    let mut router = TotemRouter;
    let mut ctx = ErcpContext::default();
    let command = Command { code: UI_UPDATE, value: encode_ui_state(&sample_state()) };

    let outcome = router.route(&command, &mut ctx);

    assert_eq!(outcome, RouteOutcome::Reply(Reply::Ack));
    assert_eq!(ctx.ui_state_update, Some(sample_state()));
}

#[test]
fn short_override_payload_is_nacked_and_state_untouched() {
    // A payload too short to contain a screen state discriminant yields a
    // negative acknowledge, and the pending override is observably
    // unchanged afterwards.
    let mut router = TotemRouter;
    let mut ctx = ErcpContext::default();
    let mut payload = encode_ui_state(&sample_state());
    payload.pop();
    let command = Command { code: UI_UPDATE, value: payload };

    let outcome = router.route(&command, &mut ctx);

    assert_eq!(
        outcome,
        RouteOutcome::Reply(Reply::Nack(NackReason::InvalidArguments))
    );
    assert_eq!(ctx.ui_state_update, None);
}

#[test]
fn garbage_override_payload_leaves_an_earlier_override_standing() {
    let mut router = TotemRouter;
    let mut ctx = ErcpContext { ui_state_update: Some(sample_state()) };
    let command = Command { code: UI_UPDATE, value: vec![0xff; 8] };

    let outcome = router.route(&command, &mut ctx);

    assert_eq!(
        outcome,
        RouteOutcome::Reply(Reply::Nack(NackReason::InvalidArguments))
    );
    assert_eq!(ctx.ui_state_update, Some(sample_state()));
}

#[test]
fn unknown_codes_fall_through_to_the_default_routes() {
    let mut router = TotemRouter;
    let mut ctx = ErcpContext::default();

    for code in [0x00u8, 0x01, 0x10, 0x21, 0xff] {
        let command = Command { code, value: vec![] };
        assert_eq!(router.route(&command, &mut ctx), RouteOutcome::Default);
        assert_eq!(ctx.ui_state_update, None);
    }
}

#[test]
fn ui_update_rejects_a_foreign_code() {
    let mut pending = None;
    let command = Command { code: 0x21, value: encode_ui_state(&sample_state()) };

    let reply = ui_update(&command, &mut pending);

    assert_eq!(reply, Reply::Nack(NackReason::InvalidArguments));
    assert_eq!(pending, None);
}

#[test]
fn router_reports_an_identity() {
    let router = TotemRouter;
    assert!(!router.firmware_version().is_empty());
    assert!(!router.description().is_empty());
}
