//! Command-level protocol handling for remote control.
//!
//! The binary framing, checksumming and byte accumulation of the serial
//! transport happen at the hardware boundary; by the time a frame reaches
//! the router it has been reduced to a command code and a payload. The
//! router recognizes the UI state override command and leaves every other
//! code to the transport's default introspection routes.

use vstd::prelude::*;

use crate::codec::{decode_ui_state, spec_decode, spec_matches_decoded, DecodedFields};
use crate::state::UIState;

verus! {

/// The command code of a UI state override.
pub const UI_UPDATE: u8 = 0x20;

/// A command received over the serial link, reduced to its code and
/// payload.
#[derive(Debug, Clone, PartialEq, Eq)]
pub struct Command {
    /// The command code.
    pub code: u8,
    /// The command payload.
    pub value: Vec<u8>,
}

/// The reason carried by a negative acknowledge.
#[derive(Debug, Clone, Copy, PartialEq, Eq, Structural)]
pub enum NackReason {
    /// The command payload does not match its schema.
    InvalidArguments,
}

/// The reply to a handled command.
#[derive(Debug, Clone, Copy, PartialEq, Eq, Structural)]
pub enum Reply {
    /// The command was applied.
    Ack,
    /// The command was rejected and shared state left untouched.
    Nack(NackReason),
}

/// What the router decided about a command.
#[derive(Debug, Clone, Copy, PartialEq, Eq, Structural)]
pub enum RouteOutcome {
    /// The command was handled here, with this reply.
    Reply(Reply),
    /// The command code is not handled here; it falls through to the
    /// transport's default routes, which expose firmware identity and
    /// version for introspection or negative-acknowledge unknown codes.
    Default,
}

/// The context the router works on: shared state a command may update.
#[derive(Debug, Clone, PartialEq, Eq)]
pub struct ErcpContext {
    /// The UI state carried by an accepted override, to be applied to the
    /// shared UI snapshot.
    pub ui_state_update: Option<UIState>,
}

impl Default for ErcpContext {
    /// An empty context: no override pending.
    fn default() -> (r: Self)
        ensures
            r.ui_state_update is None,
    {
        Self { ui_state_update: None }
    }
}

/// Handles a UI state override command.
///
/// On a payload that decodes against the UI state schema, stores the
/// decoded state as the pending override and acknowledges. On any other
/// payload, or on a command that is not an override at all, leaves the
/// pending override untouched and negative-acknowledges with an invalid
/// arguments reason.
pub fn ui_update(command: &Command, ui_state_update: &mut Option<UIState>) -> (r: Reply)
    ensures
        command.code != UI_UPDATE ==> (r == Reply::Nack(NackReason::InvalidArguments)
            && *final(ui_state_update) == *old(ui_state_update)),
        command.code == UI_UPDATE ==> match spec_decode(command.value@) {
            Ok(f) => r == Reply::Ack && ((*final(ui_state_update)) matches Some(s)
                && spec_matches_decoded(s, f)),
            Err(_) => r == Reply::Nack(NackReason::InvalidArguments)
                && *final(ui_state_update) == *old(ui_state_update),
        },
{
    if command.code != UI_UPDATE {
        return Reply::Nack(NackReason::InvalidArguments);
    }

    match decode_ui_state(command.value.as_slice()) {
        Ok(ui_state) => {
            *ui_state_update = Some(ui_state);
            Reply::Ack
        },
        Err(_) => Reply::Nack(NackReason::InvalidArguments),
    }
}

/// The command router of the firmware.
pub struct TotemRouter;

impl TotemRouter {
    /// Routes a command: a UI state override is handled here, every other
    /// code falls through to the transport's default routes.
    pub fn route(&mut self, command: &Command, ctx: &mut ErcpContext) -> (r: RouteOutcome)
        ensures
            command.code != UI_UPDATE ==> (r == RouteOutcome::Default && *final(ctx) == *old(ctx)),
            command.code == UI_UPDATE ==> match spec_decode(command.value@) {
                Ok(f) => r == RouteOutcome::Reply(Reply::Ack)
                    && (final(ctx).ui_state_update matches Some(s) && spec_matches_decoded(s, f)),
                Err(_) => r == RouteOutcome::Reply(Reply::Nack(NackReason::InvalidArguments))
                    && *final(ctx) == *old(ctx),
            },
    {
        if command.code == UI_UPDATE {
            RouteOutcome::Reply(ui_update(command, &mut ctx.ui_state_update))
        } else {
            RouteOutcome::Default
        }
    }

    /// Returns the firmware name and version.
    pub fn firmware_version(&self) -> &'static str {
        "totem 0.1.0"
    }

    /// Returns the firmware description.
    pub fn description(&self) -> &'static str {
        "A totem for music festivals, built with love to spread love."
    }
}

} // verus!
