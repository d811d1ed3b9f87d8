//! The receive loop as a pure state machine.
//!
//! The loop alternates between `Idle` (about to request a receive) and
//! `AwaitingFrame` (a receive is outstanding). The hardware side reports
//! what happened as a `RadioEvent`; `step` decides the next state, the
//! telemetry commands to emit, and how long to back off before the next
//! receive attempt. Exactly one receive operation is outstanding at a
//! time, and every event leads back toward `Idle`, so the loop always
//! makes progress toward its next receive attempt.

use vstd::prelude::*;
use vstd::string::StringExecFns;

use crate::diag::{bad_message_line, bad_message_line_spec, reason_level, reason_level_spec,
    reason_text, reason_text_spec, LogLevel};
use crate::frame::Frame;
use crate::message::ModemUartMessages;
use crate::pipeline::{outcome_view, pipeline_spec, process_message};
use crate::validate::RejectReason;

verus! {

/// How long one receive waits for a frame before it counts as timed out,
/// in timer ticks (one second at the reference tick rate).
pub const RX_TIMEOUT_TICKS: u32 = 1_000_000;

/// How long the loop backs off after a failed attempt to start a receive,
/// in timer ticks (a quarter second at the reference tick rate).
pub const START_BACKOFF_TICKS: u32 = 250_000;

/// Where the receive loop stands.
#[derive(Clone, Copy, PartialEq, Eq, Structural, Debug)]
pub enum LoopState {
    /// About to request the next receive operation.
    Idle,
    /// A receive operation is outstanding.
    AwaitingFrame,
}

/// What the transceiver reported back.
#[derive(Clone, Debug)]
pub enum RadioEvent {
    /// A receive operation was started; valid only in `Idle`.
    StartAccepted,
    /// The transceiver refused to start a receive; valid only in `Idle`.
    StartRefused,
    /// A frame arrived; valid only in `AwaitingFrame`.
    FrameArrived(Frame),
    /// The receive timed out with no frame; valid only in `AwaitingFrame`.
    WaitTimedOut,
    /// The transceiver reported an error during the wait, with its detail
    /// already rendered as text; valid only in `AwaitingFrame`.
    WaitFailed(String),
}

/// One instruction to the telemetry sink: a leveled text log line, or a
/// structured event on the data channel.
#[derive(Clone, Debug)]
pub enum SinkCommand {
    Log(LogLevel, String),
    Publish(ModemUartMessages),
}

/// What one step of the loop decided: the next state, the telemetry
/// commands to emit in order, and the ticks to wait before acting again.
#[derive(Clone, Debug)]
pub struct Step {
    pub next: LoopState,
    pub commands: Vec<SinkCommand>,
    pub backoff_ticks: u32,
}

/// Which events can occur in which state: start outcomes while `Idle`, a
/// frame, timeout or wait error while a receive is outstanding.
pub open spec fn event_fits(state: LoopState, event: RadioEvent) -> bool {
    match event {
        RadioEvent::StartAccepted => state is Idle,
        RadioEvent::StartRefused => state is Idle,
        RadioEvent::FrameArrived(_) => state is AwaitingFrame,
        RadioEvent::WaitTimedOut => state is AwaitingFrame,
        RadioEvent::WaitFailed(_) => state is AwaitingFrame,
    }
}

/// Run a received frame through the pipeline and turn the outcome into
/// telemetry commands.
///
/// A frame that passes validation and decodes publishes exactly one
/// structured event. A dropped frame publishes nothing and emits exactly
/// two log lines: the reason's fixed text at the reason's severity, then
/// the generic warning naming the frame's source address.
pub fn dispatch(frame: &Frame) -> (r: Vec<SinkCommand>)
    ensures
        pipeline_spec(frame.header, frame.payload@) matches Ok(ev) ==> {
            &&& r@.len() == 1
            &&& r@[0] matches SinkCommand::Publish(m) && outcome_view(Ok(m)) == Ok::<
                _,
                RejectReason,
            >(ev)
        },
        pipeline_spec(frame.header, frame.payload@) matches Err(reason) ==> {
            &&& r@.len() == 2
            &&& r@[0] matches SinkCommand::Log(lvl, text) && lvl == reason_level_spec(reason)
                && text@ == reason_text_spec(reason)
            &&& r@[1] matches SinkCommand::Log(lvl, text) && lvl == LogLevel::Warn && text@
                == bad_message_line_spec(frame.header.source.short_addr)
        },
{
    let mut commands: Vec<SinkCommand> = Vec::new();
    match process_message(frame) {
        Ok(resp) => {
            commands.push(SinkCommand::Publish(resp));
        },
        Err(reason) => {
            let text = String::from_str(reason_text(reason));
            commands.push(SinkCommand::Log(reason_level(reason), text));
            commands.push(
                SinkCommand::Log(LogLevel::Warn, bad_message_line(frame.header.source.short_addr)),
            );
        },
    }
    commands
}

/// Decide one step of the receive loop.
///
/// - `Idle`, start accepted: a receive is now outstanding; nothing to emit.
/// - `Idle`, start refused: warn once and back off before retrying, so a
///   failing transceiver cannot spin the loop.
/// - `AwaitingFrame`, frame arrived: dispatch it through the pipeline and
///   return to `Idle` at once.
/// - `AwaitingFrame`, timed out: one informational line, back to `Idle`
///   with no backoff; timeouts are normal when no traffic is present.
/// - `AwaitingFrame`, wait failed: one error line carrying the detail,
///   back to `Idle` with no backoff.
pub fn step(state: LoopState, event: RadioEvent) -> (r: Step)
    requires
        event_fits(state, event),
    ensures
        event is StartAccepted ==> r.next is AwaitingFrame && r.commands@.len() == 0
            && r.backoff_ticks == 0,
        event !is StartAccepted ==> r.next is Idle,
        event is StartRefused ==> {
            &&& r.commands@.len() == 1
            &&& r.commands@[0] matches SinkCommand::Log(lvl, text) && lvl == LogLevel::Warn
                && text@ == "Failed to start receive!"@
            &&& r.backoff_ticks == START_BACKOFF_TICKS
        },
        event is WaitTimedOut ==> {
            &&& r.commands@.len() == 1
            &&& r.commands@[0] matches SinkCommand::Log(lvl, text) && lvl == LogLevel::Info
                && text@ == "RX Timeout"@
            &&& r.backoff_ticks == 0
        },
        event matches RadioEvent::WaitFailed(detail) ==> {
            &&& r.commands@.len() == 1
            &&& r.commands@[0] matches SinkCommand::Log(lvl, text) && lvl == LogLevel::Error
                && text@ == "RX: "@ + detail@
            &&& r.backoff_ticks == 0
        },
        event matches RadioEvent::FrameArrived(frame) ==> {
            &&& r.backoff_ticks == 0
            &&& pipeline_spec(frame.header, frame.payload@) matches Ok(ev) ==> {
                &&& r.commands@.len() == 1
                &&& r.commands@[0] matches SinkCommand::Publish(m) && outcome_view(Ok(m))
                    == Ok::<_, RejectReason>(ev)
            }
            &&& pipeline_spec(frame.header, frame.payload@) matches Err(reason) ==> {
                &&& r.commands@.len() == 2
                &&& r.commands@[0] matches SinkCommand::Log(lvl, text) && lvl
                    == reason_level_spec(reason) && text@ == reason_text_spec(reason)
                &&& r.commands@[1] matches SinkCommand::Log(lvl, text) && lvl == LogLevel::Warn
                    && text@ == bad_message_line_spec(frame.header.source.short_addr)
            }
        },
{
    match event {
        RadioEvent::StartAccepted => Step {
            next: LoopState::AwaitingFrame,
            commands: Vec::new(),
            backoff_ticks: 0,
        },
        RadioEvent::StartRefused => {
            let mut commands: Vec<SinkCommand> = Vec::new();
            commands.push(
                SinkCommand::Log(LogLevel::Warn, String::from_str("Failed to start receive!")),
            );
            Step { next: LoopState::Idle, commands, backoff_ticks: START_BACKOFF_TICKS }
        },
        RadioEvent::FrameArrived(frame) => {
            let commands = dispatch(&frame);
            Step { next: LoopState::Idle, commands, backoff_ticks: 0 }
        },
        RadioEvent::WaitTimedOut => {
            let mut commands: Vec<SinkCommand> = Vec::new();
            commands.push(SinkCommand::Log(LogLevel::Info, String::from_str("RX Timeout")));
            Step { next: LoopState::Idle, commands, backoff_ticks: 0 }
        },
        RadioEvent::WaitFailed(detail) => {
            let mut text = String::from_str("RX: ");
            text.append(detail.as_str());
            let mut commands: Vec<SinkCommand> = Vec::new();
            commands.push(SinkCommand::Log(LogLevel::Error, text));
            Step { next: LoopState::Idle, commands, backoff_ticks: 0 }
        },
    }
}

} // verus!
