//! A single-threaded UWB gateway core: it validates the addressing of
//! received radio frames against this node's fixed identity, decodes the
//! application payload into a known radio message, and turns the outcome
//! into structured telemetry commands. The receive loop itself is a pure
//! state machine here; the hardware that produces frames and consumes
//! telemetry lives outside the library.

pub mod diag;
pub mod frame;
pub mod message;
pub mod modem;
pub mod pipeline;
pub mod validate;
