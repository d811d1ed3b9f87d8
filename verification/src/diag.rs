//! Diagnostic texts for the telemetry sink.
//!
//! Every reject reason has a fixed text and a fixed severity; a dropped
//! frame additionally gets a generic warning naming its source address in
//! four uppercase hex digits. Operator tooling matches on these exact
//! texts, so they are pinned down here rather than left to the caller.

use vstd::prelude::*;
use vstd::string::StringExecFns;

use crate::validate::RejectReason;

verus! {

/// Severity of a telemetry log line.
#[derive(Clone, Copy, PartialEq, Eq, Structural, Debug)]
pub enum LogLevel {
    Info,
    Warn,
    Error,
}

/// The fixed text logged for a reject reason.
pub open spec fn reason_text_spec(reason: RejectReason) -> Seq<char> {
    match reason {
        RejectReason::BadBroadcastSourcePan => "bad bdcst pan!"@,
        RejectReason::BadBroadcastSourceAddr => "bad bdcst addr!"@,
        RejectReason::PanMismatch => "mismatch pan!"@,
        RejectReason::NotAddressedToMe => "that ain't me"@,
        RejectReason::DecodeFailure => "Failed to decode!"@,
    }
}

/// The severity a reject reason is logged at: addressing failures are
/// protocol violations and log as errors; a decode failure is expected
/// channel noise and logs as a warning.
pub open spec fn reason_level_spec(reason: RejectReason) -> LogLevel {
    match reason {
        RejectReason::DecodeFailure => LogLevel::Warn,
        _ => LogLevel::Error,
    }
}

/// The fixed diagnostic text for a reject reason.
pub fn reason_text(reason: RejectReason) -> (r: &'static str)
    ensures
        r@ == reason_text_spec(reason),
{
    match reason {
        RejectReason::BadBroadcastSourcePan => "bad bdcst pan!",
        RejectReason::BadBroadcastSourceAddr => "bad bdcst addr!",
        RejectReason::PanMismatch => "mismatch pan!",
        RejectReason::NotAddressedToMe => "that ain't me",
        RejectReason::DecodeFailure => "Failed to decode!",
    }
}

/// The severity a reject reason is logged at.
pub fn reason_level(reason: RejectReason) -> (r: LogLevel)
    ensures
        r == reason_level_spec(reason),
{
    match reason {
        RejectReason::DecodeFailure => LogLevel::Warn,
        _ => LogLevel::Error,
    }
}

/// The uppercase hex digit for a value below sixteen.
pub open spec fn hex_char(n: int) -> char {
    if n == 0x0 { '0' }
    else if n == 0x1 { '1' }
    else if n == 0x2 { '2' }
    else if n == 0x3 { '3' }
    else if n == 0x4 { '4' }
    else if n == 0x5 { '5' }
    else if n == 0x6 { '6' }
    else if n == 0x7 { '7' }
    else if n == 0x8 { '8' }
    else if n == 0x9 { '9' }
    else if n == 0xA { 'A' }
    else if n == 0xB { 'B' }
    else if n == 0xC { 'C' }
    else if n == 0xD { 'D' }
    else if n == 0xE { 'E' }
    else { 'F' }
}

/// A 16-bit value as four uppercase hex digits, most significant first.
pub open spec fn hex4_spec(x: u16) -> Seq<char> {
    seq![
        hex_char(((x >> 12) & 0xF) as int),
        hex_char(((x >> 8) & 0xF) as int),
        hex_char(((x >> 4) & 0xF) as int),
        hex_char((x & 0xF) as int),
    ]
}

/// The one-character string for a hex digit value.
fn hex_char_str(n: u16) -> (r: &'static str)
    requires
        0 <= n < 16,
    ensures
        r@ == seq![hex_char(n as int)],
{
    let r = match n {
        0x0 => "0",
        0x1 => "1",
        0x2 => "2",
        0x3 => "3",
        0x4 => "4",
        0x5 => "5",
        0x6 => "6",
        0x7 => "7",
        0x8 => "8",
        0x9 => "9",
        0xA => "A",
        0xB => "B",
        0xC => "C",
        0xD => "D",
        0xE => "E",
        _ => "F",
    };
    proof {
        reveal_strlit("0");
        reveal_strlit("1");
        reveal_strlit("2");
        reveal_strlit("3");
        reveal_strlit("4");
        reveal_strlit("5");
        reveal_strlit("6");
        reveal_strlit("7");
        reveal_strlit("8");
        reveal_strlit("9");
        reveal_strlit("A");
        reveal_strlit("B");
        reveal_strlit("C");
        reveal_strlit("D");
        reveal_strlit("E");
        reveal_strlit("F");
        assert(r@ =~= seq![hex_char(n as int)]);
    }
    r
}

/// Format a 16-bit value as four uppercase hex digits.
pub fn hex4(x: u16) -> (r: String)
    ensures
        r@ == hex4_spec(x),
{
    proof {
        assert((x >> 12) & 0xF < 16 && (x >> 8) & 0xF < 16 && (x >> 4) & 0xF < 16 && x & 0xF
            < 16) by (bit_vector);
    }
    let mut s = String::new();
    s.append(hex_char_str((x >> 12) & 0xF));
    s.append(hex_char_str((x >> 8) & 0xF));
    s.append(hex_char_str((x >> 4) & 0xF));
    s.append(hex_char_str(x & 0xF));
    proof {
        assert(s@ =~= hex4_spec(x));
    }
    s
}

/// The generic warning emitted for every dropped frame, naming the
/// offending frame's source short address.
pub open spec fn bad_message_line_spec(src_addr: u16) -> Seq<char> {
    "^ Bad message from src 0x"@ + hex4_spec(src_addr)
}

/// Build the dropped-frame warning line for a source short address.
pub fn bad_message_line(src_addr: u16) -> (r: String)
    ensures
        r@ == bad_message_line_spec(src_addr),
{
    let mut s = String::from_str("^ Bad message from src 0x");
    let digits = hex4(src_addr);
    s.append(digits.as_str());
    proof {
        assert(s@ =~= bad_message_line_spec(src_addr));
    }
    s
}

} // verus!
