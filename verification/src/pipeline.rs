//! The per-frame pipeline: validate the header, decode the payload, and
//! build the outbound event. Every frame is processed independently; the
//! pipeline keeps no state between frames.

use vstd::prelude::*;

use crate::frame::Frame;
use crate::frame::FrameHeader;
use crate::message::{decode_spec, Cell, CellCommand, ModemUartMessages, RadioMessages};
use crate::message::from_bytes;
use crate::validate::{validate, validate_spec, RejectReason};

verus! {

/// What one frame produces, at the specification level: on success the
/// event's routing fields and cell bytes, on failure the reject reason.
pub open spec fn pipeline_spec(h: FrameHeader, payload: Seq<u8>) -> Result<
    (u16, u16, Seq<u8>),
    RejectReason,
> {
    match validate_spec(h) {
        Some(reason) => Err(reason),
        None => match decode_spec(payload) {
            Some(cell) => Ok((h.source.short_addr, h.destination.short_addr, cell)),
            None => Err(RejectReason::DecodeFailure),
        },
    }
}

/// The outcome of the executable pipeline, folded down to the
/// specification level so the two can be compared.
pub open spec fn outcome_view(r: Result<ModemUartMessages, RejectReason>) -> Result<
    (u16, u16, Seq<u8>),
    RejectReason,
> {
    match r {
        Ok(ModemUartMessages::SetCell(cc)) => Ok((cc.source, cc.dest, cc.cell.bytes@)),
        Err(reason) => Err(reason),
    }
}

/// Run one frame through the validator and the payload decoder.
///
/// Succeeds exactly when the header passes all four addressing checks and
/// the payload decodes to a known radio message; the event then carries
/// the header's source and destination short addresses and the decoded
/// cell unchanged. Otherwise the first applicable reject reason comes
/// back, decode failure last.
pub fn process_message(frame: &Frame) -> (r: Result<ModemUartMessages, RejectReason>)
    ensures
        outcome_view(r) == pipeline_spec(frame.header, frame.payload@),
{
    if let Some(reason) = validate(&frame.header) {
        return Err(reason);
    }
    if let Some(pmsg) = from_bytes(frame.payload.as_slice()) {
        match pmsg {
            RadioMessages::SetCell(sc) => Ok(
                ModemUartMessages::SetCell(
                    CellCommand {
                        source: frame.header.source.short_addr,
                        dest: frame.header.destination.short_addr,
                        cell: sc,
                    },
                ),
            ),
        }
    } else {
        Err(RejectReason::DecodeFailure)
    }
}

/// The pipeline is a function of the frame alone: two runs over identical
/// headers and identical payload bytes reach identical outcomes. There is
/// no hidden state to drift between runs.
pub proof fn lemma_pipeline_deterministic(
    h1: FrameHeader,
    p1: Seq<u8>,
    h2: FrameHeader,
    p2: Seq<u8>,
)
    requires
        h1 == h2,
        p1 == p2,
    ensures
        pipeline_spec(h1, p1) == pipeline_spec(h2, p2),
{
}

/// A frame whose header passes validation and whose payload is the
/// encoding of a cell produces exactly the `SetCell` event with the
/// header's source and destination short addresses and that cell.
pub proof fn lemma_valid_encoded_frame(h: FrameHeader, cell: Seq<u8>)
    requires
        validate_spec(h) is None,
    ensures
        pipeline_spec(h, crate::message::encode_spec(cell)) == Ok::<_, RejectReason>(
            (h.source.short_addr, h.destination.short_addr, cell),
        ),
{
    crate::message::lemma_encode_decode_round_trip(cell);
}

} // verus!
