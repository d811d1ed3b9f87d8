//! Radio messages and outbound events.
//!
//! A frame payload is a fixed, versionless binary encoding of a
//! `RadioMessages` value: a one-byte variant tag followed by the variant's
//! data. The only variant today, `SetCell`, carries an opaque cell
//! configuration whose contents this core does not interpret. A decoded
//! message is mapped into an outbound `ModemUartMessages` event enriched
//! with the frame's source and destination short addresses.

use vstd::prelude::*;

verus! {

/// Variant tag that opens the encoding of `RadioMessages::SetCell`.
pub const SET_CELL_TAG: u8 = 0x00;

/// Opaque cell-configuration payload carried inside a `SetCell` message.
/// This core forwards its bytes unread.
#[derive(Clone, Debug)]
pub struct Cell {
    pub bytes: Vec<u8>,
}

/// An application-level message carried in a frame payload. The set of
/// variants is closed: every variant must have a matching outbound event.
#[derive(Clone, Debug)]
pub enum RadioMessages {
    SetCell(Cell),
}

impl RadioMessages {
    /// The cell bytes this message carries.
    pub open spec fn cell_view(self) -> Seq<u8> {
        match self {
            RadioMessages::SetCell(c) => c.bytes@,
        }
    }
}

/// A decoded cell command together with where it came from and where it
/// was addressed: the frame header's source and destination short
/// addresses, copied in as routing metadata.
#[derive(Clone, Debug)]
pub struct CellCommand {
    pub source: u16,
    pub dest: u16,
    pub cell: Cell,
}

/// An outbound structured event, one variant per radio message variant.
#[derive(Clone, Debug)]
pub enum ModemUartMessages {
    SetCell(CellCommand),
}

/// The encoding of a `SetCell` message carrying the given cell bytes:
/// the variant tag, then the cell bytes unchanged.
pub open spec fn encode_spec(cell: Seq<u8>) -> Seq<u8> {
    seq![SET_CELL_TAG] + cell
}

/// What a payload decodes to: the carried cell bytes when the payload
/// opens with the `SetCell` tag, `None` on anything else (an empty
/// payload or an unknown tag).
pub open spec fn decode_spec(payload: Seq<u8>) -> Option<Seq<u8>> {
    if payload.len() >= 1 && payload[0] == SET_CELL_TAG {
        Some(payload.subrange(1, payload.len() as int))
    } else {
        None
    }
}

/// Decode a frame payload into a radio message.
///
/// Succeeds exactly on payloads that open with a known variant tag; the
/// returned message carries the remaining bytes as its cell.
pub fn from_bytes(payload: &[u8]) -> (r: Option<RadioMessages>)
    ensures
        r is Some <==> decode_spec(payload@) is Some,
        r matches Some(m) ==> Some(m.cell_view()) == decode_spec(payload@),
{
    if payload.len() >= 1 && payload[0] == SET_CELL_TAG {
        let mut bytes: Vec<u8> = Vec::new();
        let mut i: usize = 1;
        while i < payload.len()
            invariant
                1 <= i <= payload@.len(),
                bytes@ == payload@.subrange(1, i as int),
            decreases payload@.len() - i,
        {
            bytes.push(payload[i]);
            assert(bytes@ == payload@.subrange(1, i + 1 as int));
            i = i + 1;
        }
        Some(RadioMessages::SetCell(Cell { bytes }))
    } else {
        None
    }
}

/// Encode a radio message into payload bytes: the variant tag, then the
/// message's data.
pub fn to_bytes(m: &RadioMessages) -> (r: Vec<u8>)
    ensures
        r@ == encode_spec(m.cell_view()),
{
    match m {
        RadioMessages::SetCell(c) => {
            let mut out: Vec<u8> = Vec::new();
            out.push(SET_CELL_TAG);
            let mut i: usize = 0;
            while i < c.bytes.len()
                invariant
                    0 <= i <= c.bytes@.len(),
                    out@ == seq![SET_CELL_TAG] + c.bytes@.subrange(0, i as int),
                decreases c.bytes@.len() - i,
            {
                out.push(c.bytes[i]);
                assert(out@ =~= seq![SET_CELL_TAG] + c.bytes@.subrange(0, i + 1 as int));
                i = i + 1;
            }
            assert(out@ =~= seq![SET_CELL_TAG] + c.bytes@);
            out
        }
    }
}

/// Encoding a cell and decoding the result gives the cell back: the wire
/// format loses nothing.
pub proof fn lemma_encode_decode_round_trip(cell: Seq<u8>)
    ensures
        decode_spec(encode_spec(cell)) == Some(cell),
{
    assert(encode_spec(cell)[0] == SET_CELL_TAG);
    assert(encode_spec(cell).subrange(1, encode_spec(cell).len() as int) =~= cell);
}

} // verus!
