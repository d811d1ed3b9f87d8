//! Network identities and received frames.
//!
//! An identity is a PAN id plus a short address, both 16-bit. The value
//! `0xFFFF` is the broadcast sentinel for either field; this node's own
//! identity is the fixed pair (`MODEM_PAN`, `MODEM_ADDR`).

use vstd::prelude::*;

verus! {

/// The PAN this node belongs to.
pub const MODEM_PAN: u16 = 0x0386;

/// This node's short address within its PAN.
pub const MODEM_ADDR: u16 = 0x0808;

/// Reserved sentinel meaning "all nodes" / "all PANs".
pub const BROADCAST: u16 = 0xFFFF;

/// A network identity: a PAN id and a short address within that PAN.
#[derive(Clone, Copy, PartialEq, Eq, Structural, Debug)]
pub struct Identity {
    pub pan_id: u16,
    pub short_addr: u16,
}

/// The addressing header carried by every received frame.
#[derive(Clone, Copy, PartialEq, Eq, Structural, Debug)]
pub struct FrameHeader {
    pub source: Identity,
    pub destination: Identity,
}

/// One received radio frame: its addressing header and the raw
/// application payload bytes.
#[derive(Clone, Debug)]
pub struct Frame {
    pub header: FrameHeader,
    pub payload: Vec<u8>,
}

} // verus!
