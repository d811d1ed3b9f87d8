//! The frame validator: four addressing checks applied in a fixed order,
//! first failure wins. Each failure carries a distinct reason so that
//! operator tooling can tell them apart.

use vstd::prelude::*;

use crate::frame::{FrameHeader, BROADCAST, MODEM_ADDR};

verus! {

/// Why a frame was dropped instead of producing an outbound event.
#[derive(Clone, Copy, PartialEq, Eq, Structural, Debug)]
pub enum RejectReason {
    /// The source claims to originate from the broadcast PAN.
    BadBroadcastSourcePan,
    /// The source claims to originate from the broadcast address.
    BadBroadcastSourceAddr,
    /// The destination PAN differs from the source PAN.
    PanMismatch,
    /// The destination short address is not this node's address.
    NotAddressedToMe,
    /// The payload bytes did not decode to any known radio message.
    DecodeFailure,
}

/// The validator's verdict on a header: `None` when every check passes,
/// otherwise the reason of the first check that fails.
pub open spec fn validate_spec(h: FrameHeader) -> Option<RejectReason> {
    if h.source.pan_id == BROADCAST {
        Some(RejectReason::BadBroadcastSourcePan)
    } else if h.source.short_addr == BROADCAST {
        Some(RejectReason::BadBroadcastSourceAddr)
    } else if h.destination.pan_id != h.source.pan_id {
        Some(RejectReason::PanMismatch)
    } else if h.destination.short_addr != MODEM_ADDR {
        Some(RejectReason::NotAddressedToMe)
    } else {
        None
    }
}

/// Check a frame header's addressing against this node's identity.
///
/// Returns `None` exactly when the frame may proceed to payload decoding;
/// otherwise the reason of the first failing check, in the fixed order:
/// broadcast source PAN, broadcast source address, PAN mismatch, wrong
/// destination address.
pub fn validate(h: &FrameHeader) -> (r: Option<RejectReason>)
    ensures
        r == validate_spec(*h),
        (r == Some(RejectReason::BadBroadcastSourcePan)) <==> (h.source.pan_id == BROADCAST),
        (r == Some(RejectReason::BadBroadcastSourceAddr)) <==> (h.source.pan_id != BROADCAST
            && h.source.short_addr == BROADCAST),
        (r == Some(RejectReason::PanMismatch)) <==> (h.source.pan_id != BROADCAST
            && h.source.short_addr != BROADCAST && h.destination.pan_id != h.source.pan_id),
        (r == Some(RejectReason::NotAddressedToMe)) <==> (h.source.pan_id != BROADCAST
            && h.source.short_addr != BROADCAST && h.destination.pan_id == h.source.pan_id
            && h.destination.short_addr != MODEM_ADDR),
        (r is None) <==> (h.source.pan_id != BROADCAST && h.source.short_addr != BROADCAST
            && h.destination.pan_id == h.source.pan_id
            && h.destination.short_addr == MODEM_ADDR),
{
    if h.source.pan_id == BROADCAST {
        Some(RejectReason::BadBroadcastSourcePan)
    } else if h.source.short_addr == BROADCAST {
        Some(RejectReason::BadBroadcastSourceAddr)
    } else if h.destination.pan_id != h.source.pan_id {
        Some(RejectReason::PanMismatch)
    } else if h.destination.short_addr != MODEM_ADDR {
        Some(RejectReason::NotAddressedToMe)
    } else {
        None
    }
}

} // verus!
