use draw_modem::frame::{FrameHeader, Identity, BROADCAST, MODEM_ADDR, MODEM_PAN};
use draw_modem::validate::{validate, RejectReason};

fn header(src_pan: u16, src_addr: u16, dst_pan: u16, dst_addr: u16) -> FrameHeader {
    FrameHeader {
        source: Identity { pan_id: src_pan, short_addr: src_addr },
        destination: Identity { pan_id: dst_pan, short_addr: dst_addr },
    }
}

#[test]
fn broadcast_source_pan_is_rejected_first() {
    // Other fields are irrelevant once the source PAN is the broadcast
    // sentinel, even when they would fail later checks too.
    let h = header(BROADCAST, BROADCAST, 0x0001, 0x0002);
    assert_eq!(validate(&h), Some(RejectReason::BadBroadcastSourcePan));
}

#[test]
fn broadcast_source_addr_is_rejected_second() {
    let h = header(MODEM_PAN, BROADCAST, MODEM_PAN, MODEM_ADDR);
    assert_eq!(validate(&h), Some(RejectReason::BadBroadcastSourceAddr));
}

#[test]
fn cross_pan_frame_is_rejected() {
    let h = header(0x0386, 0x0101, 0x0387, MODEM_ADDR);
    assert_eq!(validate(&h), Some(RejectReason::PanMismatch));
}

#[test]
fn frame_for_other_node_is_rejected() {
    let h = header(MODEM_PAN, 0x0101, MODEM_PAN, 0x0809);
    assert_eq!(validate(&h), Some(RejectReason::NotAddressedToMe));
}

#[test]
fn well_addressed_frame_passes() {
    let h = header(MODEM_PAN, 0x0101, MODEM_PAN, MODEM_ADDR);
    assert_eq!(validate(&h), None);
}

#[test]
fn checks_apply_in_order_first_failure_wins() {
    // Broadcast source address and wrong destination at once: the source
    // address check comes first.
    let h = header(MODEM_PAN, BROADCAST, MODEM_PAN, 0x0001);
    assert_eq!(validate(&h), Some(RejectReason::BadBroadcastSourceAddr));
}
