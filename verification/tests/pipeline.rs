use draw_modem::frame::{Frame, FrameHeader, Identity, BROADCAST, MODEM_ADDR};
use draw_modem::message::{to_bytes, Cell, ModemUartMessages, RadioMessages};
use draw_modem::pipeline::process_message;
use draw_modem::validate::RejectReason;

fn frame(src_pan: u16, src_addr: u16, dst_pan: u16, dst_addr: u16, payload: Vec<u8>) -> Frame {
    Frame {
        header: FrameHeader {
            source: Identity { pan_id: src_pan, short_addr: src_addr },
            destination: Identity { pan_id: dst_pan, short_addr: dst_addr },
        },
        payload,
    }
}

fn encoded_cell(bytes: Vec<u8>) -> Vec<u8> {
    to_bytes(&RadioMessages::SetCell(Cell { bytes }))
}

#[test]
fn valid_frame_yields_set_cell_event_with_header_routing() {
    // source (0x0386, 0x0101), destination (0x0386, 0x0808 = MODEM_ADDR),
    // payload a valid encoding of SetCell(cellX).
    let cell_x = vec![0x07, 0x2A, 0x10];
    let f = frame(0x0386, 0x0101, 0x0386, MODEM_ADDR, encoded_cell(cell_x.clone()));
    match process_message(&f) {
        Ok(ModemUartMessages::SetCell(cc)) => {
            assert_eq!(cc.source, 0x0101);
            assert_eq!(cc.dest, 0x0808);
            assert_eq!(cc.cell.bytes, cell_x);
        },
        Err(reason) => panic!("valid frame rejected: {:?}", reason),
    }
}

#[test]
fn frame_for_another_address_is_not_addressed_to_me() {
    let f = frame(0x0386, 0x0101, 0x0386, 0x0809, encoded_cell(vec![0x01]));
    match process_message(&f) {
        Ok(_) => panic!("misaddressed frame produced an event"),
        Err(reason) => assert_eq!(reason, RejectReason::NotAddressedToMe),
    }
}

#[test]
fn undecodable_payload_is_a_decode_failure() {
    let f = frame(0x0386, 0x0101, 0x0386, MODEM_ADDR, vec![0xFF, 0x00]);
    assert_eq!(process_message(&f).unwrap_err(), RejectReason::DecodeFailure);
}

#[test]
fn empty_payload_is_a_decode_failure() {
    let f = frame(0x0386, 0x0101, 0x0386, MODEM_ADDR, vec![]);
    assert_eq!(process_message(&f).unwrap_err(), RejectReason::DecodeFailure);
}

#[test]
fn validation_runs_before_decoding() {
    // An undecodable payload on a broadcast-source frame still reports the
    // addressing failure, not the decode failure.
    let f = frame(BROADCAST, 0x0101, 0x0386, MODEM_ADDR, vec![0xFF]);
    assert_eq!(process_message(&f).unwrap_err(), RejectReason::BadBroadcastSourcePan);
}

#[test]
fn pipeline_is_idempotent_on_identical_frames() {
    let cases = vec![
        frame(0x0386, 0x0101, 0x0386, MODEM_ADDR, encoded_cell(vec![0x09, 0x08])),
        frame(0x0386, 0x0101, 0x0386, 0x0809, encoded_cell(vec![0x09])),
        frame(BROADCAST, 0x0101, 0x0386, MODEM_ADDR, vec![]),
        frame(0x0386, 0x0101, 0x0386, MODEM_ADDR, vec![0x55, 0x66]),
    ];
    for f in cases {
        let first = process_message(&f);
        let second = process_message(&f);
        match (first, second) {
            (Ok(ModemUartMessages::SetCell(a)), Ok(ModemUartMessages::SetCell(b))) => {
                assert_eq!(a.source, b.source);
                assert_eq!(a.dest, b.dest);
                assert_eq!(a.cell.bytes, b.cell.bytes);
            },
            (Err(a), Err(b)) => assert_eq!(a, b),
            _ => panic!("two runs on one frame disagreed"),
        }
    }
}
