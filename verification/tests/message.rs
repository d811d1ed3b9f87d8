use draw_modem::message::{from_bytes, to_bytes, Cell, RadioMessages, SET_CELL_TAG};

#[test]
fn encode_then_decode_returns_the_cell() {
    let cell = Cell { bytes: vec![0xDE, 0xAD, 0xBE, 0xEF] };
    let encoded = to_bytes(&RadioMessages::SetCell(cell));
    assert_eq!(encoded, vec![SET_CELL_TAG, 0xDE, 0xAD, 0xBE, 0xEF]);
    match from_bytes(&encoded) {
        Some(RadioMessages::SetCell(c)) => assert_eq!(c.bytes, vec![0xDE, 0xAD, 0xBE, 0xEF]),
        None => panic!("round trip lost the message"),
    }
}

#[test]
fn encode_of_empty_cell_is_just_the_tag() {
    let encoded = to_bytes(&RadioMessages::SetCell(Cell { bytes: vec![] }));
    assert_eq!(encoded, vec![SET_CELL_TAG]);
    match from_bytes(&encoded) {
        Some(RadioMessages::SetCell(c)) => assert_eq!(c.bytes, Vec::<u8>::new()),
        None => panic!("round trip lost the message"),
    }
}

#[test]
fn empty_payload_does_not_decode() {
    assert!(from_bytes(&[]).is_none());
}

#[test]
fn unknown_tag_does_not_decode() {
    assert!(from_bytes(&[0x01, 0x00, 0x00]).is_none());
}
