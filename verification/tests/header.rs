use nmea2000::header::Header;

#[test]
fn deserialize_addressed_frame() {
    let h = Header::deserialize(0x18EE_FF0B);
    assert_eq!(h.priority, 6);
    assert_eq!(h.source, 11);
    assert_eq!(h.pgn, 0xEE00);
}

#[test]
fn serialize_addressed_frame_goes_to_global_address() {
    assert_eq!(Header::new(0xEE00, 6, 11).serialize(), 0x18EE_FF0B);
}

#[test]
fn addressed_destination_is_not_part_of_pgn() {
    let h = Header::deserialize(0x18EA_2317);
    assert_eq!(h, Header::new(0xEA00, 6, 0x17));
    assert_eq!(h.serialize(), 0x18EA_FF17);
}

#[test]
fn broadcast_frame_round_trips() {
    let h = Header::deserialize(0x09F8_0123);
    assert_eq!(h.priority, 2);
    assert_eq!(h.source, 0x23);
    assert_eq!(h.pgn, 0x1F801);
    assert_eq!(h.serialize(), 0x09F8_0123);
}

#[test]
fn reserved_bit_is_dropped() {
    let h = Header::deserialize(0x0BF8_0123);
    assert_eq!(h, Header::new(0x1F801, 2, 0x23));
    assert_eq!(h.serialize(), 0x09F8_0123);
}

#[test]
fn only_three_priority_bits_are_sent() {
    assert_eq!(Header::new(0x1F801, 9, 1).serialize(), 0x05F8_0101);
    assert_eq!(Header::deserialize(0x05F8_0101).priority, 1);
}

#[test]
fn high_identifier_bits_are_ignored() {
    let h = Header::deserialize(0xF8EE_FF0B);
    assert_eq!(h, Header::new(0xEE00, 6, 11));
}

#[test]
fn new_keeps_its_arguments() {
    let h = Header::new(0x1F50B, 3, 200);
    assert_eq!(h.pgn, 0x1F50B);
    assert_eq!(h.priority, 3);
    assert_eq!(h.source, 200);
}
