use pnetlink::message::{parse, serialize, NetlinkHeader, NLM_F_REQUEST};

fn header(length: u32, kind: u16) -> NetlinkHeader {
    NetlinkHeader { length, kind, flags: NLM_F_REQUEST, sequence: 7, pid: 99 }
}

#[test]
fn serialize_layout_is_little_endian() {
    let h = NetlinkHeader { length: 20, kind: 16, flags: 0x301, sequence: 2, pid: 0x12345678 };
    let payload = vec![0xaa, 0xbb, 0xcc, 0xdd];
    let bytes = serialize(&h, &payload);
    assert_eq!(
        bytes,
        vec![
            20, 0, 0, 0, // length
            16, 0, // kind
            0x01, 0x03, // flags
            2, 0, 0, 0, // sequence
            0x78, 0x56, 0x34, 0x12, // port id
            0xaa, 0xbb, 0xcc, 0xdd, // payload
        ]
    );
}

#[test]
fn parse_serialize_round_trip() {
    let payload = vec![1, 2, 3, 4, 5];
    let h = header(16 + payload.len() as u32, 18);
    let bytes = serialize(&h, &payload);
    assert_eq!(bytes.len(), 21);
    let msg = parse(&bytes).expect("a serialized message parses");
    assert_eq!(msg.length(), h.length);
    assert_eq!(msg.kind(), h.kind);
    assert_eq!(msg.flags(), h.flags);
    assert_eq!(msg.sequence(), h.sequence);
    assert_eq!(msg.pid(), h.pid);
    assert_eq!(msg.header(), h);
    assert_eq!(msg.payload(), payload);
}

#[test]
fn parse_round_trip_empty_payload() {
    let payload: Vec<u8> = Vec::new();
    let h = header(16, 3);
    let bytes = serialize(&h, &payload);
    let msg = parse(&bytes).expect("a bare header parses");
    assert_eq!(msg.header(), h);
    assert_eq!(msg.payload(), Vec::<u8>::new());
}

#[test]
fn parse_rejects_short_buffer() {
    let bytes = vec![16, 0, 0, 0, 1, 0, 0, 0, 0, 0, 0, 0, 0, 0, 0]; // 15 bytes
    assert!(parse(&bytes).is_none());
}

#[test]
fn parse_rejects_length_past_buffer() {
    let h = header(21, 16); // declares 5 payload bytes
    let mut bytes = serialize(&h, &vec![9, 9, 9, 9, 9]);
    bytes.truncate(19); // buffer now shorter than the declared length
    assert!(parse(&bytes).is_none());
}

#[test]
fn parse_rejects_length_below_header_size() {
    let mut bytes = vec![0u8; 16];
    bytes[0] = 8; // declared length 8 < 16
    assert!(parse(&bytes).is_none());
}

#[test]
fn parse_ignores_trailing_padding() {
    let payload = vec![1, 2, 3];
    let h = header(19, 16);
    let mut bytes = serialize(&h, &payload);
    bytes.push(0xff); // padding byte past the declared length
    let msg = parse(&bytes).expect("padding does not break parsing");
    assert_eq!(msg.length(), 19);
    assert_eq!(msg.payload(), payload);
    assert_eq!(msg.as_bytes().len(), 19);
}
