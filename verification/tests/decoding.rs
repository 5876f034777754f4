use pnetlink::decoder::{DecodeStep, StreamDecoder};
use pnetlink::message::{serialize, NetlinkHeader, NetlinkMessage};

fn message_bytes(kind: u16, payload: &[u8]) -> Vec<u8> {
    let h = NetlinkHeader {
        length: 16 + payload.len() as u32,
        kind,
        flags: 0,
        sequence: 1,
        pid: 0,
    };
    let mut bytes = serialize(&h, &payload.to_vec());
    while bytes.len() % 4 != 0 {
        bytes.push(0); // the wire carries each message padded to 4 bytes
    }
    bytes
}

fn expect_ready(step: DecodeStep) -> NetlinkMessage {
    match step {
        DecodeStep::Ready(m) => m,
        DecodeStep::NeedMore => panic!("expected a message, decoder wants more bytes"),
        DecodeStep::Malformed => panic!("expected a message, decoder reports malformed input"),
    }
}

#[test]
fn whole_message_in_one_feed() {
    let wire = message_bytes(16, &[1, 2, 3, 4, 5]);
    let mut dec = StreamDecoder::new();
    assert!(matches!(dec.poll(), DecodeStep::NeedMore));
    dec.feed(&wire);
    let msg = expect_ready(dec.poll());
    assert_eq!(msg.kind(), 16);
    assert_eq!(msg.length(), 21);
    assert_eq!(msg.payload(), vec![1, 2, 3, 4, 5]);
    assert_eq!(dec.buffered(), 0);
    assert!(matches!(dec.poll(), DecodeStep::NeedMore));
}

#[test]
fn byte_at_a_time_decodes_the_same_message() {
    let wire = message_bytes(16, &[9, 8, 7]);
    let mut all_at_once = StreamDecoder::new();
    all_at_once.feed(&wire);
    let expected = expect_ready(all_at_once.poll());

    let mut one_by_one = StreamDecoder::new();
    for (i, byte) in wire.iter().enumerate() {
        if i + 1 < wire.len() {
            // every proper prefix only asks for more bytes
            assert!(matches!(one_by_one.poll(), DecodeStep::NeedMore));
        }
        one_by_one.feed(&vec![*byte]);
    }
    let msg = expect_ready(one_by_one.poll());
    assert_eq!(msg.as_bytes(), expected.as_bytes());
    assert_eq!(msg.payload(), vec![9, 8, 7]);
    assert_eq!(one_by_one.buffered(), 0);
}

#[test]
fn back_to_back_messages_drain_without_another_read() {
    let mut wire = message_bytes(16, &[1]);
    wire.extend_from_slice(&message_bytes(17, &[2, 2]));
    let mut dec = StreamDecoder::new();
    dec.feed(&wire);
    let first = expect_ready(dec.poll());
    assert_eq!(first.kind(), 16);
    assert_eq!(first.payload(), vec![1]);
    let second = expect_ready(dec.poll());
    assert_eq!(second.kind(), 17);
    assert_eq!(second.payload(), vec![2, 2]);
    assert_eq!(dec.buffered(), 0);
}

#[test]
fn unaligned_message_waits_for_its_padding() {
    let h = NetlinkHeader { length: 17, kind: 16, flags: 0, sequence: 0, pid: 0 };
    let unpadded = serialize(&h, &vec![0xee]);
    let mut dec = StreamDecoder::new();
    dec.feed(&unpadded);
    // 17 bytes are buffered but the aligned footprint is 20.
    assert!(matches!(dec.poll(), DecodeStep::NeedMore));
    dec.feed(&vec![0, 0, 0]);
    let msg = expect_ready(dec.poll());
    assert_eq!(msg.length(), 17);
    assert_eq!(msg.payload(), vec![0xee]);
}

#[test]
fn declared_length_below_header_is_malformed() {
    let mut wire = vec![0u8; 16];
    wire[0] = 8; // declared length 8 < 16
    let mut dec = StreamDecoder::new();
    dec.feed(&wire);
    assert!(matches!(dec.poll(), DecodeStep::Malformed));
    // the malformed bytes stay put: the stream needs resynchronization
    assert_eq!(dec.buffered(), 16);
    assert!(matches!(dec.poll(), DecodeStep::Malformed));
}
