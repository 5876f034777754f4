use pnetlink::attr::{
    append_attr_padded, attr_value_name, attr_value_u32, encode_attr, find_attr, parse_attrs,
    Attribute, ParseError,
};

fn attr(attr_type: u16, value: Vec<u8>) -> Attribute {
    Attribute { attr_type, value }
}

/// Attributes of lengths 7, 10 and 4, each padded to a multiple of 4.
fn buffer_7_10_4(pad_byte: u8) -> Vec<u8> {
    let mut buf = Vec::new();
    // length 7 = 4 + 3 payload bytes, padded with one byte
    buf.extend_from_slice(&[7, 0, 1, 0, 0xa1, 0xa2, 0xa3, pad_byte]);
    // length 10 = 4 + 6 payload bytes, padded with two bytes
    buf.extend_from_slice(&[10, 0, 2, 0, 0xb1, 0xb2, 0xb3, 0xb4, 0xb5, 0xb6, pad_byte, pad_byte]);
    // length 4 = empty payload, no padding
    buf.extend_from_slice(&[4, 0, 3, 0]);
    buf
}

#[test]
fn iterates_attrs_of_lengths_7_10_4() {
    let attrs = parse_attrs(&buffer_7_10_4(0)).expect("a well-formed buffer iterates");
    assert_eq!(attrs.len(), 3);
    assert_eq!(attrs[0].attr_type, 1);
    assert_eq!(attrs[0].value, vec![0xa1, 0xa2, 0xa3]);
    assert_eq!(attrs[1].attr_type, 2);
    assert_eq!(attrs[1].value, vec![0xb1, 0xb2, 0xb3, 0xb4, 0xb5, 0xb6]);
    assert_eq!(attrs[2].attr_type, 3);
    assert_eq!(attrs[2].value, Vec::<u8>::new());
}

#[test]
fn iteration_does_not_depend_on_padding_bytes() {
    let zero = parse_attrs(&buffer_7_10_4(0)).unwrap();
    let junk = parse_attrs(&buffer_7_10_4(0xee)).unwrap();
    assert_eq!(zero.len(), junk.len());
    for (a, b) in zero.iter().zip(junk.iter()) {
        assert_eq!(a.attr_type, b.attr_type);
        assert_eq!(a.value, b.value);
    }
}

#[test]
fn attr_length_of_2_is_a_parse_failure() {
    // A declared attribute length of 2 is below the 4-byte attribute header.
    let buf = vec![2, 0, 1, 0, 0, 0, 0, 0];
    assert_eq!(parse_attrs(&buf), Err(ParseError::BadAttributeLength));
    // The failure also comes after a valid attribute.
    let mut buf2 = vec![4, 0, 9, 0];
    buf2.extend_from_slice(&[2, 0, 1, 0]);
    assert_eq!(parse_attrs(&buf2), Err(ParseError::BadAttributeLength));
}

#[test]
fn attr_length_past_buffer_ends_iteration() {
    // One good attribute, then one declaring more bytes than remain.
    let buf = vec![4, 0, 5, 0, 12, 0, 6, 0, 1, 2];
    let attrs = parse_attrs(&buf).unwrap();
    assert_eq!(attrs.len(), 1);
    assert_eq!(attrs[0].attr_type, 5);
}

#[test]
fn trailing_bytes_shorter_than_a_header_end_iteration() {
    let buf = vec![4, 0, 5, 0, 7, 0];
    let attrs = parse_attrs(&buf).unwrap();
    assert_eq!(attrs.len(), 1);
}

#[test]
fn find_attr_returns_first_match() {
    let mut buf = Vec::new();
    assert!(append_attr_padded(&mut buf, &attr(1, vec![10])));
    assert!(append_attr_padded(&mut buf, &attr(2, vec![20])));
    assert!(append_attr_padded(&mut buf, &attr(2, vec![30])));
    let found = find_attr(&buf, 2).unwrap().expect("type 2 is present");
    assert_eq!(found.value, vec![20]);
    assert!(find_attr(&buf, 7).unwrap().is_none());
    let bad = vec![2, 0, 0, 0];
    assert!(find_attr(&bad, 2).is_err());
}

#[test]
fn encode_attr_writes_length_type_payload() {
    let a = attr(3, vec![b'l', b'o', 0]);
    let encoded = encode_attr(&a).expect("a short payload encodes");
    assert_eq!(encoded, vec![7, 0, 3, 0, b'l', b'o', 0]);
    let huge = attr(3, vec![0; 65532]);
    assert!(encode_attr(&huge).is_none());
}

#[test]
fn append_attr_padded_round_trips() {
    let mut buf = Vec::new();
    assert!(append_attr_padded(&mut buf, &attr(1, vec![0xa1, 0xa2, 0xa3])));
    assert_eq!(buf.len(), 8);
    assert!(append_attr_padded(&mut buf, &attr(2, vec![0xb1; 6])));
    assert_eq!(buf.len(), 20);
    let attrs = parse_attrs(&buf).unwrap();
    assert_eq!(attrs.len(), 2);
    assert_eq!(attrs[0].value, vec![0xa1, 0xa2, 0xa3]);
    assert_eq!(attrs[1].value, vec![0xb1; 6]);
}

#[test]
fn nested_attrs_iterate_from_a_parent_payload() {
    let mut inner = Vec::new();
    assert!(append_attr_padded(&mut inner, &attr(1, b"dummy\0".to_vec())));
    let mut outer = Vec::new();
    assert!(append_attr_padded(&mut outer, &attr(18, inner.clone())));
    let outer_attrs = parse_attrs(&outer).unwrap();
    assert_eq!(outer_attrs.len(), 1);
    assert_eq!(outer_attrs[0].attr_type, 18);
    let inner_attrs = parse_attrs(&outer_attrs[0].value).unwrap();
    assert_eq!(inner_attrs.len(), 1);
    assert_eq!(inner_attrs[0].attr_type, 1);
    assert_eq!(inner_attrs[0].value, b"dummy\0".to_vec());
}

#[test]
fn u32_attr_value_reads_first_four_bytes() {
    assert_eq!(attr_value_u32(&vec![0xdc, 0x05, 0, 0]), Some(1500));
    assert_eq!(attr_value_u32(&vec![1, 0, 0, 0, 9]), Some(1));
    assert_eq!(attr_value_u32(&vec![1, 0, 0]), None);
}

#[test]
fn name_attr_value_requires_the_terminator() {
    assert_eq!(attr_value_name(&b"lo\0".to_vec()), Some(b"lo".to_vec()));
    assert_eq!(attr_value_name(&b"\0".to_vec()), Some(Vec::new()));
    assert_eq!(attr_value_name(&b"lo".to_vec()), None); // no terminator
    assert_eq!(attr_value_name(&Vec::new()), None); // empty payload
    assert_eq!(attr_value_name(&b"l\0o\0".to_vec()), None); // interior zero
}
