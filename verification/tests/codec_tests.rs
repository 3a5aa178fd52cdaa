use ussd_smpp::codec::{
    be32_decode, be32_encode, build_bind_body, build_ussd_sm_body, decode_pdu, encode_pdu,
    header_body_len, make_pdu, parse_deliver_sm, parse_header, parse_submit_sm, read_c_string,
    CodecError, SmppHeader, DELIVER_SM, ENQUIRE_LINK, ESME_ROK, SUBMIT_SM,
};

#[test]
fn be32_words_are_big_endian() {
    assert_eq!(be32_encode(0x01020304), [1, 2, 3, 4]);
    assert_eq!(be32_encode(0), [0, 0, 0, 0]);
    assert_eq!(be32_encode(0xFFFFFFFF), [0xFF, 0xFF, 0xFF, 0xFF]);
    assert_eq!(be32_decode(1, 2, 3, 4), 0x01020304);
    assert_eq!(be32_decode(0x80, 0, 0, 0x15), 0x80000015);
}

#[test]
fn encode_then_decode_restores_the_pdu() {
    let body = vec![1u8, 2, 3, 0, 255];
    let pdu = make_pdu(SUBMIT_SM, ESME_ROK, 7, body.clone());
    assert_eq!(pdu.header.command_length, 16 + body.len() as u32);
    let bytes = encode_pdu(&pdu);
    assert_eq!(bytes.len(), 16 + body.len());
    let back = decode_pdu(bytes.as_slice()).expect("well-formed frame");
    assert_eq!(back.header.command_length, pdu.header.command_length);
    assert_eq!(back.header.command_id, SUBMIT_SM);
    assert_eq!(back.header.command_status, ESME_ROK);
    assert_eq!(back.header.sequence_number, 7);
    assert_eq!(back.body, body);
}

#[test]
fn decode_then_encode_reproduces_the_wire_prefix() {
    let pdu = make_pdu(ENQUIRE_LINK, 0, 42, vec![9, 8, 7]);
    let mut bytes = encode_pdu(&pdu);
    let frame_len = bytes.len();
    // trailing bytes past command_length are left untouched
    bytes.extend_from_slice(&[0xAA, 0xBB]);
    let back = decode_pdu(bytes.as_slice()).expect("well-formed frame");
    let again = encode_pdu(&back);
    assert_eq!(again.as_slice(), &bytes[..frame_len]);
}

#[test]
fn short_header_fails_with_unexpected_eof() {
    let bytes = [0u8; 15];
    assert_eq!(decode_pdu(&bytes).map(|_| ()), Err(CodecError::UnexpectedEof));
    assert_eq!(decode_pdu(&[]).map(|_| ()), Err(CodecError::UnexpectedEof));
}

#[test]
fn undersized_command_length_fails_with_malformed_frame() {
    // command_length = 15 < 16
    let mut bytes = vec![0u8, 0, 0, 15];
    bytes.extend_from_slice(&[0u8; 12]);
    assert_eq!(decode_pdu(bytes.as_slice()).map(|_| ()), Err(CodecError::MalformedFrame));
    let header = parse_header(bytes.as_slice());
    assert_eq!(header_body_len(&header), Err(CodecError::MalformedFrame));
}

#[test]
fn short_body_fails_with_unexpected_eof() {
    // command_length = 20 but only 18 bytes on the wire
    let mut bytes = vec![0u8, 0, 0, 20];
    bytes.extend_from_slice(&[0u8; 14]);
    assert_eq!(decode_pdu(bytes.as_slice()).map(|_| ()), Err(CodecError::UnexpectedEof));
}

#[test]
fn parse_header_reads_all_four_words() {
    let pdu = make_pdu(DELIVER_SM, 3, 99, vec![1, 2]);
    let bytes = encode_pdu(&pdu);
    let h: SmppHeader = parse_header(bytes.as_slice());
    assert_eq!(h.command_length, 18);
    assert_eq!(h.command_id, DELIVER_SM);
    assert_eq!(h.command_status, 3);
    assert_eq!(h.sequence_number, 99);
    assert_eq!(header_body_len(&h), Ok(2));
}

#[test]
fn ussd_body_parses_back_to_its_fields() {
    let body = build_ussd_sm_body(1, 1, "123", 1, 1, "1234567890", b"hello");
    let submit = parse_submit_sm(body.as_slice()).expect("complete body");
    assert_eq!(submit.service_type, "USSD");
    assert_eq!(submit.source_addr_ton, 1);
    assert_eq!(submit.source_addr_npi, 1);
    assert_eq!(submit.source_addr, "123");
    assert_eq!(submit.dest_addr_ton, 1);
    assert_eq!(submit.dest_addr_npi, 1);
    assert_eq!(submit.destination_addr, "1234567890");
    assert_eq!(submit.esm_class, 0x40);
    assert_eq!(submit.data_coding, 0);
    assert_eq!(submit.sm_length, 5);
    assert_eq!(submit.short_message, b"hello".to_vec());
    assert!(submit.optional_params.is_empty());

    let deliver = parse_deliver_sm(body.as_slice()).expect("complete body");
    assert_eq!(deliver.destination_addr, "1234567890");
    assert_eq!(deliver.short_message, b"hello".to_vec());
}

#[test]
fn truncated_body_fails_with_truncated_pdu() {
    let body = build_ussd_sm_body(1, 1, "123", 1, 1, "456", b"hey");
    // cut the short message in half
    let cut = &body[..body.len() - 2];
    assert_eq!(
        parse_submit_sm(cut).map(|_| ()),
        Err(CodecError::TruncatedPdu)
    );
    // cut inside the fixed flag bytes
    assert_eq!(
        parse_submit_sm(&body[..8]).map(|_| ()),
        Err(CodecError::TruncatedPdu)
    );
}

#[test]
fn long_messages_are_truncated_to_255_bytes() {
    let long = vec![b'x'; 300];
    let body = build_ussd_sm_body(1, 1, "a", 1, 1, "b", long.as_slice());
    let parsed = parse_submit_sm(body.as_slice()).expect("complete body");
    assert_eq!(parsed.sm_length, 255);
    assert_eq!(parsed.short_message.len(), 255);
}

#[test]
fn c_strings_stop_at_their_terminator() {
    let data = [b'a', b'b', 0, b'c', 0];
    let mut pos = 0usize;
    let first = read_c_string(&data, &mut pos);
    assert_eq!(first, "ab");
    assert_eq!(pos, 3);
    let second = read_c_string(&data, &mut pos);
    assert_eq!(second, "c");
    assert_eq!(pos, 5);
    // empty C-string: a single terminator
    let data2 = [0u8, b'z'];
    let mut pos2 = 0usize;
    assert_eq!(read_c_string(&data2, &mut pos2), "");
    assert_eq!(pos2, 1);
}

#[test]
fn bind_body_lays_out_credentials_in_order() {
    let body = build_bind_body("sys", "pw", "USSD", 1, 1);
    let expected: Vec<u8> = vec![
        b's', b'y', b's', 0, b'p', b'w', 0, b'U', b'S', b'S', b'D', 0, 0x34, 1, 1, 0,
    ];
    assert_eq!(body, expected);
}

#[test]
fn non_utf8_text_fields_use_the_replacement_character() {
    let data = [0xFFu8, b'a', 0];
    let mut pos = 0usize;
    let text = read_c_string(&data, &mut pos);
    assert_eq!(text, "\u{FFFD}a");
}

#[test]
fn valid_multi_byte_text_is_kept_by_the_lossy_policy() {
    let mut data: Vec<u8> = "héllo ✓".as_bytes().to_vec();
    data.push(0);
    let mut pos = 0usize;
    let text = read_c_string(data.as_slice(), &mut pos);
    assert_eq!(text, "héllo ✓");
}
