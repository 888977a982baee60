use ecaptureq::decode::{is_utf8_prefix, parse_eq_message};
use ecaptureq::models::{DecodeError, ParsedMessage, saturate_i32};

fn varint(mut v: u64) -> Vec<u8> {
    let mut out = Vec::new();
    loop {
        let b = (v & 0x7f) as u8;
        v >>= 7;
        if v == 0 {
            out.push(b);
            return out;
        }
        out.push(b | 0x80);
    }
}

fn field_varint(num: u32, v: u64) -> Vec<u8> {
    let mut out = varint(((num as u64) << 3) | 0);
    out.extend_from_slice(&varint(v));
    out
}

fn field_bytes(num: u32, data: &[u8]) -> Vec<u8> {
    let mut out = varint(((num as u64) << 3) | 2);
    out.extend_from_slice(&varint(data.len() as u64));
    out.extend_from_slice(data);
    out
}

fn event_body(
    timestamp: i64,
    uuid: &str,
    src_ip: &str,
    src_port: u32,
    dst_ip: &str,
    dst_port: u32,
    pid: i64,
    pname: &str,
    kind: u32,
    length: u32,
    payload: &[u8],
) -> Vec<u8> {
    let mut b = Vec::new();
    b.extend_from_slice(&field_varint(1, timestamp as u64));
    b.extend_from_slice(&field_bytes(2, uuid.as_bytes()));
    b.extend_from_slice(&field_bytes(3, src_ip.as_bytes()));
    b.extend_from_slice(&field_varint(4, src_port as u64));
    b.extend_from_slice(&field_bytes(5, dst_ip.as_bytes()));
    b.extend_from_slice(&field_varint(6, dst_port as u64));
    b.extend_from_slice(&field_varint(7, pid as u64));
    b.extend_from_slice(&field_bytes(8, pname.as_bytes()));
    b.extend_from_slice(&field_varint(9, kind as u64));
    b.extend_from_slice(&field_varint(10, length as u64));
    b.extend_from_slice(&field_bytes(11, payload));
    b
}

fn event_msg(payload: &[u8]) -> Vec<u8> {
    let body = event_body(10, "u-1", "1.1.1.1", 80, "2.2.2.2", 443, 1234, "curl", 2, payload.len() as u32, payload);
    field_bytes(1, &body)
}

#[test]
fn decodes_full_event() {
    let body = event_body(77, "uuid-7", "10.0.0.1", 1234, "10.0.0.2", 443, 4242, "wget", 3, 5, b"hello");
    let msg = field_bytes(1, &body);
    match parse_eq_message(&msg) {
        Ok(ParsedMessage::Event(p)) => {
            assert_eq!(p.index, 0);
            assert_eq!(p.timestamp, 77);
            assert_eq!(p.uuid, "uuid-7");
            assert_eq!(p.src_ip, "10.0.0.1");
            assert_eq!(p.src_port, 1234);
            assert_eq!(p.dst_ip, "10.0.0.2");
            assert_eq!(p.dst_port, 443);
            assert_eq!(p.pid, 4242);
            assert_eq!(p.pname, "wget");
            assert_eq!(p.kind, 3);
            assert_eq!(p.length, 5);
            assert!(!p.is_binary);
            assert_eq!(p.payload_utf8, "hello");
            assert!(p.payload_binary.is_empty());
        }
        other => panic!("expected an event, got {:?}", other),
    }
}

#[test]
fn decodes_heartbeat_with_saturated_count() {
    let mut body = Vec::new();
    body.extend_from_slice(&field_varint(1, 99));
    body.extend_from_slice(&field_varint(2, (i32::MAX as u64) + 1));
    body.extend_from_slice(&field_bytes(3, b"alive"));
    let msg = field_bytes(2, &body);
    match parse_eq_message(&msg) {
        Ok(ParsedMessage::Heartbeat(h)) => {
            assert_eq!(h.timestamp, 99);
            assert_eq!(h.count, i32::MAX);
            assert_eq!(h.message, "alive");
        }
        other => panic!("expected a heartbeat, got {:?}", other),
    }
}

#[test]
fn decodes_run_log() {
    let msg = field_bytes(3, "capture started".as_bytes());
    match parse_eq_message(&msg) {
        Ok(ParsedMessage::ProcessLog(l)) => assert_eq!(l.log_info, "capture started"),
        other => panic!("expected a process log, got {:?}", other),
    }
}

#[test]
fn pid_saturates_above_max() {
    let body = event_body(1, "u", "a", 1, "b", 2, (i32::MAX as i64) + 7, "p", 0, 0, b"x");
    let msg = field_bytes(1, &body);
    match parse_eq_message(&msg) {
        Ok(ParsedMessage::Event(p)) => assert_eq!(p.pid, i32::MAX),
        other => panic!("expected an event, got {:?}", other),
    }
}

#[test]
fn pid_saturates_below_min() {
    let body = event_body(1, "u", "a", 1, "b", 2, (i32::MIN as i64) - 9, "p", 0, 0, b"x");
    let msg = field_bytes(1, &body);
    match parse_eq_message(&msg) {
        Ok(ParsedMessage::Event(p)) => assert_eq!(p.pid, i32::MIN),
        other => panic!("expected an event, got {:?}", other),
    }
}

#[test]
fn saturation_is_exact_at_bounds() {
    assert_eq!(saturate_i32(i64::MAX), i32::MAX);
    assert_eq!(saturate_i32(i32::MAX as i64 + 1), i32::MAX);
    assert_eq!(saturate_i32(i32::MAX as i64), i32::MAX);
    assert_eq!(saturate_i32(i32::MIN as i64), i32::MIN);
    assert_eq!(saturate_i32(i32::MIN as i64 - 1), i32::MIN);
    assert_eq!(saturate_i32(i64::MIN), i32::MIN);
    assert_eq!(saturate_i32(0), 0);
    assert_eq!(saturate_i32(-12345), -12345);
}

#[test]
fn missing_payload_is_an_error() {
    // an envelope with only an unknown varint field carries no payload
    let msg = field_varint(9, 5);
    match parse_eq_message(&msg) {
        Err(DecodeError::MissingPayload) => {}
        other => panic!("expected MissingPayload, got {:?}", other),
    }
}

#[test]
fn truncated_input_is_an_error() {
    let mut msg = field_bytes(3, b"abcdef");
    msg.truncate(msg.len() - 2);
    match parse_eq_message(&msg) {
        Err(DecodeError::Truncated) => {}
        other => panic!("expected Truncated, got {:?}", other),
    }
}

#[test]
fn unsupported_wire_type_is_an_error() {
    // field 1 with wire type 5 (32-bit fixed) is not part of this protocol
    let msg = vec![(1u8 << 3) | 5, 0, 0, 0, 0];
    match parse_eq_message(&msg) {
        Err(DecodeError::InvalidWireType) => {}
        other => panic!("expected InvalidWireType, got {:?}", other),
    }
}

#[test]
fn overlong_varint_is_an_error() {
    // eleven continuation bytes never fit a 64-bit varint
    let msg = vec![0x80, 0x80, 0x80, 0x80, 0x80, 0x80, 0x80, 0x80, 0x80, 0x80, 0x01];
    match parse_eq_message(&msg) {
        Err(DecodeError::InvalidVarint) => {}
        other => panic!("expected InvalidVarint, got {:?}", other),
    }
}

#[test]
fn invalid_utf8_in_string_field_is_an_error() {
    let mut body = Vec::new();
    body.extend_from_slice(&field_bytes(2, &[0xff, 0xfe]));
    let msg = field_bytes(1, &body);
    match parse_eq_message(&msg) {
        Err(DecodeError::InvalidUtf8) => {}
        other => panic!("expected InvalidUtf8, got {:?}", other),
    }
}

#[test]
fn unknown_fields_are_skipped() {
    let mut body = event_body(5, "u", "a", 1, "b", 2, 3, "p", 0, 1, b"z");
    body.extend_from_slice(&field_varint(99, 12345));
    body.extend_from_slice(&field_bytes(98, b"ignored"));
    let msg = field_bytes(1, &body);
    match parse_eq_message(&msg) {
        Ok(ParsedMessage::Event(p)) => assert_eq!(p.timestamp, 5),
        other => panic!("expected an event, got {:?}", other),
    }
}

#[test]
fn binary_payload_is_classified_binary() {
    let msg = event_msg(&[0xff, 0x00, 0x10]);
    match parse_eq_message(&msg) {
        Ok(ParsedMessage::Event(p)) => {
            assert!(p.is_binary);
            assert_eq!(p.payload_binary, vec![0xff, 0x00, 0x10]);
            assert!(p.payload_utf8.is_empty());
        }
        other => panic!("expected an event, got {:?}", other),
    }
}

#[test]
fn multibyte_text_payload_survives_decoding() {
    let text = "héllo wörld";
    let msg = event_msg(text.as_bytes());
    match parse_eq_message(&msg) {
        Ok(ParsedMessage::Event(p)) => {
            assert!(!p.is_binary);
            assert_eq!(p.payload_utf8, text);
            assert!(p.payload_binary.is_empty());
        }
        other => panic!("expected an event, got {:?}", other),
    }
}

#[test]
fn payload_exclusivity_for_nonempty_payloads() {
    for payload in [&b"text"[..], &[0x00, 0xff][..]] {
        let msg = event_msg(payload);
        match parse_eq_message(&msg) {
            Ok(ParsedMessage::Event(p)) => {
                assert!(p.payload_utf8.is_empty() != p.payload_binary.is_empty());
                assert_eq!(p.is_binary, !p.payload_binary.is_empty());
            }
            other => panic!("expected an event, got {:?}", other),
        }
    }
}

#[test]
fn empty_payload_is_textual_and_both_sides_empty() {
    let msg = event_msg(b"");
    match parse_eq_message(&msg) {
        Ok(ParsedMessage::Event(p)) => {
            assert!(!p.is_binary);
            assert!(p.payload_utf8.is_empty());
            assert!(p.payload_binary.is_empty());
        }
        other => panic!("expected an event, got {:?}", other),
    }
}

#[test]
fn prefix_check_accepts_plain_text() {
    assert!(is_utf8_prefix(b"just ascii text"));
    assert!(is_utf8_prefix("héllo".as_bytes()));
    assert!(is_utf8_prefix(b""));
}

#[test]
fn prefix_check_rejects_binary() {
    assert!(!is_utf8_prefix(&[0xff, 0x10]));
    assert!(!is_utf8_prefix(&[0x41, 0x80]));
    assert!(!is_utf8_prefix(&[0xe0, 0x80])); // overlong three-byte start
    assert!(!is_utf8_prefix(&[0xed, 0xa0])); // surrogate range
    assert!(!is_utf8_prefix(&[0xc0])); // overlong two-byte lead
    assert!(!is_utf8_prefix(&[0xf5])); // past the last scalar
}

#[test]
fn prefix_check_accepts_sequence_cut_at_the_end() {
    assert!(is_utf8_prefix(&[0x41, 0xc3])); // 'A', then half of a two-byte char
    assert!(is_utf8_prefix(&[0xe2, 0x82])); // two thirds of a three-byte char
    assert!(is_utf8_prefix(&[0xf0, 0x9f, 0x98])); // three quarters of a four-byte char
}

#[test]
fn classification_window_cuts_multibyte_char_at_one_hundred() {
    // 99 ASCII bytes, then a two-byte char straddling the window edge:
    // the window sees a valid-but-truncated sequence, the full payload is
    // valid, so the record is textual
    let mut payload = vec![b'a'; 99];
    payload.extend_from_slice("é".as_bytes());
    let msg = event_msg(&payload);
    match parse_eq_message(&msg) {
        Ok(ParsedMessage::Event(p)) => assert!(!p.is_binary),
        other => panic!("expected an event, got {:?}", other),
    }
}

#[test]
fn text_window_with_invalid_tail_falls_back_to_binary() {
    // the first 100 bytes read as text, but the payload as a whole does not
    // decode: the record falls back to binary
    let mut payload = vec![b'a'; 150];
    payload[120] = 0xff;
    let msg = event_msg(&payload);
    match parse_eq_message(&msg) {
        Ok(ParsedMessage::Event(p)) => {
            assert!(p.is_binary);
            assert_eq!(p.payload_binary.len(), 150);
        }
        other => panic!("expected an event, got {:?}", other),
    }
}

#[test]
fn last_payload_field_wins() {
    let mut body = event_body(5, "u", "a", 1, "b", 2, 3, "p", 0, 1, b"z");
    body.extend_from_slice(&field_bytes(11, &[0xff]));
    let msg = field_bytes(1, &body);
    match parse_eq_message(&msg) {
        Ok(ParsedMessage::Event(p)) => {
            assert!(p.is_binary);
            assert_eq!(p.payload_binary, vec![0xff]);
        }
        other => panic!("expected an event, got {:?}", other),
    }
}
