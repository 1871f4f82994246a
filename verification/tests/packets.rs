use iotcraft_client::mqtt_packet::{
    connect_packet, decode_remaining_length, encode_remaining_length, is_truncated_suback,
    parse_connack_packet, parse_publish_packet, parse_suback_packet, publish_packet,
    subscribe_packet, MAX_REMAINING_LENGTH,
};

#[test]
fn remaining_length_known_encodings() {
    assert_eq!(encode_remaining_length(0), vec![0x00]);
    assert_eq!(encode_remaining_length(127), vec![0x7F]);
    assert_eq!(encode_remaining_length(128), vec![0x80, 0x01]);
    assert_eq!(encode_remaining_length(321), vec![0xC1, 0x02]);
    assert_eq!(encode_remaining_length(16383), vec![0xFF, 0x7F]);
    assert_eq!(encode_remaining_length(16384), vec![0x80, 0x80, 0x01]);
    assert_eq!(encode_remaining_length(MAX_REMAINING_LENGTH), vec![0xFF, 0xFF, 0xFF, 0x7F]);
    assert_eq!(encode_remaining_length(MAX_REMAINING_LENGTH + 1).len(), 5);
}

#[test]
fn remaining_length_roundtrip() {
    for n in [0usize, 1, 127, 128, 200, 16383, 16384, 2097151, 2097152, MAX_REMAINING_LENGTH] {
        let mut data = vec![0x30];
        let enc = encode_remaining_length(n);
        data.extend_from_slice(&enc);
        data.extend_from_slice(&[1, 2, 3]);
        assert_eq!(decode_remaining_length(&data, 1), Some((n, enc.len())));
    }
}

#[test]
fn remaining_length_too_long_or_truncated() {
    let too_long = encode_remaining_length(MAX_REMAINING_LENGTH + 1);
    assert_eq!(decode_remaining_length(&too_long, 0), None);
    assert_eq!(decode_remaining_length(&[0x80, 0x80], 0), None);
    assert_eq!(decode_remaining_length(&[0x05], 1), None);
    assert_eq!(decode_remaining_length(&[0xFF, 0xFF, 0xFF, 0xFF, 0x01], 0), None);
}

#[test]
fn connect_packet_bytes() {
    let p = connect_packet("abc");
    assert_eq!(
        p,
        vec![0x10, 15, 0x00, 0x04, b'M', b'Q', b'T', b'T', 0x04, 0x02, 0x00, 0x3C, 0x00, 0x03, b'a', b'b', b'c']
    );
}

#[test]
fn subscribe_packet_bytes() {
    let p = subscribe_packet("a/b", 0x0102);
    assert_eq!(p, vec![0x82, 8, 0x01, 0x02, 0x00, 0x03, b'a', b'/', b'b', 0x00]);
}

#[test]
fn publish_packet_roundtrip() {
    let p = publish_packet("home/sensor/temperature", b"21.5");
    assert_eq!(p[0], 0x30);
    let (topic, payload) = parse_publish_packet(&p).unwrap();
    assert_eq!(topic, "home/sensor/temperature");
    assert_eq!(payload, b"21.5".to_vec());
}

#[test]
fn publish_packet_roundtrip_long_payload_and_unicode_topic() {
    let payload: Vec<u8> = (0..300u32).map(|i| (i % 251) as u8).collect();
    let p = publish_packet("iotcraft/worlds/wörld/players/ü/pose", &payload);
    assert_eq!(p[1] & 0x80, 0x80);
    let (topic, body) = parse_publish_packet(&p).unwrap();
    assert_eq!(topic, "iotcraft/worlds/wörld/players/ü/pose");
    assert_eq!(body, payload);
}

#[test]
fn publish_with_invalid_utf8_topic_is_decoded_leniently() {
    let data = vec![0x30, 5, 0x00, 0x01, 0xFF, b'h', b'i'];
    let (topic, payload) = parse_publish_packet(&data).unwrap();
    assert_eq!(topic, "\u{FFFD}");
    assert_eq!(payload, b"hi".to_vec());
}

#[test]
fn publish_parse_rejects_bad_input() {
    assert_eq!(parse_publish_packet(&[]), None);
    assert_eq!(parse_publish_packet(&[0x20, 0x02, 0x00, 0x00]), None);
    assert_eq!(parse_publish_packet(&[0x30, 0x05, 0x00]), None);
    assert_eq!(parse_publish_packet(&[0x30, 0x01, 0x00]), None);
    assert_eq!(parse_publish_packet(&[0x30, 0x02, 0x00, 0x05, b'a']), None);
    assert_eq!(parse_publish_packet(&[0x30, 0x03, 0x00, 0x02, b'a', b'b']), None);
}

#[test]
fn connack_parsing() {
    assert_eq!(parse_connack_packet(&[0x20, 0x02, 0x00, 0x00]), Some(0));
    assert_eq!(parse_connack_packet(&[0x20, 0x02, 0x00, 0x05]), Some(5));
    assert_eq!(parse_connack_packet(&[0x20, 0x01, 0x00]), None);
    assert_eq!(parse_connack_packet(&[0x20, 0x02, 0x00]), None);
    assert_eq!(parse_connack_packet(&[0x90, 0x02, 0x00, 0x00]), None);
    assert_eq!(parse_connack_packet(&[0x20]), None);
}

#[test]
fn suback_parsing() {
    assert_eq!(parse_suback_packet(&[0x90, 0x03, 0x00, 0x03, 0x00]), Some((3, vec![0x00])));
    assert_eq!(
        parse_suback_packet(&[0x90, 0x04, 0x01, 0x02, 0x01, 0x80]),
        Some((0x0102, vec![0x01, 0x80]))
    );
    assert_eq!(parse_suback_packet(&[0x90, 0x05, 0x00, 0x03, 0x00]), None);
    assert_eq!(parse_suback_packet(&[0x30, 0x03, 0x00, 0x03, 0x00]), None);
}

#[test]
fn truncated_suback_is_recognised() {
    assert!(is_truncated_suback(&[0x90, 0x00]));
    assert!(is_truncated_suback(&[0x90, 0x01, 0x07]));
    assert!(!is_truncated_suback(&[0x90, 0x02, 0x00, 0x01]));
    assert!(!is_truncated_suback(&[0x20, 0x00]));
}

#[test]
fn publish_packet_roundtrip_with_bytes_after_it() {
    let mut data = publish_packet("home/temp", b"21.5");
    data.extend_from_slice(&[0x30, 0x02, 0x00, 0x00, 0xFF]);
    assert_eq!(
        parse_publish_packet(&data),
        Some(("home/temp".to_string(), b"21.5".to_vec()))
    );
}
