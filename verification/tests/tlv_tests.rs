use chat_export::tlv::decode;
use chat_export::tlv::encode_field;

#[test]
fn decode_empty_blob_yields_empty_map() {
    let m = decode(&[]);
    assert_eq!(m.len(), 0);
}

#[test]
fn decode_single_byte_yields_empty_map() {
    let m = decode(&[0x42]);
    assert_eq!(m.len(), 0);
}

#[test]
fn gender_male_special_case() {
    let m = decode(&[0x08, 0x01]);
    assert_eq!(m.len(), 1);
    assert_eq!(m.get(&0x08).map(|s| s.as_str()), Some("Male"));
}

#[test]
fn gender_female_special_case() {
    let m = decode(&[0x08, 0x02]);
    assert_eq!(m.get(&0x08).map(|s| s.as_str()), Some("Female"));
}

#[test]
fn gender_consumes_two_bytes_then_scan_continues() {
    let m = decode(&[0x08, 0x01, 0x0A, 0x02, b'h', b'i']);
    assert_eq!(m.len(), 2);
    assert_eq!(m.get(&0x08).map(|s| s.as_str()), Some("Male"));
    assert_eq!(m.get(&0x0A).map(|s| s.as_str()), Some("hi"));
}

#[test]
fn gender_flag_outside_special_range_takes_generic_path() {
    let m = decode(&[0x08, 0x03, b'a', b'b', b'c']);
    assert_eq!(m.get(&0x08).map(|s| s.as_str()), Some("abc"));
}

#[test]
fn standard_tag_round_trip() {
    let blob = encode_field(0x0A, "Alice").unwrap();
    assert_eq!(blob, vec![0x0A, 5, b'A', b'l', b'i', b'c', b'e']);
    let m = decode(&blob);
    assert_eq!(m.len(), 1);
    assert_eq!(m.get(&0x0A).map(|s| s.as_str()), Some("Alice"));
}

#[test]
fn round_trip_of_non_ascii_text() {
    let blob = encode_field(0x12, "café ☕").unwrap();
    let m = decode(&blob);
    assert_eq!(m.get(&0x12).map(|s| s.as_str()), Some("café ☕"));
}

#[test]
fn truncated_final_field_is_dropped() {
    let m = decode(&[0x0A, 0x05, b'A', b'B']);
    assert_eq!(m.len(), 0);
}

#[test]
fn fields_before_truncation_point_survive() {
    let m = decode(&[0x12, 0x02, b'o', b'k', 0x0A, 0x05, b'A']);
    assert_eq!(m.len(), 1);
    assert_eq!(m.get(&0x12).map(|s| s.as_str()), Some("ok"));
}

#[test]
fn later_occurrence_of_a_tag_overwrites_earlier() {
    let m = decode(&[0x0A, 0x01, b'a', 0x0A, 0x01, b'b']);
    assert_eq!(m.len(), 1);
    assert_eq!(m.get(&0x0A).map(|s| s.as_str()), Some("b"));
}

#[test]
fn invalid_encoding_is_replaced_not_fatal() {
    let m = decode(&[0x0A, 0x01, 0xFF]);
    assert_eq!(m.get(&0x0A).map(|s| s.as_str()), Some("\u{FFFD}"));
}

#[test]
fn zero_length_value_decodes_to_empty_text() {
    let m = decode(&[0x0A, 0x00]);
    assert_eq!(m.get(&0x0A).map(|s| s.as_str()), Some(""));
}

#[test]
fn decode_is_total_on_arbitrary_bytes() {
    let every_byte: Vec<u8> = (0..=255u8).collect();
    decode(&every_byte);
    decode(&[0xFF; 64]);
    let mut descending: Vec<u8> = (0..=255u8).rev().collect();
    descending.extend_from_slice(&every_byte);
    decode(&descending);
}

#[test]
fn scan_stops_at_first_invalid_pair_and_never_restarts() {
    let m = decode(&[0x0A, 0xFF, 0x12, 0x01, b'x']);
    assert_eq!(m.len(), 0);
}

#[test]
fn encode_field_rejects_overlong_text() {
    let long = "x".repeat(256);
    assert!(encode_field(0x0A, &long).is_none());
}
