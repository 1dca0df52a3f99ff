use chat_export::lenprefix::read_length;
use chat_export::roster::extract_roster;

#[test]
fn one_byte_prefix_reads_low_seven_bits() {
    assert_eq!(read_length(&[0x00, 0x05, 0x00]), Some((5, 2)));
}

#[test]
fn two_byte_prefix_adds_continuation_times_128() {
    assert_eq!(read_length(&[0x00, 0x81, 0x02]), Some((257, 3)));
}

#[test]
fn third_continuation_byte_is_a_decode_error() {
    assert_eq!(read_length(&[0x00, 0x81, 0x82, 0x00]), None);
}

fn roster_blob(xml: &str) -> Vec<u8> {
    let bytes = xml.as_bytes();
    let mut blob = vec![0x0A];
    if bytes.len() < 0x80 {
        blob.push(bytes.len() as u8);
    } else {
        blob.push(0x80 | (bytes.len() % 128) as u8);
        blob.push((bytes.len() / 128) as u8);
    }
    blob.extend_from_slice(bytes);
    blob
}

#[test]
fn two_byte_or_shorter_blob_yields_empty_roster() {
    assert_eq!(extract_roster(&[]).len(), 0);
    assert_eq!(extract_roster(&[0x0A]).len(), 0);
    assert_eq!(extract_roster(&[0x0A, 0x01]).len(), 0);
}

#[test]
fn three_members_get_positions_in_document_order() {
    let xml = "<RoomData><Member UserName=\"alpha\"/><Member UserName=\"beta\"><InviterUserName>alpha</InviterUserName></Member><Member UserName=\"gamma\"><DisplayName>Gee</DisplayName></Member></RoomData>";
    let entries = extract_roster(&roster_blob(xml));
    assert_eq!(entries.len(), 3);
    assert_eq!(entries[0].position, 0);
    assert_eq!(entries[1].position, 1);
    assert_eq!(entries[2].position, 2);
    assert_eq!(entries[0].member.as_deref(), Some("alpha"));
    assert_eq!(entries[0].inviter, None);
    assert_eq!(entries[0].display_name, None);
    assert_eq!(entries[1].member.as_deref(), Some("beta"));
    assert_eq!(entries[1].inviter.as_deref(), Some("alpha"));
    assert_eq!(entries[2].member.as_deref(), Some("gamma"));
    assert_eq!(entries[2].display_name.as_deref(), Some("Gee"));
}

#[test]
fn member_without_identifier_keeps_its_position() {
    let xml = "<RoomData><Member><DisplayName>Ghost</DisplayName></Member><Member UserName=\"beta\"/></RoomData>";
    let entries = extract_roster(&roster_blob(xml));
    assert_eq!(entries.len(), 2);
    assert_eq!(entries[0].member, None);
    assert_eq!(entries[0].display_name.as_deref(), Some("Ghost"));
    assert_eq!(entries[1].position, 1);
    assert_eq!(entries[1].member.as_deref(), Some("beta"));
}

#[test]
fn malformed_xml_yields_empty_roster() {
    let entries = extract_roster(&roster_blob("<RoomData><Member"));
    assert_eq!(entries.len(), 0);
}

#[test]
fn declared_length_past_blob_end_yields_empty_roster() {
    let entries = extract_roster(&[0x0A, 0x7F, b'<', b'a', b'/', b'>']);
    assert_eq!(entries.len(), 0);
}

#[test]
fn long_document_takes_the_three_byte_header() {
    let mut xml = String::from("<RoomData>");
    for i in 0..20 {
        xml.push_str(&format!("<Member UserName=\"member_number_{}\"/>", i));
    }
    xml.push_str("</RoomData>");
    assert!(xml.len() >= 0x80);
    let entries = extract_roster(&roster_blob(&xml));
    assert_eq!(entries.len(), 20);
    assert_eq!(entries[19].member.as_deref(), Some("member_number_19"));
}
