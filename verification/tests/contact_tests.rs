use chat_export::contact::Gender;
use chat_export::contact::build;

#[test]
fn nickname_and_country_only() {
    let remark = [0x0A, 0x05, b'A', b'l', b'i', b'c', b'e'];
    let profile = [0x12, 0x02, b'U', b'S'];
    let rec = build("alice_id".to_string(), &remark, &profile, &[]);
    assert_eq!(rec.identifier, "alice_id");
    assert!(!rec.is_group);
    assert_eq!(rec.nickname.as_deref(), Some("Alice"));
    assert_eq!(rec.country.as_deref(), Some("US"));
    assert_eq!(rec.wechat_id, None);
    assert_eq!(rec.alias, None);
    assert_eq!(rec.tags, None);
    assert_eq!(rec.state, None);
    assert_eq!(rec.city, None);
    assert_eq!(rec.signature, None);
    assert_eq!(rec.gender, Gender::Unknown);
    assert_eq!(rec.roster.len(), 0);
}

#[test]
fn all_remark_and_profile_fields() {
    let remark = [
        0x0A, 0x04, b'N', b'i', b'c', b'k', 0x12, 0x03, b'w', b'x', b'1', 0x1A, 0x02, b'A',
        b'l', 0x3A, 0x03, b't', b'a', b'g',
    ];
    let profile = [
        0x08, 0x02, 0x12, 0x02, b'D', b'E', 0x1A, 0x02, b'B', b'Y', 0x22, 0x01, b'M', 0x2A,
        0x03, b's', b'i', b'g',
    ];
    let rec = build("bob".to_string(), &remark, &profile, &[]);
    assert_eq!(rec.nickname.as_deref(), Some("Nick"));
    assert_eq!(rec.wechat_id.as_deref(), Some("wx1"));
    assert_eq!(rec.alias.as_deref(), Some("Al"));
    assert_eq!(rec.tags.as_deref(), Some("tag"));
    assert_eq!(rec.gender, Gender::Female);
    assert_eq!(rec.country.as_deref(), Some("DE"));
    assert_eq!(rec.state.as_deref(), Some("BY"));
    assert_eq!(rec.city.as_deref(), Some("M"));
    assert_eq!(rec.signature.as_deref(), Some("sig"));
}

#[test]
fn gender_male_flag() {
    let rec = build("c".to_string(), &[], &[0x08, 0x01], &[]);
    assert_eq!(rec.gender, Gender::Male);
}

#[test]
fn gender_value_outside_the_flags_is_other() {
    let rec = build("c".to_string(), &[], &[0x08, 0x03, b'a', b'b', b'c'], &[]);
    assert_eq!(rec.gender, Gender::Other);
}

#[test]
fn empty_field_text_is_omitted() {
    let rec = build("c".to_string(), &[0x0A, 0x00], &[], &[]);
    assert_eq!(rec.nickname, None);
}

#[test]
fn group_suffix_routes_to_chatroom_record() {
    let remark = [0x0A, 0x07, b'F', b'r', b'i', b'e', b'n', b'd', b's'];
    let xml = "<RoomData><Member UserName=\"alpha\"/><Member UserName=\"beta\"/></RoomData>";
    let mut roster = vec![0x0A, xml.len() as u8];
    roster.extend_from_slice(xml.as_bytes());
    let rec = build("12345@chatroom".to_string(), &remark, &[], &roster);
    assert!(rec.is_group);
    assert_eq!(rec.nickname.as_deref(), Some("Friends"));
    assert_eq!(rec.gender, Gender::Unknown);
    assert_eq!(rec.roster.len(), 2);
    assert_eq!(rec.roster[0].member.as_deref(), Some("alpha"));
    assert_eq!(rec.roster[1].member.as_deref(), Some("beta"));
}
