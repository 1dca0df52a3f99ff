use chat_export::nameindex::NameIndex;
use chat_export::nameindex::content_hash;
use chat_export::report::ContactRow;
use chat_export::report::MessageRow;
use chat_export::report::assemble_contacts;
use chat_export::report::assemble_messages;
use chat_export::report::resolve_title;

#[test]
fn content_hash_is_the_lowercase_md5_hex() {
    assert_eq!(content_hash(b"alice_id"), format!("{:x}", md5::compute(b"alice_id")));
    assert_eq!(content_hash(b"").len(), 32);
}

#[test]
fn one_contact_row_end_to_end() {
    let row = ContactRow {
        identifier: "alice_id".to_string(),
        remark: vec![0x0A, 0x05, b'A', b'l', b'i', b'c', b'e'],
        profile: vec![0x12, 0x02, b'U', b'S'],
        roster: vec![],
    };
    let (contacts, chatrooms, index) = assemble_contacts(vec![row]);
    assert_eq!(contacts.len(), 1);
    assert_eq!(chatrooms.len(), 0);
    assert_eq!(contacts[0].title, "alice_id");
    assert_eq!(contacts[0].lines, vec!["Nickname: Alice", "Country: US"]);
    let hash = content_hash(b"alice_id");
    assert_eq!(index.get(&hash).as_deref(), Some("alice_id"));
}

#[test]
fn group_row_renders_name_and_members() {
    let xml = "<RoomData><Member UserName=\"alpha\"/><Member UserName=\"beta\"><InviterUserName>alpha</InviterUserName><DisplayName>Bee</DisplayName></Member></RoomData>";
    let mut roster = vec![0x0A];
    if xml.len() < 0x80 {
        roster.push(xml.len() as u8);
    } else {
        roster.push(0x80 | (xml.len() % 128) as u8);
        roster.push((xml.len() / 128) as u8);
    }
    roster.extend_from_slice(xml.as_bytes());
    let row = ContactRow {
        identifier: "7@chatroom".to_string(),
        remark: vec![0x0A, 0x04, b'C', b'r', b'e', b'w'],
        profile: vec![],
        roster,
    };
    let (contacts, chatrooms, _) = assemble_contacts(vec![row]);
    assert_eq!(contacts.len(), 0);
    assert_eq!(chatrooms.len(), 1);
    assert_eq!(chatrooms[0].title, "7@chatroom");
    assert_eq!(
        chatrooms[0].lines,
        vec!["Name: Crew", "Members:", "0: alpha", "1: beta invited by alpha (Bee)"],
    );
}

#[test]
fn one_message_row_reaches_both_transcripts() {
    let rows = vec![MessageRow {
        timestamp: 100,
        code: 1,
        direction: 1,
        text: "hi".to_string(),
    }];
    let (conversation, selfs) = assemble_messages("alice_id".to_string(), rows);
    assert_eq!(conversation.title, "alice_id");
    assert_eq!(conversation.entries.len(), 1);
    assert_eq!(conversation.entries[0].timestamp, 100);
    assert_eq!(conversation.entries[0].text, "hi");
    assert!(conversation.entries[0].self_authored);
    assert_eq!(selfs, vec!["hi"]);
}

#[test]
fn received_and_non_text_rows_stay_out_of_the_self_transcript() {
    let rows = vec![
        MessageRow { timestamp: 1, code: 1, direction: 0, text: "in".to_string() },
        MessageRow { timestamp: 2, code: 3, direction: 1, text: String::new() },
        MessageRow { timestamp: 3, code: 1, direction: 1, text: "mine".to_string() },
    ];
    let (conversation, selfs) = assemble_messages("t".to_string(), rows);
    assert_eq!(conversation.entries.len(), 3);
    assert_eq!(conversation.entries[1].text, "Image");
    assert_eq!(selfs, vec!["mine"]);
}

#[test]
fn title_resolves_through_the_index() {
    let mut index = NameIndex::new();
    let hash = content_hash(b"alice_id");
    index.insert(hash.clone(), "alice_id".to_string());
    assert_eq!(resolve_title(&format!("Chat_{}", hash), &index), "alice_id");
}

#[test]
fn unmatched_or_unprefixed_titles_fall_back_to_the_raw_name() {
    let index = NameIndex::new();
    assert_eq!(resolve_title("Chat_0123", &index), "Chat_0123");
    assert_eq!(resolve_title("Other", &index), "Other");
}
