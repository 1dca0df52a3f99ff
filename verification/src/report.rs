//! Assembly of the report: contact and chatroom sections from the contact
//! rows, and per-conversation transcript sections from the message rows,
//! each in the order the rows were supplied.

use vstd::prelude::*;
use crate::contact::ContactRecord;
use crate::contact::Gender;
use crate::contact::TAG_ALIAS;
use crate::contact::TAG_CITY;
use crate::contact::TAG_COUNTRY;
use crate::contact::TAG_NICKNAME;
use crate::contact::TAG_SIGNATURE;
use crate::contact::TAG_STATE;
use crate::contact::TAG_TAGS;
use crate::contact::TAG_WECHAT_ID;
use crate::contact::build;
use crate::contact::gender_of;
use crate::contact::is_group_id;
use crate::contact::opt_field;
use crate::message::MessageEntry;
use crate::message::classify_row;
use crate::message::dec_digits;
use crate::message::label_spec;
use crate::message::render_nat;
use crate::message::self_routed;
use crate::nameindex::NameIndex;
use crate::nameindex::assoc_lookup;
use crate::nameindex::content_hash;
use crate::nameindex::md5_hex;
use crate::roster::RosterEntry;
use crate::roster::attr_value;
use crate::roster::child_text;
use crate::roster::entries_match;
use crate::roster::roster_spec;
use crate::textenc::str_strip_prefix;
use crate::tlv::tlv_spec;

verus! {

/// One titled section of the report: a title and its rendered lines, in
/// emission order.
pub struct Section {
    pub title: String,
    pub lines: Vec<String>,
}

impl View for Section {
    type V = (Seq<char>, Seq<Seq<char>>);

    open spec fn view(&self) -> Self::V {
        (self.title@, self.lines.deep_view())
    }
}

/// The views of a sequence of sections.
pub open spec fn section_views(s: Seq<Section>) -> Seq<(Seq<char>, Seq<Seq<char>>)> {
    Seq::new(s.len(), |i: int| s[i]@)
}

/// An optional labelled line: the label and the value joined when the field
/// is present, no line otherwise.
pub open spec fn opt_line(label: Seq<char>, v: Option<Seq<char>>) -> Seq<Seq<char>> {
    match v {
        Some(t) => seq![label + t],
        None => seq![],
    }
}

/// The text a gender renders as, when it renders at all.
pub open spec fn gender_text(g: Gender) -> Option<Seq<char>> {
    match g {
        Gender::Unknown => None,
        Gender::Male => Some("Male"@),
        Gender::Female => Some("Female"@),
        Gender::Other => Some("Others"@),
    }
}

/// The rendered lines of an individual contact record: one labelled line
/// per present field, in fixed order.
pub open spec fn contact_lines_spec(
    nickname: Option<Seq<char>>,
    wechat_id: Option<Seq<char>>,
    alias: Option<Seq<char>>,
    tags: Option<Seq<char>>,
    gender: Gender,
    country: Option<Seq<char>>,
    state: Option<Seq<char>>,
    city: Option<Seq<char>>,
    signature: Option<Seq<char>>,
) -> Seq<Seq<char>> {
    opt_line("Nickname: "@, nickname) + opt_line("WeChat ID: "@, wechat_id) + opt_line(
        "Alias: "@,
        alias,
    ) + opt_line("Tags: "@, tags) + opt_line("Gender: "@, gender_text(gender)) + opt_line(
        "Country: "@,
        country,
    ) + opt_line("State: "@, state) + opt_line("City: "@, city) + opt_line(
        "Signature: "@,
        signature,
    )
}

/// Appends the labelled line for one optional field.
fn push_opt_line(lines: &mut Vec<String>, label: &str, v: &Option<String>)
    ensures
        final(lines).deep_view() == old(lines).deep_view() + opt_line(label@, v.deep_view()),
{
    match v {
        Some(t) => {
            let mut line: String = label.to_owned();
            line.append(t.as_str());
            lines.push(line);
            proof {
                assert(lines.deep_view() =~= old(lines).deep_view() + opt_line(
                    label@,
                    v.deep_view(),
                ));
            }
        },
        None => {
            proof {
                assert(lines.deep_view() =~= old(lines).deep_view() + opt_line(
                    label@,
                    v.deep_view(),
                ));
            }
        },
    }
}

/// Renders the display-field lines of an individual contact record.
pub fn render_contact_lines(rec: &ContactRecord) -> (r: Vec<String>)
    ensures
        r.deep_view() == contact_lines_spec(
            rec.nickname.deep_view(),
            rec.wechat_id.deep_view(),
            rec.alias.deep_view(),
            rec.tags.deep_view(),
            rec.gender,
            rec.country.deep_view(),
            rec.state.deep_view(),
            rec.city.deep_view(),
            rec.signature.deep_view(),
        ),
{
    let mut lines: Vec<String> = Vec::new();
    proof {
        assert(lines.deep_view() =~= Seq::<Seq<char>>::empty());
    }
    push_opt_line(&mut lines, "Nickname: ", &rec.nickname);
    push_opt_line(&mut lines, "WeChat ID: ", &rec.wechat_id);
    push_opt_line(&mut lines, "Alias: ", &rec.alias);
    push_opt_line(&mut lines, "Tags: ", &rec.tags);
    let gender: Option<String> = match rec.gender {
        Gender::Unknown => None,
        Gender::Male => Some("Male".to_owned()),
        Gender::Female => Some("Female".to_owned()),
        Gender::Other => Some("Others".to_owned()),
    };
    proof {
        assert(gender.deep_view() == gender_text(rec.gender));
    }
    push_opt_line(&mut lines, "Gender: ", &gender);
    push_opt_line(&mut lines, "Country: ", &rec.country);
    push_opt_line(&mut lines, "State: ", &rec.state);
    push_opt_line(&mut lines, "City: ", &rec.city);
    push_opt_line(&mut lines, "Signature: ", &rec.signature);
    proof {
        assert(lines.deep_view() =~= contact_lines_spec(
            rec.nickname.deep_view(),
            rec.wechat_id.deep_view(),
            rec.alias.deep_view(),
            rec.tags.deep_view(),
            rec.gender,
            rec.country.deep_view(),
            rec.state.deep_view(),
            rec.city.deep_view(),
            rec.signature.deep_view(),
        ));
    }
    lines
}

/// The rendered line for one roster entry: position and member identifier
/// when the identifier is known, then the inviter and the display name when
/// present; an entry with none of the three renders as an empty line, so
/// that positions stay contiguous.
pub open spec fn roster_line(
    pos: nat,
    member: Option<Seq<char>>,
    inviter: Option<Seq<char>>,
    display: Option<Seq<char>>,
) -> Seq<char> {
    (match member {
        Some(m) => dec_digits(pos) + ": "@ + m,
        None => Seq::<char>::empty(),
    }) + (match inviter {
        Some(i) => " invited by "@ + i,
        None => Seq::<char>::empty(),
    }) + (match display {
        Some(d) => " ("@ + d + ")"@,
        None => Seq::<char>::empty(),
    })
}

/// The rendered lines of a membership list.
pub open spec fn roster_lines(rs: Seq<RosterEntry>) -> Seq<Seq<char>> {
    Seq::new(
        rs.len(),
        |k: int| roster_line(
            rs[k].position as nat,
            rs[k].member.deep_view(),
            rs[k].inviter.deep_view(),
            rs[k].display_name.deep_view(),
        ),
    )
}

/// The rendered lines of a membership list, read off the member elements
/// themselves.
pub open spec fn roster_lines_v(
    ms: Seq<(Seq<(Seq<char>, Seq<char>)>, Seq<(Seq<char>, Option<Seq<char>>)>)>,
) -> Seq<Seq<char>> {
    Seq::new(
        ms.len(),
        |k: int| roster_line(
            k as nat,
            attr_value(ms[k].0, "UserName"@),
            child_text(ms[k].1, "InviterUserName"@),
            child_text(ms[k].1, "DisplayName"@),
        ),
    )
}

/// Entries that match their member elements render to the same lines.
pub proof fn lemma_roster_lines_match(
    rs: Seq<RosterEntry>,
    ms: Seq<(Seq<(Seq<char>, Seq<char>)>, Seq<(Seq<char>, Option<Seq<char>>)>)>,
)
    requires
        entries_match(rs, ms),
    ensures
        roster_lines(rs) =~= roster_lines_v(ms),
{
}

/// Renders the line for one roster entry.
fn render_roster_entry(e: &RosterEntry) -> (r: String)
    ensures
        r@ == roster_line(
            e.position as nat,
            e.member.deep_view(),
            e.inviter.deep_view(),
            e.display_name.deep_view(),
        ),
{
    let mut line = String::new();
    if let Some(m) = &e.member {
        let num = render_nat(e.position as u64);
        line.append(num.as_str());
        line.append(": ");
        line.append(m.as_str());
    }
    if let Some(i) = &e.inviter {
        line.append(" invited by ");
        line.append(i.as_str());
    }
    if let Some(d) = &e.display_name {
        line.append(" (");
        line.append(d.as_str());
        line.append(")");
    }
    proof {
        assert(line@ =~= roster_line(
            e.position as nat,
            e.member.deep_view(),
            e.inviter.deep_view(),
            e.display_name.deep_view(),
        ));
    }
    line
}

/// The rendered lines of a chatroom record: its name when known, a member
/// header, then one line per roster entry.
pub open spec fn chatroom_lines_spec(nickname: Option<Seq<char>>, rs: Seq<RosterEntry>) -> Seq<
    Seq<char>,
> {
    opt_line("Name: "@, nickname) + seq!["Members:"@] + roster_lines(rs)
}

/// Renders the lines of a chatroom record.
pub fn render_chatroom_lines(rec: &ContactRecord) -> (r: Vec<String>)
    ensures
        r.deep_view() == chatroom_lines_spec(rec.nickname.deep_view(), rec.roster@),
{
    let mut lines: Vec<String> = Vec::new();
    proof {
        assert(lines.deep_view() =~= Seq::<Seq<char>>::empty());
    }
    push_opt_line(&mut lines, "Name: ", &rec.nickname);
    lines.push("Members:".to_owned());
    proof {
        assert(rec.roster@.take(0) =~= Seq::<RosterEntry>::empty());
        assert(lines.deep_view() =~= opt_line("Name: "@, rec.nickname.deep_view()) + seq![
            "Members:"@,
        ] + roster_lines(rec.roster@.take(0)));
    }
    let mut k: usize = 0;
    while k < rec.roster.len()
        invariant
            k <= rec.roster@.len(),
            lines.deep_view() == opt_line("Name: "@, rec.nickname.deep_view()) + seq![
                "Members:"@,
            ] + roster_lines(rec.roster@.take(k as int)),
        decreases rec.roster@.len() - k,
    {
        let ghost prev = lines.deep_view();
        let line = render_roster_entry(&rec.roster[k]);
        let ghost lv = line@;
        lines.push(line);
        proof {
            assert(lines.deep_view() =~= prev.push(lv));
            assert(roster_lines(rec.roster@.take(k + 1)) =~= roster_lines(
                rec.roster@.take(k as int),
            ).push(
                roster_line(
                    rec.roster@[k as int].position as nat,
                    rec.roster@[k as int].member.deep_view(),
                    rec.roster@[k as int].inviter.deep_view(),
                    rec.roster@[k as int].display_name.deep_view(),
                ),
            ));
            assert(lines.deep_view() =~= opt_line("Name: "@, rec.nickname.deep_view()) + seq![
                "Members:"@,
            ] + roster_lines(rec.roster@.take(k + 1)));
        }
        k = k + 1;
    }
    proof {
        assert(rec.roster@.take(rec.roster@.len() as int) =~= rec.roster@);
    }
    lines
}

/// One source row of the contact table: the account identifier and its
/// three metadata blobs.
pub struct ContactRow {
    pub identifier: String,
    pub remark: Vec<u8>,
    pub profile: Vec<u8>,
    pub roster: Vec<u8>,
}

/// The section one non-group row assembles to: titled by the identifier,
/// with the record's rendered display-field lines.
pub open spec fn contact_section_spec(r: ContactRow) -> (Seq<char>, Seq<Seq<char>>) {
    (
        r.identifier@,
        contact_lines_spec(
            opt_field(tlv_spec(r.remark@), TAG_NICKNAME),
            opt_field(tlv_spec(r.remark@), TAG_WECHAT_ID),
            opt_field(tlv_spec(r.remark@), TAG_ALIAS),
            opt_field(tlv_spec(r.remark@), TAG_TAGS),
            gender_of(tlv_spec(r.profile@)),
            opt_field(tlv_spec(r.profile@), TAG_COUNTRY),
            opt_field(tlv_spec(r.profile@), TAG_STATE),
            opt_field(tlv_spec(r.profile@), TAG_CITY),
            opt_field(tlv_spec(r.profile@), TAG_SIGNATURE),
        ),
    )
}

/// The section one group row assembles to: titled by the identifier, with
/// the group's name line, the member header and one line per roster entry.
pub open spec fn chatroom_section_spec(r: ContactRow) -> (Seq<char>, Seq<Seq<char>>) {
    (
        r.identifier@,
        opt_line("Name: "@, opt_field(tlv_spec(r.remark@), TAG_NICKNAME)) + seq!["Members:"@]
            + roster_lines_v(roster_spec(r.roster@)),
    )
}

/// The contact sections of the rows, in row order: one per non-group row.
pub open spec fn contact_sections_spec(rows: Seq<ContactRow>) -> Seq<(Seq<char>, Seq<Seq<char>>)>
    decreases rows.len(),
{
    if rows.len() == 0 {
        Seq::empty()
    } else {
        let init = contact_sections_spec(rows.drop_last());
        if is_group_id(rows.last().identifier@) {
            init
        } else {
            init.push(contact_section_spec(rows.last()))
        }
    }
}

/// The chatroom sections of the rows, in row order: one per group row.
pub open spec fn chatroom_sections_spec(rows: Seq<ContactRow>) -> Seq<(Seq<char>, Seq<Seq<char>>)>
    decreases rows.len(),
{
    if rows.len() == 0 {
        Seq::empty()
    } else {
        let init = chatroom_sections_spec(rows.drop_last());
        if is_group_id(rows.last().identifier@) {
            init.push(chatroom_section_spec(rows.last()))
        } else {
            init
        }
    }
}

/// The name-index entries of the rows, in row order: every identifier under
/// the hexadecimal MD5 digest of its UTF-8 bytes.
pub open spec fn hash_entries(rows: Seq<ContactRow>) -> Seq<(Seq<char>, Seq<char>)>
    decreases rows.len(),
{
    if rows.len() == 0 {
        Seq::empty()
    } else {
        hash_entries(rows.drop_last()).push(
            (
                md5_hex(vstd::utf8::encode_utf8(rows.last().identifier@)),
                rows.last().identifier@,
            ),
        )
    }
}

/// Assembles the contact rows, in their given order, into the contact
/// sections, the chatroom sections, and the fully populated name index.
pub fn assemble_contacts(rows: Vec<ContactRow>) -> (out: (Vec<Section>, Vec<Section>, NameIndex))
    ensures
        section_views(out.0@) == contact_sections_spec(rows@),
        section_views(out.1@) == chatroom_sections_spec(rows@),
        out.2@ == hash_entries(rows@),
{
    let mut contacts: Vec<Section> = Vec::new();
    let mut chatrooms: Vec<Section> = Vec::new();
    let mut index = NameIndex::new();
    proof {
        assert(rows@.take(0) =~= Seq::<ContactRow>::empty());
        assert(section_views(contacts@) =~= contact_sections_spec(rows@.take(0)));
        assert(section_views(chatrooms@) =~= chatroom_sections_spec(rows@.take(0)));
        assert(index@ =~= hash_entries(rows@.take(0)));
    }
    let mut i: usize = 0;
    while i < rows.len()
        invariant
            i <= rows@.len(),
            section_views(contacts@) == contact_sections_spec(rows@.take(i as int)),
            section_views(chatrooms@) == chatroom_sections_spec(rows@.take(i as int)),
            index@ == hash_entries(rows@.take(i as int)),
        decreases rows@.len() - i,
    {
        let row = &rows[i];
        let identifier = row.identifier.clone();
        let hash = content_hash(identifier.as_str().as_bytes());
        index.insert(hash, identifier.clone());
        let rec = build(
            identifier,
            row.remark.as_slice(),
            row.profile.as_slice(),
            row.roster.as_slice(),
        );
        proof {
            assert(rows@.take(i + 1).drop_last() =~= rows@.take(i as int));
            assert(rows@.take(i + 1).last() == rows@[i as int]);
        }
        if rec.is_group {
            let lines = render_chatroom_lines(&rec);
            proof {
                lemma_roster_lines_match(rec.roster@, roster_spec(rows@[i as int].roster@));
            }
            let ghost prev = section_views(chatrooms@);
            chatrooms.push(Section { title: rec.identifier, lines });
            proof {
                assert(section_views(chatrooms@) =~= prev.push(
                    chatroom_section_spec(rows@[i as int]),
                ));
                assert(section_views(contacts@) == contact_sections_spec(rows@.take(i + 1)));
            }
        } else {
            let lines = render_contact_lines(&rec);
            let ghost prev = section_views(contacts@);
            contacts.push(Section { title: rec.identifier, lines });
            proof {
                assert(section_views(contacts@) =~= prev.push(
                    contact_section_spec(rows@[i as int]),
                ));
                assert(section_views(chatrooms@) == chatroom_sections_spec(rows@.take(i + 1)));
            }
        }
        i = i + 1;
    }
    proof {
        assert(rows@.take(rows@.len() as int) =~= rows@);
    }
    (contacts, chatrooms, index)
}

/// One raw message row: creation time, type code, direction flag, and raw
/// text.
pub struct MessageRow {
    pub timestamp: i64,
    pub code: i64,
    pub direction: i64,
    pub text: String,
}

/// The self-only transcript of the rows, in row order: the text of every
/// self-authored plain-text message.
pub open spec fn self_texts(rows: Seq<MessageRow>) -> Seq<Seq<char>>
    decreases rows.len(),
{
    if rows.len() == 0 {
        Seq::empty()
    } else {
        let init = self_texts(rows.drop_last());
        if self_routed(rows.last().code as int, rows.last().direction as int) {
            init.push(label_spec(rows.last().code as int, rows.last().text@))
        } else {
            init
        }
    }
}

/// One conversation's transcript: its resolved title and its classified
/// messages, in the order the rows were supplied.
pub struct Conversation {
    pub title: String,
    pub entries: Vec<MessageEntry>,
}

/// Classifies a conversation's message rows in their given order: one
/// entry per row, plus the self-only transcript.
pub fn assemble_messages(title: String, rows: Vec<MessageRow>) -> (out: (Conversation, Vec<String>))
    ensures
        out.0.title == title,
        out.0.entries@.len() == rows@.len(),
        forall|k: int| 0 <= k < rows@.len() ==> {
            &&& (#[trigger] out.0.entries@[k]).timestamp == rows@[k].timestamp
            &&& out.0.entries@[k].text@ == label_spec(rows@[k].code as int, rows@[k].text@)
            &&& out.0.entries@[k].self_authored == self_routed(
                rows@[k].code as int,
                rows@[k].direction as int,
            )
        },
        out.1.deep_view() == self_texts(rows@),
{
    let mut entries: Vec<MessageEntry> = Vec::new();
    let mut selfs: Vec<String> = Vec::new();
    proof {
        assert(rows@.take(0) =~= Seq::<MessageRow>::empty());
        assert(selfs.deep_view() =~= self_texts(rows@.take(0)));
    }
    let mut k: usize = 0;
    while k < rows.len()
        invariant
            k <= rows@.len(),
            entries@.len() == k,
            forall|j: int| 0 <= j < k ==> {
                &&& (#[trigger] entries@[j]).timestamp == rows@[j].timestamp
                &&& entries@[j].text@ == label_spec(rows@[j].code as int, rows@[j].text@)
                &&& entries@[j].self_authored == self_routed(
                    rows@[j].code as int,
                    rows@[j].direction as int,
                )
            },
            selfs.deep_view() == self_texts(rows@.take(k as int)),
        decreases rows@.len() - k,
    {
        let row = &rows[k];
        let entry = classify_row(row.timestamp, row.code, row.direction, row.text.clone());
        proof {
            assert(rows@.take(k + 1).drop_last() =~= rows@.take(k as int));
            assert(rows@.take(k + 1).last() == rows@[k as int]);
        }
        if entry.self_authored {
            let ghost prev = selfs.deep_view();
            selfs.push(entry.text.clone());
            proof {
                assert(selfs.deep_view() =~= prev.push(
                    label_spec(rows@[k as int].code as int, rows@[k as int].text@),
                ));
            }
        }
        entries.push(entry);
        k = k + 1;
    }
    proof {
        assert(rows@.take(rows@.len() as int) =~= rows@);
    }
    (Conversation { title, entries }, selfs)
}

/// The resolved title of a conversation table: the indexed name under the
/// hash embedded in the table name, or the raw table name when the name is
/// not prefixed or the index has no match.
pub open spec fn title_spec(table: Seq<char>, idx: Seq<(Seq<char>, Seq<char>)>) -> Seq<char> {
    if table.len() >= "Chat_"@.len() && table.take("Chat_"@.len() as int) == "Chat_"@ {
        match assoc_lookup(idx, table.skip("Chat_"@.len() as int)) {
            Some(n) => n,
            None => table,
        }
    } else {
        table
    }
}

/// Resolves a conversation title through the name index.
pub fn resolve_title(table: &str, index: &NameIndex) -> (r: String)
    ensures
        r@ == title_spec(table@, index@),
{
    match str_strip_prefix(table, "Chat_") {
        Some(rest) => {
            proof {
                assert(table@.take("Chat_"@.len() as int) =~= "Chat_"@);
                assert(table@.skip("Chat_"@.len() as int) =~= rest@);
            }
            match index.get(rest) {
                Some(n) => n,
                None => table.to_owned(),
            }
        },
        None => table.to_owned(),
    }
}

} // verus!
