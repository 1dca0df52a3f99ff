//! Building a structured contact or chatroom record from one source row's
//! identifier and metadata blobs.

use vstd::prelude::*;
use crate::roster::RosterEntry;
use crate::roster::entries_match;
use crate::roster::extract_roster;
use crate::roster::roster_spec;
use crate::textenc::str_ends_with;
use crate::tlv::GENDER_TAG;
use crate::tlv::decode;
use crate::tlv::female_text;
use crate::tlv::lemma_tlv_matches_lift;
use crate::tlv::lift;
use crate::tlv::male_text;
use crate::tlv::tlv_spec;
use std::collections::HashMap;

verus! {

/// The remark-blob tag holding the display name.
pub const TAG_NICKNAME: u8 = 0x0A;

/// The remark-blob tag holding the external account identifier.
pub const TAG_WECHAT_ID: u8 = 0x12;

/// The remark-blob tag holding the user-chosen alias.
pub const TAG_ALIAS: u8 = 0x1A;

/// The remark-blob tag holding the contact's tags.
pub const TAG_TAGS: u8 = 0x3A;

/// The profile-blob tag holding the country.
pub const TAG_COUNTRY: u8 = 0x12;

/// The profile-blob tag holding the state or region.
pub const TAG_STATE: u8 = 0x1A;

/// The profile-blob tag holding the city.
pub const TAG_CITY: u8 = 0x22;

/// The profile-blob tag holding the signature.
pub const TAG_SIGNATURE: u8 = 0x2A;

/// The reserved suffix that marks a group-conversation identifier.
pub open spec fn group_suffix() -> Seq<char> {
    "@chatroom"@
}

/// Whether an identifier names a group conversation: it ends with the
/// reserved suffix.
pub open spec fn is_group_id(s: Seq<char>) -> bool {
    s.len() >= group_suffix().len() && s.skip(s.len() - group_suffix().len() as int)
        == group_suffix()
}

/// A contact's gender.
#[derive(Clone, Copy, Debug, PartialEq, Eq, Structural)]
pub enum Gender {
    Unknown,
    Male,
    Female,
    Other,
}

/// The gender a decoded profile map records: the special-cased texts mean
/// male or female, an absent tag means unknown, and any other recorded
/// value means other.
pub open spec fn gender_of(m: Map<u8, Seq<char>>) -> Gender {
    if !m.contains_key(GENDER_TAG) {
        Gender::Unknown
    } else if m[GENDER_TAG] == male_text() {
        Gender::Male
    } else if m[GENDER_TAG] == female_text() {
        Gender::Female
    } else {
        Gender::Other
    }
}

/// A display field of a record: present only when the map holds the tag
/// with non-empty text; absent and empty fields are omitted, never rendered
/// blank.
pub open spec fn opt_field(m: Map<u8, Seq<char>>, t: u8) -> Option<Seq<char>> {
    if m.contains_key(t) && m[t].len() > 0 {
        Some(m[t])
    } else {
        None
    }
}

/// One structured contact or chatroom record, built once per source row and
/// never mutated afterwards.
pub struct ContactRecord {
    /// The account identifier the row is keyed by.
    pub identifier: String,
    /// Whether the identifier names a group conversation.
    pub is_group: bool,
    /// Display name, from the remark blob; for a group, the group's name.
    pub nickname: Option<String>,
    /// External account identifier, from the remark blob.
    pub wechat_id: Option<String>,
    /// User-chosen alias, from the remark blob.
    pub alias: Option<String>,
    /// The contact's tags, from the remark blob.
    pub tags: Option<String>,
    /// Country, from the profile blob.
    pub country: Option<String>,
    /// State or region, from the profile blob.
    pub state: Option<String>,
    /// City, from the profile blob.
    pub city: Option<String>,
    /// Signature, from the profile blob.
    pub signature: Option<String>,
    /// Gender, from the profile blob.
    pub gender: Gender,
    /// Group membership, in document order; empty for an individual.
    pub roster: Vec<RosterEntry>,
}

/// Looks one display field up in a decoded map.
fn get_field(m: &HashMap<u8, String>, tag: u8) -> (r: Option<String>)
    ensures
        r.deep_view() == opt_field(lift(m@), tag),
{
    match m.get(&tag) {
        Some(v) => if !v.as_str().is_empty() {
            Some(v.clone())
        } else {
            None
        },
        None => None,
    }
}

/// Reads the gender field of a decoded profile map.
fn get_gender(m: &HashMap<u8, String>) -> (r: Gender)
    ensures
        r == gender_of(lift(m@)),
{
    match m.get(&GENDER_TAG) {
        Some(v) => {
            let male: String = "Male".to_owned();
            let female: String = "Female".to_owned();
            if *v == male {
                Gender::Male
            } else if *v == female {
                Gender::Female
            } else {
                Gender::Other
            }
        },
        None => Gender::Unknown,
    }
}

/// Builds the record for one source row. A group row (identifier ending in
/// the reserved suffix) takes its display name from the remark blob and its
/// membership from the roster blob; an individual row takes its display
/// fields from the remark and profile blobs. Decoding never fails, so
/// neither does building.
pub fn build(
    identifier: String,
    remark_blob: &[u8],
    profile_blob: &[u8],
    roster_blob: &[u8],
) -> (r: ContactRecord)
    ensures
        r.identifier == identifier,
        r.is_group == is_group_id(identifier@),
        r.nickname.deep_view() == opt_field(tlv_spec(remark_blob@), TAG_NICKNAME),
        r.wechat_id.deep_view() == if r.is_group {
            None::<Seq<char>>
        } else {
            opt_field(tlv_spec(remark_blob@), TAG_WECHAT_ID)
        },
        r.alias.deep_view() == if r.is_group {
            None::<Seq<char>>
        } else {
            opt_field(tlv_spec(remark_blob@), TAG_ALIAS)
        },
        r.tags.deep_view() == if r.is_group {
            None::<Seq<char>>
        } else {
            opt_field(tlv_spec(remark_blob@), TAG_TAGS)
        },
        r.country.deep_view() == if r.is_group {
            None::<Seq<char>>
        } else {
            opt_field(tlv_spec(profile_blob@), TAG_COUNTRY)
        },
        r.state.deep_view() == if r.is_group {
            None::<Seq<char>>
        } else {
            opt_field(tlv_spec(profile_blob@), TAG_STATE)
        },
        r.city.deep_view() == if r.is_group {
            None::<Seq<char>>
        } else {
            opt_field(tlv_spec(profile_blob@), TAG_CITY)
        },
        r.signature.deep_view() == if r.is_group {
            None::<Seq<char>>
        } else {
            opt_field(tlv_spec(profile_blob@), TAG_SIGNATURE)
        },
        r.gender == if r.is_group {
            Gender::Unknown
        } else {
            gender_of(tlv_spec(profile_blob@))
        },
        r.is_group ==> entries_match(r.roster@, roster_spec(roster_blob@)),
        !r.is_group ==> r.roster@.len() == 0,
{
    let is_group = str_ends_with(identifier.as_str(), "@chatroom");
    let remark_map = decode(remark_blob);
    proof {
        lemma_tlv_matches_lift(remark_map@, tlv_spec(remark_blob@));
    }
    let nickname = get_field(&remark_map, TAG_NICKNAME);
    if is_group {
        let roster = extract_roster(roster_blob);
        ContactRecord {
            identifier,
            is_group,
            nickname,
            wechat_id: None,
            alias: None,
            tags: None,
            country: None,
            state: None,
            city: None,
            signature: None,
            gender: Gender::Unknown,
            roster,
        }
    } else {
        let profile_map = decode(profile_blob);
        proof {
            lemma_tlv_matches_lift(profile_map@, tlv_spec(profile_blob@));
        }
        ContactRecord {
            identifier,
            is_group,
            nickname,
            wechat_id: get_field(&remark_map, TAG_WECHAT_ID),
            alias: get_field(&remark_map, TAG_ALIAS),
            tags: get_field(&remark_map, TAG_TAGS),
            country: get_field(&profile_map, TAG_COUNTRY),
            state: get_field(&profile_map, TAG_STATE),
            city: get_field(&profile_map, TAG_CITY),
            signature: get_field(&profile_map, TAG_SIGNATURE),
            gender: get_gender(&profile_map),
            roster: Vec::new(),
        }
    }
}

} // verus!
