//! Roster extraction for group conversations: a roster blob carries a
//! length-prefixed XML document whose root's child elements are the group's
//! members, in document order.

use vstd::prelude::*;
use crate::lenprefix::len_prefix_spec;
use crate::lenprefix::read_length;
use crate::textenc::lossy_decode;
use crate::textenc::text_of;

verus! {

/// One member element of the roster XML, projected to plain values: its
/// attributes as name/value pairs, and its child elements as tag-name and
/// text-content pairs, each in document order.
pub struct MemberElem {
    pub attrs: Vec<(String, String)>,
    pub children: Vec<(String, Option<String>)>,
}

impl View for MemberElem {
    type V = (Seq<(Seq<char>, Seq<char>)>, Seq<(Seq<char>, Option<Seq<char>>)>);

    open spec fn view(&self) -> Self::V {
        (self.attrs.deep_view(), self.children.deep_view())
    }
}

impl DeepView for MemberElem {
    type V = (Seq<(Seq<char>, Seq<char>)>, Seq<(Seq<char>, Option<Seq<char>>)>);

    open spec fn deep_view(&self) -> Self::V {
        self.view()
    }
}

/// What parsing a roster document yields: the child elements of the XML
/// root in document order, each projected to its attributes and its child
/// elements; an unparseable document yields the empty sequence. The result
/// depends on the text alone.
pub uninterp spec fn member_elems(xml: Seq<char>) -> Seq<
    (Seq<(Seq<char>, Seq<char>)>, Seq<(Seq<char>, Option<Seq<char>>)>),
>;

/// Relies on `roxmltree::Document::parse` and its node accessors: the
/// root's child elements with their attributes and child-element texts, in
/// document order; a parse failure yields no elements.
#[verifier::external_body]
fn parse_member_elems(xml: &str) -> (r: Vec<MemberElem>)
    ensures
        r.deep_view() == member_elems(xml@),
{
    match roxmltree::Document::parse(xml) {
        Err(_) => Vec::new(),
        Ok(doc) => doc.root_element().children().filter(|n| n.is_element()).map(
            |m| MemberElem {
                attrs: m.attributes().map(|a| (a.name().to_string(), a.value().to_string())).collect(),
                children: m.children().filter(|c| c.is_element()).map(
                    |c| (c.tag_name().name().to_string(), c.text().map(|t| t.to_string())),
                ).collect(),
            },
        ).collect(),
    }
}

/// The value of the first attribute with the given name, if any.
pub open spec fn attr_value(attrs: Seq<(Seq<char>, Seq<char>)>, name: Seq<char>) -> Option<
    Seq<char>,
>
    decreases attrs.len(),
{
    if attrs.len() == 0 {
        None
    } else if attrs[0].0 == name {
        Some(attrs[0].1)
    } else {
        attr_value(attrs.drop_first(), name)
    }
}

/// The text content of the first child element with the given tag name that
/// has any text, if any.
pub open spec fn child_text(
    children: Seq<(Seq<char>, Option<Seq<char>>)>,
    name: Seq<char>,
) -> Option<Seq<char>>
    decreases children.len(),
{
    if children.len() == 0 {
        None
    } else if children[0].0 == name && children[0].1 is Some {
        Some(children[0].1.unwrap())
    } else {
        child_text(children.drop_first(), name)
    }
}

/// The embedded XML document text of a roster blob, when the length prefix
/// is readable and the declared length lies within the blob.
pub open spec fn roster_xml(b: Seq<u8>) -> Option<Seq<char>> {
    if b.len() <= 2 {
        None
    } else {
        match len_prefix_spec(b) {
            Some(p) => if p.1 + p.0 <= b.len() {
                Some(text_of(b.subrange(p.1, p.1 + p.0)))
            } else {
                None
            },
            None => None,
        }
    }
}

/// The member elements of a roster blob: those of its embedded XML
/// document, or none when no document can be located.
pub open spec fn roster_spec(b: Seq<u8>) -> Seq<
    (Seq<(Seq<char>, Seq<char>)>, Seq<(Seq<char>, Option<Seq<char>>)>),
> {
    match roster_xml(b) {
        Some(x) => member_elems(x),
        None => Seq::empty(),
    }
}

/// One entry of a group's membership list.
pub struct RosterEntry {
    /// Zero-based, in document order of the member elements.
    pub position: usize,
    /// The member's account identifier, from the `UserName` attribute.
    pub member: Option<String>,
    /// Who invited the member, from the `InviterUserName` child element.
    pub inviter: Option<String>,
    /// The member's display name, from the `DisplayName` child element.
    pub display_name: Option<String>,
}

/// Each entry matches its member element: contiguous zero-based positions,
/// and the member identifier, inviter and display name read from the
/// element's attributes and child elements.
pub open spec fn entries_match(
    r: Seq<RosterEntry>,
    ms: Seq<(Seq<(Seq<char>, Seq<char>)>, Seq<(Seq<char>, Option<Seq<char>>)>)>,
) -> bool {
    &&& r.len() == ms.len()
    &&& forall|k: int| 0 <= k < r.len() ==> {
        &&& (#[trigger] r[k]).position == k
        &&& r[k].member.deep_view() == attr_value(ms[k].0, "UserName"@)
        &&& r[k].inviter.deep_view() == child_text(ms[k].1, "InviterUserName"@)
        &&& r[k].display_name.deep_view() == child_text(ms[k].1, "DisplayName"@)
    }
}

/// The value of the first attribute named `name`, cloned out.
fn find_attr(attrs: &Vec<(String, String)>, name: &String) -> (r: Option<String>)
    ensures
        r.deep_view() == attr_value(attrs.deep_view(), name@),
{
    let mut j: usize = 0;
    proof {
        assert(attrs.deep_view().skip(0) =~= attrs.deep_view());
    }
    while j < attrs.len()
        invariant
            j <= attrs@.len(),
            attr_value(attrs.deep_view(), name@) == attr_value(
                attrs.deep_view().skip(j as int),
                name@,
            ),
            forall|i: int| 0 <= i < attrs.deep_view().len()
                ==> #[trigger] attrs.deep_view()[i] == (attrs@[i].0@, attrs@[i].1@),
        decreases attrs@.len() - j,
    {
        let ghost s = attrs.deep_view();
        proof {
            assert(s.skip(j as int)[0] == s[j as int]);
        }
        if attrs[j].0 == *name {
            let v = attrs[j].1.clone();
            proof {
                assert(attr_value(s.skip(j as int), name@) == Some(s[j as int].1));
            }
            return Some(v);
        }
        proof {
            assert(s.skip(j as int).drop_first() =~= s.skip(j + 1));
        }
        j = j + 1;
    }
    proof {
        assert(attrs.deep_view().skip(j as int) =~= Seq::empty());
    }
    None
}

/// The text of the first child element named `name` that has text, cloned
/// out.
fn find_child_text(children: &Vec<(String, Option<String>)>, name: &String) -> (r: Option<String>)
    ensures
        r.deep_view() == child_text(children.deep_view(), name@),
{
    let mut j: usize = 0;
    proof {
        assert(children.deep_view().skip(0) =~= children.deep_view());
    }
    while j < children.len()
        invariant
            j <= children@.len(),
            child_text(children.deep_view(), name@) == child_text(
                children.deep_view().skip(j as int),
                name@,
            ),
            forall|i: int| 0 <= i < children.deep_view().len()
                ==> #[trigger] children.deep_view()[i] == (
                children@[i].0@,
                children@[i].1.deep_view(),
            ),
        decreases children@.len() - j,
    {
        let ghost s = children.deep_view();
        proof {
            assert(s.skip(j as int)[0] == s[j as int]);
            assert(s.skip(j as int).drop_first() =~= s.skip(j + 1));
        }
        if children[j].0 == *name {
            if let Some(t) = &children[j].1 {
                let v = t.clone();
                proof {
                    assert(child_text(s.skip(j as int), name@) == Some(s[j as int].1.unwrap()));
                }
                return Some(v);
            }
        }
        j = j + 1;
    }
    proof {
        assert(children.deep_view().skip(j as int) =~= Seq::empty());
    }
    None
}

/// A roster blob of two bytes or fewer holds no roster at all.
pub proof fn lemma_short_roster_empty(b: Seq<u8>)
    requires
        b.len() <= 2,
    ensures
        roster_spec(b) == Seq::<
            (Seq<(Seq<char>, Seq<char>)>, Seq<(Seq<char>, Option<Seq<char>>)>),
        >::empty(),
{
}

/// Extracts the membership list of a group conversation from its roster
/// blob. A blob of two bytes or fewer, an unreadable or out-of-range length
/// prefix, or an unparseable document all yield the empty list; otherwise
/// one entry per member element, with contiguous zero-based positions.
pub fn extract_roster(blob: &[u8]) -> (r: Vec<RosterEntry>)
    ensures
        entries_match(r@, roster_spec(blob@)),
{
    if blob.len() <= 2 {
        return Vec::new();
    }
    let (length, header) = match read_length(blob) {
        Some(p) => p,
        None => {
            return Vec::new();
        },
    };
    if length > blob.len() - header {
        return Vec::new();
    }
    let xml = lossy_decode(vstd::slice::slice_subrange(blob, header, header + length));
    proof {
        assert(roster_xml(blob@) == Some(xml@));
    }
    let members = parse_member_elems(xml.as_str());
    let user_name: String = "UserName".to_owned();
    let inviter_name: String = "InviterUserName".to_owned();
    let display_name: String = "DisplayName".to_owned();
    let mut r: Vec<RosterEntry> = Vec::new();
    let mut k: usize = 0;
    while k < members.len()
        invariant
            k <= members@.len(),
            members.deep_view() == roster_spec(blob@),
            user_name@ == "UserName"@,
            inviter_name@ == "InviterUserName"@,
            display_name@ == "DisplayName"@,
            r@.len() == k,
            forall|i: int| 0 <= i < k ==> {
                let m = roster_spec(blob@)[i];
                &&& (#[trigger] r@[i]).position == i
                &&& r@[i].member.deep_view() == attr_value(m.0, "UserName"@)
                &&& r@[i].inviter.deep_view() == child_text(m.1, "InviterUserName"@)
                &&& r@[i].display_name.deep_view() == child_text(m.1, "DisplayName"@)
            },
        decreases members@.len() - k,
    {
        let m = &members[k];
        proof {
            assert(members.deep_view()[k as int] == members@[k as int].deep_view());
        }
        let member = find_attr(&m.attrs, &user_name);
        let inviter = find_child_text(&m.children, &inviter_name);
        let display = find_child_text(&m.children, &display_name);
        r.push(
            RosterEntry { position: k, member, inviter, display_name: display },
        );
        k = k + 1;
    }
    r
}

} // verus!
