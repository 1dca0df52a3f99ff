//! Tag-length-value decoder for contact-metadata blobs.
//!
//! A blob is a left-to-right sequence of fields, each a one-byte tag, a
//! one-byte length and that many bytes of text — except the one irregular
//! field, gender, which is a tag followed by a one-byte flag. Decoding is
//! total: a truncated or malformed tail ends the scan, and whatever was
//! decoded before it is the result.

use vstd::prelude::*;
use crate::textenc::lossy_decode;
use crate::textenc::text_of;
use std::collections::HashMap;

verus! {

/// The one irregular tag of the contact-metadata format: gender, encoded as
/// tag plus a one-byte flag instead of tag-length-value.
pub const GENDER_TAG: u8 = 0x08;

pub open spec fn male_text() -> Seq<char> {
    "Male"@
}

pub open spec fn female_text() -> Seq<char> {
    "Female"@
}

/// The map that scanning `b` from offset `i` yields, with `m` the fields
/// already decoded to the left of `i`. The scan stops when fewer than two
/// bytes remain or a declared length runs past the end of the blob; later
/// occurrences of a tag overwrite earlier ones.
pub open spec fn tlv_spec_from(b: Seq<u8>, i: int, m: Map<u8, Seq<char>>) -> Map<u8, Seq<char>>
    decreases b.len() - i,
{
    if i < 0 || i + 2 > b.len() {
        m
    } else if b[i] == GENDER_TAG && (b[i + 1] == 1 || b[i + 1] == 2) {
        tlv_spec_from(
            b,
            i + 2,
            m.insert(GENDER_TAG, if b[i + 1] == 1 { male_text() } else { female_text() }),
        )
    } else if i + 2 + b[i + 1] > b.len() {
        m
    } else {
        tlv_spec_from(
            b,
            i + 2 + b[i + 1],
            m.insert(b[i], text_of(b.subrange(i + 2, i + 2 + b[i + 1]))),
        )
    }
}

/// The tag-to-text mapping encoded by a blob.
pub open spec fn tlv_spec(b: Seq<u8>) -> Map<u8, Seq<char>> {
    tlv_spec_from(b, 0, Map::empty())
}

/// The decoded map agrees with the mathematical one: same tags, and each
/// tag's text is the view of its decoded value.
pub open spec fn tlv_matches(m: Map<u8, String>, s: Map<u8, Seq<char>>) -> bool {
    &&& m.dom() =~= s.dom()
    &&& forall|t: u8| #[trigger] s.contains_key(t) ==> m[t]@ == s[t]
}

/// The decoded map seen at the text level: each value as its character
/// sequence.
pub open spec fn lift(m: Map<u8, String>) -> Map<u8, Seq<char>> {
    Map::new(|t: u8| m.contains_key(t), |t: u8| m[t]@)
}

/// A decoded map that agrees with a mathematical one lifts to it exactly.
pub proof fn lemma_tlv_matches_lift(m: Map<u8, String>, s: Map<u8, Seq<char>>)
    requires
        tlv_matches(m, s),
    ensures
        lift(m) =~= s,
{
}

/// Decodes a contact-metadata blob into its tag-to-text mapping. Never
/// fails: an empty, truncated or malformed blob yields whatever fields were
/// wholly present before the first structurally invalid pair.
pub fn decode(blob: &[u8]) -> (r: HashMap<u8, String>)
    ensures
        tlv_matches(r@, tlv_spec(blob@)),
{
    let mut m: HashMap<u8, String> = HashMap::new();
    let ghost mut g: Map<u8, Seq<char>> = Map::empty();
    let mut i: usize = 0;
    while i < blob.len() && i + 1 < blob.len()
        invariant
            i <= blob@.len(),
            tlv_spec(blob@) == tlv_spec_from(blob@, i as int, g),
            tlv_matches(m@, g),
        decreases blob@.len() - i,
    {
        let tag = blob[i];
        let next = blob[i + 1];
        if tag == GENDER_TAG && (next == 1 || next == 2) {
            let v: String = if next == 1 {
                "Male".to_owned()
            } else {
                "Female".to_owned()
            };
            proof {
                let g2 = g.insert(GENDER_TAG, if next == 1 { male_text() } else { female_text() });
                assert(tlv_spec_from(blob@, i as int, g) == tlv_spec_from(blob@, i + 2, g2));
                g = g2;
            }
            m.insert(GENDER_TAG, v);
            i = i + 2;
        } else {
            let l = next as usize;
            if l > blob.len() - (i + 2) {
                proof {
                    assert(tlv_spec_from(blob@, i as int, g) == g);
                }
                return m;
            }
            let v = lossy_decode(vstd::slice::slice_subrange(blob, i + 2, i + 2 + l));
            proof {
                let g2 = g.insert(tag, text_of(blob@.subrange(i + 2, i + 2 + l)));
                assert(tlv_spec_from(blob@, i as int, g) == tlv_spec_from(blob@, i + 2 + l, g2));
                g = g2;
            }
            m.insert(tag, v);
            i = i + 2 + l;
        }
    }
    proof {
        assert(tlv_spec_from(blob@, i as int, g) == g);
    }
    m
}

/// Encodes one standard tag-length-value field: the tag, the byte length of
/// the UTF-8 encoding of `text`, then those bytes. `None` when the text is
/// too long for the one-byte length.
pub fn encode_field(tag: u8, text: &str) -> (r: Option<Vec<u8>>)
    ensures
        match r {
            Some(v) => v@ == seq![tag, vstd::utf8::encode_utf8(text@).len() as u8]
                + vstd::utf8::encode_utf8(text@),
            None => vstd::utf8::encode_utf8(text@).len() > 255,
        },
        vstd::utf8::encode_utf8(text@).len() <= 255 ==> r is Some,
{
    let bytes = text.as_bytes();
    if bytes.len() > 255 {
        return None;
    }
    let mut v: Vec<u8> = Vec::new();
    v.push(tag);
    v.push(bytes.len() as u8);
    let mut j: usize = 0;
    while j < bytes.len()
        invariant
            j <= bytes@.len(),
            bytes@ == vstd::utf8::encode_utf8(text@),
            v@ == seq![tag, bytes@.len() as u8] + bytes@.take(j as int),
        decreases bytes@.len() - j,
    {
        v.push(bytes[j]);
        proof {
            assert(bytes@.take(j + 1) =~= bytes@.take(j as int).push(bytes@[j as int]));
        }
        j = j + 1;
    }
    proof {
        assert(bytes@.take(bytes@.len() as int) =~= bytes@);
    }
    Some(v)
}

/// A blob with fewer than two bytes — empty, or a single byte — decodes to
/// the empty map.
pub proof fn lemma_decode_short(b: Seq<u8>)
    requires
        b.len() < 2,
    ensures
        tlv_spec(b) == Map::<u8, Seq<char>>::empty(),
{
}

/// Gender special case: when the scan meets the gender tag with a flag byte
/// of 1 or 2, it records "Male" or "Female" and consumes exactly two bytes
/// before continuing with the rest of the blob.
pub proof fn lemma_gender_step(b: Seq<u8>, i: int, m: Map<u8, Seq<char>>)
    requires
        0 <= i,
        i + 2 <= b.len(),
        b[i] == GENDER_TAG,
        b[i + 1] == 1 || b[i + 1] == 2,
    ensures
        tlv_spec_from(b, i, m) == tlv_spec_from(
            b,
            i + 2,
            m.insert(GENDER_TAG, if b[i + 1] == 1 { male_text() } else { female_text() }),
        ),
{
}

/// Truncated final field: when a declared length runs past the end of the
/// blob, the scan stops and the fields decoded before that point are the
/// whole result.
pub proof fn lemma_truncated_stops(b: Seq<u8>, i: int, m: Map<u8, Seq<char>>)
    requires
        0 <= i,
        i + 2 <= b.len(),
        !(b[i] == GENDER_TAG && (b[i + 1] == 1 || b[i + 1] == 2)),
        i + 2 + b[i + 1] > b.len(),
    ensures
        tlv_spec_from(b, i, m) == m,
{
}

/// Standard-tag round trip: decoding an encoded tag-length-value field
/// recovers exactly the encoded text under its tag. The gender tag is left
/// out: its irregular tag-plus-flag encoding makes a one- or two-byte text
/// under that tag decode as a gender flag instead.
pub proof fn lemma_field_round_trip(tag: u8, text: Seq<char>)
    requires
        tag != GENDER_TAG,
        vstd::utf8::encode_utf8(text).len() <= 255,
    ensures
        tlv_spec(seq![tag, vstd::utf8::encode_utf8(text).len() as u8]
            + vstd::utf8::encode_utf8(text)) =~= map![tag => text],
{
    broadcast use vstd::utf8::encode_utf8_valid_utf8;
    broadcast use vstd::utf8::encode_utf8_decode_utf8;

    let e = vstd::utf8::encode_utf8(text);
    let b = seq![tag, e.len() as u8] + e;
    assert(b[0] == tag && b[1] == e.len() as u8);
    assert(b.subrange(2, 2 + e.len() as int) =~= e);
    assert(crate::textenc::text_of(e) == text);
    assert(tlv_spec_from(b, 0, Map::empty()) == tlv_spec_from(
        b,
        b.len() as int,
        Map::empty().insert(tag, text),
    ));
}

} // verus!
