//! The name index: maps the stable content hash of an account identifier
//! to its human-readable name. It is fully populated while contacts are
//! processed and only read afterwards, while conversation sections are
//! titled.

use vstd::prelude::*;

verus! {

/// What the lowercase hexadecimal rendering of the MD5 digest of a byte
/// sequence is. The digest depends on the bytes alone.
pub uninterp spec fn md5_hex(b: Seq<u8>) -> Seq<char>;

/// Relies on `md5::compute` and the digest's `LowerHex` rendering: the 16
/// digest bytes, each as two lowercase hexadecimal digits.
#[verifier::external_body]
pub fn content_hash(b: &[u8]) -> (r: String)
    ensures
        r@ == md5_hex(b@),
        r@.len() == 32,
{
    format!("{:x}", md5::compute(b))
}

/// The name under the first entry with the given key, if any.
pub open spec fn assoc_lookup(s: Seq<(Seq<char>, Seq<char>)>, k: Seq<char>) -> Option<Seq<char>>
    decreases s.len(),
{
    if s.len() == 0 {
        None
    } else if s[0].0 == k {
        Some(s[0].1)
    } else {
        assoc_lookup(s.drop_first(), k)
    }
}

/// The key-to-name index, in insertion order.
pub struct NameIndex {
    entries: Vec<(String, String)>,
}

impl View for NameIndex {
    type V = Seq<(Seq<char>, Seq<char>)>;

    closed spec fn view(&self) -> Self::V {
        self.entries.deep_view()
    }
}

impl NameIndex {
    /// An empty index.
    pub fn new() -> (r: NameIndex)
        ensures
            r@ == Seq::<(Seq<char>, Seq<char>)>::empty(),
    {
        let r = NameIndex { entries: Vec::new() };
        proof {
            assert(r.entries.deep_view() =~= Seq::<(Seq<char>, Seq<char>)>::empty());
        }
        r
    }

    /// Records a key-to-name entry.
    pub fn insert(&mut self, key: String, name: String)
        ensures
            final(self)@ == old(self)@.push((key@, name@)),
    {
        self.entries.push((key, name));
        proof {
            assert(self.entries.deep_view() =~= old(self).entries.deep_view().push(
                (key@, name@),
            ));
        }
    }

    /// Looks a key up: the name under its first entry, cloned out.
    pub fn get(&self, key: &str) -> (r: Option<String>)
        ensures
            r.deep_view() == assoc_lookup(self@, key@),
    {
        let needle: String = key.to_owned();
        let mut j: usize = 0;
        proof {
            assert(self.entries.deep_view().skip(0) =~= self.entries.deep_view());
        }
        while j < self.entries.len()
            invariant
                j <= self.entries@.len(),
                needle@ == key@,
                assoc_lookup(self@, key@) == assoc_lookup(
                    self.entries.deep_view().skip(j as int),
                    key@,
                ),
                forall|i: int| 0 <= i < self.entries.deep_view().len()
                    ==> #[trigger] self.entries.deep_view()[i] == (
                    self.entries@[i].0@,
                    self.entries@[i].1@,
                ),
            decreases self.entries@.len() - j,
        {
            let ghost s = self.entries.deep_view();
            proof {
                assert(s.skip(j as int)[0] == s[j as int]);
            }
            if self.entries[j].0 == needle {
                let v = self.entries[j].1.clone();
                proof {
                    assert(assoc_lookup(s.skip(j as int), key@) == Some(s[j as int].1));
                }
                return Some(v);
            }
            proof {
                assert(s.skip(j as int).drop_first() =~= s.skip(j + 1));
            }
            j = j + 1;
        }
        proof {
            assert(self.entries.deep_view().skip(j as int) =~= Seq::<(Seq<char>, Seq<char>)>::empty());
        }
        None
    }
}

} // verus!
