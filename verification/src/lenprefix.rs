//! Variable-width length prefix used at the front of a group-conversation
//! roster blob to locate the embedded XML document.

use vstd::prelude::*;

verus! {

/// What the length-prefix reader yields. The byte at offset 1 carries the
/// low 7 bits of the length; its high bit is a continuation flag pulling 7
/// more bits from the byte at offset 2. A set high bit on the second length
/// byte would need a third continuation byte, which the format never uses:
/// that is a decode error, `None`.
pub open spec fn len_prefix_spec(b: Seq<u8>) -> Option<(int, int)> {
    if b[1] < 0x80 {
        Some((b[1] as int, 2))
    } else if b[2] < 0x80 {
        Some(((b[1] - 0x80) + b[2] * 128, 3))
    } else {
        None
    }
}

/// Decodes the length prefix of a roster blob: returns the payload length
/// and the header size (2 or 3 bytes), or `None` when the prefix would need
/// an unsupported third continuation byte.
pub fn read_length(blob: &[u8]) -> (r: Option<(usize, usize)>)
    requires
        blob@.len() > 2,
    ensures
        match r {
            Some(p) => len_prefix_spec(blob@) == Some((p.0 as int, p.1 as int)),
            None => len_prefix_spec(blob@) is None,
        },
        r is Some ==> r.unwrap().1 == 2 || r.unwrap().1 == 3,
        r is Some ==> r.unwrap().0 < 0x4000,
{
    let b1: u8 = blob[1];
    if b1 < 0x80 {
        Some((b1 as usize, 2))
    } else {
        let b2: u8 = blob[2];
        if b2 < 0x80 {
            Some(((b1 - 0x80) as usize + (b2 as usize) * 128, 3))
        } else {
            None
        }
    }
}

} // verus!
