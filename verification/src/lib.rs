//! Decoding core for a chat application's exported contact and message
//! database: a tag-length-value decoder for contact metadata blobs, a
//! variable-width length-prefix reader and roster extractor for group
//! conversation blobs, a message-type classifier, and the assembly of
//! rendered report sections.

pub mod contact;
pub mod lenprefix;
pub mod message;
pub mod nameindex;
pub mod report;
pub mod roster;
pub mod textenc;
pub mod tlv;
