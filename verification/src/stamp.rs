//! Fresh identifiers and the current time, as text.

use vstd::prelude::*;

use crate::dates::{rfc3339_text, Moment};
use crate::uuids::hyphenated;

verus! {

/// `s` is the hyphenated text of a version 4 UUID: 16 bytes whose version
/// nibble is 4 and whose variant bits are `10`.
pub open spec fn is_v4_uuid_text(s: Seq<char>) -> bool {
    exists|b: Seq<u8>| b.len() == 16 && b[6] / 16 == 4 && b[8] / 64 == 2 && #[trigger] hyphenated(b) == s
}

/// `s` is the RFC 3339 text of some instant.
pub open spec fn is_rfc3339_timestamp(s: Seq<char>) -> bool {
    exists|m: Moment| #[trigger] rfc3339_text(m) == Some(s)
}

/// A fresh random (version 4) UUID in its hyphenated text form.
///
/// Calls `uuid::Uuid::new_v4`, which draws random bytes and sets the
/// version (4) and variant (RFC 4122) bits, and formats it with
/// `to_string`, which gives the 36-character lowercase hyphenated form.
/// Which bytes were drawn is not stated: they are random.
#[verifier::external_body]
pub(crate) fn new_uuid_v4() -> (r: String)
    ensures
        r@.len() == 36,
        is_v4_uuid_text(r@),
{
    uuid::Uuid::new_v4().to_string()
}

/// The current time as an RFC 3339 timestamp.
///
/// Calls `chrono::Utc::now` and formats it with `to_rfc3339`: the text is
/// the RFC 3339 text of some instant.  Which instant depends on the clock
/// and is not stated.
#[verifier::external_body]
pub(crate) fn now_rfc3339() -> (r: String)
    ensures
        is_rfc3339_timestamp(r@),
{
    chrono::Utc::now().to_rfc3339()
}

} // verus!
