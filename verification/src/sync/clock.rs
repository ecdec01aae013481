//! What the engine takes from outside itself: the time of day and fresh
//! identifiers.

use vstd::prelude::*;
use crate::text::has_char;

verus! {

/// A reading of the wall clock: seconds and nanoseconds since the Unix epoch,
/// and the same instant as RFC 3339 text.
#[derive(Debug, Clone, PartialEq)]
pub struct Instant {
    pub secs: i64,
    pub nanos: u32,
    pub text: String,
}

impl Instant {
    /// Whether this instant is not earlier than `other`.
    pub open spec fn not_before(&self, other: &Instant) -> bool {
        self.secs > other.secs || (self.secs == other.secs && self.nanos >= other.nanos)
    }
}

/// Whether `c` is a hyphen or a lower-case hexadecimal digit.
pub open spec fn is_hex_or_hyphen(c: char) -> bool {
    c == '-' || ('0' <= c && c <= '9') || ('a' <= c && c <= 'f')
}

/// The shape of a freshly made identifier: 36 characters, each a hyphen or
/// a lower-case hexadecimal digit.
pub open spec fn is_fresh_id(id: Seq<char>) -> bool {
    id.len() == 36 && forall|i: int| 0 <= i < 36 ==> is_hex_or_hyphen(#[trigger] id[i])
}

/// A freshly made identifier holds no `/`.
pub proof fn fresh_id_has_no_slash(id: Seq<char>)
    requires
        is_fresh_id(id),
    ensures
        !has_char(id, '/'),
{
    if has_char(id, '/') {
        let i = choose|i: int| 0 <= i < id.len() && id[i] == '/';
        assert(is_hex_or_hyphen(id[i]));
    }
}

/// Reads the wall clock with `chrono::Utc::now` and hands on what
/// `timestamp`, `timestamp_subsec_nanos` and `to_rfc3339` say of that one
/// reading. Nothing is claimed of the reading: two calls may differ in any
/// way.
#[verifier::external_body]
pub(crate) fn read_clock() -> (now: Instant) {
    let t = chrono::Utc::now();
    Instant { secs: t.timestamp(), nanos: t.timestamp_subsec_nanos(), text: t.to_rfc3339() }
}

/// Makes a random identifier with `uuid::Uuid::new_v4` and writes it as
/// text. Claimed is the shape of that text alone, which is the hyphenated
/// lower-case form: 32 hexadecimal digits in five groups. Which digits come
/// is left open.
#[verifier::external_body]
pub(crate) fn fresh_remote_id() -> (id: String)
    ensures
        is_fresh_id(id@),
{
    uuid::Uuid::new_v4().to_string()
}

} // verus!
