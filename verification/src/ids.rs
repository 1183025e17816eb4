//! Matrix event IDs, as the SDK parses them.
use vstd::prelude::*;

use matrix_sdk::ruma::EventId;

verus! {

/// Whether the SDK's `EventId::parse` accepts `s` as an event ID.
pub uninterp spec fn event_id_accepted(s: Seq<char>) -> bool;

/// `s` starts with the `$` sigil.
pub open spec fn has_event_sigil(s: Seq<char>) -> bool {
    s.len() > 0 && s[0] == '$'
}

/// `s` holds a `:`, which makes it the older `$local:server` form whose
/// server name is validated too.
pub open spec fn holds_colon(s: Seq<char>) -> bool {
    exists|i: int| 0 <= i < s.len() && s[i] == ':'
}

/// `EventId::parse` from matrix-sdk's ruma, taken to plain text: the ID
/// back, unchanged, when it parses. What it accepts is named by
/// `event_id_accepted`. It accepts nothing without the leading `$`, and
/// without a `:` in the text the sigil is the only thing it asks for.
#[verifier::external_body]
pub(crate) fn parse_event_id(s: &str) -> (r: Option<String>)
    ensures
        r is Some == event_id_accepted(s@),
        r matches Some(id) ==> id@ == s@,
        r is Some ==> has_event_sigil(s@),
        !holds_colon(s@) ==> (r is Some == has_event_sigil(s@)),
{
    match EventId::parse(s) {
        Ok(id) => Some(id.as_str().to_owned()),
        Err(_) => None,
    }
}

} // verus!
