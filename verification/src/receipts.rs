//! What one "I have read this" is on the wire.
use vstd::prelude::*;

use crate::error::Error;
use crate::ids::{event_id_accepted, parse_event_id};

verus! {

/// The read marker and the read receipts one request sends.
#[derive(Clone, Debug, PartialEq, Eq)]
pub struct Receipts {
    /// `m.fully_read`: where the line across the conversation is drawn.
    pub fully_read: Option<String>,
    /// `m.read`: the receipt everybody in the room can see.
    pub public_read_receipt: Option<String>,
    /// `m.read.private`: the same claim made to the homeserver alone.
    pub private_read_receipt: Option<String>,
}

/// `r` says that everything up to `event_id` has been read: the marker
/// always, and exactly one of the two receipts, the public one only when
/// `public` asks for it.
pub open spec fn says_read(r: Receipts, event_id: Seq<char>, public: bool) -> bool {
    &&& r.fully_read matches Some(id) && id@ == event_id
    &&& if public {
        &&& r.public_read_receipt matches Some(id) && id@ == event_id
        &&& r.private_read_receipt is None
    } else {
        &&& r.private_read_receipt matches Some(id) && id@ == event_id
        &&& r.public_read_receipt is None
    }
}

/// What one "I have read this" is on the wire: the marker whichever
/// receipt goes with it, and the receipt the setting selects.
pub fn receipts(event_id: String, public: bool) -> (r: Receipts)
    ensures
        says_read(r, event_id@, public),
        r.fully_read == Some(event_id),
{
    let marker = event_id.clone();
    if public {
        Receipts {
            fully_read: Some(marker),
            public_read_receipt: Some(event_id),
            private_read_receipt: None,
        }
    } else {
        Receipts {
            fully_read: Some(marker),
            public_read_receipt: None,
            private_read_receipt: Some(event_id),
        }
    }
}

/// What saying that everything up to `event_id` has been read sends, or
/// the refusal for an `event_id` the SDK will not parse.
pub fn read_receipts(event_id: &str, public: bool) -> (r: Result<Receipts, Error>)
    ensures
        event_id_accepted(event_id@) ==> (r matches Ok(sent) && says_read(sent, event_id@, public)),
        !event_id_accepted(event_id@) ==> (r matches Err(Error::NoSuchEvent { event_id: named })
            && named@ == event_id@),
{
    match parse_event_id(event_id) {
        Some(id) => Ok(receipts(id, public)),
        None => Err(Error::NoSuchEvent { event_id: event_id.to_owned() }),
    }
}

} // verus!
