//! The ways the library's own decisions refuse something.
use vstd::prelude::*;

verus! {

/// Why something was refused.
#[derive(Clone, Debug, PartialEq, Eq)]
pub enum Error {
    /// There was nothing to send.
    EmptyMessage,
    /// More bytes than this build holds at once.
    MediaTooLarge { bytes: usize, limit: usize },
    /// More bytes than the homeserver accepts in one upload.
    UploadTooLarge { bytes: usize, limit: usize },
    /// What was named as an event is not an event ID.
    NoSuchEvent { event_id: String },
}

} // verus!
