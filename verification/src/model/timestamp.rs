//! Timestamps as the wire carries them: the literal text of the string
//! form.  The core only stores and forwards them; reading one as a
//! calendar date is the embedder's business.

use vstd::prelude::*;

verus! {

/// A timestamp, held as the text the server sent (an RFC 3339 date-time).
#[derive(Debug, Clone, PartialEq, Eq)]
pub struct Timestamp {
    pub raw: String,
}

impl Timestamp {
    /// Wraps the wire text of a timestamp.
    pub fn new(raw: String) -> (t: Timestamp)
        ensures
            t.raw@ == raw@,
    {
        Timestamp { raw }
    }
}

} // verus!
