//! Presence statuses, as sent in presence-update frames.

use vstd::prelude::*;

verus! {

#[derive(Debug, Clone, Copy, PartialEq, Eq, Structural)]
pub enum Status {
    Online,
    DoNotDisturb,
    Idle,
    Invisible,
    Offline,
}

/// The wire text of a status.
pub open spec fn spec_status_text(s: Status) -> Seq<char> {
    match s {
        Status::Online => "online"@,
        Status::DoNotDisturb => "dnd"@,
        Status::Idle => "idle"@,
        Status::Invisible => "invisible"@,
        Status::Offline => "offline"@,
    }
}

impl Status {
    /// The wire text of the status.
    pub fn as_text(self) -> (t: String)
        ensures
            t@ == spec_status_text(self),
    {
        match self {
            Status::Online => String::from_str("online"),
            Status::DoNotDisturb => String::from_str("dnd"),
            Status::Idle => String::from_str("idle"),
            Status::Invisible => String::from_str("invisible"),
            Status::Offline => String::from_str("offline"),
        }
    }
}

} // verus!
