//! The gateway protocol: op-codes, the inbound event envelope, the
//! outbound frames, and the session state machine that drives them.  The
//! socket itself lives outside; everything here is the wire logic.

pub mod dispatch_event;
pub mod event;
pub mod frames;
pub mod intents;
pub mod session;
pub mod status;

pub use dispatch_event::{DispatchEvent, DispatchEventKind, Ready};
pub use event::{Event, HelloEvent};
pub use intents::Intents;
pub use session::{GatewayAction, SessionState};
pub use status::Status;

use vstd::prelude::*;

verus! {

/// The op-codes of the gateway protocol.
#[derive(Debug, Clone, Copy, PartialEq, Eq, Structural)]
pub enum OpCode {
    Dispatch,
    Heartbeat,
    Identify,
    PresenceUpdate,
    VoiceStateUpdate,
    Resume,
    Reconnect,
    RequestGuildMembers,
    InvalidSession,
    Hello,
    HeartbeatAck,
}

/// The wire number of an op-code.
pub open spec fn spec_op_code(op: OpCode) -> u64 {
    match op {
        OpCode::Dispatch => 0,
        OpCode::Heartbeat => 1,
        OpCode::Identify => 2,
        OpCode::PresenceUpdate => 3,
        OpCode::VoiceStateUpdate => 4,
        OpCode::Resume => 6,
        OpCode::Reconnect => 7,
        OpCode::RequestGuildMembers => 8,
        OpCode::InvalidSession => 9,
        OpCode::Hello => 10,
        OpCode::HeartbeatAck => 11,
    }
}

/// The op-code a wire number denotes.
pub open spec fn spec_op_from(n: u64) -> Option<OpCode> {
    if n == 0 {
        Some(OpCode::Dispatch)
    } else if n == 1 {
        Some(OpCode::Heartbeat)
    } else if n == 2 {
        Some(OpCode::Identify)
    } else if n == 3 {
        Some(OpCode::PresenceUpdate)
    } else if n == 4 {
        Some(OpCode::VoiceStateUpdate)
    } else if n == 6 {
        Some(OpCode::Resume)
    } else if n == 7 {
        Some(OpCode::Reconnect)
    } else if n == 8 {
        Some(OpCode::RequestGuildMembers)
    } else if n == 9 {
        Some(OpCode::InvalidSession)
    } else if n == 10 {
        Some(OpCode::Hello)
    } else if n == 11 {
        Some(OpCode::HeartbeatAck)
    } else {
        None
    }
}

impl OpCode {
    /// The wire number of the op-code.
    pub fn code(self) -> (n: u64)
        ensures
            n == spec_op_code(self),
    {
        match self {
            OpCode::Dispatch => 0,
            OpCode::Heartbeat => 1,
            OpCode::Identify => 2,
            OpCode::PresenceUpdate => 3,
            OpCode::VoiceStateUpdate => 4,
            OpCode::Resume => 6,
            OpCode::Reconnect => 7,
            OpCode::RequestGuildMembers => 8,
            OpCode::InvalidSession => 9,
            OpCode::Hello => 10,
            OpCode::HeartbeatAck => 11,
        }
    }

    /// The op-code of a wire number.
    pub fn from_code(n: u64) -> (r: Option<OpCode>)
        ensures
            r == spec_op_from(n),
    {
        if n == 0 {
            Some(OpCode::Dispatch)
        } else if n == 1 {
            Some(OpCode::Heartbeat)
        } else if n == 2 {
            Some(OpCode::Identify)
        } else if n == 3 {
            Some(OpCode::PresenceUpdate)
        } else if n == 4 {
            Some(OpCode::VoiceStateUpdate)
        } else if n == 6 {
            Some(OpCode::Resume)
        } else if n == 7 {
            Some(OpCode::Reconnect)
        } else if n == 8 {
            Some(OpCode::RequestGuildMembers)
        } else if n == 9 {
            Some(OpCode::InvalidSession)
        } else if n == 10 {
            Some(OpCode::Hello)
        } else if n == 11 {
            Some(OpCode::HeartbeatAck)
        } else {
            None
        }
    }
}

} // verus!
