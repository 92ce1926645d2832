//! Dispatch events: server pushes with op-code zero, carrying a sequence
//! number, an event name, and a payload.

use vstd::prelude::*;

use crate::json::{Json, JsonVal, clone_json, json_get, jv_get};
use crate::model::fields::{req_string, req_u64, spec_req_str, spec_req_u64};
use crate::model::message::{Message, message_from_json, message_matches, message_wf};
use crate::model::user::{User, user_from_json, user_matches, user_wf};

verus! {

/// The payload of the ready event: the server accepted the identify and
/// opened a session.
#[derive(Debug, Clone, PartialEq)]
pub struct Ready {
    pub version: u64,
    pub user: User,
    pub session_id: String,
    pub shard: Option<(u64, u64)>,
}

/// A document carries a ready payload: `v` a number, `user` a user,
/// `session_id` a string, `shard` absent, `null`, or a pair of numbers.
pub open spec fn ready_wf(v: JsonVal) -> bool {
    &&& spec_req_u64(v, "v"@) is Some
    &&& (jv_get(v, "user"@) matches Some(u) && user_wf(u))
    &&& spec_req_str(v, "session_id"@) is Some
    &&& match jv_get(v, "shard"@) {
        Option::None => true,
        Option::Some(JsonVal::Null) => true,
        Option::Some(JsonVal::Arr(items)) => items.len() == 2 && items[0] is Num
            && items[1] is Num,
        Option::Some(_) => false,
    }
}

/// `r` is the ready payload the document carries.
pub open spec fn ready_matches(r: Ready, v: JsonVal) -> bool {
    &&& spec_req_u64(v, "v"@) == Some(r.version)
    &&& (jv_get(v, "user"@) matches Some(u) && user_matches(r.user, u))
    &&& spec_req_str(v, "session_id"@) == Some(r.session_id@)
    &&& match jv_get(v, "shard"@) {
        Option::None => r.shard is None,
        Option::Some(JsonVal::Null) => r.shard is None,
        Option::Some(JsonVal::Arr(items)) => r.shard matches Some(p) && items.len() == 2
            && items[0] == JsonVal::Num(p.0) && items[1] == JsonVal::Num(p.1),
        Option::Some(_) => false,
    }
}

/// Decodes a ready payload.
pub fn ready_from_json(j: &Json) -> (r: Option<Ready>)
    ensures
        r is Some <==> ready_wf(j@),
        r matches Some(rd) ==> ready_matches(rd, j@),
{
    let version = match req_u64(j, "v") {
        Some(n) => n,
        None => { return None },
    };
    let user = match json_get(j, "user") {
        Some(x) => match user_from_json(x) {
            Some(u) => u,
            None => { return None },
        },
        None => { return None },
    };
    let session_id = match req_string(j, "session_id") {
        Some(s) => s,
        None => { return None },
    };
    let shard = match json_get(j, "shard") {
        Some(x) => match x {
            Json::Null => None,
            Json::Arr(items) => {
                proof {
                    crate::json::lemma_arr_view_elems(*items);
                }
                if items.len() != 2 {
                    return None;
                }
                let a = match &items[0] {
                    Json::Num(n) => *n,
                    _ => { return None },
                };
                let b = match &items[1] {
                    Json::Num(n) => *n,
                    _ => { return None },
                };
                proof {
                    let ghost m = crate::json::arr_view(x->Arr_0);
                    assert(m[0] == items@[0]@);
                    assert(m[1] == items@[1]@);
                }
                Some((a, b))
            },
            _ => { return None },
        },
        None => None,
    };
    Some(Ready { version, user, session_id, shard })
}

/// What a dispatch event carries, by its event name.
#[derive(Debug, PartialEq)]
pub enum DispatchEventKind {
    Ready(Ready),
    MessageCreate(Box<Message>),
    Unknown(Json),
}

/// A dispatch event: the sequence number and the named payload.
#[derive(Debug, PartialEq)]
pub struct DispatchEvent {
    pub sequence_number: u64,
    pub kind: DispatchEventKind,
}

impl DispatchEventKind {
    /// The ready payload, if that is what this is.
    pub fn as_ready(&self) -> (r: Option<&Ready>)
        ensures
            r matches Some(x) ==> self matches DispatchEventKind::Ready(y) && x == y,
            r is None ==> !(self is Ready),
    {
        match self {
            DispatchEventKind::Ready(event) => Some(event),
            _ => None,
        }
    }

    /// The ready payload, consumed, if that is what this is.
    pub fn into_ready(self) -> (r: Option<Ready>)
        ensures
            r matches Some(x) ==> self == DispatchEventKind::Ready(x),
            r is None ==> !(self is Ready),
    {
        match self {
            DispatchEventKind::Ready(event) => Some(event),
            _ => None,
        }
    }

    /// The created message, if that is what this is.
    pub fn as_message(&self) -> (r: Option<&Message>)
        ensures
            r matches Some(x) ==> self matches DispatchEventKind::MessageCreate(y) && x == &**y,
            r is None ==> !(self is MessageCreate),
    {
        match self {
            DispatchEventKind::MessageCreate(message) => Some(&**message),
            _ => None,
        }
    }
}

/// A frame object carries a dispatch event: `s` a number, `t` a string,
/// `d` present; a `READY` payload must carry a ready, a `MESSAGE_CREATE`
/// payload a message.
pub open spec fn dispatch_wf(v: JsonVal) -> bool {
    &&& spec_req_u64(v, "s"@) is Some
    &&& spec_req_str(v, "t"@) is Some
    &&& jv_get(v, "d"@) is Some
    &&& (spec_req_str(v, "t"@) == Some("READY"@) ==> ready_wf(jv_get(v, "d"@)->0))
    &&& (spec_req_str(v, "t"@) == Some("MESSAGE_CREATE"@) ==> message_wf(jv_get(v, "d"@)->0))
}

/// `e` is the dispatch event the frame object carries: the sequence
/// number is `s`, and the kind is decoded from `d` by the name `t` —
/// `READY` a ready, `MESSAGE_CREATE` a message, any other name the
/// payload itself, kept opaque.
pub open spec fn dispatch_matches(e: DispatchEvent, v: JsonVal) -> bool {
    &&& spec_req_u64(v, "s"@) == Some(e.sequence_number)
    &&& if spec_req_str(v, "t"@) == Some("READY"@) {
        e.kind matches DispatchEventKind::Ready(r) && ready_matches(r, jv_get(v, "d"@)->0)
    } else if spec_req_str(v, "t"@) == Some("MESSAGE_CREATE"@) {
        e.kind matches DispatchEventKind::MessageCreate(m) && message_matches(
            *m,
            jv_get(v, "d"@)->0,
        )
    } else {
        e.kind matches DispatchEventKind::Unknown(u) && u@ == jv_get(v, "d"@)->0
    }
}

/// Decodes a dispatch event from a frame object.
pub fn dispatch_from_json(j: &Json) -> (r: Option<DispatchEvent>)
    ensures
        r is Some <==> dispatch_wf(j@),
        r matches Some(e) ==> dispatch_matches(e, j@),
{
    proof {
        reveal_strlit("READY");
        reveal_strlit("MESSAGE_CREATE");
        assert("READY"@.len() == 5);
        assert("MESSAGE_CREATE"@.len() == 14);
        assert("READY"@ != "MESSAGE_CREATE"@);
    }
    let sequence_number = match req_u64(j, "s") {
        Some(n) => n,
        None => { return None },
    };
    let t = match req_string(j, "t") {
        Some(s) => s,
        None => { return None },
    };
    let d = match json_get(j, "d") {
        Some(x) => x,
        None => { return None },
    };
    let kind: DispatchEventKind;
    if crate::text::str_eq(t.as_str(), "READY") {
        kind = match ready_from_json(d) {
            Some(rd) => DispatchEventKind::Ready(rd),
            None => { return None },
        };
    } else if crate::text::str_eq(t.as_str(), "MESSAGE_CREATE") {
        kind = match message_from_json(d) {
            Some(m) => DispatchEventKind::MessageCreate(Box::new(m)),
            None => { return None },
        };
    } else {
        kind = DispatchEventKind::Unknown(clone_json(d));
    }
    Some(DispatchEvent { sequence_number, kind })
}

} // verus!
