//! The inbound event envelope: every frame is an object whose `op` field
//! dictates its meaning.

use vstd::prelude::*;

use crate::gateway::dispatch_event::{DispatchEvent, dispatch_from_json, dispatch_matches,
    dispatch_wf};
use crate::json::{Json, JsonVal, clone_json, json_get, jv_get};
use crate::json::parse::{parse_json_text, spec_parse_json};
use crate::model::fields::{req_bool, req_u64, spec_req_bool, spec_req_u64};

verus! {

/// The interval the server's hello dictates, in milliseconds.
#[derive(Debug, Clone, Copy, PartialEq, Eq, Structural)]
pub struct HelloEvent {
    pub heartbeat_interval: u64,
}

/// A decoded inbound frame.
#[derive(Debug, PartialEq)]
pub enum Event {
    Dispatch(DispatchEvent),
    Heartbeat,
    Reconnect,
    InvalidSession(bool),
    Hello(HelloEvent),
    HeartbeatAck,
    Unknown(Json),
}

impl Event {
    /// The hello payload, if that is what this is.
    pub fn hello(&self) -> (r: Option<&HelloEvent>)
        ensures
            r matches Some(h) ==> self matches Event::Hello(x) && h == x,
            r is None ==> !(self is Hello),
    {
        match self {
            Event::Hello(event) => Some(event),
            _ => None,
        }
    }

    /// The dispatch event, if that is what this is.
    pub fn dispatch(&self) -> (r: Option<&DispatchEvent>)
        ensures
            r matches Some(d) ==> self matches Event::Dispatch(x) && d == x,
            r is None ==> !(self is Dispatch),
    {
        match self {
            Event::Dispatch(event) => Some(event),
            _ => None,
        }
    }

    /// The dispatch event, consumed, if that is what this is.
    pub fn into_dispatch(self) -> (r: Option<DispatchEvent>)
        ensures
            r matches Some(d) ==> self == Event::Dispatch(d),
            r is None ==> !(self is Dispatch),
    {
        match self {
            Event::Dispatch(event) => Some(event),
            _ => None,
        }
    }
}

/// A frame object decodes to an event: it needs a numeric `op`; op zero
/// must carry a dispatch event, op nine a boolean `d`, op ten a `d` whose
/// `heartbeat_interval` is a number; ops one, seven and eleven carry
/// nothing; any other op needs only a `d`, kept opaque.
pub open spec fn event_wf(v: JsonVal) -> bool {
    match spec_req_u64(v, "op"@) {
        Option::None => false,
        Option::Some(op) => {
            if op == 0 {
                dispatch_wf(v)
            } else if op == 1 || op == 7 || op == 11 {
                true
            } else if op == 9 {
                spec_req_bool(v, "d"@) is Some
            } else if op == 10 {
                jv_get(v, "d"@) matches Some(d) && spec_req_u64(d, "heartbeat_interval"@) is Some
            } else {
                jv_get(v, "d"@) is Some
            }
        },
    }
}

/// `e` is the event the frame object carries, by its op-code: zero a
/// dispatch, one a heartbeat request, seven a reconnect directive, nine an
/// invalid-session notice carrying whether the session can be resumed, ten
/// a hello carrying the heartbeat interval in milliseconds, eleven a
/// heartbeat acknowledgement, and anything else the opaque payload.
pub open spec fn event_matches(e: Event, v: JsonVal) -> bool {
    match spec_req_u64(v, "op"@) {
        Option::None => false,
        Option::Some(op) => {
            if op == 0 {
                e matches Event::Dispatch(d) && dispatch_matches(d, v)
            } else if op == 1 {
                e == Event::Heartbeat
            } else if op == 7 {
                e == Event::Reconnect
            } else if op == 9 {
                e matches Event::InvalidSession(b) && spec_req_bool(v, "d"@) == Some(b)
            } else if op == 10 {
                e matches Event::Hello(h) && jv_get(v, "d"@) matches Some(d) && spec_req_u64(
                    d,
                    "heartbeat_interval"@,
                ) == Some(h.heartbeat_interval)
            } else if op == 11 {
                e == Event::HeartbeatAck
            } else {
                e matches Event::Unknown(u) && jv_get(v, "d"@) == Some(u@)
            }
        },
    }
}

/// Decodes an event from a frame object.
pub fn event_from_json(j: &Json) -> (r: Option<Event>)
    ensures
        r is Some <==> event_wf(j@),
        r matches Some(e) ==> event_matches(e, j@),
{
    let op = match req_u64(j, "op") {
        Some(n) => n,
        None => { return None },
    };
    if op == 0 {
        match dispatch_from_json(j) {
            Some(d) => Some(Event::Dispatch(d)),
            None => None,
        }
    } else if op == 1 {
        Some(Event::Heartbeat)
    } else if op == 7 {
        Some(Event::Reconnect)
    } else if op == 9 {
        match req_bool(j, "d") {
            Some(b) => Some(Event::InvalidSession(b)),
            None => None,
        }
    } else if op == 10 {
        match json_get(j, "d") {
            Some(d) => match req_u64(d, "heartbeat_interval") {
                Some(ms) => Some(Event::Hello(HelloEvent { heartbeat_interval: ms })),
                None => None,
            },
            None => None,
        }
    } else if op == 11 {
        Some(Event::HeartbeatAck)
    } else {
        match json_get(j, "d") {
            Some(d) => Some(Event::Unknown(clone_json(d))),
            None => None,
        }
    }
}

/// A frame text decodes to an event: it parses as JSON and the document
/// carries an event.
pub open spec fn frame_ok(s: Seq<char>) -> bool {
    spec_parse_json(s) matches Some(v) && event_wf(v)
}

/// Decodes one frame text; a frame that does not parse, or whose document
/// carries no event, yields nothing.
pub fn decode_frame(text: &str) -> (r: Option<Event>)
    ensures
        r is Some <==> frame_ok(text@),
        r matches Some(e) ==> event_matches(e, spec_parse_json(text@)->0),
{
    match parse_json_text(text) {
        Some(j) => event_from_json(&j),
        None => None,
    }
}

/// Decodes a batch of frame texts, dropping the frames that do not decode
/// and keeping the rest in their arrival order.  The result is exactly the
/// decodable frames: `picks` names, in increasing order, the index of the
/// frame each event came from, and every decodable frame is picked.
pub fn classify_frames(texts: &Vec<String>) -> (r: (Vec<Event>, Ghost<Seq<int>>))
    ensures
        ({
            let events = r.0;
            let picks = r.1@;
            &&& picks.len() == events@.len()
            &&& (forall|k: int|
                0 <= k < picks.len() ==> 0 <= #[trigger] picks[k] < texts@.len())
            &&& (forall|k: int|
                #![trigger picks[k]]
                0 <= k < picks.len() ==> frame_ok(texts@[picks[k]]@) && event_matches(
                    events@[k],
                    spec_parse_json(texts@[picks[k]]@)->0,
                ))
            &&& (forall|k: int| 0 <= k < picks.len() - 1 ==> #[trigger] picks[k] < picks[k + 1])
            &&& (forall|i: int|
                0 <= i < texts@.len() && frame_ok(#[trigger] texts@[i]@) ==> exists|k: int|
                    0 <= k < picks.len() && picks[k] == i)
        }),
{
    let n = texts.len();
    let mut events: Vec<Event> = Vec::new();
    let ghost mut picks: Seq<int> = Seq::empty();
    let mut i: usize = 0;
    while i < n
        invariant
            i <= n,
            n == texts@.len(),
            picks.len() == events@.len(),
            forall|k: int| 0 <= k < picks.len() ==> 0 <= #[trigger] picks[k] < i,
            forall|k: int|
                #![trigger picks[k]]
                0 <= k < picks.len() ==> frame_ok(texts@[picks[k]]@) && event_matches(
                    events@[k],
                    spec_parse_json(texts@[picks[k]]@)->0,
                ),
            forall|k: int| 0 <= k < picks.len() - 1 ==> #[trigger] picks[k] < picks[k + 1],
            forall|j: int|
                0 <= j < i && frame_ok(#[trigger] texts@[j]@) ==> exists|k: int|
                    0 <= k < picks.len() && picks[k] == j,
        decreases n - i,
    {
        let ghost old_picks = picks;
        let ghost old_events = events@;
        match decode_frame(texts[i].as_str()) {
            Some(e) => {
                events.push(e);
                proof {
                    picks = picks.push(i as int);
                    assert(picks[picks.len() - 1] == i as int);
                    assert(events@[events@.len() - 1] == e);
                    assert forall|k: int| 0 <= k < picks.len() - 1 implies #[trigger] picks[k]
                        == old_picks[k] && events@[k] == old_events[k] by {}
                }
            },
            None => {},
        }
        i = i + 1;
        proof {
            assert forall|j: int|
                0 <= j < i && frame_ok(#[trigger] texts@[j]@) implies exists|k: int|
                    0 <= k < picks.len() && picks[k] == j by {
                if j < i - 1 || old_picks != picks {
                    if j < i - 1 {
                        let k0 = choose|k0: int| 0 <= k0 < old_picks.len() && old_picks[k0] == j;
                        assert(0 <= k0 < picks.len() && picks[k0] == j);
                    } else {
                        assert(picks[picks.len() - 1] == j);
                    }
                }
            }
        }
    }
    (events, Ghost(picks))
}

/// Law: a hello frame decodes one way.  Any event matching a frame object
/// whose op is ten and whose `d.heartbeat_interval` is `x` is the hello
/// carrying `x` milliseconds.
pub proof fn lemma_hello_decodes_uniquely(v: JsonVal, e: Event, x: u64)
    requires
        crate::model::fields::spec_req_u64(v, "op"@) == Some(10u64),
        jv_get(v, "d"@) matches Some(d) && crate::model::fields::spec_req_u64(
            d,
            "heartbeat_interval"@,
        ) == Some(x),
        event_matches(e, v),
    ensures
        e == Event::Hello(HelloEvent { heartbeat_interval: x }),
{
}

/// Law: an invalid-session frame decodes one way.  Any event matching a
/// frame object whose op is nine and whose `d` is the boolean `b` is the
/// invalid-session notice carrying `b`.
pub proof fn lemma_invalid_session_decodes_uniquely(v: JsonVal, e: Event, b: bool)
    requires
        crate::model::fields::spec_req_u64(v, "op"@) == Some(9u64),
        crate::model::fields::spec_req_bool(v, "d"@) == Some(b),
        event_matches(e, v),
    ensures
        e == Event::InvalidSession(b),
{
}

/// Law: a message-create frame decodes to a message dispatch.  Any event
/// matching a frame object whose op is zero and whose `t` is
/// `MESSAGE_CREATE` is a dispatch whose kind carries the message `d`
/// describes, under the frame's sequence number.
pub proof fn lemma_message_create_decodes(v: JsonVal, e: Event)
    requires
        crate::model::fields::spec_req_u64(v, "op"@) == Some(0u64),
        crate::model::fields::spec_req_str(v, "t"@) == Some("MESSAGE_CREATE"@),
        event_matches(e, v),
    ensures
        e matches Event::Dispatch(d) && (crate::model::fields::spec_req_u64(v, "s"@) == Some(
            d.sequence_number,
        ) && (d.kind matches crate::gateway::dispatch_event::DispatchEventKind::MessageCreate(m)
            && crate::model::message::message_matches(*m, jv_get(v, "d"@)->0))),
{
    reveal_strlit("READY");
    reveal_strlit("MESSAGE_CREATE");
    assert("READY"@.len() == 5);
    assert("MESSAGE_CREATE"@.len() == 14);
}


} // verus!
