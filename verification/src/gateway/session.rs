//! The gateway session state machine: heartbeating, ack tracking, and the
//! reconnect, resume and identify policy.  The machine is a pure function
//! from state and input to next state and actions; the worker that owns
//! the socket performs the actions in order.

use vstd::prelude::*;

use crate::gateway::dispatch_event::DispatchEvent;
use crate::gateway::event::Event;

verus! {

/// The session-side state the machine tracks.
#[derive(Debug)]
pub struct SessionState {
    pub session_id: Option<String>,
    pub sequence_number: Option<u64>,
    pub heartbeat_interval: Option<u64>,
    pub last_heartbeat: u64,
    pub last_heartbeat_ack: bool,
}

/// The model of a session state: the session id as its characters.
pub struct SessionVal {
    pub session_id: Option<Seq<char>>,
    pub sequence_number: Option<u64>,
    pub heartbeat_interval: Option<u64>,
    pub last_heartbeat: u64,
    pub last_heartbeat_ack: bool,
}

impl View for SessionState {
    type V = SessionVal;

    open spec fn view(&self) -> SessionVal {
        SessionVal {
            session_id: match self.session_id {
                Option::Some(s) => Some(s@),
                Option::None => None,
            },
            sequence_number: self.sequence_number,
            heartbeat_interval: self.heartbeat_interval,
            last_heartbeat: self.last_heartbeat,
            last_heartbeat_ack: self.last_heartbeat_ack,
        }
    }
}

/// What the worker is told to do, in order.
#[derive(Debug)]
pub enum GatewayAction {
    /// Send a heartbeat frame carrying this sequence number.
    SendHeartbeat(Option<u64>),
    /// Send an identify frame.
    SendIdentify,
    /// Send a resume frame carrying this session id and sequence number.
    SendResume(Option<String>, Option<u64>),
    /// Tear the connection down and open a fresh one.
    Reconnect,
    /// Sleep this many milliseconds before going on.
    SleepMs(u64),
    /// Hand this dispatch event to the event channel.
    Forward(DispatchEvent),
}

/// The model of an action; the slept amount is random and not part of the
/// model.
pub enum ActVal {
    Heartbeat(Option<u64>),
    Identify,
    Resume(Option<Seq<char>>, Option<u64>),
    Reconnect,
    Sleep,
    Forward(DispatchEvent),
}

/// The model of one action.
pub open spec fn act_view(a: GatewayAction) -> ActVal {
    match a {
        GatewayAction::SendHeartbeat(n) => ActVal::Heartbeat(n),
        GatewayAction::SendIdentify => ActVal::Identify,
        GatewayAction::SendResume(sid, n) => ActVal::Resume(
            match sid {
                Option::Some(s) => Some(s@),
                Option::None => None,
            },
            n,
        ),
        GatewayAction::Reconnect => ActVal::Reconnect,
        GatewayAction::SleepMs(_) => ActVal::Sleep,
        GatewayAction::Forward(d) => ActVal::Forward(d),
    }
}

/// The models of a list of actions, in order.
pub open spec fn acts_view(s: Seq<GatewayAction>) -> Seq<ActVal> {
    s.map_values(|a: GatewayAction| act_view(a))
}

/// The transition on one inbound event: what the machine becomes and what
/// it sends.
///
/// - A dispatch records its sequence number, a ready additionally records
///   the session id, and the event is forwarded.
/// - A heartbeat request is answered at once, resetting the heartbeat
///   clock and clearing the ack flag.
/// - A heartbeat acknowledgement sets the ack flag.
/// - A reconnect directive reconnects, then resumes with the current
///   session id and sequence number.
/// - An invalid session sleeps a random delay, reconnects, then resumes
///   when the session is resumable, else clears the session id and
///   identifies.
/// - A hello records the heartbeat interval and identifies when no
///   session is open yet; on a reconnect mid-session the resume was
///   already issued, so nothing more is sent.
/// - An unrecognised frame changes nothing.
pub open spec fn step_event(s: SessionVal, event: Event, now_ms: u64) -> (SessionVal, Seq<ActVal>) {
    match event {
        Event::Dispatch(d) => {
            let sid = match d.kind {
                crate::gateway::dispatch_event::DispatchEventKind::Ready(r) => Some(r.session_id@),
                _ => s.session_id,
            };
            (
                SessionVal {
                    session_id: sid,
                    sequence_number: Some(d.sequence_number),
                    ..s
                },
                seq![ActVal::Forward(d)],
            )
        },
        Event::Heartbeat => (
            SessionVal { last_heartbeat: now_ms, last_heartbeat_ack: false, ..s },
            seq![ActVal::Heartbeat(s.sequence_number)],
        ),
        Event::HeartbeatAck => (SessionVal { last_heartbeat_ack: true, ..s }, Seq::empty()),
        Event::Reconnect => (
            s,
            seq![ActVal::Reconnect, ActVal::Resume(s.session_id, s.sequence_number)],
        ),
        Event::InvalidSession(resumable) => {
            if resumable {
                (
                    s,
                    seq![
                        ActVal::Sleep,
                        ActVal::Reconnect,
                        ActVal::Resume(s.session_id, s.sequence_number),
                    ],
                )
            } else {
                (
                    SessionVal { session_id: None, ..s },
                    seq![ActVal::Sleep, ActVal::Reconnect, ActVal::Identify],
                )
            }
        },
        Event::Hello(h) => (
            SessionVal { heartbeat_interval: Some(h.heartbeat_interval), ..s },
            if s.session_id is None {
                seq![ActVal::Identify]
            } else {
                Seq::empty()
            },
        ),
        Event::Unknown(_) => (s, Seq::empty()),
    }
}

/// Whether a heartbeat is due: an interval is known and it has elapsed
/// since the last heartbeat.
pub open spec fn heartbeat_due(s: SessionVal, now_ms: u64) -> bool {
    s.heartbeat_interval matches Some(h) && now_ms >= s.last_heartbeat + h
}

/// The transition on a timer tick.  When a heartbeat is due and the last
/// one was never acknowledged, the link is presumed dead: reconnect and
/// resume come first.  Either way the heartbeat is sent, the clock reset,
/// and the ack flag cleared.
pub open spec fn step_tick(s: SessionVal, now_ms: u64) -> (SessionVal, Seq<ActVal>) {
    if heartbeat_due(s, now_ms) {
        let s2 = SessionVal { last_heartbeat: now_ms, last_heartbeat_ack: false, ..s };
        if s.last_heartbeat_ack {
            (s2, seq![ActVal::Heartbeat(s.sequence_number)])
        } else {
            (
                s2,
                seq![
                    ActVal::Reconnect,
                    ActVal::Resume(s.session_id, s.sequence_number),
                    ActVal::Heartbeat(s.sequence_number),
                ],
            )
        }
    } else {
        (s, Seq::empty())
    }
}

/// Relies on rand's `Rng::gen_range` over a thread-local generator: the
/// result of sampling a non-empty inclusive range lies inside it.
#[verifier::external_body]
fn random_jitter_ms() -> (r: u64)
    ensures
        1000 <= r <= 5000,
{
    rand::Rng::gen_range(&mut rand::thread_rng(), 1000u64..=5000u64)
}

impl SessionState {
    /// A fresh session: nothing known, the heartbeat clock starting now.
    pub fn new(now_ms: u64) -> (s: SessionState)
        ensures
            s@.session_id is None,
            s@.sequence_number is None,
            s@.heartbeat_interval is None,
            s@.last_heartbeat == now_ms,
            s@.last_heartbeat_ack == false,
    {
        SessionState {
            session_id: None,
            sequence_number: None,
            heartbeat_interval: None,
            last_heartbeat: now_ms,
            last_heartbeat_ack: false,
        }
    }

    /// Runs the transition table on one inbound event.  The slept delay
    /// on an invalid session is uniformly random between one and five
    /// seconds, as the protocol demands of reconnect storms.
    pub fn handle_event(&mut self, event: Event, now_ms: u64) -> (actions: Vec<GatewayAction>)
        ensures
            final(self)@ == step_event(old(self)@, event, now_ms).0,
            acts_view(actions@) == step_event(old(self)@, event, now_ms).1,
            forall|k: int|
                0 <= k < actions@.len() ==> (#[trigger] actions@[k] matches GatewayAction::SleepMs(
                    ms,
                ) ==> 1000 <= ms <= 5000),
    {
        let ghost pre = self@;
        let mut actions: Vec<GatewayAction> = Vec::new();
        match event {
            Event::Dispatch(d) => {
                if let Some(r) = d.kind.as_ready() {
                    self.session_id = Some(r.session_id.clone());
                }
                self.sequence_number = Some(d.sequence_number);
                actions.push(GatewayAction::Forward(d));
            },
            Event::Heartbeat => {
                actions.push(GatewayAction::SendHeartbeat(self.sequence_number));
                self.last_heartbeat = now_ms;
                self.last_heartbeat_ack = false;
            },
            Event::HeartbeatAck => {
                self.last_heartbeat_ack = true;
            },
            Event::Reconnect => {
                actions.push(GatewayAction::Reconnect);
                actions.push(
                    GatewayAction::SendResume(clone_opt_string(&self.session_id), self.sequence_number),
                );
            },
            Event::InvalidSession(resumable) => {
                actions.push(GatewayAction::SleepMs(random_jitter_ms()));
                actions.push(GatewayAction::Reconnect);
                if resumable {
                    actions.push(
                        GatewayAction::SendResume(
                            clone_opt_string(&self.session_id),
                            self.sequence_number,
                        ),
                    );
                } else {
                    self.session_id = None;
                    actions.push(GatewayAction::SendIdentify);
                }
            },
            Event::Hello(h) => {
                self.heartbeat_interval = Some(h.heartbeat_interval);
                if self.session_id.is_none() {
                    actions.push(GatewayAction::SendIdentify);
                }
            },
            Event::Unknown(_) => {},
        }
        proof {
            assert(acts_view(actions@) =~= step_event(pre, event, now_ms).1);
        }
        actions
    }

    /// Runs the heartbeat timer: sends the due heartbeat, preceded by a
    /// reconnect and resume when the last one was never acknowledged.
    pub fn heartbeat_tick(&mut self, now_ms: u64) -> (actions: Vec<GatewayAction>)
        ensures
            final(self)@ == step_tick(old(self)@, now_ms).0,
            acts_view(actions@) == step_tick(old(self)@, now_ms).1,
    {
        let ghost pre = self@;
        let mut actions: Vec<GatewayAction> = Vec::new();
        let due: bool = match self.heartbeat_interval {
            Some(h) => now_ms >= self.last_heartbeat && now_ms - self.last_heartbeat >= h,
            None => false,
        };
        proof {
            assert(due == heartbeat_due(pre, now_ms));
        }
        if due {
            if !self.last_heartbeat_ack {
                actions.push(GatewayAction::Reconnect);
                actions.push(
                    GatewayAction::SendResume(clone_opt_string(&self.session_id), self.sequence_number),
                );
            }
            actions.push(GatewayAction::SendHeartbeat(self.sequence_number));
            self.last_heartbeat = now_ms;
            self.last_heartbeat_ack = false;
        }
        proof {
            assert(acts_view(actions@) =~= step_tick(pre, now_ms).1);
        }
        actions
    }
}

/// Copies an optional session id.
fn clone_opt_string(s: &Option<String>) -> (r: Option<String>)
    ensures
        (r matches Some(x) ==> s matches Some(y) && x@ == y@),
        (r is None <==> s is None),
{
    match s {
        Some(x) => Some(x.clone()),
        None => None,
    }
}

/// One input to the machine: a timer tick or an inbound event.
pub enum StepInput {
    Tick(u64),
    Inbound(Event, u64),
}

/// The transition on one input.
pub open spec fn step(s: SessionVal, input: StepInput) -> (SessionVal, Seq<ActVal>) {
    match input {
        StepInput::Tick(now) => step_tick(s, now),
        StepInput::Inbound(e, now) => step_event(s, e, now),
    }
}

/// The state before input `i` of a run.
pub open spec fn state_at(s0: SessionVal, inputs: Seq<StepInput>, i: int) -> SessionVal
    decreases i,
{
    if i <= 0 {
        s0
    } else {
        step(state_at(s0, inputs, i - 1), inputs[i - 1]).0
    }
}

/// The actions of input `i` of a run.
pub open spec fn acts_at(s0: SessionVal, inputs: Seq<StepInput>, i: int) -> Seq<ActVal> {
    step(state_at(s0, inputs, i), inputs[i]).1
}

/// Law: the machine never sends an identify while a session id is held.
/// Whenever a step of any run emits an identify, the machine's session id
/// as of that send — the state the step leaves — is unset: a fresh
/// identify always starts from a cleared session.
pub proof fn lemma_identify_only_without_session(
    s0: SessionVal,
    inputs: Seq<StepInput>,
    i: int,
    k: int,
)
    requires
        0 <= i < inputs.len(),
        0 <= k < acts_at(s0, inputs, i).len(),
        acts_at(s0, inputs, i)[k] is Identify,
    ensures
        state_at(s0, inputs, i + 1).session_id is None,
{
    let s = state_at(s0, inputs, i);
    assert(state_at(s0, inputs, i + 1) == step(s, inputs[i]).0);
}

/// Whether, after the inputs seen so far, the machine holds a session id:
/// a ready dispatch opens one, a non-resumable invalid session closes it,
/// and nothing else touches it.
pub open spec fn session_present(present0: bool, inputs: Seq<StepInput>) -> bool
    decreases inputs.len(),
{
    if inputs.len() == 0 {
        present0
    } else {
        let prev = session_present(present0, inputs.drop_last());
        match inputs.last() {
            StepInput::Inbound(Event::Dispatch(d), _) => {
                if d.kind is Ready {
                    true
                } else {
                    prev
                }
            },
            StepInput::Inbound(Event::InvalidSession(resumable), _) => {
                if resumable {
                    prev
                } else {
                    false
                }
            },
            _ => prev,
        }
    }
}

/// The machine's session id is set exactly when the inputs so far say so.
pub proof fn lemma_session_tracking(s0: SessionVal, inputs: Seq<StepInput>, i: int)
    requires
        0 <= i <= inputs.len(),
    ensures
        state_at(s0, inputs, i).session_id is Some <==> session_present(
            s0.session_id is Some,
            inputs.take(i),
        ),
    decreases i,
{
    if i == 0 {
        assert(inputs.take(0) =~= Seq::<StepInput>::empty());
    } else {
        lemma_session_tracking(s0, inputs, i - 1);
        assert(inputs.take(i).drop_last() =~= inputs.take(i - 1));
        assert(inputs.take(i).last() == inputs[i - 1]);
    }
}

/// Law: the machine never sends a resume while its session id is unset,
/// on any run in which each resume-triggering input — a reconnect
/// directive, a resumable invalid session, or a due tick with the last
/// heartbeat unacknowledged — arrives only when the inputs so far have
/// opened a session and not closed it again.  Each resume then carries
/// that session id.
pub proof fn lemma_resume_only_with_session(
    s0: SessionVal,
    inputs: Seq<StepInput>,
    i: int,
    k: int,
)
    requires
        0 <= i < inputs.len(),
        0 <= k < acts_at(s0, inputs, i).len(),
        acts_at(s0, inputs, i)[k] is Resume,
        session_present(s0.session_id is Some, inputs.take(i)),
    ensures
        acts_at(s0, inputs, i)[k]->Resume_0 is Some,
        acts_at(s0, inputs, i)[k]->Resume_0 == state_at(s0, inputs, i).session_id,
{
    lemma_session_tracking(s0, inputs, i);
}

/// Only a heartbeat acknowledgement sets the ack flag; every other input
/// leaves it clear when it was clear.
proof fn lemma_ack_set_only_by_ack(s: SessionVal, input: StepInput)
    requires
        !s.last_heartbeat_ack,
        !(input matches StepInput::Inbound(e, _) && e is HeartbeatAck),
    ensures
        !step(s, input).0.last_heartbeat_ack,
{
}

/// A step that sends no heartbeat keeps the ack flag set.
proof fn lemma_ack_kept_without_heartbeat(s: SessionVal, input: StepInput)
    requires
        s.last_heartbeat_ack,
        forall|m: int|
            0 <= m < step(s, input).1.len() ==> !((#[trigger] step(s, input).1[m]) is Heartbeat),
    ensures
        step(s, input).0.last_heartbeat_ack,
{
    match input {
        StepInput::Tick(now) => {
            if heartbeat_due(s, now) {
                assert(step(s, input).1.last() is Heartbeat);
            }
        },
        StepInput::Inbound(e, _) => {
            if e is Heartbeat {
                assert(step(s, input).1[0] is Heartbeat);
            }
        },
    }
}

/// Law: once a heartbeat acknowledgement arrives, the ack flag stays set
/// until the next heartbeat is sent.  For any run, if input `i` is the
/// acknowledgement and no step up to `k` sends a heartbeat, the machine
/// still holds the flag at `k`.
pub proof fn lemma_ack_holds_until_heartbeat(
    s0: SessionVal,
    inputs: Seq<StepInput>,
    i: int,
    k: int,
)
    requires
        0 <= i < k <= inputs.len(),
        inputs[i] matches StepInput::Inbound(e, _) && e is HeartbeatAck,
        forall|j: int, m: int|
            i < j < k && 0 <= m < acts_at(s0, inputs, j).len() ==> !((#[trigger] acts_at(
                s0,
                inputs,
                j,
            )[m]) is Heartbeat),
    ensures
        state_at(s0, inputs, k).last_heartbeat_ack,
    decreases k - i,
{
    if k == i + 1 {
        assert(state_at(s0, inputs, k) == step(state_at(s0, inputs, i), inputs[i]).0);
    } else {
        lemma_ack_holds_until_heartbeat(s0, inputs, i, k - 1);
        assert(acts_at(s0, inputs, k - 1) == step(state_at(s0, inputs, k - 1), inputs[k - 1]).1);
        assert(forall|m: int|
            0 <= m < acts_at(s0, inputs, k - 1).len() ==> !((#[trigger] acts_at(
                s0,
                inputs,
                k - 1,
            )[m]) is Heartbeat));
        lemma_ack_kept_without_heartbeat(state_at(s0, inputs, k - 1), inputs[k - 1]);
    }
}

/// The ack flag stays clear while no acknowledgement arrives.
proof fn lemma_ack_stays_clear(s0: SessionVal, inputs: Seq<StepInput>, i: int, k: int)
    requires
        0 <= i <= k <= inputs.len(),
        !state_at(s0, inputs, i).last_heartbeat_ack,
        forall|j: int|
            i <= j < k ==> !(#[trigger] inputs[j] matches StepInput::Inbound(e, _)
                && e is HeartbeatAck),
    ensures
        !state_at(s0, inputs, k).last_heartbeat_ack,
    decreases k - i,
{
    if k > i {
        lemma_ack_stays_clear(s0, inputs, i, k - 1);
        lemma_ack_set_only_by_ack(state_at(s0, inputs, k - 1), inputs[k - 1]);
    }
}

/// Law: a missed acknowledgement forces a reconnect-then-resume before
/// the next heartbeat.  If a due tick sends a heartbeat at input `i`, no
/// acknowledgement arrives afterwards, and the next due tick comes at
/// input `k`, then that tick issues exactly a reconnect, then a resume
/// with the session id and sequence number the machine then holds, and
/// only then the heartbeat.
pub proof fn lemma_missed_ack_reconnects(
    s0: SessionVal,
    inputs: Seq<StepInput>,
    i: int,
    k: int,
)
    requires
        0 <= i < k < inputs.len(),
        inputs[i] matches StepInput::Tick(t1) && heartbeat_due(state_at(s0, inputs, i), t1),
        inputs[k] matches StepInput::Tick(t2) && heartbeat_due(state_at(s0, inputs, k), t2),
        forall|j: int|
            i < j < k ==> !(#[trigger] inputs[j] matches StepInput::Inbound(e, _)
                && e is HeartbeatAck),
    ensures
        ({
            let s = state_at(s0, inputs, k);
            acts_at(s0, inputs, k) == seq![
                ActVal::Reconnect,
                ActVal::Resume(s.session_id, s.sequence_number),
                ActVal::Heartbeat(s.sequence_number),
            ]
        }),
{
    assert(!state_at(s0, inputs, i + 1).last_heartbeat_ack) by {
        assert(state_at(s0, inputs, i + 1) == step(state_at(s0, inputs, i), inputs[i]).0);
    };
    lemma_ack_stays_clear(s0, inputs, i + 1, k);
    let s = state_at(s0, inputs, k);
    assert(acts_at(s0, inputs, k) =~= seq![
        ActVal::Reconnect,
        ActVal::Resume(s.session_id, s.sequence_number),
        ActVal::Heartbeat(s.sequence_number),
    ]);
}

} // verus!
