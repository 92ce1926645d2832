//! The outbound frames: heartbeat, identify, resume and presence update,
//! each built as a document and printed to its wire text.

use vstd::prelude::*;

use crate::gateway::intents::Intents;
use crate::gateway::status::{Status, spec_status_text};
use crate::json::{Json, JsonVal, json_to_string, print_json};
use crate::model::activity::{Activity, spec_activity_json};

verus! {

/// The heartbeat frame: op one, `d` the last sequence number or `null`.
pub open spec fn heartbeat_frame_val(sequence_number: Option<u64>) -> JsonVal {
    JsonVal::Obj(
        seq![
            ("op"@, JsonVal::Num(1)),
            (
                "d"@,
                match sequence_number {
                    Option::Some(n) => JsonVal::Num(n),
                    Option::None => JsonVal::Null,
                },
            ),
        ],
    )
}

/// Builds the heartbeat frame text.
pub fn heartbeat_frame(sequence_number: Option<u64>) -> (s: String)
    ensures
        s@ == print_json(heartbeat_frame_val(sequence_number)),
{
    let d = match sequence_number {
        Some(n) => Json::Num(n),
        None => Json::Null,
    };
    let mut members: Vec<(String, Json)> = Vec::new();
    members.push((String::from_str("op"), Json::Num(1)));
    members.push((String::from_str("d"), d));
    let ghost gm = members@;
    let frame = Json::Obj(members);
    proof {
        assert(frame->Obj_0@ == gm);
        crate::json::lemma_obj_view_elems(frame->Obj_0);
        assert(frame@->Obj_0 =~~= heartbeat_frame_val(sequence_number)->Obj_0);
    }
    json_to_string(&frame)
}

/// The properties object of the identify frame.
pub open spec fn identify_properties_val(os: Seq<char>) -> JsonVal {
    JsonVal::Obj(
        seq![
            ("$os"@, JsonVal::Str(os)),
            ("$browser"@, JsonVal::Str("harmony"@)),
            ("$device"@, JsonVal::Str("harmony"@)),
        ],
    )
}

/// The identify frame: op two, `d` the token, the client properties, and
/// the intent mask.
pub open spec fn identify_frame_val(token: Seq<char>, intents: Intents, os: Seq<char>) -> JsonVal {
    JsonVal::Obj(
        seq![
            ("op"@, JsonVal::Num(2)),
            (
                "d"@,
                JsonVal::Obj(
                    seq![
                        ("token"@, JsonVal::Str(token)),
                        ("properties"@, identify_properties_val(os)),
                        ("intents"@, JsonVal::Num(intents.0)),
                    ],
                ),
            ),
        ],
    )
}

/// Builds the identify frame text.  `os` names the operating system the
/// embedder reports in the client properties.
pub fn identify_frame(token: &str, intents: Intents, os: &str) -> (s: String)
    ensures
        s@ == print_json(identify_frame_val(token@, intents, os@)),
{
    let mut props: Vec<(String, Json)> = Vec::new();
    props.push((String::from_str("$os"), Json::Str(String::from_str(os))));
    props.push((String::from_str("$browser"), Json::Str(String::from_str("harmony"))));
    props.push((String::from_str("$device"), Json::Str(String::from_str("harmony"))));
    let ghost gprops = props@;
    let properties = Json::Obj(props);
    proof {
        assert(properties->Obj_0@ == gprops);
        crate::json::lemma_obj_view_elems(properties->Obj_0);
        assert(properties@->Obj_0 =~~= identify_properties_val(os@)->Obj_0);
    }
    let mut d_members: Vec<(String, Json)> = Vec::new();
    d_members.push((String::from_str("token"), Json::Str(String::from_str(token))));
    d_members.push((String::from_str("properties"), properties));
    d_members.push((String::from_str("intents"), Json::Num(intents.0)));
    let ghost gd = d_members@;
    let d = Json::Obj(d_members);
    proof {
        assert(d->Obj_0@ == gd);
        crate::json::lemma_obj_view_elems(d->Obj_0);
        assert(d@->Obj_0 =~~= identify_frame_val(token@, intents, os@)->Obj_0[1].1->Obj_0);
    }
    let mut members: Vec<(String, Json)> = Vec::new();
    members.push((String::from_str("op"), Json::Num(2)));
    let ghost dv = d@;
    members.push((String::from_str("d"), d));
    let ghost gm = members@;
    let frame = Json::Obj(members);
    proof {
        assert(frame->Obj_0@ == gm);
        crate::json::lemma_obj_view_elems(frame->Obj_0);
        assert(gm[1].1@ == dv);
        assert(frame@->Obj_0 =~~= identify_frame_val(token@, intents, os@)->Obj_0);
    }
    json_to_string(&frame)
}

/// The resume frame: op six, `d` the token, the session id (or `null`)
/// and the last sequence number (or `null`).
pub open spec fn resume_frame_val(
    token: Seq<char>,
    session_id: Option<Seq<char>>,
    sequence_number: Option<u64>,
) -> JsonVal {
    JsonVal::Obj(
        seq![
            ("op"@, JsonVal::Num(6)),
            (
                "d"@,
                JsonVal::Obj(
                    seq![
                        ("token"@, JsonVal::Str(token)),
                        (
                            "session_id"@,
                            match session_id {
                                Option::Some(s) => JsonVal::Str(s),
                                Option::None => JsonVal::Null,
                            },
                        ),
                        (
                            "seq"@,
                            match sequence_number {
                                Option::Some(n) => JsonVal::Num(n),
                                Option::None => JsonVal::Null,
                            },
                        ),
                    ],
                ),
            ),
        ],
    )
}

/// Builds the resume frame text.
pub fn resume_frame(token: &str, session_id: &Option<String>, sequence_number: Option<u64>) -> (s:
    String)
    ensures
        s@ == print_json(resume_frame_val(token@, crate::model::fields::view_opt_str(*session_id), sequence_number)),
{
    let sid = match session_id {
        Some(s) => Json::Str(s.clone()),
        None => Json::Null,
    };
    let seq_json = match sequence_number {
        Some(n) => Json::Num(n),
        None => Json::Null,
    };
    let mut d_members: Vec<(String, Json)> = Vec::new();
    d_members.push((String::from_str("token"), Json::Str(String::from_str(token))));
    d_members.push((String::from_str("session_id"), sid));
    d_members.push((String::from_str("seq"), seq_json));
    let ghost gd = d_members@;
    let d = Json::Obj(d_members);
    let ghost val = resume_frame_val(token@, crate::model::fields::view_opt_str(*session_id), sequence_number);
    proof {
        assert(d->Obj_0@ == gd);
        crate::json::lemma_obj_view_elems(d->Obj_0);
        assert(d@->Obj_0 =~~= val->Obj_0[1].1->Obj_0);
    }
    let mut members: Vec<(String, Json)> = Vec::new();
    members.push((String::from_str("op"), Json::Num(6)));
    let ghost dv = d@;
    members.push((String::from_str("d"), d));
    let ghost gm = members@;
    let frame = Json::Obj(members);
    proof {
        assert(frame->Obj_0@ == gm);
        crate::json::lemma_obj_view_elems(frame->Obj_0);
        assert(gm[1].1@ == dv);
        assert(frame@->Obj_0 =~~= val->Obj_0);
    }
    json_to_string(&frame)
}

/// The presence-update frame: op three, `d` the time since which the
/// client has been in this state, the activities (none or one), the
/// status text, and `afk` false.
pub open spec fn presence_frame_val(
    since_ms: u64,
    activity: Option<Activity>,
    status: Status,
) -> JsonVal {
    JsonVal::Obj(
        seq![
            ("op"@, JsonVal::Num(3)),
            (
                "d"@,
                JsonVal::Obj(
                    seq![
                        ("since"@, JsonVal::Num(since_ms)),
                        (
                            "activities"@,
                            JsonVal::Arr(
                                match activity {
                                    Option::Some(a) => seq![spec_activity_json(a)],
                                    Option::None => Seq::empty(),
                                },
                            ),
                        ),
                        ("status"@, JsonVal::Str(spec_status_text(status))),
                        ("afk"@, JsonVal::Bool(false)),
                    ],
                ),
            ),
        ],
    )
}

/// Builds the presence-update frame text.  `since_ms` is the wall-clock
/// moment, in milliseconds since the epoch, the embedder supplies.
pub fn presence_frame(since_ms: u64, activity: &Option<Activity>, status: Status) -> (s: String)
    ensures
        s@ == print_json(presence_frame_val(since_ms, *activity, status)),
{
    let mut acts: Vec<Json> = Vec::new();
    if let Some(a) = activity {
        acts.push(a.to_json());
    }
    let ghost gacts = acts@;
    let activities = Json::Arr(acts);
    let ghost val = presence_frame_val(since_ms, *activity, status);
    proof {
        assert(activities->Arr_0@ == gacts);
        crate::json::lemma_arr_view_elems(activities->Arr_0);
        assert(activities@->Arr_0 =~~= val->Obj_0[1].1->Obj_0[1].1->Arr_0);
    }
    let mut d_members: Vec<(String, Json)> = Vec::new();
    d_members.push((String::from_str("since"), Json::Num(since_ms)));
    d_members.push((String::from_str("activities"), activities));
    d_members.push((String::from_str("status"), Json::Str(status.as_text())));
    d_members.push((String::from_str("afk"), Json::Bool(false)));
    let ghost gd = d_members@;
    let d = Json::Obj(d_members);
    proof {
        assert(d->Obj_0@ == gd);
        crate::json::lemma_obj_view_elems(d->Obj_0);
        assert(d@->Obj_0 =~~= val->Obj_0[1].1->Obj_0);
    }
    let mut members: Vec<(String, Json)> = Vec::new();
    members.push((String::from_str("op"), Json::Num(3)));
    let ghost dv = d@;
    members.push((String::from_str("d"), d));
    let ghost gm = members@;
    let frame = Json::Obj(members);
    proof {
        assert(frame->Obj_0@ == gm);
        crate::json::lemma_obj_view_elems(frame->Obj_0);
        assert(gm[1].1@ == dv);
        assert(frame@->Obj_0 =~~= val->Obj_0);
    }
    json_to_string(&frame)
}

/// Law: the heartbeat frame round-trips through its wire text.  The text
/// the library sends for a heartbeat parses back to exactly the document
/// it printed.
pub proof fn lemma_heartbeat_frame_round_trip(sequence_number: Option<u64>)
    ensures
        crate::json::parse::spec_parse_json(print_json(heartbeat_frame_val(sequence_number)))
            == Some(heartbeat_frame_val(sequence_number)),
{
    let v = heartbeat_frame_val(sequence_number);
    reveal_strlit("op");
    reveal_strlit("d");
    assert("op"@.len() == 2);
    assert("d"@.len() == 1);
    assert(crate::json::parse::printable(v, 128)) by {
        let ms = v->Obj_0;
        assert(crate::json::parse::plain_char("op"@[0]));
        assert(crate::json::parse::plain_char("op"@[1]));
        assert(crate::json::parse::plain_char("d"@[0]));
        assert(crate::json::parse::member_printable(ms[0], 127));
        assert(crate::json::parse::member_printable(ms[1], 127));
    };
    crate::json::parse::lemma_document_round_trip(v);
}


/// Law: the resume frame round-trips through its wire text whenever the
/// token and session id hold only plain characters (no quotes,
/// backslashes or control characters).
pub proof fn lemma_resume_frame_round_trip(
    token: Seq<char>,
    session_id: Option<Seq<char>>,
    sequence_number: Option<u64>,
)
    requires
        forall|j: int| 0 <= j < token.len() ==> crate::json::parse::plain_char(#[trigger] token[j]),
        session_id matches Some(s) ==> forall|j: int|
            0 <= j < s.len() ==> crate::json::parse::plain_char(#[trigger] s[j]),
    ensures
        crate::json::parse::spec_parse_json(
            print_json(resume_frame_val(token, session_id, sequence_number)),
        ) == Some(resume_frame_val(token, session_id, sequence_number)),
{
    let v = resume_frame_val(token, session_id, sequence_number);
    reveal_strlit("op");
    reveal_strlit("d");
    reveal_strlit("token");
    reveal_strlit("session_id");
    reveal_strlit("seq");
    assert("op"@.len() == 2);
    assert("d"@.len() == 1);
    assert("token"@.len() == 5);
    assert("session_id"@.len() == 10);
    assert("seq"@.len() == 3);
    assert(crate::json::parse::printable(v, 128)) by {
        let ms = v->Obj_0;
        assert(forall|j: int|
            0 <= j < "op"@.len() ==> crate::json::parse::plain_char(#[trigger] "op"@[j]));
        assert(forall|j: int|
            0 <= j < "d"@.len() ==> crate::json::parse::plain_char(#[trigger] "d"@[j]));
        assert(forall|j: int|
            0 <= j < "token"@.len() ==> crate::json::parse::plain_char(#[trigger] "token"@[j]));
        assert(forall|j: int|
            0 <= j < "session_id"@.len() ==> crate::json::parse::plain_char(
                #[trigger] "session_id"@[j],
            ));
        assert(forall|j: int|
            0 <= j < "seq"@.len() ==> crate::json::parse::plain_char(#[trigger] "seq"@[j]));
        let d = ms[1].1;
        let dms = d->Obj_0;
        assert(crate::json::parse::member_printable(dms[0], 126));
        assert(crate::json::parse::member_printable(dms[1], 126));
        assert(crate::json::parse::member_printable(dms[2], 126));
        assert(crate::json::parse::printable(d, 127));
        assert(crate::json::parse::member_printable(ms[0], 127));
        assert(crate::json::parse::member_printable(ms[1], 127));
    };
    crate::json::parse::lemma_document_round_trip(v);
}


/// Law: the identify frame round-trips through its wire text whenever the
/// token and the reported operating-system name hold only plain
/// characters.
pub proof fn lemma_identify_frame_round_trip(token: Seq<char>, intents: Intents, os: Seq<char>)
    requires
        forall|j: int| 0 <= j < token.len() ==> crate::json::parse::plain_char(#[trigger] token[j]),
        forall|j: int| 0 <= j < os.len() ==> crate::json::parse::plain_char(#[trigger] os[j]),
    ensures
        crate::json::parse::spec_parse_json(print_json(identify_frame_val(token, intents, os)))
            == Some(identify_frame_val(token, intents, os)),
{
    let v = identify_frame_val(token, intents, os);
    reveal_strlit("op");
    reveal_strlit("d");
    reveal_strlit("token");
    reveal_strlit("properties");
    reveal_strlit("intents");
    reveal_strlit("$os");
    reveal_strlit("$browser");
    reveal_strlit("$device");
    reveal_strlit("harmony");
    assert("op"@.len() == 2);
    assert("d"@.len() == 1);
    assert("token"@.len() == 5);
    assert("properties"@.len() == 10);
    assert("intents"@.len() == 7);
    assert("$os"@.len() == 3);
    assert("$browser"@.len() == 8);
    assert("$device"@.len() == 7);
    assert("harmony"@.len() == 7);
    assert(crate::json::parse::printable(v, 128)) by {
        let ms = v->Obj_0;
        let d = ms[1].1;
        let dms = d->Obj_0;
        let props = dms[1].1;
        let pms = props->Obj_0;
        assert(forall|j: int|
            0 <= j < "op"@.len() ==> crate::json::parse::plain_char(#[trigger] "op"@[j]));
        assert(forall|j: int|
            0 <= j < "d"@.len() ==> crate::json::parse::plain_char(#[trigger] "d"@[j]));
        assert(forall|j: int|
            0 <= j < "token"@.len() ==> crate::json::parse::plain_char(#[trigger] "token"@[j]));
        assert(forall|j: int|
            0 <= j < "properties"@.len() ==> crate::json::parse::plain_char(
                #[trigger] "properties"@[j],
            ));
        assert(forall|j: int|
            0 <= j < "intents"@.len() ==> crate::json::parse::plain_char(
                #[trigger] "intents"@[j],
            ));
        assert(forall|j: int|
            0 <= j < "$os"@.len() ==> crate::json::parse::plain_char(#[trigger] "$os"@[j]));
        assert(forall|j: int|
            0 <= j < "$browser"@.len() ==> crate::json::parse::plain_char(
                #[trigger] "$browser"@[j],
            ));
        assert(forall|j: int|
            0 <= j < "$device"@.len() ==> crate::json::parse::plain_char(
                #[trigger] "$device"@[j],
            ));
        assert(forall|j: int|
            0 <= j < "harmony"@.len() ==> crate::json::parse::plain_char(
                #[trigger] "harmony"@[j],
            ));
        assert(crate::json::parse::member_printable(pms[0], 125));
        assert(crate::json::parse::member_printable(pms[1], 125));
        assert(crate::json::parse::member_printable(pms[2], 125));
        assert(crate::json::parse::printable(props, 126));
        assert(crate::json::parse::member_printable(dms[0], 126));
        assert(crate::json::parse::member_printable(dms[1], 126));
        assert(crate::json::parse::member_printable(dms[2], 126));
        assert(crate::json::parse::printable(d, 127));
        assert(crate::json::parse::member_printable(ms[0], 127));
        assert(crate::json::parse::member_printable(ms[1], 127));
    };
    crate::json::parse::lemma_document_round_trip(v);
}


/// Law: the presence-update frame round-trips through its wire text
/// whenever the activity's name, if one rides along, holds only plain
/// characters.
pub proof fn lemma_presence_frame_round_trip(
    since_ms: u64,
    activity: Option<Activity>,
    status: Status,
)
    requires
        activity matches Some(a) ==> forall|j: int|
            0 <= j < a.name@.len() ==> crate::json::parse::plain_char(#[trigger] a.name@[j]),
    ensures
        crate::json::parse::spec_parse_json(
            print_json(presence_frame_val(since_ms, activity, status)),
        ) == Some(presence_frame_val(since_ms, activity, status)),
{
    let v = presence_frame_val(since_ms, activity, status);
    reveal_strlit("op");
    reveal_strlit("d");
    reveal_strlit("since");
    reveal_strlit("activities");
    reveal_strlit("status");
    reveal_strlit("afk");
    reveal_strlit("type");
    reveal_strlit("name");
    reveal_strlit("online");
    reveal_strlit("dnd");
    reveal_strlit("idle");
    reveal_strlit("invisible");
    reveal_strlit("offline");
    assert("op"@.len() == 2);
    assert("d"@.len() == 1);
    assert("since"@.len() == 5);
    assert("activities"@.len() == 10);
    assert("status"@.len() == 6);
    assert("afk"@.len() == 3);
    assert("type"@.len() == 4);
    assert("name"@.len() == 4);
    assert("online"@.len() == 6);
    assert("dnd"@.len() == 3);
    assert("idle"@.len() == 4);
    assert("invisible"@.len() == 9);
    assert("offline"@.len() == 7);
    assert(forall|j: int|
        0 <= j < spec_status_text(status).len() ==> crate::json::parse::plain_char(
            #[trigger] spec_status_text(status)[j],
        )) by {
        match status {
            Status::Online => {},
            Status::DoNotDisturb => {},
            Status::Idle => {},
            Status::Invisible => {},
            Status::Offline => {},
        }
    };
    assert(crate::json::parse::printable(v, 128)) by {
        let ms = v->Obj_0;
        let d = ms[1].1;
        let dms = d->Obj_0;
        let items = dms[1].1->Arr_0;
        assert(forall|j: int|
            0 <= j < "op"@.len() ==> crate::json::parse::plain_char(#[trigger] "op"@[j]));
        assert(forall|j: int|
            0 <= j < "d"@.len() ==> crate::json::parse::plain_char(#[trigger] "d"@[j]));
        assert(forall|j: int|
            0 <= j < "since"@.len() ==> crate::json::parse::plain_char(#[trigger] "since"@[j]));
        assert(forall|j: int|
            0 <= j < "activities"@.len() ==> crate::json::parse::plain_char(
                #[trigger] "activities"@[j],
            ));
        assert(forall|j: int|
            0 <= j < "status"@.len() ==> crate::json::parse::plain_char(#[trigger] "status"@[j]));
        assert(forall|j: int|
            0 <= j < "afk"@.len() ==> crate::json::parse::plain_char(#[trigger] "afk"@[j]));
        assert(forall|j: int|
            0 <= j < "type"@.len() ==> crate::json::parse::plain_char(#[trigger] "type"@[j]));
        assert(forall|j: int|
            0 <= j < "name"@.len() ==> crate::json::parse::plain_char(#[trigger] "name"@[j]));
        if activity is Some {
            let a = activity->0;
            let act = crate::model::activity::spec_activity_json(a);
            let ams = act->Obj_0;
            assert(crate::json::parse::member_printable(ams[0], 124));
            assert(crate::json::parse::member_printable(ams[1], 124));
            assert(crate::json::parse::printable(act, 125));
            assert(items[0] == act);
            assert(forall|i: int|
                0 <= i < items.len() ==> crate::json::parse::printable(#[trigger] items[i], 125));
        } else {
            assert(items.len() == 0);
        }
        assert(crate::json::parse::member_printable(dms[0], 126));
        assert(crate::json::parse::member_printable(dms[1], 126));
        assert(crate::json::parse::member_printable(dms[2], 126));
        assert(crate::json::parse::member_printable(dms[3], 126));
        assert(crate::json::parse::printable(d, 127));
        assert(crate::json::parse::member_printable(ms[0], 127));
        assert(crate::json::parse::member_printable(ms[1], 127));
    };
    crate::json::parse::lemma_document_round_trip(v);
}


} // verus!
