//! Presence activities, sent in presence-update frames.

use vstd::prelude::*;

use crate::json::{Json, JsonVal};

verus! {

#[derive(Debug, Clone, Copy, PartialEq, Eq, Structural)]
pub enum ActivityType {
    Playing,
    Streaming,
    Listening,
    Watching,
    Custom,
    Competing,
}

/// The wire code of an activity type.
pub open spec fn spec_activity_code(t: ActivityType) -> u64 {
    match t {
        ActivityType::Playing => 0,
        ActivityType::Streaming => 1,
        ActivityType::Listening => 2,
        ActivityType::Watching => 3,
        ActivityType::Custom => 4,
        ActivityType::Competing => 5,
    }
}

impl ActivityType {
    /// The wire code of the type.
    pub fn code(self) -> (n: u64)
        ensures
            n == spec_activity_code(self),
    {
        match self {
            ActivityType::Playing => 0,
            ActivityType::Streaming => 1,
            ActivityType::Listening => 2,
            ActivityType::Watching => 3,
            ActivityType::Custom => 4,
            ActivityType::Competing => 5,
        }
    }
}

#[derive(Debug, Clone, PartialEq)]
pub struct Activity {
    pub kind: ActivityType,
    pub name: String,
}

/// The document an activity encodes to: `{"type":code,"name":name}`.
pub open spec fn spec_activity_json(a: Activity) -> JsonVal {
    JsonVal::Obj(
        seq![
            ("type"@, JsonVal::Num(spec_activity_code(a.kind))),
            ("name"@, JsonVal::Str(a.name@)),
        ],
    )
}

impl Activity {
    /// An activity of the given kind.
    pub fn with_kind(kind: ActivityType, name: String) -> (a: Activity)
        ensures
            a.kind == kind,
            a.name@ == name@,
    {
        Activity { kind, name }
    }

    /// A "playing ..." activity.
    pub fn playing(name: String) -> (a: Activity)
        ensures
            a.kind == ActivityType::Playing,
            a.name@ == name@,
    {
        Activity { kind: ActivityType::Playing, name }
    }

    /// A "streaming ..." activity.
    pub fn streaming(name: String) -> (a: Activity)
        ensures
            a.kind == ActivityType::Streaming,
            a.name@ == name@,
    {
        Activity { kind: ActivityType::Streaming, name }
    }

    /// A "listening to ..." activity.
    pub fn listening(name: String) -> (a: Activity)
        ensures
            a.kind == ActivityType::Listening,
            a.name@ == name@,
    {
        Activity { kind: ActivityType::Listening, name }
    }

    /// A "watching ..." activity.
    pub fn watching(name: String) -> (a: Activity)
        ensures
            a.kind == ActivityType::Watching,
            a.name@ == name@,
    {
        Activity { kind: ActivityType::Watching, name }
    }

    /// A custom-status activity.
    pub fn custom(name: String) -> (a: Activity)
        ensures
            a.kind == ActivityType::Custom,
            a.name@ == name@,
    {
        Activity { kind: ActivityType::Custom, name }
    }

    /// A "competing in ..." activity.
    pub fn competing(name: String) -> (a: Activity)
        ensures
            a.kind == ActivityType::Competing,
            a.name@ == name@,
    {
        Activity { kind: ActivityType::Competing, name }
    }

    /// Encodes the activity for a presence-update frame.
    pub fn to_json(&self) -> (r: Json)
        ensures
            r@ == spec_activity_json(*self),
    {
        let mut members: Vec<(String, Json)> = Vec::new();
        members.push((String::from_str("type"), Json::Num(self.kind.code())));
        members.push((String::from_str("name"), Json::Str(self.name.clone())));
        let ghost gm = members@;
        let r = Json::Obj(members);
        proof {
            assert(r->Obj_0@ == gm);
            crate::json::lemma_obj_view_elems(r->Obj_0);
            assert(r@->Obj_0 =~~= spec_activity_json(*self)->Obj_0);
        }
        r
    }
}

} // verus!
