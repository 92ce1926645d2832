//! Channels, as the channel endpoints return them.

use vstd::prelude::*;

use crate::json::{Json, JsonVal, arr_view, json_get, jv_get};
use crate::model::fields::{default_bool, opt_snowflake, opt_string, opt_u64, req_snowflake,
    req_u64, spec_default_bool, spec_opt_snowflake, spec_opt_str, spec_opt_u64, spec_req_snowflake,
    spec_req_u64, view_opt_str};
use crate::model::id::{ChannelId, GuildId, MessageId, UserId};
use crate::model::member::view_opt_ts;
use crate::model::timestamp::Timestamp;
use crate::model::user::{User, users_from_json_arr, users_match, users_wf};

verus! {

#[derive(Debug, Clone, Copy, PartialEq, Eq, Structural)]
pub enum ChannelKind {
    GuildText,
    Dm,
    GuildVoice,
    GroupDm,
    GuildCategory,
    GuildNews,
    GuildStore,
    GuildNewsThread,
    GuildPublicThread,
    GuildPrivateThread,
    GuildStageVoice,
}

/// The wire code of a channel kind.
pub open spec fn spec_channel_kind_code(k: ChannelKind) -> u64 {
    match k {
        ChannelKind::GuildText => 0,
        ChannelKind::Dm => 1,
        ChannelKind::GuildVoice => 2,
        ChannelKind::GroupDm => 3,
        ChannelKind::GuildCategory => 4,
        ChannelKind::GuildNews => 5,
        ChannelKind::GuildStore => 6,
        ChannelKind::GuildNewsThread => 10,
        ChannelKind::GuildPublicThread => 11,
        ChannelKind::GuildPrivateThread => 12,
        ChannelKind::GuildStageVoice => 13,
    }
}

/// The channel kind a wire code denotes.
pub open spec fn spec_channel_kind(n: u64) -> Option<ChannelKind> {
    if n == 0 {
        Some(ChannelKind::GuildText)
    } else if n == 1 {
        Some(ChannelKind::Dm)
    } else if n == 2 {
        Some(ChannelKind::GuildVoice)
    } else if n == 3 {
        Some(ChannelKind::GroupDm)
    } else if n == 4 {
        Some(ChannelKind::GuildCategory)
    } else if n == 5 {
        Some(ChannelKind::GuildNews)
    } else if n == 6 {
        Some(ChannelKind::GuildStore)
    } else if n == 10 {
        Some(ChannelKind::GuildNewsThread)
    } else if n == 11 {
        Some(ChannelKind::GuildPublicThread)
    } else if n == 12 {
        Some(ChannelKind::GuildPrivateThread)
    } else if n == 13 {
        Some(ChannelKind::GuildStageVoice)
    } else {
        None
    }
}

/// Decodes a channel kind from its wire code.
pub fn channel_kind_from_code(n: u64) -> (r: Option<ChannelKind>)
    ensures
        r == spec_channel_kind(n),
{
    if n == 0 {
        Some(ChannelKind::GuildText)
    } else if n == 1 {
        Some(ChannelKind::Dm)
    } else if n == 2 {
        Some(ChannelKind::GuildVoice)
    } else if n == 3 {
        Some(ChannelKind::GroupDm)
    } else if n == 4 {
        Some(ChannelKind::GuildCategory)
    } else if n == 5 {
        Some(ChannelKind::GuildNews)
    } else if n == 6 {
        Some(ChannelKind::GuildStore)
    } else if n == 10 {
        Some(ChannelKind::GuildNewsThread)
    } else if n == 11 {
        Some(ChannelKind::GuildPublicThread)
    } else if n == 12 {
        Some(ChannelKind::GuildPrivateThread)
    } else if n == 13 {
        Some(ChannelKind::GuildStageVoice)
    } else {
        None
    }
}

#[derive(Debug, Clone, PartialEq)]
pub struct Channel {
    pub id: ChannelId,
    pub kind: ChannelKind,
    pub guild_id: Option<GuildId>,
    pub position: u64,
    pub name: Option<String>,
    pub topic: Option<String>,
    pub nsfw: bool,
    pub last_message_id: Option<MessageId>,
    pub bitrate: Option<u64>,
    pub user_limit: Option<u64>,
    pub rate_limit_per_user: Option<u64>,
    pub recipients: Vec<User>,
    pub icon: Option<String>,
    pub owner_id: Option<UserId>,
    pub last_pin_timestamp: Option<Timestamp>,
    pub rtc_region: Option<String>,
    pub video_quality_mode: Option<u64>,
    pub message_count: Option<u8>,
    pub member_count: Option<u8>,
    pub permissions: Option<String>,
}

/// The view of an optional small count.
pub open spec fn view_opt_u8(o: Option<u8>) -> Option<u64> {
    match o {
        Option::Some(n) => Some(n as u64),
        Option::None => None,
    }
}

/// A document carries a channel when each field reads under the wire's
/// conventions.  `recipients` may be absent (then empty); a count field
/// must fit in eight bits.
pub open spec fn channel_wf(v: JsonVal) -> bool {
    &&& spec_req_snowflake(v, "id"@) is Some
    &&& (spec_req_u64(v, "type"@) matches Some(n) && spec_channel_kind(n) is Some)
    &&& spec_opt_snowflake(v, "guild_id"@) is Some
    &&& spec_req_u64(v, "position"@) is Some
    &&& spec_opt_str(v, "name"@) is Some
    &&& spec_opt_str(v, "topic"@) is Some
    &&& spec_default_bool(v, "nsfw"@) is Some
    &&& spec_opt_snowflake(v, "last_message_id"@) is Some
    &&& spec_opt_u64(v, "bitrate"@) is Some
    &&& spec_opt_u64(v, "user_limit"@) is Some
    &&& spec_opt_u64(v, "rate_limit_per_user"@) is Some
    &&& match jv_get(v, "recipients"@) {
        Option::None => true,
        Option::Some(JsonVal::Arr(items)) => users_wf(items),
        Option::Some(_) => false,
    }
    &&& spec_opt_str(v, "icon"@) is Some
    &&& spec_opt_snowflake(v, "owner_id"@) is Some
    &&& spec_opt_str(v, "last_pin_timestamp"@) is Some
    &&& spec_opt_str(v, "rtc_region"@) is Some
    &&& spec_opt_u64(v, "video_quality_mode"@) is Some
    &&& (spec_opt_u64(v, "message_count"@) matches Some(o) && (o matches Some(n) ==> n
        <= u8::MAX))
    &&& (spec_opt_u64(v, "member_count"@) matches Some(o) && (o matches Some(n) ==> n <= u8::MAX))
    &&& spec_opt_str(v, "permissions"@) is Some
}

/// `c` is the channel the document carries.
pub open spec fn channel_matches(c: Channel, v: JsonVal) -> bool {
    &&& spec_req_snowflake(v, "id"@) == Some(c.id.0)
    &&& (spec_req_u64(v, "type"@) matches Some(n) && spec_channel_kind(n) == Some(c.kind))
    &&& spec_opt_snowflake(v, "guild_id"@) == Some(
        match c.guild_id {
            Option::Some(g) => Some(g.0),
            Option::None => None,
        },
    )
    &&& spec_req_u64(v, "position"@) == Some(c.position)
    &&& spec_opt_str(v, "name"@) == Some(view_opt_str(c.name))
    &&& spec_opt_str(v, "topic"@) == Some(view_opt_str(c.topic))
    &&& spec_default_bool(v, "nsfw"@) == Some(c.nsfw)
    &&& spec_opt_snowflake(v, "last_message_id"@) == Some(
        match c.last_message_id {
            Option::Some(m) => Some(m.0),
            Option::None => None,
        },
    )
    &&& spec_opt_u64(v, "bitrate"@) == Some(c.bitrate)
    &&& spec_opt_u64(v, "user_limit"@) == Some(c.user_limit)
    &&& spec_opt_u64(v, "rate_limit_per_user"@) == Some(c.rate_limit_per_user)
    &&& match jv_get(v, "recipients"@) {
        Option::None => c.recipients@.len() == 0,
        Option::Some(JsonVal::Arr(items)) => users_match(c.recipients@, items),
        Option::Some(_) => false,
    }
    &&& spec_opt_str(v, "icon"@) == Some(view_opt_str(c.icon))
    &&& spec_opt_snowflake(v, "owner_id"@) == Some(
        match c.owner_id {
            Option::Some(u) => Some(u.0),
            Option::None => None,
        },
    )
    &&& spec_opt_str(v, "last_pin_timestamp"@) == Some(view_opt_ts(c.last_pin_timestamp))
    &&& spec_opt_str(v, "rtc_region"@) == Some(view_opt_str(c.rtc_region))
    &&& spec_opt_u64(v, "video_quality_mode"@) == Some(c.video_quality_mode)
    &&& spec_opt_u64(v, "message_count"@) == Some(view_opt_u8(c.message_count))
    &&& spec_opt_u64(v, "member_count"@) == Some(view_opt_u8(c.member_count))
    &&& spec_opt_str(v, "permissions"@) == Some(view_opt_str(c.permissions))
}

/// Reads an optional small count.
fn opt_u8_field(j: &Json, key: &str) -> (r: Option<Option<u8>>)
    ensures
        r matches Some(o) ==> spec_opt_u64(j@, key@) == Some(view_opt_u8(o)),
        r is None ==> !(spec_opt_u64(j@, key@) matches Some(o2) && (o2 matches Some(n) ==> n
            <= u8::MAX)),
{
    match opt_u64(j, key) {
        Some(Some(n)) => {
            if n <= u8::MAX as u64 {
                Some(Some(n as u8))
            } else {
                None
            }
        },
        Some(None) => Some(None),
        None => None,
    }
}

/// Reads an optional timestamp field.
fn opt_ts_field(j: &Json, key: &str) -> (r: Option<Option<Timestamp>>)
    ensures
        r matches Some(o) ==> spec_opt_str(j@, key@) == Some(view_opt_ts(o)),
        r is None ==> spec_opt_str(j@, key@) is None,
{
    match opt_string(j, key) {
        Some(Some(s)) => Some(Some(Timestamp { raw: s })),
        Some(None) => Some(None),
        None => None,
    }
}

/// Decodes a channel.
pub fn channel_from_json(j: &Json) -> (r: Option<Channel>)
    ensures
        r is Some <==> channel_wf(j@),
        r matches Some(c) ==> channel_matches(c, j@),
{
    let id = match req_snowflake(j, "id") {
        Some(n) => n,
        None => { return None },
    };
    let kind = match req_u64(j, "type") {
        Some(n) => match channel_kind_from_code(n) {
            Some(k) => k,
            None => { return None },
        },
        None => { return None },
    };
    let guild_id = match opt_snowflake(j, "guild_id") {
        Some(o) => o,
        None => { return None },
    };
    let position = match req_u64(j, "position") {
        Some(p) => p,
        None => { return None },
    };
    let name = match opt_string(j, "name") {
        Some(o) => o,
        None => { return None },
    };
    let topic = match opt_string(j, "topic") {
        Some(o) => o,
        None => { return None },
    };
    let nsfw = match default_bool(j, "nsfw") {
        Some(b) => b,
        None => { return None },
    };
    let last_message_id = match opt_snowflake(j, "last_message_id") {
        Some(o) => o,
        None => { return None },
    };
    let bitrate = match opt_u64(j, "bitrate") {
        Some(o) => o,
        None => { return None },
    };
    let user_limit = match opt_u64(j, "user_limit") {
        Some(o) => o,
        None => { return None },
    };
    let rate_limit_per_user = match opt_u64(j, "rate_limit_per_user") {
        Some(o) => o,
        None => { return None },
    };
    let recipients = match json_get(j, "recipients") {
        Some(x) => match x {
            Json::Arr(items) => match users_from_json_arr(items) {
                Some(us) => us,
                None => { return None },
            },
            _ => { return None },
        },
        None => Vec::new(),
    };
    let icon = match opt_string(j, "icon") {
        Some(o) => o,
        None => { return None },
    };
    let owner_id = match opt_snowflake(j, "owner_id") {
        Some(o) => o,
        None => { return None },
    };
    let last_pin_timestamp = match opt_ts_field(j, "last_pin_timestamp") {
        Some(o) => o,
        None => { return None },
    };
    let rtc_region = match opt_string(j, "rtc_region") {
        Some(o) => o,
        None => { return None },
    };
    let video_quality_mode = match opt_u64(j, "video_quality_mode") {
        Some(o) => o,
        None => { return None },
    };
    let message_count = match opt_u8_field(j, "message_count") {
        Some(o) => o,
        None => { return None },
    };
    let member_count = match opt_u8_field(j, "member_count") {
        Some(o) => o,
        None => { return None },
    };
    let permissions = match opt_string(j, "permissions") {
        Some(o) => o,
        None => { return None },
    };
    Some(
        Channel {
            id: ChannelId(id),
            kind,
            guild_id: match guild_id {
                Some(g) => Some(GuildId(g)),
                None => None,
            },
            position,
            name,
            topic,
            nsfw,
            last_message_id: match last_message_id {
                Some(m) => Some(MessageId(m)),
                None => None,
            },
            bitrate,
            user_limit,
            rate_limit_per_user,
            recipients,
            icon,
            owner_id: match owner_id {
                Some(u) => Some(UserId(u)),
                None => None,
            },
            last_pin_timestamp,
            rtc_region,
            video_quality_mode,
            message_count,
            member_count,
            permissions,
        },
    )
}

/// Every item of the array carries a channel.
pub open spec fn channels_wf(items: Seq<JsonVal>) -> bool {
    forall|i: int| 0 <= i < items.len() ==> channel_wf(#[trigger] items[i])
}

/// `cs` holds, in order, the channel each item of the array carries.
pub open spec fn channels_match(cs: Seq<Channel>, items: Seq<JsonVal>) -> bool {
    &&& cs.len() == items.len()
    &&& forall|i: int| 0 <= i < items.len() ==> channel_matches(#[trigger] cs[i], items[i])
}

/// Decodes an array of channels.
pub fn channels_from_json_arr(items: &Vec<Json>) -> (r: Option<Vec<Channel>>)
    ensures
        r is Some <==> channels_wf(arr_view(*items)),
        r matches Some(cs) ==> channels_match(cs@, arr_view(*items)),
{
    let ghost model = arr_view(*items);
    let n = items.len();
    let mut out: Vec<Channel> = Vec::new();
    let mut i: usize = 0;
    while i < n
        invariant
            i <= n,
            n == items@.len(),
            model == arr_view(*items),
            out@.len() == i,
            forall|k: int| 0 <= k < i ==> channel_matches(#[trigger] out@[k], model[k]),
            forall|k: int| 0 <= k < i ==> channel_wf(#[trigger] model[k]),
        decreases n - i,
    {
        proof {
            assert(model[i as int] == items@[i as int]@);
        }
        match channel_from_json(&items[i]) {
            Some(c) => out.push(c),
            None => {
                return None;
            },
        }
        i = i + 1;
    }
    Some(out)
}

/// The channel a mention-like text names: a bare decimal id, or a channel
/// mention token `<#id>`.
pub open spec fn spec_channel_mention_id(s: Seq<char>) -> Option<u64> {
    if crate::text::spec_dec_u64(s) is Some {
        crate::text::spec_dec_u64(s)
    } else if s.len() >= 3 && s[0] == '<' && s[1] == '#' && s[s.len() - 1] == '>' {
        crate::text::spec_dec_u64(s.subrange(2, s.len() - 1))
    } else {
        None
    }
}

/// Reads the channel id a mention-like text names.
pub fn parse_channel_mention(text: &str) -> (r: Option<u64>)
    ensures
        r == spec_channel_mention_id(text@),
{
    let v = crate::text::chars_of(text);
    let n = v.len();
    if let Some(x) = crate::text::parse_u64_range(&v, 0, n) {
        proof {
            assert(v@.subrange(0, n as int) =~= text@);
        }
        return Some(x);
    }
    proof {
        assert(v@.subrange(0, n as int) =~= text@);
    }
    if n >= 3 && v[0] == '<' && v[1] == '#' && v[n - 1] == '>' {
        crate::text::parse_u64_range(&v, 2, n - 1)
    } else {
        None
    }
}

/// `c` answers to the name: a name is set and matches up to ASCII case.
pub open spec fn channel_name_matches(c: Channel, text: Seq<char>) -> bool {
    c.name matches Some(nm) && crate::text::eq_ignore_case(nm@, text)
}

/// The first channel answering to this name.
pub fn find_channel_by_name(channels: &Vec<Channel>, text: &str) -> (r: Option<usize>)
    ensures
        r matches Some(i) ==> i < channels@.len() && channel_name_matches(
            channels@[i as int],
            text@,
        ) && (forall|j: int| 0 <= j < i ==> !channel_name_matches(#[trigger] channels@[j], text@)),
        r is None ==> forall|j: int|
            0 <= j < channels@.len() ==> !channel_name_matches(#[trigger] channels@[j], text@),
{
    let n = channels.len();
    let mut i: usize = 0;
    while i < n
        invariant
            i <= n,
            n == channels@.len(),
            forall|j: int| 0 <= j < i ==> !channel_name_matches(#[trigger] channels@[j], text@),
        decreases n - i,
    {
        let hit = match &channels[i].name {
            Some(nm) => crate::text::str_eq_ignore_case(nm.as_str(), text),
            None => false,
        };
        if hit {
            return Some(i);
        }
        i = i + 1;
    }
    None
}


} // verus!
