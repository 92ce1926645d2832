//! Messages, the payload of the message-created dispatch and of the
//! message endpoints.  A message may reference another message, so its
//! shape is recursive; the predicates descend with the document.

use vstd::prelude::*;

use crate::json::{Json, JsonVal, json_get, jv_get, lemma_jv_get_decreases};
use crate::model::fields::{default_bool, opt_snowflake, opt_string, req_bool, req_snowflake,
    req_string, req_u64, spec_default_bool, spec_opt_snowflake, spec_opt_str, spec_req_bool,
    spec_req_snowflake, spec_req_str, spec_req_u64, view_opt_str};
use crate::model::id::{ChannelId, GuildId, MessageId, RoleId, WebhookId, role_ids_from_json_arr,
    role_ids_match, snowflakes_wf};
use crate::model::member::{PartialMember, partial_member_from_json, partial_member_matches,
    partial_member_wf, view_opt_ts};
use crate::model::timestamp::Timestamp;
use crate::model::user::{User, user_from_json, user_matches, user_wf, users_from_json_arr,
    users_match, users_wf};

verus! {

#[derive(Debug, Clone, Copy, PartialEq, Eq, Structural)]
pub enum MessageKind {
    Default,
    RecipientAdd,
    RecipientRemove,
    Call,
    ChannelNameChange,
    ChannelIconChange,
    ChannelPinnedMessage,
    GuildMemberJoin,
    UserPremiumGuildSubscription,
    UserPremiumGuildSubscriptionTier1,
    UserPremiumGuildSubscriptionTier2,
    UserPremiumGuildSubscriptionTier3,
    ChannelFollowAdd,
    GuildDiscoveryDisqualified,
    GuildDiscoveryRequalified,
    GuildDiscoveryGracePeriodInitialWarning,
    GuildDiscoveryGracePeriodFinalWarning,
    ThreadCreated,
    Reply,
    ChatInputCommand,
    ThreadStarterMessage,
    GuildInviteReminder,
    ContextMenuCommand,
}

/// The wire code of a message kind.
pub open spec fn spec_message_kind_code(k: MessageKind) -> u64 {
    match k {
        MessageKind::Default => 0,
        MessageKind::RecipientAdd => 1,
        MessageKind::RecipientRemove => 2,
        MessageKind::Call => 3,
        MessageKind::ChannelNameChange => 4,
        MessageKind::ChannelIconChange => 5,
        MessageKind::ChannelPinnedMessage => 6,
        MessageKind::GuildMemberJoin => 7,
        MessageKind::UserPremiumGuildSubscription => 8,
        MessageKind::UserPremiumGuildSubscriptionTier1 => 9,
        MessageKind::UserPremiumGuildSubscriptionTier2 => 10,
        MessageKind::UserPremiumGuildSubscriptionTier3 => 11,
        MessageKind::ChannelFollowAdd => 12,
        MessageKind::GuildDiscoveryDisqualified => 14,
        MessageKind::GuildDiscoveryRequalified => 15,
        MessageKind::GuildDiscoveryGracePeriodInitialWarning => 16,
        MessageKind::GuildDiscoveryGracePeriodFinalWarning => 17,
        MessageKind::ThreadCreated => 18,
        MessageKind::Reply => 19,
        MessageKind::ChatInputCommand => 20,
        MessageKind::ThreadStarterMessage => 21,
        MessageKind::GuildInviteReminder => 22,
        MessageKind::ContextMenuCommand => 23,
    }
}

/// The message kind a wire code denotes.
pub open spec fn spec_message_kind(n: u64) -> Option<MessageKind> {
    if n == 0 {
        Some(MessageKind::Default)
    } else if n == 1 {
        Some(MessageKind::RecipientAdd)
    } else if n == 2 {
        Some(MessageKind::RecipientRemove)
    } else if n == 3 {
        Some(MessageKind::Call)
    } else if n == 4 {
        Some(MessageKind::ChannelNameChange)
    } else if n == 5 {
        Some(MessageKind::ChannelIconChange)
    } else if n == 6 {
        Some(MessageKind::ChannelPinnedMessage)
    } else if n == 7 {
        Some(MessageKind::GuildMemberJoin)
    } else if n == 8 {
        Some(MessageKind::UserPremiumGuildSubscription)
    } else if n == 9 {
        Some(MessageKind::UserPremiumGuildSubscriptionTier1)
    } else if n == 10 {
        Some(MessageKind::UserPremiumGuildSubscriptionTier2)
    } else if n == 11 {
        Some(MessageKind::UserPremiumGuildSubscriptionTier3)
    } else if n == 12 {
        Some(MessageKind::ChannelFollowAdd)
    } else if n == 14 {
        Some(MessageKind::GuildDiscoveryDisqualified)
    } else if n == 15 {
        Some(MessageKind::GuildDiscoveryRequalified)
    } else if n == 16 {
        Some(MessageKind::GuildDiscoveryGracePeriodInitialWarning)
    } else if n == 17 {
        Some(MessageKind::GuildDiscoveryGracePeriodFinalWarning)
    } else if n == 18 {
        Some(MessageKind::ThreadCreated)
    } else if n == 19 {
        Some(MessageKind::Reply)
    } else if n == 20 {
        Some(MessageKind::ChatInputCommand)
    } else if n == 21 {
        Some(MessageKind::ThreadStarterMessage)
    } else if n == 22 {
        Some(MessageKind::GuildInviteReminder)
    } else if n == 23 {
        Some(MessageKind::ContextMenuCommand)
    } else {
        None
    }
}

/// Decodes a message kind from its wire code.
pub fn message_kind_from_code(n: u64) -> (r: Option<MessageKind>)
    ensures
        r == spec_message_kind(n),
{
    if n == 0 {
        Some(MessageKind::Default)
    } else if n == 1 {
        Some(MessageKind::RecipientAdd)
    } else if n == 2 {
        Some(MessageKind::RecipientRemove)
    } else if n == 3 {
        Some(MessageKind::Call)
    } else if n == 4 {
        Some(MessageKind::ChannelNameChange)
    } else if n == 5 {
        Some(MessageKind::ChannelIconChange)
    } else if n == 6 {
        Some(MessageKind::ChannelPinnedMessage)
    } else if n == 7 {
        Some(MessageKind::GuildMemberJoin)
    } else if n == 8 {
        Some(MessageKind::UserPremiumGuildSubscription)
    } else if n == 9 {
        Some(MessageKind::UserPremiumGuildSubscriptionTier1)
    } else if n == 10 {
        Some(MessageKind::UserPremiumGuildSubscriptionTier2)
    } else if n == 11 {
        Some(MessageKind::UserPremiumGuildSubscriptionTier3)
    } else if n == 12 {
        Some(MessageKind::ChannelFollowAdd)
    } else if n == 14 {
        Some(MessageKind::GuildDiscoveryDisqualified)
    } else if n == 15 {
        Some(MessageKind::GuildDiscoveryRequalified)
    } else if n == 16 {
        Some(MessageKind::GuildDiscoveryGracePeriodInitialWarning)
    } else if n == 17 {
        Some(MessageKind::GuildDiscoveryGracePeriodFinalWarning)
    } else if n == 18 {
        Some(MessageKind::ThreadCreated)
    } else if n == 19 {
        Some(MessageKind::Reply)
    } else if n == 20 {
        Some(MessageKind::ChatInputCommand)
    } else if n == 21 {
        Some(MessageKind::ThreadStarterMessage)
    } else if n == 22 {
        Some(MessageKind::GuildInviteReminder)
    } else if n == 23 {
        Some(MessageKind::ContextMenuCommand)
    } else {
        None
    }
}

#[derive(Debug, PartialEq)]
pub struct Message {
    pub id: MessageId,
    pub channel_id: ChannelId,
    pub guild_id: Option<GuildId>,
    pub author: User,
    pub member: Option<PartialMember>,
    pub content: String,
    pub timestamp: Timestamp,
    pub edited_timestamp: Option<Timestamp>,
    pub tts: bool,
    pub mention_everyone: bool,
    pub mentions: Vec<User>,
    pub mention_roles: Vec<RoleId>,
    pub nonce: Json,
    pub pinned: bool,
    pub webhook_id: Option<WebhookId>,
    pub kind: MessageKind,
    pub referenced_message: Option<Box<Message>>,
}

/// A document carries a message when each field reads under the wire's
/// conventions; a referenced message, when present and not `null`, must
/// carry one in turn.
pub open spec fn message_wf(v: JsonVal) -> bool
    decreases v,
    via message_wf_dec
{
    &&& spec_req_snowflake(v, "id"@) is Some
    &&& spec_req_snowflake(v, "channel_id"@) is Some
    &&& spec_opt_snowflake(v, "guild_id"@) is Some
    &&& (jv_get(v, "author"@) matches Some(a) && user_wf(a))
    &&& match jv_get(v, "member"@) {
        Option::None => true,
        Option::Some(JsonVal::Null) => true,
        Option::Some(m) => partial_member_wf(m),
    }
    &&& spec_req_str(v, "content"@) is Some
    &&& spec_req_str(v, "timestamp"@) is Some
    &&& spec_opt_str(v, "edited_timestamp"@) is Some
    &&& spec_req_bool(v, "tts"@) is Some
    &&& spec_req_bool(v, "mention_everyone"@) is Some
    &&& (jv_get(v, "mentions"@) matches Some(JsonVal::Arr(items)) && users_wf(items))
    &&& (jv_get(v, "mention_roles"@) matches Some(JsonVal::Arr(items)) && snowflakes_wf(items))
    &&& spec_req_bool(v, "pinned"@) is Some
    &&& spec_opt_snowflake(v, "webhook_id"@) is Some
    &&& (spec_req_u64(v, "type"@) matches Some(n) && spec_message_kind(n) is Some)
    &&& match jv_get(v, "referenced_message"@) {
        Option::None => true,
        Option::Some(JsonVal::Null) => true,
        Option::Some(rm) => message_wf(rm),
    }
}

#[via_fn]
proof fn message_wf_dec(v: JsonVal) {
    if jv_get(v, "referenced_message"@) is Some {
        lemma_jv_get_decreases(v, "referenced_message"@);
    }
}

/// `m` is the message the document carries.
pub open spec fn message_matches(m: Message, v: JsonVal) -> bool
    decreases m,
{
    &&& spec_req_snowflake(v, "id"@) == Some(m.id.0)
    &&& spec_req_snowflake(v, "channel_id"@) == Some(m.channel_id.0)
    &&& spec_opt_snowflake(v, "guild_id"@) == Some(
        match m.guild_id {
            Option::Some(g) => Some(g.0),
            Option::None => None,
        },
    )
    &&& (jv_get(v, "author"@) matches Some(a) && user_matches(m.author, a))
    &&& match jv_get(v, "member"@) {
        Option::None => m.member is None,
        Option::Some(JsonVal::Null) => m.member is None,
        Option::Some(pm) => m.member matches Some(mm) && partial_member_matches(mm, pm),
    }
    &&& spec_req_str(v, "content"@) == Some(m.content@)
    &&& spec_req_str(v, "timestamp"@) == Some(m.timestamp.raw@)
    &&& spec_opt_str(v, "edited_timestamp"@) == Some(view_opt_ts(m.edited_timestamp))
    &&& spec_req_bool(v, "tts"@) == Some(m.tts)
    &&& spec_req_bool(v, "mention_everyone"@) == Some(m.mention_everyone)
    &&& (jv_get(v, "mentions"@) matches Some(JsonVal::Arr(items)) && users_match(
        m.mentions@,
        items,
    ))
    &&& (jv_get(v, "mention_roles"@) matches Some(JsonVal::Arr(items)) && role_ids_match(
        m.mention_roles@,
        items,
    ))
    &&& match jv_get(v, "nonce"@) {
        Option::None => m.nonce@ == JsonVal::Null,
        Option::Some(x) => m.nonce@ == x,
    }
    &&& spec_req_bool(v, "pinned"@) == Some(m.pinned)
    &&& spec_opt_snowflake(v, "webhook_id"@) == Some(
        match m.webhook_id {
            Option::Some(w) => Some(w.0),
            Option::None => None,
        },
    )
    &&& (spec_req_u64(v, "type"@) matches Some(n) && spec_message_kind(n) == Some(m.kind))
    &&& match jv_get(v, "referenced_message"@) {
        Option::None => m.referenced_message is None,
        Option::Some(JsonVal::Null) => m.referenced_message is None,
        Option::Some(rm) => m.referenced_message matches Some(b) && message_matches(*b, rm),
    }
}

/// Decodes a message.
pub fn message_from_json(j: &Json) -> (r: Option<Message>)
    ensures
        r is Some <==> message_wf(j@),
        r matches Some(m) ==> message_matches(m, j@),
    decreases j@,
{
    let id = match req_snowflake(j, "id") {
        Some(n) => n,
        None => { return None },
    };
    let channel_id = match req_snowflake(j, "channel_id") {
        Some(n) => n,
        None => { return None },
    };
    let guild_id = match opt_snowflake(j, "guild_id") {
        Some(o) => o,
        None => { return None },
    };
    let author = match json_get(j, "author") {
        Some(x) => match user_from_json(x) {
            Some(u) => u,
            None => { return None },
        },
        None => { return None },
    };
    let member = match json_get(j, "member") {
        Some(x) => match x {
            Json::Null => None,
            _ => match partial_member_from_json(x) {
                Some(pm) => Some(pm),
                None => { return None },
            },
        },
        None => None,
    };
    let content = match req_string(j, "content") {
        Some(s) => s,
        None => { return None },
    };
    let timestamp = match req_string(j, "timestamp") {
        Some(s) => Timestamp { raw: s },
        None => { return None },
    };
    let edited_timestamp = match opt_string(j, "edited_timestamp") {
        Some(Some(s)) => Some(Timestamp { raw: s }),
        Some(None) => None,
        None => { return None },
    };
    let tts = match req_bool(j, "tts") {
        Some(b) => b,
        None => { return None },
    };
    let mention_everyone = match req_bool(j, "mention_everyone") {
        Some(b) => b,
        None => { return None },
    };
    let mentions = match json_get(j, "mentions") {
        Some(x) => match x {
            Json::Arr(items) => match users_from_json_arr(items) {
                Some(us) => us,
                None => { return None },
            },
            _ => { return None },
        },
        None => { return None },
    };
    let mention_roles = match json_get(j, "mention_roles") {
        Some(x) => match x {
            Json::Arr(items) => match role_ids_from_json_arr(items) {
                Some(rs) => rs,
                None => { return None },
            },
            _ => { return None },
        },
        None => { return None },
    };
    let nonce = match json_get(j, "nonce") {
        Some(x) => crate::json::clone_json(x),
        None => Json::Null,
    };
    let pinned = match req_bool(j, "pinned") {
        Some(b) => b,
        None => { return None },
    };
    let webhook_id = match opt_snowflake(j, "webhook_id") {
        Some(o) => o,
        None => { return None },
    };
    let kind = match req_u64(j, "type") {
        Some(n) => match message_kind_from_code(n) {
            Some(k) => k,
            None => { return None },
        },
        None => { return None },
    };
    let referenced_message = match json_get(j, "referenced_message") {
        Some(x) => match x {
            Json::Null => None,
            _ => {
                proof {
                    lemma_jv_get_decreases(j@, "referenced_message"@);
                }
                match message_from_json(x) {
                    Some(mm) => Some(Box::new(mm)),
                    None => { return None },
                }
            },
        },
        None => None,
    };
    Some(
        Message {
            id: MessageId(id),
            channel_id: ChannelId(channel_id),
            guild_id: match guild_id {
                Some(g) => Some(GuildId(g)),
                None => None,
            },
            author,
            member,
            content,
            timestamp,
            edited_timestamp,
            tts,
            mention_everyone,
            mentions,
            mention_roles,
            nonce,
            pinned,
            webhook_id: match webhook_id {
                Some(w) => Some(WebhookId(w)),
                None => None,
            },
            kind,
            referenced_message,
        },
    )
}

} // verus!
