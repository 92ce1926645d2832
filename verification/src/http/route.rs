//! The rate-limit key of a REST request: the server's buckets partition
//! along these dimensions.  Messages in one channel share the channel's
//! bucket, but message-specific edits and deletes have their own.

use vstd::prelude::*;

use crate::model::id::{ChannelId, GuildId, MessageId, UserId, WebhookId};

verus! {

#[derive(Debug, Clone, Copy, PartialEq, Eq, Structural, Hash)]
pub enum Route {
    Channel(ChannelId),
    ChannelMessage(ChannelId, MessageId),
    Guild(GuildId),
    GuildMember(GuildId, UserId),
    Webhook(WebhookId),
}

} // verus!
