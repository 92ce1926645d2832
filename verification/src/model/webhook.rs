//! Webhooks: the execute/delete operations address them by id and token;
//! the type itself is carried, never decoded from the wire here.

use vstd::prelude::*;

use crate::model::id::{ChannelId, GuildId, WebhookId};
use crate::model::user::User;

verus! {

#[derive(Debug, Clone, Copy, PartialEq, Eq, Structural)]
pub enum WebhookKind {
    Incoming,
    ChannelFollower,
    Application,
}

/// The wire code of a webhook kind.
pub open spec fn spec_webhook_kind_code(k: WebhookKind) -> u64 {
    match k {
        WebhookKind::Incoming => 1,
        WebhookKind::ChannelFollower => 2,
        WebhookKind::Application => 3,
    }
}

/// The webhook kind a wire code denotes.
pub open spec fn spec_webhook_kind(n: u64) -> Option<WebhookKind> {
    if n == 1 {
        Some(WebhookKind::Incoming)
    } else if n == 2 {
        Some(WebhookKind::ChannelFollower)
    } else if n == 3 {
        Some(WebhookKind::Application)
    } else {
        None
    }
}

/// Decodes a webhook kind from its wire code.
pub fn webhook_kind_from_code(n: u64) -> (r: Option<WebhookKind>)
    ensures
        r == spec_webhook_kind(n),
{
    if n == 1 {
        Some(WebhookKind::Incoming)
    } else if n == 2 {
        Some(WebhookKind::ChannelFollower)
    } else if n == 3 {
        Some(WebhookKind::Application)
    } else {
        None
    }
}

#[derive(Debug, Clone, PartialEq)]
pub struct Webhook {
    pub id: WebhookId,
    pub kind: WebhookKind,
    pub guild_id: Option<GuildId>,
    pub channel_id: Option<ChannelId>,
    pub user: Option<User>,
    pub name: Option<String>,
    pub avatar: Option<String>,
    pub token: Option<String>,
    pub url: Option<String>,
}

} // verus!
