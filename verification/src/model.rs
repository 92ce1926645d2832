//! The domain types that ride the wire: ids, users, messages, members,
//! roles, channels, webhooks, activities, and the predicates tying each to
//! the JSON documents that carry it.

pub mod activity;
pub mod channel;
pub mod fields;
pub mod id;
pub mod member;
pub mod message;
pub mod role;
pub mod timestamp;
pub mod user;
pub mod webhook;

pub use activity::{Activity, ActivityType};
pub use channel::{Channel, ChannelKind};
pub use member::{Member, PartialMember};
pub use message::{Message, MessageKind};
pub use role::Role;
pub use timestamp::Timestamp;
pub use user::User;
pub use webhook::{Webhook, WebhookKind};
