//! Intents: the 64-bit bitmask of event categories a client opts into,
//! sent once in the identify frame.

use vstd::prelude::*;

verus! {

#[derive(Debug, Clone, Copy, PartialEq, Eq, Structural)]
pub struct Intents(pub u64);

impl Intents {
    /// No intents.
    pub fn none() -> (i: Intents)
        ensures
            i.0 == 0,
    {
        Intents(0)
    }

    /// The union of two intent masks.
    pub fn or(self, other: Intents) -> (i: Intents)
        ensures
            i.0 == self.0 | other.0,
    {
        Intents(self.0 | other.0)
    }

    /// The guild events category.
    pub fn guilds() -> (i: Intents)
        ensures
            i.0 == 1u64 << 0,
    {
        Intents(1u64 << 0)
    }

    /// The guild-member events category.
    pub fn guild_members() -> (i: Intents)
        ensures
            i.0 == 1u64 << 1,
    {
        Intents(1u64 << 1)
    }

    /// The guild-ban events category.
    pub fn guild_bans() -> (i: Intents)
        ensures
            i.0 == 1u64 << 2,
    {
        Intents(1u64 << 2)
    }

    /// The guild-emoji events category.
    pub fn guild_emojis() -> (i: Intents)
        ensures
            i.0 == 1u64 << 3,
    {
        Intents(1u64 << 3)
    }

    /// The guild-integration events category.
    pub fn guild_integrations() -> (i: Intents)
        ensures
            i.0 == 1u64 << 4,
    {
        Intents(1u64 << 4)
    }

    /// The guild-webhook events category.
    pub fn guild_webhooks() -> (i: Intents)
        ensures
            i.0 == 1u64 << 5,
    {
        Intents(1u64 << 5)
    }

    /// The guild-invite events category.
    pub fn guild_invites() -> (i: Intents)
        ensures
            i.0 == 1u64 << 6,
    {
        Intents(1u64 << 6)
    }

    /// The guild voice-state events category.
    pub fn guild_voice_states() -> (i: Intents)
        ensures
            i.0 == 1u64 << 7,
    {
        Intents(1u64 << 7)
    }

    /// The guild-presence events category.
    pub fn guild_presences() -> (i: Intents)
        ensures
            i.0 == 1u64 << 8,
    {
        Intents(1u64 << 8)
    }

    /// The guild-message events category.
    pub fn guild_messages() -> (i: Intents)
        ensures
            i.0 == 1u64 << 9,
    {
        Intents(1u64 << 9)
    }

    /// The guild message-reaction events category.
    pub fn guild_message_reactions() -> (i: Intents)
        ensures
            i.0 == 1u64 << 10,
    {
        Intents(1u64 << 10)
    }

    /// The guild message-typing events category.
    pub fn guild_message_typing() -> (i: Intents)
        ensures
            i.0 == 1u64 << 11,
    {
        Intents(1u64 << 11)
    }

    /// The direct-message events category.
    pub fn direct_messages() -> (i: Intents)
        ensures
            i.0 == 1u64 << 12,
    {
        Intents(1u64 << 12)
    }

    /// The direct-message reaction events category.
    pub fn direct_message_reactions() -> (i: Intents)
        ensures
            i.0 == 1u64 << 13,
    {
        Intents(1u64 << 13)
    }

    /// The direct-message typing events category.
    pub fn direct_message_typing() -> (i: Intents)
        ensures
            i.0 == 1u64 << 14,
    {
        Intents(1u64 << 14)
    }
}

} // verus!
