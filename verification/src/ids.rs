//! Numeric identifiers for the platform's entities, and the mention markup
//! built from them.

use vstd::prelude::*;

use crate::text::{dec_string, u64_to_dec};

verus! {

/// An identifier for an application.
#[derive(Copy, Clone, Hash, Eq, PartialEq, Debug, Ord, PartialOrd, Structural)]
pub struct ApplicationId(pub u64);

/// An identifier for a user.
#[derive(Copy, Clone, Hash, Eq, PartialEq, Debug, Ord, PartialOrd, Structural)]
pub struct UserId(pub u64);

/// An identifier for a server.
#[derive(Copy, Clone, Hash, Eq, PartialEq, Debug, Ord, PartialOrd, Structural)]
pub struct ServerId(pub u64);

/// An identifier for a channel.
#[derive(Copy, Clone, Hash, Eq, PartialEq, Debug, Ord, PartialOrd, Structural)]
pub struct ChannelId(pub u64);

/// An identifier for a message.
#[derive(Copy, Clone, Hash, Eq, PartialEq, Debug, Ord, PartialOrd, Structural)]
pub struct MessageId(pub u64);

/// An identifier for a role.
#[derive(Copy, Clone, Hash, Eq, PartialEq, Debug, Ord, PartialOrd, Structural)]
pub struct RoleId(pub u64);

/// An identifier for a custom emoji.
#[derive(Copy, Clone, Hash, Eq, PartialEq, Debug, Ord, PartialOrd, Structural)]
pub struct EmojiId(pub u64);

/// An identifier for a sticker.
#[derive(Copy, Clone, Hash, Eq, PartialEq, Debug, Ord, PartialOrd, Structural)]
pub struct StickerId(pub u64);

/// An identifier for a standard sticker pack.
#[derive(Copy, Clone, Hash, Eq, PartialEq, Debug, Ord, PartialOrd, Structural)]
pub struct StickerPackId(pub u64);

/// An identifier for a scheduled server event.
#[derive(Copy, Clone, Hash, Eq, PartialEq, Debug, Ord, PartialOrd, Structural)]
pub struct EventId(pub u64);

/// An identifier for a stage instance.
#[derive(Copy, Clone, Hash, Eq, PartialEq, Debug, Ord, PartialOrd, Structural)]
pub struct StageId(pub u64);

/// The kind of entity a mention points at, which fixes the markup prefix.
#[derive(Copy, Clone, Eq, PartialEq, Debug, Structural)]
pub enum MentionTarget {
    /// Pings one user: `<@id>`.
    User,
    /// Pings every member holding a role: `<@&id>`.
    Role,
    /// Links a channel: `<#id>`.
    Channel,
}

/// The markup prefix for a mention target.
pub open spec fn mention_prefix(t: MentionTarget) -> Seq<char> {
    match t {
        MentionTarget::User => "<@"@,
        MentionTarget::Role => "<@&"@,
        MentionTarget::Channel => "<#"@,
    }
}

/// The full mention markup for a target and an identifier.
pub open spec fn mention_markup(t: MentionTarget, id: int) -> Seq<char> {
    mention_prefix(t) + dec_string(id) + ">"@
}

/// A mention targeted at a specific user, role or channel.
///
/// A mention is constructed by calling `mention()` on an identifier type,
/// and turned into markup with [`Mention::text`].
#[derive(Copy, Clone, Eq, PartialEq, Debug, Structural)]
pub struct Mention {
    target: MentionTarget,
    id: u64,
}

impl Mention {
    /// What this mention points at.
    pub closed spec fn spec_target(&self) -> MentionTarget {
        self.target
    }

    /// The identifier this mention carries.
    pub closed spec fn spec_id(&self) -> u64 {
        self.id
    }

    /// Render the mention as chat markup.
    pub fn text(&self) -> (r: String)
        ensures
            r@ == mention_markup(self.spec_target(), self.spec_id() as int),
    {
        let prefix = match self.target {
            MentionTarget::User => "<@",
            MentionTarget::Role => "<@&",
            MentionTarget::Channel => "<#",
        };
        let mut s = String::from_str(prefix);
        let digits = u64_to_dec(self.id);
        s.append(digits.as_str());
        s.append(">");
        proof {
            reveal_strlit("<@");
            reveal_strlit("<@&");
            reveal_strlit("<#");
            reveal_strlit(">");
        }
        s
    }
}

impl UserId {
    /// Return a `Mention` which will ping this user.
    pub fn mention(&self) -> (r: Mention)
        ensures
            r.spec_target() == MentionTarget::User,
            r.spec_id() == self.0,
    {
        Mention { target: MentionTarget::User, id: self.0 }
    }
}

impl RoleId {
    /// Return a `Mention` which will ping members of this role.
    pub fn mention(&self) -> (r: Mention)
        ensures
            r.spec_target() == MentionTarget::Role,
            r.spec_id() == self.0,
    {
        Mention { target: MentionTarget::Role, id: self.0 }
    }
}

impl ChannelId {
    /// Return a `Mention` which will link to this channel.
    pub fn mention(&self) -> (r: Mention)
        ensures
            r.spec_target() == MentionTarget::Channel,
            r.spec_id() == self.0,
    {
        Mention { target: MentionTarget::Channel, id: self.0 }
    }
}

impl ServerId {
    /// Get the ID of the server's `@everyone` role, which equals the
    /// server's own identifier.
    pub fn everyone(&self) -> (r: RoleId)
        ensures
            r.0 == self.0,
    {
        RoleId(self.0)
    }
}

} // verus!
