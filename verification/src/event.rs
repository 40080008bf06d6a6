//! Payload shapes for the messages this side sends to the gateway, and for
//! the hello frame it receives.

use vstd::prelude::*;

use crate::ids::{ChannelId, ServerId, UserId};

verus! {

/// The payload sent along with the identify frame.
#[derive(Debug, Clone, PartialEq)]
pub struct IdentifyPayload {
    /// Authentication token.
    pub token: String,
    /// A pair of `(shard_id, total_shards)`, used for server sharding.
    pub shard: Option<(u8, u8)>,
    /// Gateway intents to receive, as a bit set.
    pub intents: Option<u64>,
    /// Whether this connection supports compression of packets.
    pub compress: Option<bool>,
    /// Total number of members where the gateway stops sending offline
    /// members in the member list, between 50 and 250.
    pub large_threshold: Option<u64>,
    /// System fingerprinting information.
    pub fingerprint: IdentifyConnection,
}

/// A connection fingerprint describing the client's environment.
#[derive(Debug, Clone, PartialEq)]
pub struct IdentifyConnection {
    /// The current operating system.
    pub os: String,
    /// For bot users, the current library; a client description otherwise.
    pub browser: String,
    /// For bot users, the current library; a device description otherwise.
    pub device: String,
}

/// The payload sent along with the resume frame.
#[derive(Debug, Clone, PartialEq)]
pub struct ResumePayload {
    /// The token of the authenticating user.
    pub token: String,
    /// The session ID issued during the interrupted connection.
    pub session_id: String,
    /// The number of the last sequence received.
    pub last_sequence: u64,
}

/// The payload sent along with a member-chunk request.
#[derive(Debug, Clone, PartialEq)]
pub struct RequestGuildMembersPayload {
    /// ID of the server to get members for.
    pub server_id: ServerId,
    /// String that usernames start with, or an empty string for all members.
    pub username_query: Option<String>,
    /// Maximum number of members to send; zero with an empty query returns
    /// all members.
    pub limit: u32,
    /// Whether to include the presences of the matched members.
    pub presences: bool,
    /// Which users to fetch, in place of a username query.
    pub user_ids: Option<Vec<UserId>>,
    /// A nonce to identify the member-chunk response.
    pub nonce: String,
}

/// The payload sent when the client wants to join, move between, or
/// disconnect from voice channels.
#[derive(Debug, Clone, PartialEq)]
pub struct UpdateVoiceStatePayload {
    /// ID of the server to change the state of.
    pub guild_id: ServerId,
    /// ID of the voice channel to join, or `None` when disconnecting.
    pub channel_id: Option<ChannelId>,
    /// Whether the client is muted.
    pub self_mute: bool,
    /// Whether the client is deafened.
    pub self_deaf: bool,
}

/// The payload of the hello frame.
#[derive(Debug, Clone, PartialEq, Eq, Structural)]
pub struct HelloPayload {
    /// Interval in milliseconds at which to heartbeat.
    pub heartbeat_interval: u64,
}

} // verus!
