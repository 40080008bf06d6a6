//! Core of a client library for a chat-platform gateway: a long-lived,
//! JSON-framed websocket session layered on top of a REST control plane.
//!
//! The crate holds the protocol logic itself — the frame codec, the gateway
//! state machine (handshake, heartbeat, dispatch, resume, reconnect, session
//! invalidation) and the global + per-route rate limiter that gates every
//! REST call — together with the plain data model of the platform.
//! Transport, timers and task plumbing live outside; they feed decoded
//! frames, header values and clock readings into the functions here and
//! carry out the actions those functions return.

mod connection;
mod error;
mod event;
mod frame;
mod frozen;
mod gateway;
mod heartbeat;
mod ids;
mod image;
mod json;
mod live;
mod ratelimit;
mod rest;
mod text;
mod wire;

pub use connection::{ConnectionBuilder, Intents};
pub use error::{Error, Result};
pub use heartbeat::{heartbeat_tick, latest_sequence};
pub use image::image_data_uri;
pub use rest::{
    api_url, attachment_filename, bot_authorization, build_gateway_url, error_from_status, is_no_content, is_success,
    may_retry, read_gateway_url, read_shard_count, trim_spaces, user_authorization, GetMessages,
    RetryReason,
};
pub use frame::{
    classify_frame, decode_frame, decode_value, str_eq, Dispatch, GatewayFrame, RawFrame,
    ReadyData, OP_DISPATCH, OP_HEARTBEAT, OP_HEARTBEAT_ACK, OP_HELLO, OP_IDENTIFY, OP_INVALIDATE,
    OP_PRESENCE, OP_RECONNECT, OP_REQUEST_MEMBERS, OP_RESUME, OP_SYNC_CALLS, OP_SYNC_SERVERS,
    OP_VOICE_STATE,
};
pub use frozen::{
    ApplicationInfo, Ban, ChannelOverride, ChannelType, CurrentUser, CurrentUserPatch, Emoji,
    FriendSourceFlags, Image, Incident, IncidentUpdate, InviteChannel, InviteTargetType,
    Maintenance, NotificationLevel,
    NsfwLevel, PermissionOverwriteId, Permissions, Relationship, RelationshipType, Role,
    RoleFlags, ScheduledEventMetadata, ScheduledEventPrivacy, ScheduledEventStatus, Server,
    ServerFeature, ServerPreview, ServerPrune, StickerFormat, StickerItem, Tutorial, User,
    UserServerSettings, UserSettings, VerificationLevel, VideoQuality, WelcomeChannels,
    WelcomeScreen,
};
pub use ids::{
    ApplicationId, ChannelId, EmojiId, EventId, Mention, MentionTarget, MessageId, RoleId,
    ServerId, StageId, StickerId, StickerPackId, UserId,
};
pub use live::{
    ActiveStage, ActivityEmoji, ActivityType, Attachment, ChannelMention, EmbedAuthor,
    EmbedField, EmbedFooter, EmbedImage, EmbedProvider, EmbedThumbnail, EmbedVideo, Game,
    GameType, MessageActivity, MessageActivityType, MessageReference, MessageType, OnlineStatus,
    PossibleServer, Reaction, ReactionEmoji, SingleReaction, StagePrivacyLevel, UnreadMessages,
    VoiceRegion,
};
pub use event::{
    HelloPayload, IdentifyConnection, IdentifyPayload, RequestGuildMembersPayload, ResumePayload,
    UpdateVoiceStatePayload,
};
pub use gateway::{
    reconnect_attempt, Action, ProtocolState, ReconnectAttempt, ResumeStart, Session, Step,
};
pub use ratelimit::{
    GlobalBucket, RateHeaders, RateLimits, RouteBucket, GLOBAL_LIMIT, GLOBAL_WINDOW_MS,
    MAX_TIME_MS, RETRY_LEEWAY_MS, ROUTE_DEFAULT_LIMIT, ROUTE_REFILL_MS,
};
pub use text::{check_discriminator, parse_header_int, parse_u64, u64_to_dec};
pub use wire::{
    download_members_frame, heartbeat_frame, identify_frame, presence_frame, resume_frame,
    sync_calls_frame, sync_servers_frame, voice_state_frame,
};
