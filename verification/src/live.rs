//! Data model for `live` resources: those that are maintained by an active
//! gateway connection, such as presences, messages and ongoing calls.

use vstd::prelude::*;

use crate::frozen::{ChannelType, Server};
use crate::ids::{ChannelId, EmojiId, EventId, MessageId, ServerId, StageId, UserId};

verus! {

/// A server which may be unavailable.
#[derive(Debug, Clone, PartialEq)]
pub enum PossibleServer<T> {
    /// An online server, for which more information is available.
    Online(T),
    /// An offline server, the ID of which is known.
    Offline {
        /// The ID of the unavailable server.
        id: ServerId,
        /// Whether the server is unavailable.
        unavailable: bool,
    },
}

impl PossibleServer<Server> {
    /// The ID of the server, whether it is online or not.
    pub fn id(&self) -> (r: ServerId)
        ensures
            r == match self {
                PossibleServer::Online(s) => s.id,
                PossibleServer::Offline { id, .. } => *id,
            },
    {
        match self {
            PossibleServer::Offline { id, .. } => *id,
            PossibleServer::Online(s) => s.id,
        }
    }
}

// Presence

/// A member's online status.
#[derive(Copy, Clone, Hash, Eq, PartialEq, Debug, Structural)]
pub enum OnlineStatus {
    /// The user will not receive notifications.
    DoNotDisturb,
    /// The user appears offline.
    Invisible,
    /// The user is presumed to not be online.
    Offline,
    /// The user is online and active.
    Online,
    /// The user is away.
    Idle,
}

/// The status keyword sent on the wire for an online status.
pub open spec fn status_keyword(s: OnlineStatus) -> Seq<char> {
    match s {
        OnlineStatus::DoNotDisturb => "dnd"@,
        OnlineStatus::Invisible => "invisible"@,
        OnlineStatus::Offline => "offline"@,
        OnlineStatus::Online => "online"@,
        OnlineStatus::Idle => "idle"@,
    }
}

impl OnlineStatus {
    /// The status keyword sent on the wire.
    pub fn keyword(&self) -> (r: &'static str)
        ensures
            r@ == status_keyword(*self),
    {
        proof {
            reveal_strlit("dnd");
            reveal_strlit("invisible");
            reveal_strlit("offline");
            reveal_strlit("online");
            reveal_strlit("idle");
        }
        match self {
            OnlineStatus::DoNotDisturb => "dnd",
            OnlineStatus::Invisible => "invisible",
            OnlineStatus::Offline => "offline",
            OnlineStatus::Online => "online",
            OnlineStatus::Idle => "idle",
        }
    }
}

/// A game or other activity the logged-in user reports itself playing.
#[derive(Debug, Clone, PartialEq)]
pub struct Game {
    /// The name of the game.
    pub name: String,
    /// How the game is being played.
    pub kind: GameType,
    /// A stream URL, shown when the kind is `Streaming`.
    pub url: Option<String>,
}

impl Game {
    /// A plainly played game with the given name.
    pub fn playing(name: String) -> (r: Game)
        ensures
            r.name == name,
            r.kind == GameType::Playing,
            r.url is None,
    {
        Game { name, kind: GameType::Playing, url: None }
    }
}

/// How a reported game is being played.
#[derive(Copy, Clone, Hash, Eq, PartialEq, Debug, Structural)]
pub enum GameType {
    /// The user is playing the game.
    Playing,
    /// The user is streaming the game.
    Streaming,
}

impl GameType {
    /// The numeric tag this kind carries on the wire.
    pub open spec fn spec_code(&self) -> u8 {
        match self {
            GameType::Playing => 0,
            GameType::Streaming => 1,
        }
    }

    /// The numeric tag this kind carries on the wire.
    pub fn code(&self) -> (r: u8)
        ensures
            r == self.spec_code(),
    {
        match self {
            GameType::Playing => 0,
            GameType::Streaming => 1,
        }
    }
}

/// A type of activity in a user's presence.
#[derive(Copy, Clone, Hash, Eq, PartialEq, Debug, Structural)]
pub enum ActivityType {
    /// The user is playing a game.
    Playing,
    /// The user is streaming somewhere.
    Streaming,
    /// The user is listening to music.
    Listening,
    /// The user has set a custom text status.
    Custom,
    /// The user is competing.
    Competing,
}

impl ActivityType {
    /// The numeric tag this kind carries on the wire.
    pub open spec fn spec_code(&self) -> u8 {
        match self {
            ActivityType::Playing => 0,
            ActivityType::Streaming => 1,
            ActivityType::Listening => 2,
            ActivityType::Custom => 4,
            ActivityType::Competing => 5,
        }
    }

    /// The numeric tag this kind carries on the wire.
    pub fn code(&self) -> (r: u8)
        ensures
            r == self.spec_code(),
    {
        match self {
            ActivityType::Playing => 0,
            ActivityType::Streaming => 1,
            ActivityType::Listening => 2,
            ActivityType::Custom => 4,
            ActivityType::Competing => 5,
        }
    }
}

/// The emoji used for a custom status.
#[derive(Debug, Clone, PartialEq)]
pub struct ActivityEmoji {
    /// The name of the emoji, or the unicode character for stock emoji.
    pub name: String,
    /// The ID of the emoji, when it is custom.
    pub id: Option<EmojiId>,
    /// Whether the emoji is animated.
    pub animated: Option<bool>,
}

// Messages

/// The type of a message.
#[derive(Copy, Clone, Hash, Eq, PartialEq, Debug, Structural)]
pub enum MessageType {
    /// A regular, text-based message.
    Default,
    /// A recipient was added to the group.
    GroupRecipientAdded,
    /// A recipient was removed from the group.
    GroupRecipientRemoved,
    /// A group call was created.
    GroupCall,
    /// A group name was updated.
    GroupNameChange,
    /// A group icon was updated.
    GroupIconChange,
    /// A message was pinned.
    MessagePinned,
    /// A user joined a server and a welcome message was generated.
    UserJoined,
    /// The server has been boosted.
    ServerBoost,
    /// The server just reached boost level 1.
    ServerBoostTier1,
    /// The server just reached boost level 2.
    ServerBoostTier2,
    /// The server just reached boost level 3.
    ServerBoostTier3,
    /// A followed channel was added.
    ChannelFollowAdd,
    /// The server is no longer in the discovery directory.
    GuildDiscoveryDisqualified,
    /// The server has met the discovery criteria again.
    GuildDiscoveryRequalified,
    /// First warning about dropping out of discovery.
    GuildDiscoveryGracePeriodInitialWarning,
    /// Final warning about dropping out of discovery.
    GuildDiscoveryGracePeriodFinalWarning,
    /// A user started a thread.
    ThreadCreated,
    /// A reply message.
    Reply,
    /// A bot has responded to a command.
    ChatInputCommand,
    /// A standalone thread was started without a message.
    ThreadStarterMessage,
    /// A reminder to set up invites.
    GuildInviteReminder,
    /// A context menu command response.
    ContextMenuCommand,
    /// The auto moderation tool has taken an action.
    AutoModerationAction,
    /// A member has bought a role subscription.
    RoleSubscriptionPurchase,
    /// An upsell for premium interactions.
    InteractionPremiumUpsell,
    /// A stage session has been started.
    StageStart,
    /// A stage session has ended.
    StageEnd,
    /// A member has been promoted to speaker on a stage session.
    StageSpeaker,
    /// The topic for the stage session has been set.
    StageTopic,
    /// A premium subscription to an application.
    GuildApplicationPremiumSubscription,
}

impl MessageType {
    /// The numeric tag this message type carries on the wire.
    pub open spec fn spec_code(&self) -> u8 {
        match self {
            MessageType::Default => 0,
            MessageType::GroupRecipientAdded => 1,
            MessageType::GroupRecipientRemoved => 2,
            MessageType::GroupCall => 3,
            MessageType::GroupNameChange => 4,
            MessageType::GroupIconChange => 5,
            MessageType::MessagePinned => 6,
            MessageType::UserJoined => 7,
            MessageType::ServerBoost => 8,
            MessageType::ServerBoostTier1 => 9,
            MessageType::ServerBoostTier2 => 10,
            MessageType::ServerBoostTier3 => 11,
            MessageType::ChannelFollowAdd => 12,
            MessageType::GuildDiscoveryDisqualified => 14,
            MessageType::GuildDiscoveryRequalified => 15,
            MessageType::GuildDiscoveryGracePeriodInitialWarning => 16,
            MessageType::GuildDiscoveryGracePeriodFinalWarning => 17,
            MessageType::ThreadCreated => 18,
            MessageType::Reply => 19,
            MessageType::ChatInputCommand => 20,
            MessageType::ThreadStarterMessage => 21,
            MessageType::GuildInviteReminder => 22,
            MessageType::ContextMenuCommand => 23,
            MessageType::AutoModerationAction => 24,
            MessageType::RoleSubscriptionPurchase => 25,
            MessageType::InteractionPremiumUpsell => 26,
            MessageType::StageStart => 27,
            MessageType::StageEnd => 28,
            MessageType::StageSpeaker => 29,
            MessageType::StageTopic => 31,
            MessageType::GuildApplicationPremiumSubscription => 32,
        }
    }

    /// The numeric tag this message type carries on the wire.
    pub fn code(&self) -> (r: u8)
        ensures
            r == self.spec_code(),
    {
        match self {
            MessageType::Default => 0,
            MessageType::GroupRecipientAdded => 1,
            MessageType::GroupRecipientRemoved => 2,
            MessageType::GroupCall => 3,
            MessageType::GroupNameChange => 4,
            MessageType::GroupIconChange => 5,
            MessageType::MessagePinned => 6,
            MessageType::UserJoined => 7,
            MessageType::ServerBoost => 8,
            MessageType::ServerBoostTier1 => 9,
            MessageType::ServerBoostTier2 => 10,
            MessageType::ServerBoostTier3 => 11,
            MessageType::ChannelFollowAdd => 12,
            MessageType::GuildDiscoveryDisqualified => 14,
            MessageType::GuildDiscoveryRequalified => 15,
            MessageType::GuildDiscoveryGracePeriodInitialWarning => 16,
            MessageType::GuildDiscoveryGracePeriodFinalWarning => 17,
            MessageType::ThreadCreated => 18,
            MessageType::Reply => 19,
            MessageType::ChatInputCommand => 20,
            MessageType::ThreadStarterMessage => 21,
            MessageType::GuildInviteReminder => 22,
            MessageType::ContextMenuCommand => 23,
            MessageType::AutoModerationAction => 24,
            MessageType::RoleSubscriptionPurchase => 25,
            MessageType::InteractionPremiumUpsell => 26,
            MessageType::StageStart => 27,
            MessageType::StageEnd => 28,
            MessageType::StageSpeaker => 29,
            MessageType::StageTopic => 31,
            MessageType::GuildApplicationPremiumSubscription => 32,
        }
    }
}

/// A file upload attached to a message.
#[derive(Debug, Clone, PartialEq)]
pub struct Attachment {
    /// The ID of the attachment.
    pub id: String,
    /// Short filename for the attachment.
    pub filename: String,
    /// Shorter URL with message and attachment id.
    pub url: String,
    /// Longer URL with a large hash.
    pub proxy_url: String,
    /// Size of the file in bytes.
    pub size: u64,
    /// Width, if the file is an image.
    pub width: Option<u64>,
    /// Height, if the file is an image.
    pub height: Option<u64>,
}

impl Attachment {
    /// Get the dimensions of the attachment if it is an image.
    pub fn dimensions(&self) -> (r: Option<(u64, u64)>)
        ensures
            r is Some <==> (self.width is Some && self.height is Some),
            r matches Some(d) ==> d.0 == self.width->0 && d.1 == self.height->0,
    {
        if let (Some(w), Some(h)) = (&self.width, &self.height) {
            Some((*w, *h))
        } else {
            None
        }
    }
}

// Embeds

/// The text found at the bottom of an embed.
#[derive(Debug, Clone, PartialEq)]
pub struct EmbedFooter {
    /// Footer text.
    pub text: String,
    /// URL of the footer icon.
    pub icon_url: Option<String>,
    /// Proxied URL of the footer icon.
    pub proxy_icon_url: Option<String>,
}

/// The main image inside of an embed.
#[derive(Debug, Clone, PartialEq)]
pub struct EmbedImage {
    /// Source URL of the image.
    pub url: String,
    /// Proxied URL of the image.
    pub proxy_url: Option<String>,
    /// The height of the image in pixels.
    pub height: u32,
    /// The width of the image in pixels.
    pub width: u32,
}

/// The thumbnail of an embed.
#[derive(Debug, Clone, PartialEq)]
pub struct EmbedThumbnail {
    /// Source URL of the thumbnail image.
    pub url: String,
    /// Proxied URL of the thumbnail image.
    pub proxy_url: Option<String>,
    /// The height of the image in pixels.
    pub height: u32,
    /// The width of the image in pixels.
    pub width: u32,
}

/// The video content of an embed.
#[derive(Debug, Clone, PartialEq)]
pub struct EmbedVideo {
    /// Source URL of the video.
    pub url: String,
    /// Proxied URL of the video.
    pub proxy_url: Option<String>,
    /// The height of the video in pixels.
    pub height: u32,
    /// The width of the video in pixels.
    pub width: u32,
}

/// The provider of an embed.
#[derive(Debug, Clone, PartialEq)]
pub struct EmbedProvider {
    /// The name of the provider.
    pub name: Option<String>,
    /// The provider's website.
    pub url: Option<String>,
}

/// The author of an embed.
#[derive(Debug, Clone, PartialEq)]
pub struct EmbedAuthor {
    /// The name of the author.
    pub name: String,
    /// URL of the author.
    pub url: Option<String>,
    /// URL of the author's icon.
    pub icon_url: Option<String>,
    /// Proxied URL of the author's icon.
    pub proxy_icon_url: Option<String>,
}

/// A titled field inside an embed.
#[derive(Debug, Clone, PartialEq)]
pub struct EmbedField {
    /// The name of the field.
    pub name: String,
    /// The value of the field.
    pub value: String,
    /// Whether the field should be displayed inline.
    pub inline: bool,
}

/// A message activity related to a user's rich presence.
#[derive(Debug, Clone, PartialEq)]
pub struct MessageActivity {
    /// Type of activity to join.
    pub kind: MessageActivityType,
    /// The ID of the party a user will be invited to.
    pub party_id: Option<String>,
}

/// Type of button to display on a message.
#[derive(Copy, Clone, Hash, Eq, PartialEq, Debug, Structural)]
pub enum MessageActivityType {
    /// Join an activity without a request.
    Join,
    /// Spectate an activity.
    Spectate,
    /// Listen along.
    Listen,
    /// Join an activity by requesting.
    JoinRequest,
}

impl MessageActivityType {
    /// The numeric tag this kind carries on the wire.
    pub open spec fn spec_code(&self) -> u8 {
        match self {
            MessageActivityType::Join => 1,
            MessageActivityType::Spectate => 2,
            MessageActivityType::Listen => 3,
            MessageActivityType::JoinRequest => 5,
        }
    }

    /// The numeric tag this kind carries on the wire.
    pub fn code(&self) -> (r: u8)
        ensures
            r == self.spec_code(),
    {
        match self {
            MessageActivityType::Join => 1,
            MessageActivityType::Spectate => 2,
            MessageActivityType::Listen => 3,
            MessageActivityType::JoinRequest => 5,
        }
    }
}

/// The message associated with a reply reference.
#[derive(Debug, Clone, PartialEq)]
pub struct MessageReference {
    /// ID of the originating message.
    pub message: MessageId,
    /// ID of the originating message's channel.
    pub channel: ChannelId,
    /// ID of the originating message's server.
    pub server: ServerId,
    /// When sending, whether to error if the referenced message does not
    /// exist instead of sending a normal message.
    pub fail_if_not_exists: Option<bool>,
}

/// Information about a mentioned channel.
#[derive(Debug, Clone, PartialEq)]
pub struct ChannelMention {
    /// ID of the channel.
    pub id: ChannelId,
    /// Which server the channel is from.
    pub server: ServerId,
    /// The name of the channel.
    pub name: String,
    /// What type the channel is.
    pub kind: ChannelType,
}

// Message reactions

/// A full single reaction interaction.
#[derive(Debug, Clone, PartialEq)]
pub struct SingleReaction {
    /// The channel the reacted message is in.
    pub channel_id: ChannelId,
    /// The reacted message.
    pub message_id: MessageId,
    /// The user who reacted.
    pub user_id: UserId,
    /// The emoji used to react.
    pub emoji: ReactionEmoji,
}

/// Information on a reaction as available at a glance on a message.
#[derive(Debug, Clone, PartialEq)]
pub struct Reaction {
    /// The amount of people that have reacted with this emoji.
    pub count: u64,
    /// Whether the current user has placed this reaction.
    pub me: bool,
    /// The emoji used to react.
    pub emoji: ReactionEmoji,
}

/// Emoji information sent only from reaction events.
#[derive(Debug, Clone, PartialEq)]
pub enum ReactionEmoji {
    /// A user reacted with a custom emoji.
    Custom {
        /// The name that is displayed for the emoji.
        name: String,
        /// The ID of the emoji.
        id: EmojiId,
        /// Whether the emoji is animated.
        animated: bool,
    },
    /// A user reacted with a stock unicode emoji.
    Unicode {
        /// The emoji character itself.
        name: String,
    },
}

// Voice regions

/// Information about an available voice region.
#[derive(Debug, Clone, PartialEq)]
pub struct VoiceRegion {
    /// Unique ID for this region.
    pub id: String,
    /// Human name for the voice region.
    pub name: String,
    /// True for a single server that is closest to the current user's client.
    pub optimal: bool,
    /// Whether this is a deprecated voice region.
    pub deprecated: bool,
    /// Whether this voice region supports high-bitrate audio.
    pub vip: bool,
    /// A guess about the hostname of the region server.
    pub sample_hostname: String,
    /// A guess about the open port of the region server.
    pub sample_port: u16,
}

// Information about missed messages

/// Summary of messages since last login for an accessible channel.
#[derive(Debug, Clone, PartialEq)]
pub struct UnreadMessages {
    /// ID of the relevant channel.
    pub id: ChannelId,
    /// Last seen message in this channel.
    pub last_message_id: Option<MessageId>,
    /// Mentions since that message in this channel.
    pub mention_count: u64,
}

/// An in-session stage channel instance on a server.
#[derive(Debug, Clone, PartialEq)]
pub struct ActiveStage {
    /// The ID of the stage.
    pub id: StageId,
    /// The ID of the server the stage is in.
    pub server_id: ServerId,
    /// The ID of the channel of the active stage instance.
    pub channel_id: ChannelId,
    /// The topic set for the stage session.
    pub topic: String,
    /// Who can see the stage.
    pub privacy: StagePrivacyLevel,
    /// The ID of an associated scheduled event.
    pub event_id: Option<EventId>,
}

/// Whether an active stage session is visible from a server's discovery page.
#[derive(Debug, Clone, PartialEq, Eq, Structural)]
pub enum StagePrivacyLevel {
    /// The stage is joinable from discovery.
    Public,
    /// The stage is only visible to server members.
    ServerOnly,
}

} // verus!
