//! Data model for resources returned from the platform's REST API.
//!
//! The name `frozen` comes from the fact that data modeled here rarely
//! changes — server settings, channel configuration and so on — so it is
//! accessible from the REST API.  Resources whose instances are managed by
//! an active gateway connection live in the sister module `live`.

use vstd::prelude::*;

use crate::ids::{
    ApplicationId, ChannelId, EmojiId, EventId, Mention, MentionTarget, RoleId, ServerId,
    StickerId, UserId,
};
use crate::text::dec_string;

verus! {

/// The origin every content-delivery URL starts with.
pub open spec fn cdn_base() -> Seq<char> {
    "https://cdn.discordapp.com"@
}

/// A content-delivery URL of the shape `<cdn>/<kind>/<id>/<hash><ext>`.
pub open spec fn cdn_url(kind: Seq<char>, id: int, hash: Seq<char>, ext: Seq<char>) -> Seq<char> {
    cdn_base() + kind + dec_string(id) + "/"@ + hash + ext
}

/// Build a content-delivery URL from its parts.
fn format_cdn_url(kind: &str, id: u64, hash: &str, ext: &str) -> (r: String)
    ensures
        r@ == cdn_url(kind@, id as int, hash@, ext@),
{
    let mut s = String::from_str("https://cdn.discordapp.com");
    s.append(kind);
    let digits = crate::text::u64_to_dec(id);
    s.append(digits.as_str());
    s.append("/");
    s.append(hash);
    s.append(ext);
    proof {
        reveal_strlit("https://cdn.discordapp.com");
        reveal_strlit("/");
    }
    s
}

// Users

/// Frozen user information, accessible without being friends with that user.
#[derive(Debug, Clone, PartialEq)]
pub struct User {
    /// The user's ID.
    pub id: UserId,
    /// The user's username, not unique across the platform.
    pub name: String,
    /// The user's tag, between 0 and 9999.
    pub discriminator: u16,
    /// The user's avatar hash.
    pub avatar: Option<String>,
    /// Whether the user belongs to an OAuth2 application.
    pub bot: bool,
}

impl User {
    /// Return a `Mention` which will ping this user.
    pub fn mention(&self) -> (r: Mention)
        ensures
            r.spec_target() == MentionTarget::User,
            r.spec_id() == self.id.0,
    {
        self.id.mention()
    }

    /// Returns the formatted URL of the user's icon.
    ///
    /// Returns `None` if the user does not have an avatar.
    pub fn avatar_url(&self) -> (r: Option<String>)
        ensures
            r is Some <==> self.avatar is Some,
            r is Some ==> r->0@ == cdn_url(
                "/avatars/"@,
                self.id.0 as int,
                self.avatar->0@,
                ".jpg"@,
            ),
    {
        match &self.avatar {
            Some(hash) => Some(format_cdn_url("/avatars/", self.id.0, hash.as_str(), ".jpg")),
            None => None,
        }
    }
}

/// Information about the logged-in user.
#[derive(Debug, Clone, PartialEq)]
pub struct CurrentUser {
    /// The user's ID.
    pub id: UserId,
    /// The user's username.
    pub username: String,
    /// The user's tag, between 0 and 9999.
    pub discriminator: u16,
    /// The user's avatar hash.
    pub avatar: Option<String>,
    /// The email bound to the account, absent for bots.
    pub email: Option<String>,
    /// Whether the email has been verified.
    pub verified: bool,
    /// Whether the account belongs to an OAuth2 application.
    pub bot: bool,
    /// Whether multi-factor authentication is enabled.
    pub mfa_enabled: bool,
}

/// A partial update to the logged-in user's information.
#[derive(Debug, Clone, PartialEq)]
pub struct CurrentUserPatch {
    /// The ID of the current user.
    pub id: Option<UserId>,
    /// The non-unique username of the current user.
    pub username: Option<String>,
    /// The tag of the current user.
    pub discriminator: Option<u16>,
    /// The current user's avatar hash.
    pub avatar: Option<String>,
    /// The current user's email address, if not a bot account.
    pub email: Option<String>,
    /// Whether the email set for the user has been verified.
    pub verified: Option<bool>,
    /// Whether the current user has multi-factor authentication enabled.
    pub mfa_enabled: Option<bool>,
    /// Whether the current user is a bot.
    pub bot: Option<bool>,
}

impl CurrentUser {
    /// Overwrite each field for which the patch carries a value; keep every
    /// other field as it was.
    pub fn update_from(&mut self, patch: &CurrentUserPatch)
        ensures
            final(self).id == if patch.id is Some {
                patch.id->0
            } else {
                old(self).id
            },
            final(self).username@ == if patch.username is Some {
                patch.username->0@
            } else {
                old(self).username@
            },
            final(self).discriminator == if patch.discriminator is Some {
                patch.discriminator->0
            } else {
                old(self).discriminator
            },
            final(self).avatar matches Some(a) ==> (if patch.avatar is Some {
                a == patch.avatar->0
            } else {
                old(self).avatar matches Some(b) && a == b
            }),
            final(self).avatar is None <==> (patch.avatar is None && old(self).avatar is None),
            final(self).email matches Some(a) ==> (if patch.email is Some {
                a == patch.email->0
            } else {
                old(self).email matches Some(b) && a == b
            }),
            final(self).email is None <==> (patch.email is None && old(self).email is None),
            final(self).verified == if patch.verified is Some {
                patch.verified->0
            } else {
                old(self).verified
            },
            final(self).bot == if patch.bot is Some {
                patch.bot->0
            } else {
                old(self).bot
            },
            final(self).mfa_enabled == if patch.mfa_enabled is Some {
                patch.mfa_enabled->0
            } else {
                old(self).mfa_enabled
            },
    {
        if let Some(id) = patch.id {
            self.id = id;
        }
        if let Some(username) = &patch.username {
            self.username = username.clone();
        }
        if let Some(discriminator) = patch.discriminator {
            self.discriminator = discriminator;
        }
        if let Some(avatar) = &patch.avatar {
            self.avatar = Some(avatar.clone());
        }
        if let Some(email) = &patch.email {
            self.email = Some(email.clone());
        }
        if let Some(verified) = patch.verified {
            self.verified = verified;
        }
        if let Some(bot) = patch.bot {
            self.bot = bot;
        }
        if let Some(mfa_enabled) = patch.mfa_enabled {
            self.mfa_enabled = mfa_enabled;
        }
    }
}

/// Information on a friendship relationship this user has with another.
#[derive(Debug, Clone, PartialEq)]
pub struct Relationship {
    /// The ID of the other user.
    pub id: UserId,
    /// What kind of relationship this is.
    pub kind: RelationshipType,
    /// The other user.
    pub user: User,
}

/// A type of relationship this user has with another.
#[derive(Copy, Clone, Hash, Eq, PartialEq, Debug, Structural)]
pub enum RelationshipType {
    /// A user has sent a friend request which was consequently ignored.
    Ignored,
    /// The two users are friends.
    Friends,
    /// One user has blocked the other.
    Blocked,
    /// One user has sent this user a friend request.
    IncomingRequest,
    /// One user has sent another a friend request.
    OutgoingRequest,
}

impl RelationshipType {
    /// The numeric tag this kind carries on the wire.
    pub open spec fn spec_code(&self) -> u8 {
        match self {
            RelationshipType::Ignored => 0,
            RelationshipType::Friends => 1,
            RelationshipType::Blocked => 2,
            RelationshipType::IncomingRequest => 3,
            RelationshipType::OutgoingRequest => 4,
        }
    }

    /// The numeric tag this kind carries on the wire.
    pub fn code(&self) -> (r: u8)
        ensures
            r == self.spec_code(),
    {
        match self {
            RelationshipType::Ignored => 0,
            RelationshipType::Friends => 1,
            RelationshipType::Blocked => 2,
            RelationshipType::IncomingRequest => 3,
            RelationshipType::OutgoingRequest => 4,
        }
    }
}

/// Flags for who may add a user as a friend.
#[derive(Debug, Clone, PartialEq, Eq, Structural)]
pub struct FriendSourceFlags {
    /// Anybody can add this user as a friend.
    pub all: bool,
    /// Only friends of friends may add this user.
    pub mutual_friends: bool,
    /// Only people in a server with this user may add them.
    pub mutual_servers: bool,
}

// Permissions

/// Set of permissions assignable to a role or permission overwrite,
/// stored as a bit set.
#[derive(Copy, Clone, Hash, Eq, PartialEq, Debug, Default, Structural)]
pub struct Permissions(pub u64);

impl Permissions {
    /// No permission at all.
    pub fn empty() -> (r: Permissions)
        ensures
            r.0 == 0,
    {
        Permissions(0)
    }

    /// The union of two permission sets.
    pub fn union(self, other: Permissions) -> (r: Permissions)
        ensures
            r.0 == self.0 | other.0,
    {
        Permissions(self.0 | other.0)
    }

    /// Whether every permission of `other` is contained in `self`.
    pub fn contains(self, other: Permissions) -> (r: bool)
        ensures
            r == (self.0 & other.0 == other.0),
    {
        self.0 & other.0 == other.0
    }
}

/// Additional role flags, stored as a bit set.
#[derive(Copy, Clone, Hash, Eq, PartialEq, Debug, Default, Structural)]
pub struct RoleFlags(pub u8);

// Servers

/// Complete information about a server, obtainable only through joining it.
#[derive(Debug, Clone, PartialEq)]
pub struct Server {
    /// The ID of the server.
    pub id: ServerId,
    /// The name of the server (2-100 characters).
    pub name: String,
    /// The icon hash of the server.
    pub icon: Option<String>,
    /// The banner image (splash) hash of the server.
    pub splash: Option<String>,
    /// The hash of the banner image shown in public server discovery.
    pub discovery_splash: Option<String>,
    /// True if the requesting user is the owner of the server.
    pub owner: bool,
    /// The owner of the server.
    pub owner_id: UserId,
    /// Total permissions for the user in the server, excluding overwrites.
    pub permissions: Permissions,
    /// Voice region id for the server.
    pub region: String,
    /// Voice AFK timeout in seconds.
    pub afk_timeout: u64,
    /// The ID of the AFK voice channel.
    pub afk_channel_id: Option<ChannelId>,
    /// True if the server widget is enabled.
    pub widget_enabled: bool,
    /// The channel the widget will generate an invite to.
    pub widget_channel_id: Option<ChannelId>,
    /// User verification level required to use the server.
    pub verification_level: VerificationLevel,
    /// Default message notification level.
    pub default_message_notifications: u8,
    /// Explicit content filter level.
    pub explicit_content_filter: u8,
    /// A list of all roles in the server.
    pub roles: Vec<Role>,
    /// A list of custom emojis in the server.
    pub emojis: Vec<Emoji>,
    /// Features enabled for this server.
    pub features: Vec<ServerFeature>,
    /// Required multi-factor authentication level.
    pub mfa_level: u8,
    /// The channel where server notices are posted.
    pub system_channel_id: Option<ChannelId>,
    /// System channel flags.
    pub system_channel_flags: u64,
    /// The channel where community servers display rules.
    pub rules_channel_id: Option<ChannelId>,
    /// The maximum number of presences for the server.
    pub max_presences: Option<u64>,
    /// The maximum number of members for the server.
    pub max_members: Option<u64>,
    /// The vanity invite code for the server.
    pub vanity_url_code: Option<String>,
    /// The description of the server.
    pub description: Option<String>,
    /// The banner hash of the server.
    pub banner: Option<String>,
    /// Server boost level.
    pub boost_tier: u8,
    /// The number of boosts this server currently has.
    pub boost_subscription_count: Option<u64>,
    /// The preferred locale of a community server.
    pub preferred_locale: String,
    /// The channel where moderators receive notices from the platform.
    pub public_updates_channel_id: Option<ChannelId>,
    /// The maximum number of users in a video channel.
    pub max_video_channel_users: u64,
    /// The maximum number of users in a stage video channel.
    pub max_stage_video_channel_users: u64,
    /// Approximate number of members in this server.
    pub approximate_member_count: u64,
    /// Approximate number of non-offline members in this server.
    pub approximate_presence_count: u64,
    /// The welcome screen of a community server.
    pub welcome_screen: WelcomeScreen,
    /// The server's self-assigned NSFW rating.
    pub nsfw: NsfwLevel,
    /// Custom server stickers.
    pub stickers: Option<Vec<StickerItem>>,
    /// Whether the server has the boost progress bar enabled.
    pub boost_progress_bar_enabled: bool,
    /// The channel where moderators receive safety alerts.
    pub safety_alerts_channel_id: Option<ChannelId>,
}

impl Server {
    /// Returns the formatted URL of the server's icon.
    ///
    /// Returns `None` if the server does not have an icon.
    pub fn icon_url(&self) -> (r: Option<String>)
        ensures
            r is Some <==> self.icon is Some,
            r is Some ==> r->0@ == cdn_url("/icons/"@, self.id.0 as int, self.icon->0@, ".jpg"@),
    {
        match &self.icon {
            Some(hash) => Some(format_cdn_url("/icons/", self.id.0, hash.as_str(), ".jpg")),
            None => None,
        }
    }

    /// Returns the formatted URL of the server's banner.
    ///
    /// Returns `None` if the server does not have a banner.
    pub fn banner_url(&self) -> (r: Option<String>)
        ensures
            r is Some <==> self.banner is Some,
            r is Some ==> r->0@ == cdn_url(
                "/icons/"@,
                self.id.0 as int,
                self.banner->0@,
                ".jpg"@,
            ),
    {
        match &self.banner {
            Some(hash) => Some(format_cdn_url("/icons/", self.id.0, hash.as_str(), ".jpg")),
            None => None,
        }
    }
}

/// The welcome screen shown to new users.
#[derive(Debug, Clone, PartialEq)]
pub struct WelcomeScreen {
    /// The server description shown in the welcome screen.
    pub description: Option<String>,
    /// The channels shown in the welcome screen, up to five.
    pub welcome_channels: Vec<WelcomeChannels>,
}

/// One of the channels shown on the welcome screen.
#[derive(Debug, Clone, PartialEq)]
pub struct WelcomeChannels {
    /// The channel's ID.
    pub channel_id: ChannelId,
    /// The description shown for the channel.
    pub description: String,
    /// The emoji id, if the emoji is custom.
    pub emoji_id: EmojiId,
    /// The emoji name if custom, the unicode character if standard,
    /// or `None` if no emoji is set.
    pub emoji_name: Option<String>,
}

/// Basic information about a server, viewable without membership when the
/// server is publicly discoverable.
#[derive(Debug, Clone, PartialEq)]
pub struct ServerPreview {
    /// The ID of the server.
    pub id: ServerId,
    /// The name of the server (2-100 characters).
    pub name: String,
    /// The icon hash of the server.
    pub icon: Option<String>,
    /// The banner image (splash) hash of the server.
    pub banner: Option<String>,
    /// The hash of the banner image shown in public server discovery.
    pub discovery_splash: Option<String>,
    /// Custom server emojis.
    pub emojis: Vec<Emoji>,
    /// A list of enabled server features.
    pub features: Vec<ServerFeature>,
    /// Approximate number of members in this server.
    pub approximate_member_count: u64,
    /// Approximate number of online members in this server.
    pub approximate_presence_count: u64,
    /// The description for the server.
    pub description: Option<String>,
}

impl ServerPreview {
    /// Returns the formatted URL of the server's icon.
    ///
    /// Returns `None` if the server does not have an icon.
    pub fn icon_url(&self) -> (r: Option<String>)
        ensures
            r is Some <==> self.icon is Some,
            r is Some ==> r->0@ == cdn_url("/icons/"@, self.id.0 as int, self.icon->0@, ".jpg"@),
    {
        match &self.icon {
            Some(hash) => Some(format_cdn_url("/icons/", self.id.0, hash.as_str(), ".jpg")),
            None => None,
        }
    }

    /// Returns the formatted URL of the server's banner.
    ///
    /// Returns `None` if the server does not have a banner.
    pub fn banner_url(&self) -> (r: Option<String>)
        ensures
            r is Some <==> self.banner is Some,
            r is Some ==> r->0@ == cdn_url(
                "/splashes/"@,
                self.id.0 as int,
                self.banner->0@,
                ".jpg"@,
            ),
    {
        match &self.banner {
            Some(hash) => Some(format_cdn_url("/splashes/", self.id.0, hash.as_str(), ".jpg")),
            None => None,
        }
    }

    /// Returns the formatted URL of the server's discovery banner.
    ///
    /// Returns `None` if the server does not have a discovery banner.
    pub fn discovery_splash_url(&self) -> (r: Option<String>)
        ensures
            r is Some <==> self.discovery_splash is Some,
            r is Some ==> r->0@ == cdn_url(
                "/discovery-splashes/"@,
                self.id.0 as int,
                self.discovery_splash->0@,
                ".jpg"@,
            ),
    {
        match &self.discovery_splash {
            Some(hash) => Some(
                format_cdn_url("/discovery-splashes/", self.id.0, hash.as_str(), ".jpg"),
            ),
            None => None,
        }
    }
}

/// An enabled feature for a server, most commonly allocated for feature
/// roll-outs.
#[derive(Debug, Clone, PartialEq, Eq, Structural)]
pub enum ServerFeature {
    /// Server has access to set a server banner image.
    Banner,
    /// Server has access to set an animated server banner image.
    AnimatedBanner,
    /// Server has access to set an animated server icon.
    AnimatedIcon,
    /// Server has access to set an invite splash background.
    InviteSplash,
    /// Server is verified by the platform.
    Verified,
    /// Server can allocate a custom permanent invite code.
    VanityUrl,
    /// Server is partnered with the platform.
    Partnered,
    /// Server is a support server for an application on the directory.
    DeveloperSupportServer,
    /// Server can enable the welcome screen, membership screening,
    /// stage channels and discovery, and receives community updates.
    Community,
    /// Server is able to be discovered in the directory.
    Discoverable,
    /// Server is able to be featured in the directory.
    Featurable,
    /// Server has enabled monetization.
    CreatorMonetization,
    /// Server has enabled the role subscription promo page.
    CreatorStorePage,
    /// Server has role subscriptions that can be purchased.
    RoleSubscriptionsPurchasable,
    /// Server has enabled role subscriptions.
    RoleSubscriptionsEnabled,
    /// Server has enabled ticketed events.
    TicketedEventsAvailable,
    /// Server has increased custom sticker slots.
    MoreStickers,
    /// Server is able to set role icons.
    RoleIcons,
    /// Server has access to high-bitrate voice.
    VipRegions,
    /// Server has paused invites, preventing new users from joining.
    InvitesDisabled,
    /// Server can be previewed before joining.
    PreviewEnabled,
    /// Server has enabled the welcome screen.
    WelcomeScreenEnabled,
    /// Server has enabled membership screening.
    MembershipScreening,
    /// Server has access to create announcement channels.
    News,
    /// Server has set up auto moderation rules.
    AutoModeration,
    /// Server is using the old permissions configuration behavior.
    ApplicationCommandPermissionsV2,
    /// Server has disabled alerts for join raids.
    RaidAlertsDisabled,
}

/// A condition that new users must satisfy before posting in text channels.
#[derive(Copy, Clone, Hash, Eq, PartialEq, Debug, Structural)]
pub enum VerificationLevel {
    /// No verification is needed.
    NoneRequired,
    /// Must have a verified email on their account.
    Low,
    /// Must also be registered on the platform for longer than 5 minutes.
    Medium,
    /// Must also be a member of this server for longer than 10 minutes.
    High,
    /// Must have a verified phone on their account.
    Phone,
}

impl VerificationLevel {
    /// The numeric tag this level carries on the wire.
    pub open spec fn spec_code(&self) -> u8 {
        match self {
            VerificationLevel::NoneRequired => 0,
            VerificationLevel::Low => 1,
            VerificationLevel::Medium => 2,
            VerificationLevel::High => 3,
            VerificationLevel::Phone => 4,
        }
    }

    /// The numeric tag this level carries on the wire.
    pub fn code(&self) -> (r: u8)
        ensures
            r == self.spec_code(),
    {
        match self {
            VerificationLevel::NoneRequired => 0,
            VerificationLevel::Low => 1,
            VerificationLevel::Medium => 2,
            VerificationLevel::High => 3,
            VerificationLevel::Phone => 4,
        }
    }
}

/// A server's NSFW rating.
#[derive(Debug, Clone, PartialEq, Eq, Structural)]
pub enum NsfwLevel {
    /// No rating was assigned.
    Default,
    /// The server holds explicit content.
    Explicit,
    /// The server is safe for work.
    Safe,
    /// The server is age-restricted.
    AgeRestricted,
}

impl Default for NsfwLevel {
    fn default() -> (r: Self)
        ensures
            r == NsfwLevel::Default,
    {
        NsfwLevel::Default
    }
}

/// A banning of a user.
#[derive(Debug, Clone, PartialEq)]
pub struct Ban {
    /// Why the user was banned.
    pub reason: Option<String>,
    /// The banned user.
    pub user: User,
}

/// The number of members that would be removed by a server prune operation.
#[derive(Debug, Clone, PartialEq, Eq, Structural)]
pub struct ServerPrune {
    /// How many members would be pruned.
    pub pruned: u64,
}

// Roles

/// A set of permissions attached to a group of users.
#[derive(Debug, Clone, PartialEq)]
pub struct Role {
    /// The ID of the role.
    pub id: RoleId,
    /// The name of the role.
    pub name: String,
    /// Color in `0xRRGGBB` form.
    pub color: u64,
    /// Hash of the role icon image.
    pub icon: Option<String>,
    /// The unicode icon of the role.
    pub unicode_emoji: Option<String>,
    /// Whether this role is pinned in the user listing.
    pub hoist: bool,
    /// Whether this role belongs to a bot user and is managed by their
    /// application.
    pub managed: bool,
    /// Position of this role.
    pub position: i64,
    /// Whether this role can be mentioned.
    pub mentionable: bool,
    /// The permissions granted by this role.
    pub permissions: Permissions,
    /// Other flags.
    pub flags: RoleFlags,
}

impl Role {
    /// Return a `Mention` which will ping members of this role.
    pub fn mention(&self) -> (r: Mention)
        ensures
            r.spec_target() == MentionTarget::Role,
            r.spec_id() == self.id.0,
    {
        self.id.mention()
    }

    /// Returns the formatted URL of the role's icon.
    ///
    /// Returns `None` if the role does not have an icon.
    pub fn icon_url(&self) -> (r: Option<String>)
        ensures
            r is Some <==> self.icon is Some,
            r is Some ==> r->0@ == cdn_url(
                "/role-icons/"@,
                self.id.0 as int,
                self.icon->0@,
                ".jpg"@,
            ),
    {
        match &self.icon {
            Some(hash) => Some(format_cdn_url("/role-icons/", self.id.0, hash.as_str(), ".jpg")),
            None => None,
        }
    }
}

/// The ID of a permission overwrite entity.
#[derive(Debug, Clone, PartialEq, Eq, Structural)]
pub enum PermissionOverwriteId {
    /// The permission overwrite concerns a member.
    Member(UserId),
    /// The permission overwrite concerns a role.
    Role(RoleId),
}

/// The camera video quality mode of a voice channel.
#[derive(Debug, Clone, PartialEq, Eq, Structural)]
pub enum VideoQuality {
    /// The platform chooses the quality for optimal performance.
    Auto,
    /// Full HD, also known as 720p.
    Full,
}

impl Default for VideoQuality {
    fn default() -> (r: Self)
        ensures
            r == VideoQuality::Auto,
    {
        VideoQuality::Auto
    }
}

/// The type of a channel.
#[derive(Debug, Clone, PartialEq, Eq, Structural)]
pub enum ChannelType {
    /// A private channel with only one other person.
    DirectMessage,
    /// A group channel, separate from a server.
    Group,
    /// A text channel in a server.
    Text,
    /// A voice channel.
    Voice,
    /// A channel category in a server.
    Category,
    /// A channel that users can follow and cross-post into their own server.
    Announcement,
    /// A temporary sub-channel within an announcement channel.
    AnnouncementThread,
    /// A temporary public sub-channel within a group channel.
    PublicThread,
    /// A temporary private sub-channel within a group channel.
    PrivateThread,
    /// A voice channel for hosting events.
    Stage,
    /// A channel which contains a list of servers.
    Directory,
    /// A channel which exclusively contains threads.
    Forum,
    /// A channel that can only contain threads, similar to forum channels.
    MediaForum,
}

impl ChannelType {
    /// The numeric tag this channel type carries on the wire.
    pub open spec fn spec_code(&self) -> u8 {
        match self {
            ChannelType::Text => 0,
            ChannelType::DirectMessage => 1,
            ChannelType::Voice => 2,
            ChannelType::Group => 3,
            ChannelType::Category => 4,
            ChannelType::Announcement => 5,
            ChannelType::AnnouncementThread => 10,
            ChannelType::PublicThread => 11,
            ChannelType::PrivateThread => 12,
            ChannelType::Stage => 13,
            ChannelType::Directory => 14,
            ChannelType::Forum => 15,
            ChannelType::MediaForum => 16,
        }
    }

    /// The numeric tag this channel type carries on the wire.
    pub fn code(&self) -> (r: u8)
        ensures
            r == self.spec_code(),
    {
        match self {
            ChannelType::Text => 0,
            ChannelType::DirectMessage => 1,
            ChannelType::Voice => 2,
            ChannelType::Group => 3,
            ChannelType::Category => 4,
            ChannelType::Announcement => 5,
            ChannelType::AnnouncementThread => 10,
            ChannelType::PublicThread => 11,
            ChannelType::PrivateThread => 12,
            ChannelType::Stage => 13,
            ChannelType::Directory => 14,
            ChannelType::Forum => 15,
            ChannelType::MediaForum => 16,
        }
    }
}

// Emoji

/// A custom emoji uploaded to a server.
#[derive(Debug, Clone, PartialEq)]
pub struct Emoji {
    /// The ID of the emoji.
    pub id: EmojiId,
    /// The name of the emoji.
    pub name: String,
    /// Whether the emoji is managed by an integration.
    pub managed: bool,
    /// Whether the emoji must be wrapped in colons to be used.
    pub require_colons: bool,
    /// Whether the emoji is animated.
    pub animated: bool,
    /// Roles allowed to use the emoji.
    pub roles: Vec<RoleId>,
}

/// The content-delivery URL of an emoji image: a GIF when animated, a PNG
/// otherwise.
pub open spec fn emoji_url(id: int, animated: bool) -> Seq<char> {
    cdn_base() + "/emojis/"@ + dec_string(id) + (if animated {
        ".gif"@
    } else {
        ".png"@
    })
}

impl Emoji {
    /// The URL that points to the image or GIF shown for the emoji.
    pub fn image_url(&self) -> (r: String)
        ensures
            r@ == emoji_url(self.id.0 as int, self.animated),
    {
        let mut s = String::from_str("https://cdn.discordapp.com");
        s.append("/emojis/");
        let digits = crate::text::u64_to_dec(self.id.0);
        s.append(digits.as_str());
        if self.animated {
            s.append(".gif");
        } else {
            s.append(".png");
        }
        proof {
            reveal_strlit("https://cdn.discordapp.com");
            reveal_strlit("/emojis/");
        }
        s
    }
}

// Stickers

/// How a sticker image is stored.
#[derive(Debug, Clone, PartialEq, Eq, Structural)]
pub enum StickerFormat {
    /// A still PNG image.
    Png,
    /// An animated PNG image.
    APng,
    /// A vector animation.
    Lottie,
    /// An animated GIF image.
    Gif,
}

/// The smallest amount of data required to render a sticker.
#[derive(Debug, Clone, PartialEq)]
pub struct StickerItem {
    /// The ID of the sticker.
    pub id: StickerId,
    /// The name of the sticker.
    pub name: String,
    /// The format of the sticker image.
    pub format: StickerFormat,
}

// Application

/// Information about the current application and its owner.
#[derive(Debug, Clone, PartialEq)]
pub struct ApplicationInfo {
    /// The ID of the application.
    pub id: ApplicationId,
    /// The description of the application.
    pub description: String,
    /// The icon hash of the application.
    pub icon: Option<String>,
    /// The name of the application.
    pub name: String,
    /// Origins allowed to use RPC.
    pub rpc_origins: Vec<String>,
    /// Whether other users may add the bot.
    pub bot_public: bool,
    /// Whether the bot requires the full OAuth2 code grant.
    pub bot_require_code_grant: bool,
    /// The owner of the application.
    pub owner: User,
}

// User account settings

/// User settings usually used to influence client behavior.
#[derive(Debug, Clone, PartialEq)]
pub struct UserSettings {
    /// Whether to detect accounts on other platforms.
    pub detect_platform_accounts: bool,
    /// Whether developer mode is enabled.
    pub developer_mode: bool,
    /// Whether the text-to-speech command is enabled.
    pub enable_tts_command: bool,
    /// Whether attached media is shown inline.
    pub inline_attachment_media: bool,
    /// Whether embedded media is shown inline.
    pub inline_embed_media: bool,
    /// The user's chosen language.
    pub locale: String,
    /// Whether messages are displayed compactly.
    pub message_display_compact: bool,
    /// Whether embeds are rendered.
    pub render_embeds: bool,
    /// The order the user's servers are shown in.
    pub server_positions: Vec<ServerId>,
    /// Whether the currently running game is shown.
    pub show_current_game: bool,
    /// The user's chosen online status.
    pub status: String,
    /// The client theme.
    pub theme: String,
    /// Whether emoticons are converted to emoji.
    pub convert_emoticons: bool,
    /// Who may add this user as a friend.
    pub friend_source_flags: FriendSourceFlags,
    /// Servers whose members cannot private message this user.
    pub restricted_servers: Vec<ServerId>,
}

/// User settings which influence per-server notification behavior.
#[derive(Debug, Clone, PartialEq)]
pub struct UserServerSettings {
    /// The server these settings apply to.
    pub server_id: Option<ServerId>,
    /// When message notifications are raised.
    pub message_notifications: NotificationLevel,
    /// Whether mobile push notifications are enabled.
    pub mobile_push: bool,
    /// Whether the server is muted.
    pub muted: bool,
    /// Whether `@everyone` pings are suppressed.
    pub suppress_everyone: bool,
    /// Per-channel overrides.
    pub channel_overrides: Vec<ChannelOverride>,
}

/// Notification level for a channel or server.
#[derive(Copy, Clone, Hash, Eq, PartialEq, Debug, Structural)]
pub enum NotificationLevel {
    /// All messages trigger a notification.
    All,
    /// Only mentions trigger a notification.
    Mentions,
    /// No messages, even mentions, trigger a notification.
    Nothing,
    /// Follow the parent's notification level.
    Parent,
}

/// A channel-specific notification settings override.
#[derive(Debug, Clone, PartialEq)]
pub struct ChannelOverride {
    /// The channel these settings apply to.
    pub channel_id: ChannelId,
    /// When message notifications are raised.
    pub message_notifications: NotificationLevel,
    /// Whether the channel is muted.
    pub muted: bool,
}

/// Progress through the platform's tutorial.
#[derive(Debug, Clone, PartialEq)]
pub struct Tutorial {
    /// Whether tutorial indicators are suppressed.
    pub indicators_suppressed: bool,
    /// Which indicators were confirmed.
    pub indicators_confirmed: Vec<String>,
}

// Platform status

/// A status-page maintenance message, active or scheduled.
#[derive(Debug, Clone, PartialEq)]
pub struct Maintenance {
    /// What the maintenance is about.
    pub description: String,
    /// The identifier of the maintenance window.
    pub id: String,
    /// The name of the maintenance window.
    pub name: String,
    /// When the maintenance starts.
    pub start: String,
    /// When the maintenance stops.
    pub stop: String,
}

/// An incident retrieved from the platform's status page.
#[derive(Debug, Clone, PartialEq)]
pub struct Incident {
    /// The identifier of the incident.
    pub id: String,
    /// How widely the incident is felt.
    pub impact: String,
    /// When monitoring of the incident began.
    pub monitoring_at: Option<String>,
    /// The name of the incident.
    pub name: String,
    /// The identifier of the page the incident is listed on.
    pub page_id: String,
    /// A short link to the incident.
    pub short_link: String,
    /// The current status of the incident.
    pub status: String,
    /// The updates posted about the incident so far.
    pub incident_updates: Vec<IncidentUpdate>,
    /// When the incident was created.
    pub created_at: String,
    /// When the incident was resolved.
    pub resolved_at: Option<String>,
    /// When the incident was last updated.
    pub updated_at: String,
}

/// An update to an incident from the status page, typically stating what
/// new information has been discovered.
#[derive(Debug, Clone, PartialEq)]
pub struct IncidentUpdate {
    /// The text of the update.
    pub body: String,
    /// The identifier of the update.
    pub id: String,
    /// The incident the update belongs to.
    pub incident_id: String,
    /// The status the update moves the incident to.
    pub status: String,
    /// The components the incident affects, as the page reports them.
    pub affected_components: Vec<serde_json::Value>,
    /// When the update was created.
    pub created_at: String,
    /// When the update is displayed from.
    pub display_at: String,
    /// When the update was last edited.
    pub updated_at: String,
}

// Invites

/// Defines what the joining user will see when they join with an invite
/// pointing to a voice channel.
#[derive(Debug, Clone, PartialEq, Eq, Structural)]
pub enum InviteTargetType {
    /// Invites a user to watch another user's live stream.
    Stream,
    /// Invites a user to participate in a voice-channel activity.
    EmbeddedApplication,
}

/// A partial channel, received when resolving an invite code.
#[derive(Debug, Clone, PartialEq)]
pub struct InviteChannel {
    /// The ID of the channel the invite points to.
    pub id: ChannelId,
    /// The name of the channel the invite points to.
    pub name: Option<String>,
    /// The type of the channel.
    pub kind: ChannelType,
}

// Server events

/// Additional information about an externally hosted event.
#[derive(Debug, Clone, PartialEq)]
pub struct ScheduledEventMetadata {
    /// Where the external event will be hosted.
    pub location: String,
}

/// Who will be able to join a scheduled event.
#[derive(Debug, Clone, PartialEq, Eq, Structural)]
pub enum ScheduledEventPrivacy {
    /// Only members of the hosting server may join.
    ServerOnly,
}

/// The scheduling status an event is in.
#[derive(Debug, Clone, PartialEq, Eq, Structural)]
pub enum ScheduledEventStatus {
    /// The event is scheduled for the future.
    Scheduled,
    /// The event is running.
    Active,
    /// The event has finished.
    Completed,
    /// The event was canceled.
    Canceled,
}

/// An image serialized as a base64 data URI.
#[derive(Debug, Clone, PartialEq)]
pub struct Image {
    /// The data URI.
    pub data: String,
}

} // verus!
