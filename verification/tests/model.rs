//! Tests for the identifier, mention and data-model helpers.

use discord_tokio::{
    check_discriminator, Attachment, ChannelId, CurrentUser, CurrentUserPatch, Emoji, EmojiId,
    PossibleServer, RoleId, Server, ServerId, User, UserId,
};

#[test]
fn mention_test() {
    assert_eq!(UserId(1234).mention().text(), "<@1234>");
    assert_eq!(RoleId(1234).mention().text(), "<@&1234>");
    assert_eq!(ChannelId(1234).mention().text(), "<#1234>");
}

#[test]
fn mention_of_zero_and_large_ids() {
    assert_eq!(UserId(0).mention().text(), "<@0>");
    assert_eq!(UserId(u64::MAX).mention().text(), "<@18446744073709551615>");
}

#[test]
fn everyone_role_shares_the_server_id() {
    assert_eq!(ServerId(77).everyone(), RoleId(77));
}

fn sample_user() -> User {
    User {
        id: UserId(112233),
        name: "someone".to_string(),
        discriminator: 42,
        avatar: Some("abcdef".to_string()),
        bot: false,
    }
}

#[test]
fn user_avatar_url_formats_the_cdn_path() {
    let user = sample_user();
    assert_eq!(
        user.avatar_url().unwrap(),
        "https://cdn.discordapp.com/avatars/112233/abcdef.jpg"
    );
    let mut bare = sample_user();
    bare.avatar = None;
    assert!(bare.avatar_url().is_none());
}

#[test]
fn user_mention_goes_through_the_id() {
    assert_eq!(sample_user().mention().text(), "<@112233>");
}

#[test]
fn emoji_image_url_picks_gif_for_animated() {
    let mut emoji = Emoji {
        id: EmojiId(9),
        name: "party".to_string(),
        managed: false,
        require_colons: true,
        animated: false,
        roles: vec![],
    };
    assert_eq!(emoji.image_url(), "https://cdn.discordapp.com/emojis/9.png");
    emoji.animated = true;
    assert_eq!(emoji.image_url(), "https://cdn.discordapp.com/emojis/9.gif");
}

#[test]
fn attachment_dimensions_need_both_sides() {
    let mut att = Attachment {
        id: "1".to_string(),
        filename: "a.png".to_string(),
        url: "u".to_string(),
        proxy_url: "p".to_string(),
        size: 10,
        width: Some(640),
        height: Some(480),
    };
    assert_eq!(att.dimensions(), Some((640, 480)));
    att.height = None;
    assert_eq!(att.dimensions(), None);
}

#[test]
fn current_user_update_from_overwrites_only_given_fields() {
    let mut user = CurrentUser {
        id: UserId(1),
        username: "old".to_string(),
        discriminator: 1,
        avatar: None,
        email: Some("old@example.com".to_string()),
        verified: false,
        bot: false,
        mfa_enabled: false,
    };
    let patch = CurrentUserPatch {
        id: None,
        username: Some("new".to_string()),
        discriminator: Some(7),
        avatar: Some("hash".to_string()),
        email: None,
        verified: Some(true),
        mfa_enabled: None,
        bot: None,
    };
    user.update_from(&patch);
    assert_eq!(user.id, UserId(1));
    assert_eq!(user.username, "new");
    assert_eq!(user.discriminator, 7);
    assert_eq!(user.avatar.as_deref(), Some("hash"));
    assert_eq!(user.email.as_deref(), Some("old@example.com"));
    assert!(user.verified);
    assert!(!user.mfa_enabled);
}

#[test]
fn discriminators_stop_at_9999() {
    assert_eq!(check_discriminator(0), Some(0));
    assert_eq!(check_discriminator(9999), Some(9999));
    assert_eq!(check_discriminator(10000), None);
}

fn sparse_server(id: u64, banner: Option<&str>) -> Server {
    Server {
        id: ServerId(id),
        name: "s".to_string(),
        icon: Some("icon".to_string()),
        splash: None,
        discovery_splash: None,
        owner: false,
        owner_id: UserId(1),
        permissions: discord_tokio::Permissions(0),
        region: "r".to_string(),
        afk_timeout: 0,
        afk_channel_id: None,
        widget_enabled: false,
        widget_channel_id: None,
        verification_level: discord_tokio::VerificationLevel::Low,
        default_message_notifications: 0,
        explicit_content_filter: 0,
        roles: vec![],
        emojis: vec![],
        features: vec![],
        mfa_level: 0,
        system_channel_id: None,
        system_channel_flags: 0,
        rules_channel_id: None,
        max_presences: None,
        max_members: None,
        vanity_url_code: None,
        description: None,
        banner: banner.map(|b| b.to_string()),
        boost_tier: 0,
        boost_subscription_count: None,
        preferred_locale: "en-US".to_string(),
        public_updates_channel_id: None,
        max_video_channel_users: 0,
        max_stage_video_channel_users: 0,
        approximate_member_count: 0,
        approximate_presence_count: 0,
        welcome_screen: discord_tokio::WelcomeScreen { description: None, welcome_channels: vec![] },
        nsfw: discord_tokio::NsfwLevel::Default,
        stickers: None,
        boost_progress_bar_enabled: false,
        safety_alerts_channel_id: None,
    }
}

#[test]
fn server_urls_format_the_cdn_paths() {
    let server = sparse_server(5, Some("bb"));
    assert_eq!(
        server.icon_url().unwrap(),
        "https://cdn.discordapp.com/icons/5/icon.jpg"
    );
    assert_eq!(
        server.banner_url().unwrap(),
        "https://cdn.discordapp.com/icons/5/bb.jpg"
    );
}

#[test]
fn possible_server_id_covers_both_shapes() {
    let online = PossibleServer::Online(sparse_server(5, None));
    assert_eq!(online.id(), ServerId(5));
    let offline: PossibleServer<Server> = PossibleServer::Offline {
        id: ServerId(9),
        unavailable: true,
    };
    assert_eq!(offline.id(), ServerId(9));
}
