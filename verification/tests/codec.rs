//! Tests for the inbound decoder and the outbound frame builders.

use discord_tokio::{
    decode_frame, heartbeat_frame, identify_frame, parse_header_int, parse_u64, presence_frame,
    resume_frame, sync_calls_frame, sync_servers_frame, voice_state_frame, ChannelId, Error,
    Game, GatewayFrame, IdentifyConnection, IdentifyPayload, OnlineStatus, ServerId,
    UpdateVoiceStatePayload,
};

fn fingerprint() -> IdentifyConnection {
    IdentifyConnection {
        os: "linux".to_string(),
        browser: "a browser".to_string(),
        device: "a device".to_string(),
    }
}

#[test]
fn decode_hello() {
    let frame = decode_frame("{\"op\":10,\"d\":{\"heartbeat_interval\":40000}}").unwrap();
    assert!(matches!(frame, GatewayFrame::Hello { heartbeat_interval: 40000 }));
}

#[test]
fn decode_ready_dispatch() {
    let text = "{\"op\":0,\"s\":7,\"t\":\"READY\",\"d\":{\"v\":6,\"session_id\":\"S1\"}}";
    match decode_frame(text).unwrap() {
        GatewayFrame::Dispatch(d) => {
            assert_eq!(d.sequence, 7);
            assert_eq!(d.name, "READY");
            let ready = d.ready.unwrap();
            assert_eq!(ready.session_id, "S1");
            assert_eq!(ready.version, Some(6));
        }
        other => panic!("expected a dispatch, got {:?}", other),
    }
}

#[test]
fn decode_plain_dispatch_keeps_the_payload() {
    let text = "{\"op\":0,\"s\":12,\"t\":\"MESSAGE_CREATE\",\"d\":{\"content\":\"hi\"}}";
    match decode_frame(text).unwrap() {
        GatewayFrame::Dispatch(d) => {
            assert_eq!(d.sequence, 12);
            assert_eq!(d.name, "MESSAGE_CREATE");
            assert!(d.ready.is_none());
            assert_eq!(d.payload.get("content").and_then(|v| v.as_str()), Some("hi"));
        }
        other => panic!("expected a dispatch, got {:?}", other),
    }
}

#[test]
fn decode_control_frames() {
    assert!(matches!(
        decode_frame("{\"op\":1,\"d\":41}").unwrap(),
        GatewayFrame::HeartbeatRequest { sequence: Some(41) }
    ));
    assert!(matches!(
        decode_frame("{\"op\":7,\"d\":null}").unwrap(),
        GatewayFrame::Reconnect
    ));
    assert!(matches!(
        decode_frame("{\"op\":9,\"d\":false}").unwrap(),
        GatewayFrame::InvalidateSession
    ));
    assert!(matches!(
        decode_frame("{\"op\":11}").unwrap(),
        GatewayFrame::HeartbeatAck
    ));
}

#[test]
fn decode_rejects_malformed_frames() {
    assert!(matches!(decode_frame("not json"), Err(Error::Decode(_))));
    assert!(matches!(decode_frame("{\"d\":{}}"), Err(Error::Decode(_))));
    // An opcode this side only ever sends.
    assert!(matches!(decode_frame("{\"op\":2,\"d\":{}}"), Err(Error::Decode(_))));
    // A dispatch without a sequence number.
    assert!(matches!(
        decode_frame("{\"op\":0,\"t\":\"X\",\"d\":{}}"),
        Err(Error::Decode(_))
    ));
    // A ready dispatch without a session identifier.
    assert!(matches!(
        decode_frame("{\"op\":0,\"s\":1,\"t\":\"READY\",\"d\":{}}"),
        Err(Error::Decode(_))
    ));
    // A hello without an interval.
    assert!(matches!(
        decode_frame("{\"op\":10,\"d\":{}}"),
        Err(Error::Decode(_))
    ));
}

#[test]
fn heartbeat_frames_render_exactly() {
    assert_eq!(heartbeat_frame(Some(7)), "{\"op\":1,\"d\":7}");
    assert_eq!(heartbeat_frame(None), "{\"op\":1,\"d\":null}");
}

#[test]
fn resume_frame_renders_exactly() {
    let text = resume_frame("TOKEN", "S1", 100);
    assert_eq!(
        text,
        "{\"op\":6,\"d\":{\"seq\":100,\"token\":\"TOKEN\",\"session_id\":\"S1\"}}"
    );
}

#[test]
fn resume_frame_escapes_embedded_strings() {
    assert_eq!(
        resume_frame("with\"quote", "S1", 1),
        "{\"op\":6,\"d\":{\"seq\":1,\"token\":\"with\\\"quote\",\"session_id\":\"S1\"}}"
    );
    assert_eq!(
        resume_frame("back\\slash", "S1", 1),
        "{\"op\":6,\"d\":{\"seq\":1,\"token\":\"back\\\\slash\",\"session_id\":\"S1\"}}"
    );
    assert_eq!(
        resume_frame("a\nb", "S1", 1),
        "{\"op\":6,\"d\":{\"seq\":1,\"token\":\"a\\u000ab\",\"session_id\":\"S1\"}}"
    );
}

#[test]
fn identify_frame_renders_exactly() {
    let payload = IdentifyPayload {
        token: "TOK".to_string(),
        shard: Some((1, 4)),
        intents: Some(513),
        compress: None,
        large_threshold: None,
        fingerprint: fingerprint(),
    };
    let text = identify_frame(&payload);
    assert_eq!(
        text,
        "{\"op\":2,\"d\":{\"token\":\"TOK\",\"properties\":{\"$os\":\"linux\",\
         \"$browser\":\"a browser\",\"$device\":\"a device\",\
         \"$referring_domain\":\"\",\"$referrer\":\"\"},\"large_threshold\":250,\
         \"compress\":true,\"v\":6,\"shard\":[1,4],\"intents\":513}}"
    );
}

#[test]
fn identify_frame_omits_absent_options() {
    let payload = IdentifyPayload {
        token: "TOK".to_string(),
        shard: None,
        intents: None,
        compress: Some(false),
        large_threshold: Some(100),
        fingerprint: fingerprint(),
    };
    let text = identify_frame(&payload);
    assert!(text.ends_with("\"large_threshold\":100,\"compress\":false,\"v\":6}}"));
    assert!(!text.contains("shard"));
    assert!(!text.contains("intents"));
}

#[test]
fn presence_frame_coerces_offline_to_invisible() {
    let text = presence_frame(&None, OnlineStatus::Offline, false);
    assert_eq!(
        text,
        "{\"op\":3,\"d\":{\"afk\":false,\"since\":0,\"status\":\"invisible\",\"game\":null}}"
    );
}

#[test]
fn presence_frame_renders_games() {
    let playing = Some(Game::playing("chess".to_string()));
    let text = presence_frame(&playing, OnlineStatus::Online, true);
    assert_eq!(
        text,
        "{\"op\":3,\"d\":{\"afk\":true,\"since\":0,\"status\":\"online\",\
         \"game\":{\"name\":\"chess\",\"type\":0}}}"
    );
    let streaming = Some(Game {
        name: "a show".to_string(),
        kind: discord_tokio::GameType::Streaming,
        url: Some("https://example.com/s".to_string()),
    });
    let text = presence_frame(&streaming, OnlineStatus::Idle, false);
    assert_eq!(
        text,
        "{\"op\":3,\"d\":{\"afk\":false,\"since\":0,\"status\":\"idle\",\
         \"game\":{\"type\":1,\"url\":\"https://example.com/s\",\"name\":\"a show\"}}}"
    );
}

#[test]
fn voice_state_frame_renders_exactly() {
    let join = UpdateVoiceStatePayload {
        guild_id: ServerId(5),
        channel_id: Some(ChannelId(6)),
        self_mute: false,
        self_deaf: true,
    };
    assert_eq!(
        voice_state_frame(&join),
        "{\"op\":4,\"d\":{\"guild_id\":5,\"channel_id\":6,\"self_mute\":false,\"self_deaf\":true}}"
    );
    let leave = UpdateVoiceStatePayload {
        guild_id: ServerId(5),
        channel_id: None,
        self_mute: false,
        self_deaf: false,
    };
    assert_eq!(
        voice_state_frame(&leave),
        "{\"op\":4,\"d\":{\"guild_id\":5,\"channel_id\":null,\"self_mute\":false,\"self_deaf\":false}}"
    );
}

#[test]
fn sync_frames_render_exactly() {
    assert_eq!(
        sync_servers_frame(&vec![ServerId(1), ServerId(2), ServerId(3)]),
        "{\"op\":12,\"d\":[1,2,3]}"
    );
    assert_eq!(sync_servers_frame(&vec![]), "{\"op\":12,\"d\":[]}");
    assert_eq!(
        sync_calls_frame(ChannelId(42)),
        "{\"op\":13,\"d\":{\"channel_id\":42}}"
    );
    assert_eq!(
        discord_tokio::download_members_frame(&vec![ServerId(7)]),
        "{\"op\":8,\"d\":{\"guild_id\":[7],\"query\":\"\",\"limit\":0}}"
    );
}

#[test]
fn presence_frame_escapes_the_game_name() {
    let chatty = Some(Game::playing("say \"hi\"".to_string()));
    let text = presence_frame(&chatty, OnlineStatus::Online, false);
    assert_eq!(
        text,
        "{\"op\":3,\"d\":{\"afk\":false,\"since\":0,\"status\":\"online\",\
         \"game\":{\"name\":\"say \\\"hi\\\"\",\"type\":0}}}"
    );
}

#[test]
fn parse_u64_accepts_exactly_decimal() {
    assert_eq!(parse_u64("0"), Some(0));
    assert_eq!(parse_u64("1234567890"), Some(1234567890));
    assert_eq!(parse_u64("18446744073709551615"), Some(u64::MAX));
    assert_eq!(parse_u64("18446744073709551616"), None);
    assert_eq!(parse_u64(""), None);
    assert_eq!(parse_u64("12a"), None);
    assert_eq!(parse_u64("-5"), None);
}

#[test]
fn parse_header_int_reads_headers() {
    assert_eq!(parse_header_int("50"), Some(50));
    assert_eq!(parse_header_int("-3"), Some(-3));
    assert_eq!(parse_header_int("1470173023.123"), Some(1470173023));
    assert_eq!(parse_header_int("4."), Some(4));
    assert_eq!(parse_header_int(""), None);
    assert_eq!(parse_header_int("."), None);
    assert_eq!(parse_header_int("12x"), None);
    assert_eq!(parse_header_int("1.2.3"), None);
}
