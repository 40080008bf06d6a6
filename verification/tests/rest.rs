//! Tests for URLs, credentials and control-plane response readers.

use base64::Engine;
use discord_tokio::{
    api_url, attachment_filename, bot_authorization, build_gateway_url, image_data_uri,
    is_no_content, is_success, read_gateway_url, read_shard_count, trim_spaces,
    user_authorization, Error,
};

#[test]
fn api_urls_get_exactly_one_separating_slash() {
    assert_eq!(
        api_url("/channels/1/messages"),
        "https://discord.com/api/v6/channels/1/messages"
    );
    assert_eq!(api_url("gateway"), "https://discord.com/api/v6/gateway");
    assert_eq!(api_url(""), "https://discord.com/api/v6/");
}

#[test]
fn the_gateway_url_carries_the_protocol_version() {
    assert_eq!(
        build_gateway_url("wss://gateway.example"),
        "wss://gateway.example?v=6"
    );
}

#[test]
fn status_predicates() {
    assert!(is_success(200));
    assert!(is_success(204));
    assert!(is_success(299));
    assert!(!is_success(199));
    assert!(!is_success(300));
    assert!(!is_success(404));
    assert!(is_no_content(204));
    assert!(!is_no_content(200));
}

#[test]
fn credentials_are_trimmed_and_prefixed() {
    assert_eq!(bot_authorization("  token123  "), "Bot token123");
    assert_eq!(bot_authorization("token123"), "Bot token123");
    assert_eq!(user_authorization("\ttoken123\n"), "token123");
    assert_eq!(user_authorization("   "), "");
    assert_eq!(trim_spaces(" a b "), "a b");
    assert_eq!(trim_spaces(""), "");
}

#[test]
fn gateway_discovery_reads_the_url_field() {
    let v: serde_json::Value =
        serde_json::from_str("{\"url\":\"wss://gateway.example\"}").unwrap();
    assert_eq!(read_gateway_url(&v).unwrap(), "wss://gateway.example");
    let missing: serde_json::Value = serde_json::from_str("{}").unwrap();
    assert!(matches!(read_gateway_url(&missing), Err(Error::Protocol(_))));
}

#[test]
fn shard_suggestions_read_the_shards_field() {
    let v: serde_json::Value = serde_json::from_str("{\"shards\":4}").unwrap();
    assert_eq!(read_shard_count(&v).unwrap(), 4);
    let bad: serde_json::Value = serde_json::from_str("{\"shards\":\"x\"}").unwrap();
    assert!(matches!(read_shard_count(&bad), Err(Error::Decode(_))));
    let missing: serde_json::Value = serde_json::from_str("{}").unwrap();
    assert!(matches!(read_shard_count(&missing), Err(Error::Decode(_))));
}

#[test]
fn image_data_uris_wrap_the_base64_bytes() {
    let bytes = [1u8, 2, 3, 4, 5];
    let expected = base64::engine::general_purpose::STANDARD.encode(bytes);
    assert_eq!(
        image_data_uri(true, &bytes),
        format!("data:image/png;base64,{}", expected)
    );
    assert_eq!(
        image_data_uri(false, &bytes),
        format!("data:image/jpg;base64,{}", expected)
    );
    assert_eq!(image_data_uri(true, &[]), "data:image/png;base64,");
}

#[test]
fn attachment_filenames_default_to_file() {
    assert_eq!(attachment_filename(Some("notes.txt")), "notes.txt");
    assert_eq!(attachment_filename(Some("")), "file");
    assert_eq!(attachment_filename(None), "file");
}
