use voice_session::connection::ConnectionInfo;
use voice_session::endpoint::normalize_endpoint;

#[test]
fn prefixed_and_bare_endpoints_normalize_identically() {
    assert_eq!(normalize_endpoint("wss://voice.example.com"), "voice.example.com");
    assert_eq!(normalize_endpoint("voice.example.com"), "voice.example.com");
}

#[test]
fn normalization_strips_only_one_leading_prefix() {
    assert_eq!(normalize_endpoint("wss://wss://host"), "wss://host");
    assert_eq!(normalize_endpoint("wss://"), "");
    assert_eq!(normalize_endpoint(""), "");
    assert_eq!(normalize_endpoint("ws://host"), "ws://host");
    assert_eq!(normalize_endpoint("host.example.net:443"), "host.example.net:443");
}

#[test]
fn engine_receives_normalized_endpoint_and_unchanged_fields() {
    let info = ConnectionInfo {
        token: "T".to_string(),
        endpoint: "wss://a.example.com".to_string(),
        session_id: "S".to_string(),
        guild_id: 1,
        channel_id: Some(2),
        user_id: 3,
    };
    let engine = info.for_engine();
    assert_eq!(engine.endpoint, "a.example.com");
    assert_eq!(engine.token, "T");
    assert_eq!(engine.session_id, "S");
    assert_eq!(engine.guild_id, 1);
    assert_eq!(engine.channel_id, Some(2));
    assert_eq!(engine.user_id, 3);
}
