use vfriends::event::{
    extract_error_message, parse_message, resolve_user_icon_url, FriendOnlineUser, Json,
    PipelineEvent, WebsocketMessage,
};

#[test]
fn friend_online_with_nested_string_content() {
    let payload = r#"{"type":"friend-online","content":"{\"userId\":\"u1\",\"platform\":\"standalonewindows\",\"location\":\"offline\",\"canRequestInvite\":false,\"user\":{\"displayName\":\"Nyx\",\"userIcon\":\"https://x/y.png\"}}"}"#;
    match parse_message(payload) {
        Some(PipelineEvent::FriendOnline(f)) => {
            assert_eq!(f.display_name, "Nyx");
            assert_eq!(f.image_url.as_deref(), Some("https://x/y.png"));
            assert_eq!(f.id.as_deref(), Some("u1"));
        }
        other => panic!("unexpected {:?}", other),
    }
}

#[test]
fn friend_online_with_object_content_and_top_level_fields() {
    let payload = r#"{"type":"friend-online","content":{"displayName":"Vex","profilePicOverride":"","userIcon":"","currentAvatarImageUrl":"https://a/b.png"}}"#;
    match parse_message(payload) {
        Some(PipelineEvent::FriendOnline(f)) => {
            assert_eq!(f.display_name, "Vex");
            assert_eq!(f.image_url.as_deref(), Some("https://a/b.png"));
            assert!(f.id.is_none());
        }
        other => panic!("unexpected {:?}", other),
    }
}

#[test]
fn nested_icon_wins_over_top_level() {
    let payload = r#"{"type":"friend-online","content":{"userIcon":"top","user":{"currentAvatarThumbnailImageUrl":"nested"}}}"#;
    match parse_message(payload) {
        Some(PipelineEvent::FriendOnline(f)) => {
            assert_eq!(f.display_name, "Friend");
            assert_eq!(f.image_url.as_deref(), Some("nested"));
        }
        other => panic!("unexpected {:?}", other),
    }
}

#[test]
fn other_kinds_pass_through() {
    match parse_message(r#"{"type":"friend-offline","content":"{\"userId\":\"u2\"}"}"#) {
        Some(PipelineEvent::Other { kind, content }) => {
            assert_eq!(kind, "friend-offline");
            assert!(matches!(content, Json::Object(_)));
        }
        other => panic!("unexpected {:?}", other),
    }
    match parse_message(r#"{"type":"notification","content":"plain text"}"#) {
        Some(PipelineEvent::Other { content: Json::Str(s), .. }) => assert_eq!(s, "plain text"),
        other => panic!("unexpected {:?}", other),
    }
}

#[test]
fn malformed_payloads_yield_nothing() {
    assert!(parse_message("{not json").is_none());
    assert!(parse_message("").is_none());
    assert!(parse_message(r#"{"type":"friend-online"}"#).is_none());
    assert!(parse_message(r#"{"type":5,"content":{}}"#).is_none());
    assert!(parse_message("[1,2]").is_none());
}

#[test]
fn user_icon_priority() {
    let mut u = FriendOnlineUser {
        display_name: "Nyx".to_string(),
        profile_pic_override: String::new(),
        user_icon: "icon".to_string(),
        current_avatar_image_url: "image".to_string(),
        current_avatar_thumbnail_image_url: "thumb".to_string(),
    };
    assert_eq!(resolve_user_icon_url(&u).as_deref(), Some("icon"));
    u.profile_pic_override = "pic".to_string();
    assert_eq!(resolve_user_icon_url(&u).as_deref(), Some("pic"));
    u.profile_pic_override.clear();
    u.user_icon.clear();
    u.current_avatar_image_url.clear();
    assert_eq!(resolve_user_icon_url(&u).as_deref(), Some("thumb"));
    u.current_avatar_thumbnail_image_url.clear();
    assert_eq!(resolve_user_icon_url(&u), None);
}

#[test]
fn api_error_messages() {
    assert_eq!(extract_error_message(r#"{"message":"Invalid Username"}"#).as_deref(), Some("Invalid Username"));
    assert_eq!(
        extract_error_message(r#"{"error":{"message":"Missing Credentials","status_code":401}}"#).as_deref(),
        Some("Missing Credentials")
    );
    assert_eq!(extract_error_message(r#"{"error":"x"}"#), None);
    assert_eq!(extract_error_message("<html>"), None);
}

#[test]
fn websocket_message_kinds() {
    let m = WebsocketMessage::from_raw_message(r#"{"type":"friend-location","content":"{}"}"#).unwrap();
    assert!(m.is_friend_message());
    assert!(!m.is_friend_online_message());
    let m = WebsocketMessage::from_raw_message(r#"{"type":"friend-online","content":{"user":{"displayName":"Nyx"}}}"#).unwrap();
    assert!(m.is_friend_online_message());
    match m.into_event() {
        PipelineEvent::FriendOnline(f) => assert_eq!(f.display_name, "Nyx"),
        other => panic!("unexpected {:?}", other),
    }
    let m = WebsocketMessage::from_raw_message(r#"{"type":"notification","content":null}"#).unwrap();
    assert!(!m.is_friend_message());
    assert!(matches!(m.content, Json::Null));
    assert!(WebsocketMessage::from_raw_message("nope").is_none());
}
