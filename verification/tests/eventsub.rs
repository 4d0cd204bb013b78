use stream_deck::eventsub::{
    process_message, process_payload, receive_outcome, EventKind, NotificationEvent, Received,
    SocketError, SocketMessage, SocketStep,
};

const WELCOME: &str = r#"{
    "metadata": {"message_id": "96a3f3b5-5dec-4eed-908e-e11ee657416c", "message_type": "session_welcome", "message_timestamp": "2022-10-19T14:56:51.634234626Z"},
    "payload": {"session": {"id": "AQoQILE98gtqShGmLD7AM6yJThAB", "status": "connected", "connected_at": "2022-10-19T14:56:51.616329898Z", "keepalive_timeout_seconds": 10, "reconnect_url": null, "recovery_url": null}}
}"#;

const KEEPALIVE: &str = r#"{
    "metadata": {"message_id": "8d8e0935-0e0c-479a-8fa2-ad4c02cef742", "message_type": "session_keepalive", "message_timestamp": "2022-11-04T13:11:49.770459792Z"},
    "payload": {}
}"#;

const RECONNECT: &str = r#"{
    "metadata": {"message_id": "84c1e79a-2a4b-4c13-ba0b-4312293e9308", "message_type": "session_reconnect", "message_timestamp": "2019-11-18T09:10:11.234Z"},
    "payload": {"session": {"id": "AQoQexAWVYKSTIu4ec_2VAxyuhAB", "status": "reconnecting", "keepalive_timeout_seconds": null, "reconnect_url": "wss://eventsub.wss.twitch.tv?x=1", "connected_at": "2019-11-16T10:11:12.123Z"}}
}"#;

const REVOCATION: &str = r#"{
    "metadata": {"message_id": "84c1e79a-2a4b-4c13-ba0b-4312293e9308", "message_type": "revocation", "message_timestamp": "2019-11-16T10:11:12.123Z", "subscription_type": "channel.follow", "subscription_version": "1"},
    "payload": {"subscription": {"id": "f1c2a387-161a-49f9-a165-0f21d7a4e1c4", "status": "authorization_revoked", "type": "channel.follow", "version": "1", "cost": 1,
        "condition": {"broadcaster_user_id": "12826"}, "transport": {"method": "websocket", "session_id": "AQoQexAWVYKSTIu4ec_2VAxyuhAB"}, "created_at": "2019-11-16T10:11:12.123Z"}}
}"#;

const FOLLOW: &str = r#"{
    "metadata": {"message_id": "befa7b53-d79d-478f-86b9-120f112b044e", "message_type": "notification", "message_timestamp": "2019-11-16T10:11:12.123Z", "subscription_type": "channel.follow", "subscription_version": "1"},
    "payload": {"subscription": {"id": "f1c2a387-161a-49f9-a165-0f21d7a4e1c4", "status": "enabled", "type": "channel.follow", "version": "1", "cost": 1,
        "condition": {"broadcaster_user_id": "12826"}, "transport": {"method": "websocket", "session_id": "AQoQexAWVYKSTIu4ec_2VAxyuhAB"}, "created_at": "2019-11-16T10:11:12.123Z"},
        "event": {"user_id": "1337", "user_login": "awesome_user", "user_name": "Awesome_User", "broadcaster_user_id": "12826", "broadcaster_user_login": "twitch", "broadcaster_user_name": "Twitch", "followed_at": "2020-07-15T18:16:11.17106713Z"}}
}"#;

const BAN: &str = r#"{
    "metadata": {"message_id": "befa7b53-d79d-478f-86b9-120f112b044f", "message_type": "notification", "message_timestamp": "2019-11-16T10:11:12.123Z", "subscription_type": "channel.ban", "subscription_version": "1"},
    "payload": {"subscription": {"id": "f1c2a387-161a-49f9-a165-0f21d7a4e1c4", "type": "channel.ban", "version": "1", "status": "enabled", "cost": 0,
        "condition": {"broadcaster_user_id": "1337"}, "transport": {"method": "websocket", "session_id": "AQoQexAWVYKSTIu4ec_2VAxyuhAB"}, "created_at": "2019-11-16T10:11:12.123Z"},
        "event": {"user_id": "1234", "user_login": "cool_user", "user_name": "Cool_User", "broadcaster_user_id": "1337", "broadcaster_user_login": "cooler_user",
            "broadcaster_user_name": "Cooler_User", "moderator_user_id": "1339", "moderator_user_login": "mod_user", "moderator_user_name": "Mod_User",
            "reason": "Offensive language", "banned_at": "2020-07-15T18:15:11.17106713Z", "ends_at": "2020-07-15T18:16:11.17106713Z", "is_permanent": false}}
}"#;

#[test]
fn welcome_subscribes_once() {
    assert_eq!(
        process_message(WELCOME, false),
        Some(Ok(SocketStep::SubscribeThenKillPredecessor("AQoQILE98gtqShGmLD7AM6yJThAB".to_string())))
    );
    assert_eq!(process_message(WELCOME, true), Some(Ok(SocketStep::KillPredecessor)));
}

#[test]
fn keepalive_resets_timeout() {
    assert_eq!(process_message(KEEPALIVE, false), Some(Ok(SocketStep::ResetKeepalive)));
}

#[test]
fn reconnect_spawns_successor() {
    assert_eq!(
        process_message(RECONNECT, true),
        Some(Ok(SocketStep::SpawnSuccessor("wss://eventsub.wss.twitch.tv?x=1".to_string())))
    );
}

#[test]
fn revocation_frame_ends_connection() {
    match process_message(REVOCATION, true) {
        Some(Err(SocketError::Revoked(description))) => assert!(description.contains("channel.follow") || !description.is_empty()),
        other => panic!("unexpected {other:?}"),
    }
}

#[test]
fn unwatched_notification_is_ignored() {
    assert_eq!(process_message(FOLLOW, true), Some(Ok(SocketStep::Nothing)));
}

#[test]
fn ban_notification_resets_timeout() {
    assert_eq!(process_message(BAN, true), Some(Ok(SocketStep::ResetKeepalive)));
}

#[test]
fn garbage_frame_fails() {
    assert_eq!(process_message("not json", true), Some(Err(SocketError::ParseFailed)));
    assert_eq!(process_message("{}", false), Some(Err(SocketError::ParseFailed)));
}

#[test]
fn payload_decisions() {
    let ev = |kind, rev, notif| NotificationEvent { kind, is_verification_request: false, is_revocation: rev, is_notification: notif };
    assert_eq!(process_payload(ev(EventKind::ChannelBan, true, false)), Err(SocketError::SubscriptionRevoked));
    assert_eq!(process_payload(ev(EventKind::ChannelUnban, false, true)), Ok(SocketStep::ResetKeepalive));
    assert_eq!(process_payload(ev(EventKind::ChannelUnban, false, false)), Ok(SocketStep::Nothing));
    assert_eq!(process_payload(ev(EventKind::Other, true, false)), Ok(SocketStep::Nothing));
    let verification_other = NotificationEvent { kind: EventKind::Other, is_verification_request: true, is_revocation: false, is_notification: false };
    assert_eq!(process_payload(verification_other), Ok(SocketStep::Nothing));
}

#[test]
fn receive_outcomes() {
    assert_eq!(receive_outcome(None), Err(SocketError::StreamClosed));
    assert_eq!(receive_outcome(Some(SocketMessage::Close(None))), Err(SocketError::ClosedWithReason(String::new())));
    assert_eq!(
        receive_outcome(Some(SocketMessage::Close(Some("bye".to_string())))),
        Err(SocketError::ClosedWithReason("bye".to_string()))
    );
    assert_eq!(receive_outcome(Some(SocketMessage::Ping)), Ok(Received::RefreshToken));
    assert_eq!(receive_outcome(Some(SocketMessage::Pong)), Ok(Received::RefreshToken));
    assert_eq!(receive_outcome(Some(SocketMessage::Text("x".to_string()))), Ok(Received::Text("x".to_string())));
}
