use eventsub::eventsub::events::Event;
use eventsub::eventsub::classify;
use eventsub::eventsub::Action;
use eventsub::eventsub::Classified;
use eventsub::eventsub::Eventsub;
use eventsub::eventsub::EventsubConnection;
use eventsub::eventsub::EventsubError;
use eventsub::eventsub::Frame;
use eventsub::eventsub::Input;
use eventsub::eventsub::Phase;
use eventsub::eventsub::Severity;

const WELCOME: &str = r#"{
    "metadata": {
        "message_id": "96a3f3b5-5dec-4eed-908e-e11ee657416c",
        "message_type": "session_welcome",
        "message_timestamp": "2023-07-19T14:56:51.634234626Z"
    },
    "payload": {
        "session": {
            "id": "AQoQexAWVYKSTIu4ec_2VAxyuhAB",
            "status": "connected",
            "connected_at": "2023-07-19T14:56:51.616329898Z",
            "keepalive_timeout_seconds": 10,
            "reconnect_url": null
        }
    }
}"#;

const WELCOME_WITHOUT_ID: &str = r#"{
    "metadata": {
        "message_id": "96a3f3b5-5dec-4eed-908e-e11ee657416c",
        "message_type": "session_welcome",
        "message_timestamp": "2023-07-19T14:56:51.634234626Z"
    },
    "payload": {
        "session": {
            "status": "connected",
            "connected_at": "2023-07-19T14:56:51.616329898Z",
            "keepalive_timeout_seconds": 10
        }
    }
}"#;

const KEEPALIVE: &str = r#"{
    "metadata": {
        "message_id": "84c1e79a-2a4b-4c13-ba0b-4312293e9308",
        "message_type": "session_keepalive",
        "message_timestamp": "2023-07-19T10:11:12.634234626Z"
    },
    "payload": {}
}"#;

const RECONNECT: &str = r#"{
    "metadata": {
        "message_id": "84c1e79a-2a4b-4c13-ba0b-4312293e9308",
        "message_type": "session_reconnect",
        "message_timestamp": "2022-11-18T09:10:11.634234626Z"
    },
    "payload": {
        "session": {
            "id": "AQoQexAWVYKSTIu4ec_2VAxyuhAB",
            "status": "reconnecting",
            "keepalive_timeout_seconds": 10,
            "reconnect_url": "wss://eventsub.wss.twitch.tv?challenge=upgrade",
            "connected_at": "2022-11-16T10:11:12.634234626Z"
        }
    }
}"#;

const REVOCATION: &str = r#"{
    "metadata": {
        "message_id": "84c1e79a-2a4b-4c13-ba0b-4312293e9308",
        "message_type": "revocation",
        "message_timestamp": "2022-11-16T10:11:12.464757833Z",
        "subscription_type": "channel.follow",
        "subscription_version": "1"
    },
    "payload": {
        "subscription": {
            "id": "f1c2a387-161a-49f9-a165-0f21d7a4e1c4",
            "status": "authorization_revoked",
            "type": "channel.follow",
            "version": "1",
            "cost": 1,
            "condition": { "broadcaster_user_id": "12826" },
            "transport": { "method": "websocket", "session_id": "AQoQexAWVYKSTIu4ec_2VAxyuhAB" },
            "created_at": "2022-11-16T10:11:12.464757833Z"
        }
    }
}"#;

fn follow(user: &str) -> String {
    format!(
        r#"{{
    "metadata": {{
        "message_id": "befa7b53-d79d-478f-86b9-120f112b044e",
        "message_type": "notification",
        "message_timestamp": "2022-11-16T10:11:12.464757833Z",
        "subscription_type": "channel.follow",
        "subscription_version": "2"
    }},
    "payload": {{
        "subscription": {{
            "id": "f1c2a387-161a-49f9-a165-0f21d7a4e1c4",
            "status": "enabled",
            "type": "channel.follow",
            "version": "2",
            "cost": 1,
            "condition": {{ "broadcaster_user_id": "12826", "moderator_user_id": "12826" }},
            "transport": {{ "method": "websocket", "session_id": "AQoQexAWVYKSTIu4ec_2VAxyuhAB" }},
            "created_at": "2022-11-16T10:11:12.464757833Z"
        }},
        "event": {{
            "user_id": "{user}",
            "user_login": "awesome_user",
            "user_name": "Awesome_User",
            "broadcaster_user_id": "12826",
            "broadcaster_user_login": "twitch",
            "broadcaster_user_name": "Twitch",
            "followed_at": "2023-07-15T18:16:11.17106713Z"
        }}
    }}
}}"#
    )
}

fn text(s: &str) -> Input {
    Input::Frame(Frame::Text(s.to_string()))
}

fn established() -> (Eventsub, EventsubConnection) {
    Eventsub::new(&text(WELCOME)).unwrap()
}

fn followers(events: &[Event]) -> Vec<String> {
    let mut out = Vec::new();
    for event in events {
        match event {
            Event::Follow(follow) => {
                assert_eq!(follow.broadcaster.user_id, "12826");
                out.push(follow.user.user_id.clone());
            }
            other => panic!("not a follow: {:?}", other),
        }
    }
    out
}

#[test]
fn classifies_frames() {
    assert!(matches!(classify(&Frame::Text("a".to_string())), Classified::TextPayload(t) if t == "a"));
    assert!(matches!(classify(&Frame::Ping(vec![1])), Classified::Ping));
    assert!(matches!(classify(&Frame::Pong(vec![])), Classified::Pong));
    assert!(matches!(classify(&Frame::Close(None)), Classified::Close(None)));
    assert!(matches!(
        classify(&Frame::Close(Some("bye".to_string()))),
        Classified::Close(Some(reason)) if reason == "bye"
    ));
    assert!(matches!(classify(&Frame::Binary(vec![0, 1])), Classified::UnsupportedFrame));
    assert!(matches!(classify(&Frame::Raw), Classified::UnsupportedFrame));
}

#[test]
fn handshake_takes_the_session_id() {
    let (handle, connection) = established();
    assert_eq!(handle.session_id, "AQoQexAWVYKSTIu4ec_2VAxyuhAB");
    assert_eq!(connection.session_id, "AQoQexAWVYKSTIu4ec_2VAxyuhAB");
    assert_eq!(connection.phase, Phase::Active);
    assert!(connection.pending.is_empty());
    assert!(handle.receiver.is_empty());
    assert!(!handle.ended);
}

#[test]
fn handshake_with_another_id() {
    let welcome = WELCOME.replace("AQoQexAWVYKSTIu4ec_2VAxyuhAB", "S1");
    let (handle, _) = Eventsub::new(&text(&welcome)).unwrap();
    assert_eq!(handle.session_id, "S1");
}

#[test]
fn handshake_refuses_frames_that_are_no_text() {
    for frame in [
        Frame::Binary(vec![1, 2, 3]),
        Frame::Ping(vec![]),
        Frame::Pong(vec![]),
        Frame::Close(None),
        Frame::Close(Some("going away".to_string())),
        Frame::Raw,
    ] {
        let result = Eventsub::new(&Input::Frame(frame));
        assert!(matches!(result, Err(EventsubError::IncorrectMessage)));
    }
}

#[test]
fn handshake_refuses_other_payloads() {
    for message in [follow("1337"), KEEPALIVE.to_string(), RECONNECT.to_string(), REVOCATION.to_string()] {
        let result = Eventsub::new(&text(&message));
        assert!(matches!(result, Err(EventsubError::IncorrectMessage)));
    }
}

#[test]
fn handshake_refuses_a_welcome_without_id() {
    let result = Eventsub::new(&text(WELCOME_WITHOUT_ID));
    assert!(matches!(result, Err(EventsubError::NoSessionID)));
}

#[test]
fn handshake_refuses_malformed_text() {
    match Eventsub::new(&text("{ not json")) {
        Err(EventsubError::ParseError(error)) => assert_eq!(error.text, "{ not json"),
        other => panic!("unexpected: {:?}", other.map(|_| ())),
    }
    assert!(matches!(Eventsub::new(&text("{}")), Err(EventsubError::ParseError(_))));
}

#[test]
fn handshake_refuses_a_welcome_of_another_shape() {
    let mixed = WELCOME.replace("\"payload\": {", "\"payload\": { \"event\": {},");
    assert!(matches!(Eventsub::new(&text(&mixed)), Err(EventsubError::ParseError(_))));
    let typed = WELCOME.replace("session_welcome", "session_hello");
    assert!(matches!(Eventsub::new(&text(&typed)), Err(EventsubError::ParseError(_))));
}

#[test]
fn handshake_reports_a_lost_connection() {
    match Eventsub::new(&Input::Failed("reset".to_string())) {
        Err(EventsubError::WebsocketError(why)) => assert_eq!(why, "reset"),
        other => panic!("unexpected: {:?}", other.map(|_| ())),
    }
    assert!(matches!(
        Eventsub::new(&Input::Closed("closed".to_string())),
        Err(EventsubError::WebsocketError(_))
    ));
}

#[test]
fn the_machine_walks_through_the_handshake() {
    let mut connection = EventsubConnection::connecting();
    assert_eq!(connection.phase, Phase::Connecting);
    let opened = connection.handle(&Input::Connected);
    assert!(matches!(opened.action, Action::Continue));
    assert_eq!(connection.phase, Phase::AwaitingWelcome);
    let welcomed = connection.handle(&text(WELCOME));
    assert!(matches!(welcomed.action, Action::Started));
    assert_eq!(connection.phase, Phase::Active);
    assert_eq!(connection.session_id, "AQoQexAWVYKSTIu4ec_2VAxyuhAB");
}

#[test]
fn a_connection_that_cannot_be_opened_fails() {
    let mut connection = EventsubConnection::connecting();
    let reaction = connection.handle(&Input::ConnectFailed("refused".to_string()));
    assert!(matches!(reaction.action, Action::Fail(EventsubError::WebsocketError(why)) if why == "refused"));
    assert_eq!(reaction.severity, Severity::Error);
    assert_eq!(connection.phase, Phase::Closed);
}

#[test]
fn the_scenario() {
    let (mut handle, mut connection) = established();
    assert_eq!(handle.session_id, "AQoQexAWVYKSTIu4ec_2VAxyuhAB");
    let inputs = vec![text(&follow("1337")), text("{\"metadata\": "), text(&follow("9999"))];
    for event in connection.run(&inputs) {
        handle.accept(event);
    }
    assert_eq!(connection.phase, Phase::Active);
    let events = handle.iter();
    assert_eq!(followers(&events), vec!["1337", "9999"]);
    assert!(handle.iter().is_empty());
}

#[test]
fn notifications_arrive_in_order() {
    let (_, mut connection) = established();
    let users = ["1", "2", "3", "4", "5", "6", "7"];
    let inputs: Vec<Input> = users.iter().map(|u| text(&follow(u))).collect();
    let events = connection.run(&inputs);
    assert_eq!(followers(&events), users);
    assert_eq!(connection.phase, Phase::Active);
}

#[test]
fn a_malformed_frame_is_dropped() {
    let (_, mut connection) = established();
    let first = connection.handle(&text(&follow("1337")));
    assert!(matches!(first.action, Action::Deliver));
    assert!(first.event.is_some());
    let bad = connection.handle(&text("not json at all"));
    assert!(matches!(bad.action, Action::Continue));
    assert!(bad.event.is_none());
    assert_eq!(bad.severity, Severity::Error);
    assert_eq!(connection.phase, Phase::Active);
    let second = connection.handle(&text(&follow("9999")));
    assert!(matches!(second.action, Action::Deliver));
    assert_eq!(followers(&[second.event.unwrap()]), vec!["9999"]);
}

#[test]
fn a_notification_of_an_unknown_category_is_dropped() {
    let (_, mut connection) = established();
    let unknown = follow("1337").replace("\"type\": \"channel.follow\"", "\"type\": \"channel.unheard_of\"");
    let reaction = connection.handle(&text(&unknown));
    assert!(matches!(reaction.action, Action::Continue));
    assert!(reaction.event.is_none());
    assert_eq!(connection.phase, Phase::Active);
}

#[test]
fn a_notification_whose_payload_does_not_match_is_dropped() {
    let (_, mut connection) = established();
    let mismatched = follow("1337").replace("\"message_type\": \"notification\"", "\"message_type\": \"revocation\"");
    let reaction = connection.handle(&text(&mismatched));
    assert!(matches!(reaction.action, Action::Continue));
    assert_eq!(reaction.severity, Severity::Error);
    assert_eq!(connection.phase, Phase::Active);
}

#[test]
fn control_frames_are_passed_over() {
    let (_, mut connection) = established();
    let ping = connection.handle(&Input::Frame(Frame::Ping(vec![1, 2])));
    assert!(matches!(ping.action, Action::Continue));
    assert_eq!(ping.severity, Severity::Quiet);
    for frame in [Frame::Pong(vec![]), Frame::Binary(vec![9]), Frame::Raw] {
        let reaction = connection.handle(&Input::Frame(frame));
        assert!(matches!(reaction.action, Action::Continue));
        assert_eq!(reaction.severity, Severity::Warn);
    }
    let keepalive = connection.handle(&text(KEEPALIVE));
    assert!(matches!(keepalive.action, Action::Continue));
    assert_eq!(keepalive.severity, Severity::Warn);
    let welcome = connection.handle(&text(WELCOME));
    assert!(matches!(welcome.action, Action::Continue));
    assert_eq!(connection.phase, Phase::Active);
}

#[test]
fn reconnecting_is_not_seen_by_the_consumer() {
    let (handle, mut connection) = established();
    let inputs = vec![
        text(&follow("1")),
        text(RECONNECT),
        text(&follow("2")),
        Input::Frame(Frame::Close(None)),
    ];
    let mut events = connection.run(&inputs);
    assert_eq!(connection.phase, Phase::Reconnecting);
    assert!(connection.opening);
    let moved = vec![Input::Connected, text(&follow("3")), text(&follow("4"))];
    events.extend(connection.run(&moved));
    assert_eq!(followers(&events), vec!["1", "2", "3", "4"]);
    assert_eq!(connection.phase, Phase::Active);
    assert_eq!(connection.session_id, handle.session_id);
    assert_eq!(connection.session_id, "AQoQexAWVYKSTIu4ec_2VAxyuhAB");
}

#[test]
fn reconnecting_opens_the_new_address_when_the_old_connection_ends() {
    let (_, mut connection) = established();
    let told = connection.handle(&text(RECONNECT));
    assert!(matches!(told.action, Action::Continue));
    assert_eq!(told.severity, Severity::Info);
    assert_eq!(connection.phase, Phase::Reconnecting);
    assert_eq!(connection.pending, vec!["wss://eventsub.wss.twitch.tv?challenge=upgrade"]);
    let ended = connection.handle(&Input::Closed("closed".to_string()));
    assert!(matches!(
        ended.action,
        Action::Connect(address) if address == "wss://eventsub.wss.twitch.tv?challenge=upgrade"
    ));
    assert!(connection.pending.is_empty());
    let failed = connection.handle(&Input::ConnectFailed("no route".to_string()));
    assert!(matches!(failed.action, Action::Stop));
    assert_eq!(failed.severity, Severity::Error);
    assert_eq!(connection.phase, Phase::Closed);
}

#[test]
fn an_error_while_draining_still_moves_on() {
    let (_, mut connection) = established();
    connection.handle(&text(RECONNECT));
    let lost = connection.handle(&Input::Failed("reset".to_string()));
    assert!(matches!(lost.action, Action::Connect(_)));
    let opened = connection.handle(&Input::Connected);
    assert!(matches!(opened.action, Action::Continue));
    assert_eq!(connection.phase, Phase::Active);
}

#[test]
fn a_revocation_ends_the_delivery() {
    let (_, mut connection) = established();
    let inputs = vec![text(&follow("1")), text(REVOCATION), text(&follow("2")), text(&follow("3"))];
    let mut seen = Vec::new();
    let mut actions = Vec::new();
    for input in &inputs {
        let reaction = connection.handle(input);
        actions.push(reaction.action);
        if let Some(event) = reaction.event {
            seen.push(event);
        }
    }
    assert!(matches!(actions[1], Action::SendClose));
    assert!(matches!(actions[2], Action::Stop));
    assert!(matches!(actions[3], Action::Stop));
    assert_eq!(followers(&seen), vec!["1"]);
    assert_eq!(connection.phase, Phase::Closed);
}

#[test]
fn a_close_frame_ends_the_sequence() {
    for frame in [Frame::Close(None), Frame::Close(Some("done".to_string()))] {
        let (mut handle, mut connection) = established();
        let reaction = connection.handle(&Input::Frame(frame));
        assert!(matches!(reaction.action, Action::Stop));
        assert_eq!(reaction.severity, Severity::Info);
        assert_eq!(connection.phase, Phase::Closed);
        assert!(!handle.finished());
        handle.finish();
        assert!(handle.ended);
        assert!(handle.finished());
        assert!(handle.next().is_none());
        let after = connection.run(&vec![text(&follow("1"))]);
        assert!(after.is_empty());
    }
}

#[test]
fn a_failure_ends_the_sequence_with_an_error() {
    let (_, mut connection) = established();
    let reaction = connection.handle(&Input::Failed("broken pipe".to_string()));
    assert!(matches!(reaction.action, Action::Stop));
    assert_eq!(reaction.severity, Severity::Error);
    assert_eq!(connection.phase, Phase::Closed);
}

#[test]
fn the_handle_gives_events_oldest_first() {
    let (mut handle, mut connection) = established();
    let inputs = vec![text(&follow("1")), text(&follow("2")), text(&follow("3"))];
    for event in connection.run(&inputs) {
        handle.accept(event);
    }
    handle.finish();
    assert!(!handle.finished());
    let first = handle.next().unwrap();
    assert_eq!(followers(&[first]), vec!["1"]);
    let rest = handle.iter();
    assert_eq!(followers(&rest), vec!["2", "3"]);
    assert!(handle.next().is_none());
    assert!(handle.finished());
}
