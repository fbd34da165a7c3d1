use eventsub::api::APIEndpoint;
use eventsub::api::APIError;
use eventsub::api::DataList;
use eventsub::api::NewAccessTokenResponse;
use eventsub::api::Pagination;
use eventsub::api::RequestFailure;
use eventsub::api::TwitchAPI;
use eventsub::api::decimal;
use eventsub::eventsub::EventsubError;
use eventsub::eventsub::subscriptions::Conditions;
use eventsub::eventsub::subscriptions::Raid;
use eventsub::eventsub::subscriptions::Subscription;
use eventsub::eventsub::subscriptions::SubscriptionType;
use eventsub::json::parse;
use eventsub::Twitch;
use eventsub::TwitchError;

fn conditions() -> Conditions {
    Conditions::new("12826".to_string(), "1337".to_string())
}

fn pairs(subscription: &Subscription) -> Vec<(&str, &str)> {
    subscription.condition.iter().map(|(k, v)| (k.as_str(), v.as_str())).collect()
}

#[test]
fn a_follow_subscription() {
    let subscription = SubscriptionType::Follow.build_subscription("S1", &conditions());
    assert_eq!(subscription.id, None);
    assert_eq!(subscription.status, None);
    assert_eq!(subscription.subscription_type, "channel.follow");
    assert_eq!(subscription.version, "2");
    assert_eq!(pairs(&subscription), vec![("broadcaster_user_id", "12826"), ("moderator_user_id", "1337")]);
    assert_eq!(subscription.transport.method, "websocket");
    assert_eq!(subscription.transport.session_id.as_deref(), Some("S1"));
}

#[test]
fn conditions_by_category() {
    let c = conditions();
    let chat = SubscriptionType::ChatMessage.build_subscription("S", &c);
    assert_eq!(pairs(&chat), vec![("broadcaster_user_id", "12826"), ("user_id", "1337")]);
    let update = SubscriptionType::ChannelUpdate.build_subscription("S", &c);
    assert_eq!(pairs(&update), vec![("broadcaster_user_id", "12826")]);
    let whisper = SubscriptionType::WhisperReceived.build_subscription("S", &c);
    assert_eq!(pairs(&whisper), vec![("user_id", "1337")]);
    let to = SubscriptionType::Raid(Raid::To).build_subscription("S", &c);
    assert_eq!(pairs(&to), vec![("to_broadcaster_user_id", "12826")]);
    let from = SubscriptionType::Raid(Raid::From).build_subscription("S", &c);
    assert_eq!(pairs(&from), vec![("from_broadcaster_user_id", "12826")]);
    let any = SubscriptionType::PointsCustomRewardRedemptionAdd(None).build_subscription("S", &c);
    assert_eq!(pairs(&any), vec![("broadcaster_user_id", "12826")]);
    let one = SubscriptionType::PointsCustomRewardUpdate(Some("r-9".to_string())).build_subscription("S", &c);
    assert_eq!(pairs(&one), vec![("broadcaster_user_id", "12826"), ("reward_id", "r-9")]);
}

#[test]
fn names_and_versions() {
    let cases = [
        (SubscriptionType::AutomodMessageHold, "automod.message.hold", "2"),
        (SubscriptionType::AutomodSettingsUpdate, "automod.settings.update", "1"),
        (SubscriptionType::ChannelUpdate, "channel.update", "2"),
        (SubscriptionType::Moderate, "channel.moderate", "2"),
        (SubscriptionType::Cheer, "channel.ChannelCheer", "1"),
        (SubscriptionType::Raid(Raid::To), "channel.ChannelRaid", "1"),
        (SubscriptionType::PointsCustomRewardRemove(None), "channel.channel_points_custom_reward.remove", "1"),
        (SubscriptionType::HypeTrainEnd, "channel.hype_train.end", "1"),
        (SubscriptionType::StreamOnline, "stream.online", "1"),
        (SubscriptionType::WhisperReceived, "user.whisper.message", "1"),
    ];
    for (kind, name, version) in cases {
        assert_eq!(kind.details(), (name.to_string(), version.to_string()));
    }
}

#[test]
fn a_subscription_is_read_from_json() {
    let j = parse(
        r#"{
            "id": "f1c2a387",
            "status": "enabled",
            "type": "channel.follow",
            "version": "2",
            "cost": 1,
            "condition": { "broadcaster_user_id": "12826", "moderator_user_id": "1337" },
            "transport": { "method": "websocket", "session_id": "S1" }
        }"#,
    )
    .unwrap();
    let subscription = Subscription::from_json(&j).unwrap();
    assert_eq!(subscription.id.as_deref(), Some("f1c2a387"));
    assert_eq!(subscription.status.as_deref(), Some("enabled"));
    assert_eq!(subscription.subscription_type, "channel.follow");
    assert_eq!(subscription.version, "2");
    let mut found = pairs(&subscription);
    found.sort();
    assert_eq!(found, vec![("broadcaster_user_id", "12826"), ("moderator_user_id", "1337")]);
    assert_eq!(subscription.transport.session_id.as_deref(), Some("S1"));
    let untyped = parse(r#"{ "version": "2", "condition": {}, "transport": { "method": "websocket" } }"#).unwrap();
    assert!(Subscription::from_json(&untyped).is_none());
    let numbered = parse(r#"{ "type": "a", "version": "2", "condition": { "x": 1 }, "transport": { "method": "websocket" } }"#).unwrap();
    assert!(Subscription::from_json(&numbered).is_none());
}

#[test]
fn endpoints() {
    assert_eq!(APIEndpoint::Token.endpoint(), "https://id.twitch.tv/oauth2/token");
    assert_eq!(APIEndpoint::Subscriptions.endpoint(), "https://api.twitch.tv/helix/eventsub/subscriptions");
    assert_eq!(APIEndpoint::Websocket.endpoint(), "wss://eventsub.wss.twitch.tv/ws");
}

#[test]
fn request_failures() {
    assert!(matches!(APIError::from(RequestFailure::Status(401)), APIError::Unauthorized));
    assert!(matches!(APIError::from(RequestFailure::Status(403)), APIError::Forbidden));
    assert!(matches!(APIError::from(RequestFailure::Status(500)), APIError::ConnectionError(t) if t == "status code: 500"));
    assert!(matches!(APIError::from(RequestFailure::Status(0)), APIError::ConnectionError(t) if t == "status code: 0"));
    assert!(matches!(APIError::from(RequestFailure::Transport), APIError::ConnectionError(t) if t == "failed to reach twitch"));
    assert!(matches!(APIError::from_read_failure("eof".to_string()), APIError::ParseError(t) if t == "eof"));
}

#[test]
fn numbers_in_decimal() {
    assert_eq!(decimal(0), "0");
    assert_eq!(decimal(7), "7");
    assert_eq!(decimal(10), "10");
    assert_eq!(decimal(404), "404");
    assert_eq!(decimal(65535), "65535");
}

#[test]
fn pages_are_gathered() {
    let mut all: Vec<u32> = vec![1];
    let more = TwitchAPI::get(
        &mut all,
        DataList { data: vec![2, 3], pagination: Some(Pagination { cursor: Some("c1".to_string()) }) },
    );
    assert!(matches!(more, Ok(Some(cursor)) if cursor == "c1"));
    assert_eq!(all, vec![1, 2, 3]);
    let last = TwitchAPI::get(&mut all, DataList { data: vec![4], pagination: Some(Pagination { cursor: None }) });
    assert!(matches!(last, Ok(None)));
    assert_eq!(all, vec![1, 2, 3, 4]);
    let broken = TwitchAPI::get(&mut all, DataList { data: vec![5], pagination: None });
    assert!(matches!(broken, Err(APIError::NoPagination)));
    assert_eq!(all, vec![1, 2, 3, 4]);
}

#[test]
fn the_posted_object() {
    let one = TwitchAPI::post(DataList { data: vec!["a", "b"], pagination: None });
    assert!(matches!(one, Ok("b")));
    let none = TwitchAPI::post(DataList::<u8> { data: vec![], pagination: None });
    assert!(matches!(none, Err(APIError::ParseError(t)) if t == "data missing in response"));
}

#[test]
fn the_client() {
    let twitch = Twitch::new("id".to_string(), "token".to_string());
    assert_eq!(twitch.api.client_id, "id");
    assert_eq!(twitch.api.token, "token");
    assert_eq!(twitch.api.authorization(), "Bearer token");
    let api = TwitchAPI::new("a".to_string(), "b".to_string());
    assert_eq!((api.client_id.as_str(), api.token.as_str()), ("a", "b"));
}

#[test]
fn refreshing_tokens() {
    assert_eq!(
        Twitch::refresh_request("id", "secret", "old"),
        "client_id=id&client_secret=secret&grant_type=refresh_token&refresh_token=old"
    );
    let both = NewAccessTokenResponse { access_token: "a".to_string(), refresh_token: Some("r".to_string()) };
    assert!(matches!(Twitch::tokens_of(both), Ok((a, r)) if a == "a" && r == "r"));
    let one = NewAccessTokenResponse { access_token: "a".to_string(), refresh_token: None };
    assert!(matches!(
        Twitch::tokens_of(one),
        Err(TwitchError::APIError(APIError::ConnectionError(t))) if t == "refresh token missing from response"
    ));
    assert!(matches!(TwitchError::from(APIError::Forbidden), TwitchError::APIError(APIError::Forbidden)));
    assert!(matches!(
        TwitchError::from_eventsub(EventsubError::NoSessionID),
        TwitchError::EventsubError(EventsubError::NoSessionID)
    ));
}

#[test]
fn a_subscription_is_written_and_read_back() {
    let subscription = SubscriptionType::Follow.build_subscription("S1", &conditions());
    let written = subscription.to_json();
    assert_eq!(written.text("type").as_deref(), Some("channel.follow"));
    assert_eq!(written.text("version").as_deref(), Some("2"));
    assert_eq!(written.get("condition").unwrap().text("moderator_user_id").as_deref(), Some("1337"));
    assert_eq!(written.get("transport").unwrap().text("method").as_deref(), Some("websocket"));
    assert_eq!(written.get("transport").unwrap().text("session_id").as_deref(), Some("S1"));
    let again = Subscription::from_json(&written).unwrap();
    assert_eq!(format!("{:?}", again), format!("{:?}", subscription));
}
