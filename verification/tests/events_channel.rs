use eventsub::eventsub::events::channel::AdBreakBegin;
use eventsub::eventsub::events::channel::ChannelUpdate;
use eventsub::eventsub::events::channel::Follow;
use eventsub::eventsub::events::channel::ModeratorAdd;
use eventsub::eventsub::events::channel::ModeratorRemove;
use eventsub::eventsub::events::channel::ShoutoutCreate;
use eventsub::eventsub::events::channel::ShoutoutReceived;
use eventsub::eventsub::events::channel::StreamOffline;
use eventsub::eventsub::events::channel::StreamOnline;
use eventsub::eventsub::events::channel::VIPAdd;
use eventsub::eventsub::events::channel::VIPRemove;
use eventsub::json::FromJson;
use eventsub::json::parse;

#[test]
fn channel_update() {
    let event = r#"
  {
    "broadcaster_user_id": "1337",
    "broadcaster_user_login": "cool_user",
    "broadcaster_user_name": "Cool_User",
    "title": "Best Stream Ever",
    "language": "en",
    "category_id": "12453",
    "category_name": "Grand Theft Auto",
    "content_classification_labels": [ "MatureGame" ]
  }"#;
    ChannelUpdate::from_json(&parse(event).unwrap()).unwrap();
}

#[test]
fn channel_follow() {
    let event = r#"
  {
    "user_id": "1234",
    "user_login": "cool_user",
    "user_name": "Cool_User",
    "broadcaster_user_id": "1337",
    "broadcaster_user_login": "cooler_user",
    "broadcaster_user_name": "Cooler_User",
    "followed_at": "2020-07-15T18:16:11.17106713Z"
  }"#;
    Follow::from_json(&parse(event).unwrap()).unwrap();
}

#[test]
fn channel_ad_break_begin() {
    let event = r#"
  {
    "duration_seconds": "60",
    "started_at": "2019-11-16T10:11:12.634234626Z",
    "is_automatic": "false",
    "broadcaster_user_id": "1337",
    "broadcaster_user_login": "cool_user",
    "broadcaster_user_name": "Cool_User",
    "requester_user_id": "1337",
    "requester_user_login": "cool_user",
    "requester_user_name": "Cool_User"
  }"#;
    AdBreakBegin::from_json(&parse(event).unwrap()).unwrap();
}

#[test]
fn channel_moderator_add() {
    let event = r#"
  {
    "user_id": "1234",
    "user_login": "mod_user",
    "user_name": "Mod_User",
    "broadcaster_user_id": "1337",
    "broadcaster_user_login": "cooler_user",
    "broadcaster_user_name": "Cooler_User"
  }"#;
    ModeratorAdd::from_json(&parse(event).unwrap()).unwrap();
}

#[test]
fn channel_moderator_remove() {
    let event = r#"
  {
    "user_id": "1234",
    "user_login": "not_mod_user",
    "user_name": "Not_Mod_User",
    "broadcaster_user_id": "1337",
    "broadcaster_user_login": "cooler_user",
    "broadcaster_user_name": "Cooler_User"
  }"#;
    ModeratorRemove::from_json(&parse(event).unwrap()).unwrap();
}

#[test]
fn channel_vip_add() {
    let event = r#"
  {
    "user_id": "1234",
    "user_login": "mod_user",
    "user_name": "Mod_User",
    "broadcaster_user_id": "1337",
    "broadcaster_user_login": "cooler_user",
    "broadcaster_user_name": "Cooler_User"
  }"#;
    VIPAdd::from_json(&parse(event).unwrap()).unwrap();
}

#[test]
fn channel_vip_remove() {
    let event = r#"
  {
    "user_id": "1234",
    "user_login": "mod_user",
    "user_name": "Mod_User",
    "broadcaster_user_id": "1337",
    "broadcaster_user_login": "cooler_user",
    "broadcaster_user_name": "Cooler_User"
  }"#;
    VIPRemove::from_json(&parse(event).unwrap()).unwrap();
}

#[test]
fn channel_shoutout_create() {
    let event = r#"
  {
    "broadcaster_user_id": "12345",
    "broadcaster_user_name": "SimplySimple",
    "broadcaster_user_login": "simplysimple",
    "moderator_user_id": "98765",
    "moderator_user_name": "ParticularlyParticular123",
    "moderator_user_login": "particularlyparticular123",
    "to_broadcaster_user_id": "626262",
    "to_broadcaster_user_name": "SandySanderman",
    "to_broadcaster_user_login": "sandysanderman",
    "started_at": "2022-07-26T17:00:03.17106713Z",
    "viewer_count": 860,
    "cooldown_ends_at": "2022-07-26T17:02:03.17106713Z",
    "target_cooldown_ends_at":"2022-07-26T18:00:03.17106713Z"
  }"#;
    ShoutoutCreate::from_json(&parse(event).unwrap()).unwrap();
}

#[test]
fn channel_shoutout_received() {
    let event = r#"
  {
    "broadcaster_user_id": "626262",
    "broadcaster_user_name": "SandySanderman",
    "broadcaster_user_login": "sandysanderman",
    "from_broadcaster_user_id": "12345",
    "from_broadcaster_user_name": "SimplySimple",
    "from_broadcaster_user_login": "simplysimple",
    "viewer_count": 860,
    "started_at": "2022-07-26T17:00:03.17106713Z"
  }"#;
    ShoutoutReceived::from_json(&parse(event).unwrap()).unwrap();
}

#[test]
fn channel_stream_online() {
    let event = r#"
  {
    "id": "9001",
    "broadcaster_user_id": "1337",
    "broadcaster_user_login": "cool_user",
    "broadcaster_user_name": "Cool_User",
    "type": "live",
    "started_at": "2020-10-11T10:11:12.123Z"
  }"#;
    StreamOnline::from_json(&parse(event).unwrap()).unwrap();
}

#[test]
fn channel_stream_offline() {
    let event = r#"
  {
    "broadcaster_user_id": "1337",
    "broadcaster_user_login": "cool_user",
    "broadcaster_user_name": "Cool_User"
  }"#;
    StreamOffline::from_json(&parse(event).unwrap()).unwrap();
}
