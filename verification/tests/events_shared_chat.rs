use eventsub::eventsub::events::shared_chat::SharedChatSessionBegin;
use eventsub::eventsub::events::shared_chat::SharedChatSessionEnd;
use eventsub::eventsub::events::shared_chat::SharedChatSessionUpdate;
use eventsub::json::FromJson;
use eventsub::json::parse;

#[test]
fn channel_shared_chat_session_begin() {
    let event = r#"
  {
    "session_id": "2b64a92a-dbb8-424e-b1c3-304423ba1b6f",
    "broadcaster_user_id": "1971641",
    "broadcaster_user_login": "streamer",
    "broadcaster_user_name": "streamer",
    "host_broadcaster_user_id": "1971641",
    "host_broadcaster_user_login": "streamer",
    "host_broadcaster_user_name": "streamer",
    "participants": [
      {
        "broadcaster_user_id": "1971641",
        "broadcaster_user_name": "streamer",
        "broadcaster_user_login": "streamer"
      },
      {
        "broadcaster_user_id": "112233",
        "broadcaster_user_name": "streamer33",
        "broadcaster_user_login": "streamer33"
      }
    ]
  }"#;
    SharedChatSessionBegin::from_json(&parse(event).unwrap()).unwrap();
}

#[test]
fn channel_shared_chat_session_update() {
    let event = r#"
  {
    "session_id": "2b64a92a-dbb8-424e-b1c3-304423ba1b6f",
    "broadcaster_user_id": "1971641",
    "broadcaster_user_login": "streamer",
    "broadcaster_user_name": "streamer",
    "host_broadcaster_user_id": "1971641",
    "host_broadcaster_user_login": "streamer",
    "host_broadcaster_user_name": "streamer",
    "participants": [
      {
        "broadcaster_user_id": "1971641",
        "broadcaster_user_name": "streamer",
        "broadcaster_user_login": "streamer"
      },
      {
        "broadcaster_user_id": "112233",
        "broadcaster_user_name": "streamer33",
        "broadcaster_user_login": "streamer33"
      },
      {
        "broadcaster_user_id": "332211",
        "broadcaster_user_name": "streamer11",
        "broadcaster_user_login": "streamer11"
      }
    ]
  }"#;
    SharedChatSessionUpdate::from_json(&parse(event).unwrap()).unwrap();
}

#[test]
fn channel_shared_chat_session_end() {
    let event = r#"
  {
    "session_id": "2b64a92a-dbb8-424e-b1c3-304423ba1b6f",
    "broadcaster_user_id": "1971641",
    "broadcaster_user_login": "streamer",
    "broadcaster_user_name": "streamer",
    "host_broadcaster_user_id": "1971641",
    "host_broadcaster_user_login": "streamer",
    "host_broadcaster_user_name": "streamer"
  }"#;
    SharedChatSessionEnd::from_json(&parse(event).unwrap()).unwrap();
}
