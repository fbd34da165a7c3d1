use eventsub::eventsub::events::EventsubMessage;
use eventsub::json::parse;

#[test]
fn event_notification() {
    let event = r##"
  {
    "metadata": {
      "message_id": "befa7b53-d79d-478f-86b9-120f112b044e",
      "message_type": "notification",
      "message_timestamp": "2022-11-16T10:11:12.464757833Z",
      "subscription_type": "channel.follow",
      "subscription_version": "1"
    },
    "payload": {
      "subscription": {
        "id": "f1c2a387-161a-49f9-a165-0f21d7a4e1c4",
        "status": "enabled",
        "type": "channel.follow",
        "version": "1",
        "cost": 1,
        "condition": {
          "broadcaster_user_id": "12826"
        },
        "transport": {
          "method": "websocket",
          "session_id": "AQoQexAWVYKSTIu4ec_2VAxyuhAB"
        },
        "created_at": "2022-11-16T10:11:12.464757833Z"
      },
      "event": {
        "user_id": "1337",
        "user_login": "awesome_user",
        "user_name": "Awesome_User",
        "broadcaster_user_id": "12826",
        "broadcaster_user_login": "twitch",
        "broadcaster_user_name": "Twitch",
        "followed_at": "2023-07-15T18:16:11.17106713Z"
      }
    }
  }"##;
    EventsubMessage::from_json(&parse(event).unwrap()).unwrap();
}
