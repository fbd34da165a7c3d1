use eventsub::eventsub::events::user::UserUpdate;
use eventsub::eventsub::events::user::WhisperReceived;
use eventsub::json::FromJson;
use eventsub::json::parse;

#[test]
fn user_update() {
    let event = r##"
  {
    "user_id": "1337",
    "user_login": "cool_user",
    "user_name": "Cool_User",
    "email": "user@email.com",
    "email_verified": true,
    "description": "cool description"
  }"##;
    UserUpdate::from_json(&parse(event).unwrap()).unwrap();
}

#[test]
fn whisper_received() {
    let event = r##"
  {
    "from_user_id": "423374343",
    "from_user_login": "glowillig",
    "from_user_name": "glowillig",
    "to_user_id": "424596340",
    "to_user_login": "quotrok",
    "to_user_name": "quotrok",
    "whisper_id": "some-whisper-id",
    "whisper": {
      "text": "a secret"
    }
  }"##;
    WhisperReceived::from_json(&parse(event).unwrap()).unwrap();
}
