use eventsub::eventsub::events::subscription::Subscribe;
use eventsub::eventsub::events::subscription::SubscriptionEnd;
use eventsub::eventsub::events::subscription::SubscriptionGift;
use eventsub::eventsub::events::subscription::SubscriptionMessage;
use eventsub::json::FromJson;
use eventsub::json::parse;

#[test]
fn channel_subscribe() {
    let event = r#"
  {
    "user_id": "1234",
    "user_login": "cool_user",
    "user_name": "Cool_User",
    "broadcaster_user_id": "1337",
    "broadcaster_user_login": "cooler_user",
    "broadcaster_user_name": "Cooler_User",
    "tier": "1000",
    "is_gift": false
  }"#;
    Subscribe::from_json(&parse(event).unwrap()).unwrap();
}

#[test]
fn channel_subscribtion_end() {
    let event = r#"
  {
    "user_id": "1234",
    "user_login": "cool_user",
    "user_name": "Cool_User",
    "broadcaster_user_id": "1337",
    "broadcaster_user_login": "cooler_user",
    "broadcaster_user_name": "Cooler_User",
    "tier": "1000",
    "is_gift": false
  }"#;
    SubscriptionEnd::from_json(&parse(event).unwrap()).unwrap();
}

#[test]
fn channel_subscribtion_gift() {
    let event = r#"
  {
    "user_id": "1234",
    "user_login": "cool_user",
    "user_name": "Cool_User",
    "broadcaster_user_id": "1337",
    "broadcaster_user_login": "cooler_user",
    "broadcaster_user_name": "Cooler_User",
    "total": 2,
    "tier": "1000",
    "cumulative_total": 284,
    "is_anonymous": false
  }"#;
    SubscriptionGift::from_json(&parse(event).unwrap()).unwrap();
}

#[test]
fn channel_subscribtion_message() {
    let event = r#"
  {
    "user_id": "1234",
    "user_login": "cool_user",
    "user_name": "Cool_User",
    "broadcaster_user_id": "1337",
    "broadcaster_user_login": "cooler_user",
    "broadcaster_user_name": "Cooler_User",
    "tier": "1000",
    "message": {
      "text": "Love the stream! FevziGG",
      "emotes": [
        {
          "begin": 23,
          "end": 30,
          "id": "302976485"
        }
      ]
    },
    "cumulative_months": 15,
    "streak_months": 1,
    "duration_months": 6
  }"#;
    SubscriptionMessage::from_json(&parse(event).unwrap()).unwrap();
}
