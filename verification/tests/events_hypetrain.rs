use eventsub::eventsub::events::hypetrain::HypeTrainBegin;
use eventsub::eventsub::events::hypetrain::HypeTrainEnd;
use eventsub::eventsub::events::hypetrain::HypeTrainProgress;
use eventsub::json::FromJson;
use eventsub::json::parse;

#[test]
fn channel_hypetrain_begin() {
    let event = r##"
  {
    "id": "1b0AsbInCHZW2SQFQkCzqN07Ib2",
    "broadcaster_user_id": "1337",
    "broadcaster_user_login": "cool_user",
    "broadcaster_user_name": "Cool_User",
    "total": 137,
    "progress": 137,
    "goal": 500,
    "top_contributions": [
      { "user_id": "123", "user_login": "pogchamp", "user_name": "PogChamp", "type": "bits", "total": 50 },
      { "user_id": "456", "user_login": "kappa", "user_name": "Kappa", "type": "subscription", "total": 45 }
    ],
    "last_contribution": { "user_id": "123", "user_login": "pogchamp", "user_name": "PogChamp", "type": "bits", "total": 50 },
    "level": 2,
    "started_at": "2020-07-15T17:16:03.17106713Z",
    "expires_at": "2020-07-15T17:16:11.17106713Z",
    "is_golden_kappa_train": false
  }"##;
    HypeTrainBegin::from_json(&parse(event).unwrap()).unwrap();
}

#[test]
fn channel_hypetrain_progress() {
    let event = r##"
  {
    "id": "1b0AsbInCHZW2SQFQkCzqN07Ib2",
    "broadcaster_user_id": "1337",
    "broadcaster_user_login": "cool_user",
    "broadcaster_user_name": "Cool_User",
    "level": 2,
    "total": 700,
    "progress": 200,
    "goal": 1000,
    "top_contributions": [
      { "user_id": "123", "user_login": "pogchamp", "user_name": "PogChamp", "type": "bits", "total": 50 },
      { "user_id": "456", "user_login": "kappa", "user_name": "Kappa", "type": "subscription", "total": 45 }
    ],
    "last_contribution": { "user_id": "123", "user_login": "pogchamp", "user_name": "PogChamp", "type": "bits", "total": 50 },
    "started_at": "2020-07-15T17:16:03.17106713Z",
    "expires_at": "2020-07-15T17:16:11.17106713Z",
    "is_golden_kappa_train": false
  }"##;
    HypeTrainProgress::from_json(&parse(event).unwrap()).unwrap();
}

#[test]
fn channel_hypetrain_end() {
    let event = r##"
  {
    "id": "1b0AsbInCHZW2SQFQkCzqN07Ib2",
    "broadcaster_user_id": "1337",
    "broadcaster_user_login": "cool_user",
    "broadcaster_user_name": "Cool_User",
    "level": 2,
    "total": 137,
    "top_contributions": [
      { "user_id": "123", "user_login": "pogchamp", "user_name": "PogChamp", "type": "bits", "total": 50 },
      { "user_id": "456", "user_login": "kappa", "user_name": "Kappa", "type": "subscription", "total": 45 }
    ],
    "started_at": "2020-07-15T17:16:03.17106713Z",
    "ended_at": "2020-07-15T17:16:11.17106713Z",
    "cooldown_ends_at": "2020-07-15T18:16:11.17106713Z",
    "is_golden_kappa_train": false
  }"##;
    HypeTrainEnd::from_json(&parse(event).unwrap()).unwrap();
}
