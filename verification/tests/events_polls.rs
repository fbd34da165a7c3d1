use eventsub::eventsub::events::polls::PollBegin;
use eventsub::eventsub::events::polls::PollEnd;
use eventsub::eventsub::events::polls::PollProgress;
use eventsub::json::FromJson;
use eventsub::json::parse;

#[test]
fn channel_poll_begin() {
    let event = r##"
  {
    "id": "1243456",
    "broadcaster_user_id": "1337",
    "broadcaster_user_login": "cool_user",
    "broadcaster_user_name": "Cool_User",
    "title": "Aren’t shoes just really hard socks?",
    "choices": [
        {"id": "123", "title": "Yeah!"},
        {"id": "124", "title": "No!"},
        {"id": "125", "title": "Maybe!"}
    ],
    "bits_voting": {
        "is_enabled": true,
        "amount_per_vote": 10
    },
    "channel_points_voting": {
        "is_enabled": true,
        "amount_per_vote": 10
    },
    "started_at": "2020-07-15T17:16:03.17106713Z",
    "ends_at": "2020-07-15T17:16:08.17106713Z"
  }"##;
    PollBegin::from_json(&parse(event).unwrap()).unwrap();
}

#[test]
fn channel_poll_progress() {
    let event = r##"
  {
    "id": "1243456",
    "broadcaster_user_id": "1337",
    "broadcaster_user_login": "cool_user",
    "broadcaster_user_name": "Cool_User",
    "title": "Aren’t shoes just really hard socks?",
    "choices": [
        {"id": "123", "title": "Yeah!", "bits_votes": 5, "channel_points_votes": 7, "votes": 12},
        {"id": "124", "title": "No!", "bits_votes": 10, "channel_points_votes": 4, "votes": 14},
        {"id": "125", "title": "Maybe!", "bits_votes": 0, "channel_points_votes": 7, "votes": 7}
    ],
    "bits_voting": {
        "is_enabled": true,
        "amount_per_vote": 10
    },
    "channel_points_voting": {
        "is_enabled": true,
        "amount_per_vote": 10
    },
    "started_at": "2020-07-15T17:16:03.17106713Z",
    "ends_at": "2020-07-15T17:16:08.17106713Z"
  }"##;
    PollProgress::from_json(&parse(event).unwrap()).unwrap();
}

#[test]
fn channel_poll_end() {
    let event = r##"
  {
    "id": "1243456",
    "broadcaster_user_id": "1337",
    "broadcaster_user_login": "cool_user",
    "broadcaster_user_name": "Cool_User",
    "title": "Aren’t shoes just really hard socks?",
    "choices": [
        {"id": "123", "title": "Blue", "bits_votes": 50, "channel_points_votes": 70, "votes": 120},
        {"id": "124", "title": "Yellow", "bits_votes": 100, "channel_points_votes": 40, "votes": 140},
        {"id": "125", "title": "Green", "bits_votes": 10, "channel_points_votes": 70, "votes": 80}
    ],
    "bits_voting": {
        "is_enabled": true,
        "amount_per_vote": 10
    },
    "channel_points_voting": {
        "is_enabled": true,
        "amount_per_vote": 10
    },
    "status": "completed",
    "started_at": "2020-07-15T17:16:03.17106713Z",
    "ended_at": "2020-07-15T17:16:11.17106713Z"
  }"##;
    PollEnd::from_json(&parse(event).unwrap()).unwrap();
}
