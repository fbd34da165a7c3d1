use eventsub::eventsub::events::goal::GoalBegin;
use eventsub::eventsub::events::goal::GoalEnd;
use eventsub::eventsub::events::goal::GoalProgress;
use eventsub::json::FromJson;
use eventsub::json::parse;

#[test]
fn channel_goal_begin() {
    let event = r##"
  {
    "id": "12345-cool-event",
    "broadcaster_user_id": "141981764",
    "broadcaster_user_name": "TwitchDev",
    "broadcaster_user_login": "twitchdev",
    "type": "subscription",
    "description": "Help me get partner!",
    "current_amount": 100,
    "target_amount": 220,
    "started_at": "2021-07-15T17:16:03.17106713Z"
  }"##;
    GoalBegin::from_json(&parse(event).unwrap()).unwrap();
}

#[test]
fn channel_goal_progress() {
    let event = r##"
  {
    "id": "12345-cool-event",
    "broadcaster_user_id": "141981764",
    "broadcaster_user_name": "TwitchDev",
    "broadcaster_user_login": "twitchdev",
    "type": "subscription",
    "description": "Help me get partner!",
    "current_amount": 120,
    "target_amount": 220,
    "started_at": "2021-07-15T17:16:03.17106713Z"
  }"##;
    GoalProgress::from_json(&parse(event).unwrap()).unwrap();
}

#[test]
fn channel_goal_end() {
    let event = r##"
  {
    "id": "12345-abc-678-defgh",
    "broadcaster_user_id": "141981764",
    "broadcaster_user_name": "TwitchDev",
    "broadcaster_user_login": "twitchdev",
    "type": "subscription",
    "description": "Help me get partner!",
    "is_achieved": false,
    "current_amount": 180,
    "target_amount": 220,
    "started_at": "2021-07-15T17:16:03.17106713Z",
    "ended_at": "2020-07-16T17:16:03.17106713Z"
  }"##;
    GoalEnd::from_json(&parse(event).unwrap()).unwrap();
}
