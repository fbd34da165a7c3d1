use eventsub::eventsub::events::rewards::PointsAutomaticRewardRedemption;
use eventsub::eventsub::events::rewards::PointsCustomRewardAdd;
use eventsub::eventsub::events::rewards::PointsCustomRewardRedemptionAdd;
use eventsub::eventsub::events::rewards::PointsCustomRewardRedemptionUpdate;
use eventsub::eventsub::events::rewards::PointsCustomRewardRemove;
use eventsub::eventsub::events::rewards::PointsCustomRewardUpdate;
use eventsub::json::FromJson;
use eventsub::json::parse;

#[test]
fn channel_points_automatic_reward_redemption() {
    let event = r#"
  {
    "broadcaster_user_id": "12826",
    "broadcaster_user_name": "Twitch",
    "broadcaster_user_login": "twitch",
    "user_id": "141981764",
    "user_name": "TwitchDev",
    "user_login": "twitchdev",
    "id": "f024099a-e0fe-4339-9a0a-a706fb59f353",
    "reward": {
      "type": "send_highlighted_message",
      "cost": 100,
      "unlocked_emote": null
    },
    "message": {
      "text": "Hello world! VoHiYo",
      "emotes": [
        {
          "id": "81274",
          "begin": 13,
          "end": 18
        }
      ]
    },
    "user_input": "Hello world! VoHiYo ",
    "redeemed_at": "2024-02-23T21:14:34.260398045Z"
  }"#;
    PointsAutomaticRewardRedemption::from_json(&parse(event).unwrap()).unwrap();
}

#[test]
fn channel_points_custom_reward_add() {
    let event = r##"
  {
    "id": "9001",
    "broadcaster_user_id": "1337",
    "broadcaster_user_login": "cool_user",
    "broadcaster_user_name": "Cool_User",
    "is_enabled": true,
    "is_paused": false,
    "is_in_stock": true,
    "title": "Cool Reward",
    "cost": 100,
    "prompt": "reward prompt",
    "is_user_input_required": true,
    "should_redemptions_skip_request_queue": false,
    "cooldown_expires_at": null,
    "redemptions_redeemed_current_stream": null,
    "max_per_stream": {
        "is_enabled": true,
        "value": 1000
    },
    "max_per_user_per_stream": {
        "is_enabled": true,
        "value": 1000
    },
    "global_cooldown": {
        "is_enabled": true,
        "seconds": 1000
    },
    "background_color": "#FA1ED2",
    "image": {
        "url_1x": "https://static-cdn.jtvnw.net/image-1.png",
        "url_2x": "https://static-cdn.jtvnw.net/image-2.png",
        "url_4x": "https://static-cdn.jtvnw.net/image-4.png"
    },
    "default_image": {
        "url_1x": "https://static-cdn.jtvnw.net/default-1.png",
        "url_2x": "https://static-cdn.jtvnw.net/default-2.png",
        "url_4x": "https://static-cdn.jtvnw.net/default-4.png"
    }
  }"##;
    PointsCustomRewardAdd::from_json(&parse(event).unwrap()).unwrap();
}

#[test]
fn channel_points_custom_reward_update() {
    let event = r##"
  {
    "id": "9001",
    "broadcaster_user_id": "1337",
    "broadcaster_user_login": "cool_user",
    "broadcaster_user_name": "Cool_User",
    "is_enabled": true,
    "is_paused": false,
    "is_in_stock": true,
    "title": "Cool Reward",
    "cost": 100,
    "prompt": "reward prompt",
    "is_user_input_required": true,
    "should_redemptions_skip_request_queue": false,
    "cooldown_expires_at": "2019-11-16T10:11:12.634234626Z",
    "redemptions_redeemed_current_stream": 123,
    "max_per_stream": {
        "is_enabled": true,
        "value": 1000
    },
    "max_per_user_per_stream": {
        "is_enabled": true,
        "value": 1000
    },
    "global_cooldown": {
        "is_enabled": true,
        "seconds": 1000
    },
    "background_color": "#FA1ED2",
    "image": {
        "url_1x": "https://static-cdn.jtvnw.net/image-1.png",
        "url_2x": "https://static-cdn.jtvnw.net/image-2.png",
        "url_4x": "https://static-cdn.jtvnw.net/image-4.png"
    },
    "default_image": {
        "url_1x": "https://static-cdn.jtvnw.net/default-1.png",
        "url_2x": "https://static-cdn.jtvnw.net/default-2.png",
        "url_4x": "https://static-cdn.jtvnw.net/default-4.png"
    }
  }"##;
    PointsCustomRewardUpdate::from_json(&parse(event).unwrap()).unwrap();
}

#[test]
fn channel_points_custom_reward_remove() {
    let event = r##"
  {
    "id": "9001",
    "broadcaster_user_id": "1337",
    "broadcaster_user_login": "cool_user",
    "broadcaster_user_name": "Cool_User",
    "is_enabled": true,
    "is_paused": false,
    "is_in_stock": true,
    "title": "Cool Reward",
    "cost": 100,
    "prompt": "reward prompt",
    "is_user_input_required": true,
    "should_redemptions_skip_request_queue": false,
    "cooldown_expires_at": "2019-11-16T10:11:12.634234626Z",
    "redemptions_redeemed_current_stream": 123,
    "max_per_stream": {
        "is_enabled": true,
        "value": 1000
    },
    "max_per_user_per_stream": {
        "is_enabled": true,
        "value": 1000
    },
    "global_cooldown": {
        "is_enabled": true,
        "seconds": 1000
    },
    "background_color": "#FA1ED2",
    "image": {
        "url_1x": "https://static-cdn.jtvnw.net/image-1.png",
        "url_2x": "https://static-cdn.jtvnw.net/image-2.png",
        "url_4x": "https://static-cdn.jtvnw.net/image-4.png"
    },
    "default_image": {
        "url_1x": "https://static-cdn.jtvnw.net/default-1.png",
        "url_2x": "https://static-cdn.jtvnw.net/default-2.png",
        "url_4x": "https://static-cdn.jtvnw.net/default-4.png"
    }
  }"##;
    PointsCustomRewardRemove::from_json(&parse(event).unwrap()).unwrap();
}

#[test]
fn channel_points_custom_reward_redemption_add() {
    let event = r##"
  {
    "id": "17fa2df1-ad76-4804-bfa5-a40ef63efe63",
    "broadcaster_user_id": "1337",
    "broadcaster_user_login": "cool_user",
    "broadcaster_user_name": "Cool_User",
    "user_id": "9001",
    "user_login": "cooler_user",
    "user_name": "Cooler_User",
    "user_input": "pogchamp",
    "status": "unfulfilled",
    "reward": {
        "id": "92af127c-7326-4483-a52b-b0da0be61c01",
        "title": "title",
        "cost": 100,
        "prompt": "reward prompt"
    },
    "redeemed_at": "2020-07-15T17:16:03.17106713Z"
  }"##;
    PointsCustomRewardRedemptionAdd::from_json(&parse(event).unwrap()).unwrap();
}

#[test]
fn channel_points_custom_reward_redemption_update() {
    let event = r##"
  {
    "id": "17fa2df1-ad76-4804-bfa5-a40ef63efe63",
    "broadcaster_user_id": "1337",
    "broadcaster_user_login": "cool_user",
    "broadcaster_user_name": "Cool_User",
    "user_id": "9001",
    "user_login": "cooler_user",
    "user_name": "Cooler_User",
    "user_input": "pogchamp",
    "status": "fulfilled",
    "reward": {
        "id": "92af127c-7326-4483-a52b-b0da0be61c01",
        "title": "title",
        "cost": 100,
        "prompt": "reward prompt"
    },
    "redeemed_at": "2020-07-15T17:16:03.17106713Z"
  }"##;
    PointsCustomRewardRedemptionUpdate::from_json(&parse(event).unwrap()).unwrap();
}
