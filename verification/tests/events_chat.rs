use eventsub::eventsub::events::chat::ChatClear;
use eventsub::eventsub::events::chat::ChatMessage;
use eventsub::eventsub::events::chat::ChatNotification;
use eventsub::eventsub::events::chat::ChatSettingsUpdate;
use eventsub::eventsub::events::chat::ChatUserMessageHold;
use eventsub::eventsub::events::chat::ChatUserMessageUpdate;
use eventsub::json::FromJson;
use eventsub::json::parse;

#[test]
fn channel_chat_clear() {
    let event = r#"
  {
    "broadcaster_user_id": "1337",
    "broadcaster_user_name": "Cool_User",
    "broadcaster_user_login": "cool_user"
  }"#;
    ChatClear::from_json(&parse(event).unwrap()).unwrap();
}

#[test]
fn channel_chat_clear_user_messages() {
    let event = r#"
  {
    "broadcaster_user_id": "1337",
    "broadcaster_user_name": "Cool_User",
    "broadcaster_user_login": "cool_user",
    "target_user_id": "7734",
    "target_user_name": "Uncool_viewer",
    "target_user_login": "uncool_viewer"
  }"#;
    ChatClear::from_json(&parse(event).unwrap()).unwrap();
}

#[test]
fn channel_chat_message() {
    let event = r##"
  {
    "broadcaster_user_id": "1971641",
    "broadcaster_user_login": "streamer",
    "broadcaster_user_name": "streamer",
    "chatter_user_id": "4145994",
    "chatter_user_login": "viewer32",
    "chatter_user_name": "viewer32",
    "message_id": "cc106a89-1814-919d-454c-f4f2f970aae7",
    "message": {
      "text": "Hi chat",
      "fragments": [
        {
          "type": "text",
          "text": "Hi chat",
          "cheermote": null,
          "emote": null,
          "mention": null
        }
      ]
    },
    "color": "#00FF7F",
    "badges": [
      {
        "set_id": "moderator",
        "id": "1",
        "info": ""
      },
      {
        "set_id": "subscriber",
        "id": "12",
        "info": "16"
      },
      {
        "set_id": "sub-gifter",
        "id": "1",
        "info": ""
      }
    ],
    "message_type": "text",
    "cheer": null,
    "reply": null,
    "channel_points_custom_reward_id": null,
    "source_broadcaster_user_id": "112233",
    "source_broadcaster_user_login": "streamer33",
    "source_broadcaster_user_name": "streamer33",
    "source_message_id": "e03f6d5d-8ec8-4c63-b473-9e5fe61e289b",
    "source_badges": [
      {
        "set_id": "subscriber",
        "id": "3",
        "info": "3"
      }
    ]
  }"##;
    ChatMessage::from_json(&parse(event).unwrap()).unwrap();

    let event = r##"
  {
    "broadcaster_user_id": "1971641",
    "broadcaster_user_login": "streamer",
    "broadcaster_user_name": "streamer",
    "chatter_user_id": "4145994",
    "chatter_user_login": "viewer32",
    "chatter_user_name": "viewer32",
    "message_id": "cc106a89-1814-919d-454c-f4f2f970aae7",
    "message": {
      "text": "Hi chat",
      "fragments": [
        {
          "type": "text",
          "text": "Hi chat",
          "cheermote": null,
          "emote": null,
          "mention": null
        }
      ]
    },
    "color": "#00FF7F",
    "badges": [
      {
        "set_id": "moderator",
        "id": "1",
        "info": ""
      },
      {
        "set_id": "subscriber",
        "id": "12",
        "info": "16"
      },
      {
        "set_id": "sub-gifter",
        "id": "1",
        "info": ""
      }
    ],
    "message_type": "text",
    "cheer": null,
    "reply": null,
    "channel_points_custom_reward_id": null,
    "source_broadcaster_user_id": null,
    "source_broadcaster_user_login": null,
    "source_broadcaster_user_name": null,
    "source_message_id": null,
    "source_badges": null
  }"##;
    ChatMessage::from_json(&parse(event).unwrap()).unwrap();
}

#[test]
fn channel_chat_message_delete() {
    let event = r#"
  {
    "broadcaster_user_id": "1337",
    "broadcaster_user_name": "Cool_User",
    "broadcaster_user_login": "cool_user",
    "target_user_id": "7734",
    "target_user_name": "Uncool_viewer",
    "target_user_login": "uncool_viewer",
    "message_id": "ab24e0b0-2260-4bac-94e4-05eedd4ecd0e"
  }"#;
    ChatClear::from_json(&parse(event).unwrap()).unwrap();
}

#[test]
fn channel_chat_notification() {
    let event = r#"
  {
    "broadcaster_user_id": "1971641",
    "broadcaster_user_login": "streamer",
    "broadcaster_user_name": "streamer",
    "chatter_user_id": "49912639",
    "chatter_user_login": "viewer23",
    "chatter_user_name": "viewer23",
    "chatter_is_anonymous": false,
    "color": "",
    "badges": [],
    "system_message": "viewer23 subscribed at Tier 1. They've subscribed for 10 months!",
    "message_id": "d62235c8-47ff-a4f4--84e8-5a29a65a9c03",
    "message": {
      "text": "",
      "fragments": []
    },
    "notice_type": "shared_chat_resub",
    "sub": null,
    "resub": null,
    "sub_gift": null,
    "community_sub_gift": null,
    "gift_paid_upgrade": null,
    "prime_paid_upgrade": null,
    "pay_it_forward": null,
    "raid": null,
    "unraid": null,
    "announcement": null,
    "bits_badge_tier": null,
    "charity_donation": null,
    "shared_chat_sub": null,
    "shared_chat_resub": {
      "cumulative_months": 10,
      "duration_months": 0,
      "streak_months": null,
      "sub_tier": "1000",
      "is_gift": false,
      "gifter_is_anonymous": null,
      "gifter_user_id": null,
      "gifter_user_name": null,
      "gifter_user_login": null
    },
    "shared_chat_sub_gift": null,
    "shared_chat_community_sub_gift": null,
    "shared_chat_gift_paid_upgrade": null,
    "shared_chat_prime_paid_upgrade": null,
    "shared_chat_pay_it_forward": null,
    "shared_chat_raid": null,
    "shared_chat_unraid": null,
    "shared_chat_announcement": null,
    "shared_chat_bits_badge_tier": null,
    "shared_chat_charity_donation": null,
    "source_broadcaster_user_id": "112233",
    "source_broadcaster_user_login": "streamer33",
    "source_broadcaster_user_name": "streamer33",
    "source_message_id": "2be7193d-0366-4453-b6ec-b288ce9f2c39",
    "source_badges": [{
      "set_id": "subscriber",
      "id": "3",
      "info": "3"
    }]
  }"#;
    ChatNotification::from_json(&parse(event).unwrap()).unwrap();
}

#[test]
fn channel_chat_settings_update() {
    let event = r#"
  {
    "broadcaster_user_id": "1337",
    "broadcaster_user_login": "cool_user",
    "broadcaster_user_name": "Cool_User",
    "emote_mode": true,
    "follower_mode": false,
    "follower_mode_duration_minutes": null,
    "slow_mode": true,
    "slow_mode_wait_time_seconds": 10,
    "subscriber_mode": false,
    "unique_chat_mode": false
  }"#;
    ChatSettingsUpdate::from_json(&parse(event).unwrap()).unwrap();
}

#[test]
fn channel_chat_user_message_hold() {
    let event = r#"
  {
    "broadcaster_user_id": "123",
    "broadcaster_user_login": "bob",
    "broadcaster_user_name": "Bob",
    "user_id": "456",
    "user_login": "tom",
    "user_name": "Tommy",
    "message_id": "789",
    "message": {
      "text": "hey world",
      "fragments": [
        {
          "type": "emote",
          "text": "hey world",
          "cheermote": null,
          "emote": {
            "id": "foo",
            "emote_set_id": "7"
          }
        },
        {
          "type": "cheermote",
          "text": "bye world",
          "cheermote": {
            "prefix": "prefix",
            "bits": 100,
            "tier": 1
          },
          "emote": null
        },
        {
          "type": "text",
          "text": "surprise",
          "cheermote": null,
          "emote": null
        }
      ]
    }
  }"#;
    ChatUserMessageHold::from_json(&parse(event).unwrap()).unwrap();
}

#[test]
fn channel_chat_user_message_update() {
    let event = r#"
  {
    "broadcaster_user_id": "123",
    "broadcaster_user_login": "bob",
    "broadcaster_user_name": "Bob",
    "user_id": "456",
    "user_login": "tom",
    "user_name": "Tommy",
    "status": "approved",
    "message_id": "789",
    "message": {
      "text": "hey world",
      "fragments": [
        {
          "type": "emote",
          "text": "hey world",
          "cheermote": null,
          "emote": {
              "id": "foo",
              "emote_set_id": "7"
          }
        },
        {
          "type": "cheermote",
          "text": "bye world",
          "cheermote": {
              "prefix": "prefix",
              "bits": 100,
              "tier": 1
          },
          "emote": null
        },
        {
          "type": "text",
          "text": "surprise",
          "cheermote": null,
          "emote": null
        }
      ]
    }
  }"#;
    ChatUserMessageUpdate::from_json(&parse(event).unwrap()).unwrap();
}
