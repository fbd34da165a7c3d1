use eventsub::eventsub::events::automod::AutomodMessageHold;
use eventsub::eventsub::events::automod::AutomodMessageUpdate;
use eventsub::eventsub::events::automod::AutomodSettingsUpdate;
use eventsub::eventsub::events::automod::AutomodTermsUpdate;
use eventsub::eventsub::events::channel::AdBreakBegin;
use eventsub::eventsub::events::channel::ChannelUpdate;
use eventsub::eventsub::events::channel::Follow;
use eventsub::eventsub::events::channel::ModeratorAdd;
use eventsub::eventsub::events::channel::ModeratorRemove;
use eventsub::eventsub::events::channel::ShoutoutCreate;
use eventsub::eventsub::events::channel::ShoutoutReceived;
use eventsub::eventsub::events::channel::StreamOffline;
use eventsub::eventsub::events::channel::StreamOnline;
use eventsub::eventsub::events::channel::VIPAdd;
use eventsub::eventsub::events::channel::VIPRemove;
use eventsub::eventsub::events::charity::CharityCampaignProgress;
use eventsub::eventsub::events::charity::CharityCampaignStart;
use eventsub::eventsub::events::charity::CharityCampaignStop;
use eventsub::eventsub::events::charity::CharityDonation;
use eventsub::eventsub::events::chat::ChatClear;
use eventsub::eventsub::events::chat::ChatMessage;
use eventsub::eventsub::events::chat::ChatNotification;
use eventsub::eventsub::events::chat::ChatSettingsUpdate;
use eventsub::eventsub::events::chat::ChatUserMessageHold;
use eventsub::eventsub::events::chat::ChatUserMessageUpdate;
use eventsub::eventsub::events::goal::GoalBegin;
use eventsub::eventsub::events::goal::GoalEnd;
use eventsub::eventsub::events::goal::GoalProgress;
use eventsub::eventsub::events::hypetrain::HypeTrainBegin;
use eventsub::eventsub::events::hypetrain::HypeTrainEnd;
use eventsub::eventsub::events::hypetrain::HypeTrainProgress;
use eventsub::eventsub::events::moderation::Ban;
use eventsub::eventsub::events::moderation::Moderate;
use eventsub::eventsub::events::moderation::ShieldModeBegin;
use eventsub::eventsub::events::moderation::ShieldModeEnd;
use eventsub::eventsub::events::moderation::SuspiciousUserMessage;
use eventsub::eventsub::events::moderation::SuspiciousUserUpdate;
use eventsub::eventsub::events::moderation::Unban;
use eventsub::eventsub::events::moderation::UnbanRequestCreate;
use eventsub::eventsub::events::moderation::UnbanRequestResolve;
use eventsub::eventsub::events::moderation::WarningAcknowledge;
use eventsub::eventsub::events::moderation::WarningSend;
use eventsub::eventsub::events::polls::PollBegin;
use eventsub::eventsub::events::polls::PollEnd;
use eventsub::eventsub::events::polls::PollProgress;
use eventsub::eventsub::events::prediction::PredictionBegin;
use eventsub::eventsub::events::prediction::PredictionEnd;
use eventsub::eventsub::events::prediction::PredictionLock;
use eventsub::eventsub::events::prediction::PredictionProgress;
use eventsub::eventsub::events::rewards::PointsAutomaticRewardRedemption;
use eventsub::eventsub::events::rewards::PointsCustomRewardAdd;
use eventsub::eventsub::events::rewards::PointsCustomRewardRedemptionAdd;
use eventsub::eventsub::events::rewards::PointsCustomRewardRedemptionUpdate;
use eventsub::eventsub::events::rewards::PointsCustomRewardRemove;
use eventsub::eventsub::events::rewards::PointsCustomRewardUpdate;
use eventsub::eventsub::events::shared_chat::SharedChatSessionBegin;
use eventsub::eventsub::events::shared_chat::SharedChatSessionEnd;
use eventsub::eventsub::events::shared_chat::SharedChatSessionUpdate;
use eventsub::eventsub::events::subscription::Subscribe;
use eventsub::eventsub::events::subscription::SubscriptionEnd;
use eventsub::eventsub::events::subscription::SubscriptionGift;
use eventsub::eventsub::events::subscription::SubscriptionMessage;
use eventsub::eventsub::events::user::UserUpdate;
use eventsub::eventsub::events::user::WhisperReceived;
use eventsub::json::FromJson;
use eventsub::json::ToJson;
use eventsub::json::parse;

#[test]
fn automod_message_hold_is_read_back() {
    let value = AutomodMessageHold::from_json(&parse(r#"
      {
        "broadcaster_user_id": "1337",
        "broadcaster_user_login": "blah",
        "broadcaster_user_name": "blahblah",
        "user_id": "4242",
        "user_login": "baduser",
        "user_name": "badbaduser",
        "message_id": "bad-message-id",
        "message": {
          "text": "This is a bad message… pogchamp",
          "fragments": [
            {
              "type": "text",
              "text": "This is a bad message… ",
              "cheermote": null,
              "emote": null
            },
            {
              "type": "cheermote",
              "text": "pogchamp",
              "cheermote": {
                "prefix": "pogchamp",
                "bits": 1000,
                "tier": 1
              },
              "emote": null
            },
            {
              "type": "emote",
              "text": "pogchamp",
              "cheermote": null,
              "emote": {
                "id": "1",
                "emote_set_id": "1",
                "owner_id": "1",
                "format": [
                  "static",
                  "animated"
                ]
              }
            }
          ]
        },
        "reason": "automod",
        "automod": {
          "category": "aggressive",
          "level": 1,
          "boundaries": [
            {
              "start_pos": 0,
              "end_pos": 10
            },
            {
              "start_pos": 20,
              "end_pos": 30
            }
          ]
        },
        "blocked_term": null,
        "held_at": "2022-12-02T15:00:00.00Z"
      }"#).unwrap()).unwrap();
    let again = AutomodMessageHold::from_json(&value.to_json()).unwrap();
    assert_eq!(format!("{:?}", again), format!("{:?}", value));
}

#[test]
fn automod_message_update_is_read_back() {
    let value = AutomodMessageUpdate::from_json(&parse(r#"
      {
        "broadcaster_user_id": "1337",
        "broadcaster_user_login": "blah",
        "broadcaster_user_name": "blahblah",
        "moderator_user_id": "9001",
        "moderator_user_login": "the_mod",
        "moderator_user_name": "The_Mod",
        "user_id": "4242",
        "user_login": "baduser",
        "user_name": "badbaduser",
        "message_id": "bad-message-id",
        "message": {
          "text": "This is a bad message… pogchamp",
          "fragments": [
            {
              "type": "text",
              "text": "This is a bad message… ",
              "cheermote": null,
              "emote": null
            },
            {
              "type": "cheermote",
              "text": "pogchamp",
              "cheermote": {
                "prefix": "pogchamp",
                "bits": 1000,
                "tier": 1
              },
              "emote": null
            }
          ]
        },
        "reason": "blocked_term",
        "automod": null,
        "blocked_term": {
          "terms_found": [
            {
              "term_id": "123",
              "owner_broadcaster_user_id": "1337",
              "owner_broadcaster_user_login": "blah",
              "owner_broadcaster_user_name": "blahblah",
              "boundary": {
                "start_pos": 0,
                "end_pos": 30
              }
            }
          ]
        },
        "status": "approved",
        "held_at": "2022-12-02T15:00:00.00Z"
      }"#).unwrap()).unwrap();
    let again = AutomodMessageUpdate::from_json(&value.to_json()).unwrap();
    assert_eq!(format!("{:?}", again), format!("{:?}", value));
}

#[test]
fn automod_settings_update_is_read_back() {
    let value = AutomodSettingsUpdate::from_json(&parse(r#"
      {
        "broadcaster_user_id": "1337",
        "broadcaster_user_name": "CoolUser",
        "broadcaster_user_login": "cooluser",
        "moderator_user_id": "9001",
        "moderator_user_name": "CoolMod",
        "moderator_user_login": "coolmod",
        "overall_level": null,
        "disability": 3,
        "aggression": 3,
        "sexuality_sex_or_gender": 3,
        "misogyny": 3,
        "bullying": 3,
        "swearing": 0,
        "race_ethnicity_or_religion": 3,
        "sex_based_terms":30
      }"#).unwrap()).unwrap();
    let again = AutomodSettingsUpdate::from_json(&value.to_json()).unwrap();
    assert_eq!(format!("{:?}", again), format!("{:?}", value));
}

#[test]
fn automod_terms_update_is_read_back() {
    let value = AutomodTermsUpdate::from_json(&parse(r#"
      {
        "broadcaster_user_id": "1337",
        "broadcaster_user_name": "blah",
        "broadcaster_user_login": "blahblah",
        "moderator_user_id": "9001",
        "moderator_user_login": "the_mod",
        "moderator_user_name": "The_Mod",
        "action": "add_blocked",
        "from_automod": true,
        "terms": ["automodterm1", "automodterm2", "automodterm3"]
      }"#).unwrap()).unwrap();
    let again = AutomodTermsUpdate::from_json(&value.to_json()).unwrap();
    assert_eq!(format!("{:?}", again), format!("{:?}", value));
}

#[test]
fn channel_update_is_read_back() {
    let value = ChannelUpdate::from_json(&parse(r#"
      {
        "broadcaster_user_id": "1337",
        "broadcaster_user_login": "cool_user",
        "broadcaster_user_name": "Cool_User",
        "title": "Best Stream Ever",
        "language": "en",
        "category_id": "12453",
        "category_name": "Grand Theft Auto",
        "content_classification_labels": [ "MatureGame" ]
      }"#).unwrap()).unwrap();
    let again = ChannelUpdate::from_json(&value.to_json()).unwrap();
    assert_eq!(format!("{:?}", again), format!("{:?}", value));
}

#[test]
fn channel_follow_is_read_back() {
    let value = Follow::from_json(&parse(r#"
      {
        "user_id": "1234",
        "user_login": "cool_user",
        "user_name": "Cool_User",
        "broadcaster_user_id": "1337",
        "broadcaster_user_login": "cooler_user",
        "broadcaster_user_name": "Cooler_User",
        "followed_at": "2020-07-15T18:16:11.17106713Z"
      }"#).unwrap()).unwrap();
    let again = Follow::from_json(&value.to_json()).unwrap();
    assert_eq!(format!("{:?}", again), format!("{:?}", value));
}

#[test]
fn channel_ad_break_begin_is_read_back() {
    let value = AdBreakBegin::from_json(&parse(r#"
      {
        "duration_seconds": "60",
        "started_at": "2019-11-16T10:11:12.634234626Z",
        "is_automatic": "false",
        "broadcaster_user_id": "1337",
        "broadcaster_user_login": "cool_user",
        "broadcaster_user_name": "Cool_User",
        "requester_user_id": "1337",
        "requester_user_login": "cool_user",
        "requester_user_name": "Cool_User"
      }"#).unwrap()).unwrap();
    let again = AdBreakBegin::from_json(&value.to_json()).unwrap();
    assert_eq!(format!("{:?}", again), format!("{:?}", value));
}

#[test]
fn channel_moderator_add_is_read_back() {
    let value = ModeratorAdd::from_json(&parse(r#"
      {
        "user_id": "1234",
        "user_login": "mod_user",
        "user_name": "Mod_User",
        "broadcaster_user_id": "1337",
        "broadcaster_user_login": "cooler_user",
        "broadcaster_user_name": "Cooler_User"
      }"#).unwrap()).unwrap();
    let again = ModeratorAdd::from_json(&value.to_json()).unwrap();
    assert_eq!(format!("{:?}", again), format!("{:?}", value));
}

#[test]
fn channel_moderator_remove_is_read_back() {
    let value = ModeratorRemove::from_json(&parse(r#"
      {
        "user_id": "1234",
        "user_login": "not_mod_user",
        "user_name": "Not_Mod_User",
        "broadcaster_user_id": "1337",
        "broadcaster_user_login": "cooler_user",
        "broadcaster_user_name": "Cooler_User"
      }"#).unwrap()).unwrap();
    let again = ModeratorRemove::from_json(&value.to_json()).unwrap();
    assert_eq!(format!("{:?}", again), format!("{:?}", value));
}

#[test]
fn channel_vip_add_is_read_back() {
    let value = VIPAdd::from_json(&parse(r#"
      {
        "user_id": "1234",
        "user_login": "mod_user",
        "user_name": "Mod_User",
        "broadcaster_user_id": "1337",
        "broadcaster_user_login": "cooler_user",
        "broadcaster_user_name": "Cooler_User"
      }"#).unwrap()).unwrap();
    let again = VIPAdd::from_json(&value.to_json()).unwrap();
    assert_eq!(format!("{:?}", again), format!("{:?}", value));
}

#[test]
fn channel_vip_remove_is_read_back() {
    let value = VIPRemove::from_json(&parse(r#"
      {
        "user_id": "1234",
        "user_login": "mod_user",
        "user_name": "Mod_User",
        "broadcaster_user_id": "1337",
        "broadcaster_user_login": "cooler_user",
        "broadcaster_user_name": "Cooler_User"
      }"#).unwrap()).unwrap();
    let again = VIPRemove::from_json(&value.to_json()).unwrap();
    assert_eq!(format!("{:?}", again), format!("{:?}", value));
}

#[test]
fn channel_shoutout_create_is_read_back() {
    let value = ShoutoutCreate::from_json(&parse(r#"
      {
        "broadcaster_user_id": "12345",
        "broadcaster_user_name": "SimplySimple",
        "broadcaster_user_login": "simplysimple",
        "moderator_user_id": "98765",
        "moderator_user_name": "ParticularlyParticular123",
        "moderator_user_login": "particularlyparticular123",
        "to_broadcaster_user_id": "626262",
        "to_broadcaster_user_name": "SandySanderman",
        "to_broadcaster_user_login": "sandysanderman",
        "started_at": "2022-07-26T17:00:03.17106713Z",
        "viewer_count": 860,
        "cooldown_ends_at": "2022-07-26T17:02:03.17106713Z",
        "target_cooldown_ends_at":"2022-07-26T18:00:03.17106713Z"
      }"#).unwrap()).unwrap();
    let again = ShoutoutCreate::from_json(&value.to_json()).unwrap();
    assert_eq!(format!("{:?}", again), format!("{:?}", value));
}

#[test]
fn channel_shoutout_received_is_read_back() {
    let value = ShoutoutReceived::from_json(&parse(r#"
      {
        "broadcaster_user_id": "626262",
        "broadcaster_user_name": "SandySanderman",
        "broadcaster_user_login": "sandysanderman",
        "from_broadcaster_user_id": "12345",
        "from_broadcaster_user_name": "SimplySimple",
        "from_broadcaster_user_login": "simplysimple",
        "viewer_count": 860,
        "started_at": "2022-07-26T17:00:03.17106713Z"
      }"#).unwrap()).unwrap();
    let again = ShoutoutReceived::from_json(&value.to_json()).unwrap();
    assert_eq!(format!("{:?}", again), format!("{:?}", value));
}

#[test]
fn channel_stream_online_is_read_back() {
    let value = StreamOnline::from_json(&parse(r#"
      {
        "id": "9001",
        "broadcaster_user_id": "1337",
        "broadcaster_user_login": "cool_user",
        "broadcaster_user_name": "Cool_User",
        "type": "live",
        "started_at": "2020-10-11T10:11:12.123Z"
      }"#).unwrap()).unwrap();
    let again = StreamOnline::from_json(&value.to_json()).unwrap();
    assert_eq!(format!("{:?}", again), format!("{:?}", value));
}

#[test]
fn channel_stream_offline_is_read_back() {
    let value = StreamOffline::from_json(&parse(r#"
      {
        "broadcaster_user_id": "1337",
        "broadcaster_user_login": "cool_user",
        "broadcaster_user_name": "Cool_User"
      }"#).unwrap()).unwrap();
    let again = StreamOffline::from_json(&value.to_json()).unwrap();
    assert_eq!(format!("{:?}", again), format!("{:?}", value));
}

#[test]
fn channel_charity_donation_is_read_back() {
    let value = CharityDonation::from_json(&parse(r##"
      {
        "id": "a1b2c3-aabb-4455-d1e2f3",
        "campaign_id": "123-abc-456-def",
        "broadcaster_user_id": "123456",
        "broadcaster_user_name": "SunnySideUp",
        "broadcaster_user_login": "sunnysideup",
        "user_id": "654321",
        "user_login": "generoususer1",
        "user_name": "GenerousUser1",
        "charity_name": "Example name",
        "charity_description": "Example description",
        "charity_logo": "https://abc.cloudfront.net/ppgf/1000/100.png",
        "charity_website": "https://www.example.com",
        "amount": {
          "value": 10000,
          "decimal_places": 2,
          "currency": "USD"
        }
      }"##).unwrap()).unwrap();
    let again = CharityDonation::from_json(&value.to_json()).unwrap();
    assert_eq!(format!("{:?}", again), format!("{:?}", value));
}

#[test]
fn channel_charity_campaign_start_is_read_back() {
    let value = CharityCampaignStart::from_json(&parse(r##"
      {
        "id": "123-abc-456-def",
        "broadcaster_id": "123456",
        "broadcaster_name": "SunnySideUp",
        "broadcaster_login": "sunnysideup",
        "charity_name": "Example name",
        "charity_description": "Example description",
        "charity_logo": "https://abc.cloudfront.net/ppgf/1000/100.png",
        "charity_website": "https://www.example.com",
        "current_amount": {
          "value": 0,
          "decimal_places": 2,
          "currency": "USD"
        },
        "target_amount": {
          "value": 1500000,
          "decimal_places": 2,
          "currency": "USD"
        },
        "started_at": "2022-07-26T17:00:03.17106713Z"
      }"##).unwrap()).unwrap();
    let again = CharityCampaignStart::from_json(&value.to_json()).unwrap();
    assert_eq!(format!("{:?}", again), format!("{:?}", value));
}

#[test]
fn channel_charity_campaign_progress_is_read_back() {
    let value = CharityCampaignProgress::from_json(&parse(r##"
      {
        "id": "123-abc-456-def",
        "broadcaster_id": "123456",
        "broadcaster_name": "SunnySideUp",
        "broadcaster_login": "sunnysideup",
        "charity_name": "Example name",
        "charity_description": "Example description",
        "charity_logo": "https://abc.cloudfront.net/ppgf/1000/100.png",
        "charity_website": "https://www.example.com",
        "current_amount": {
          "value": 260000,
          "decimal_places": 2,
          "currency": "USD"
        },
        "target_amount": {
          "value": 1500000,
          "decimal_places": 2,
          "currency": "USD"
        }
      }"##).unwrap()).unwrap();
    let again = CharityCampaignProgress::from_json(&value.to_json()).unwrap();
    assert_eq!(format!("{:?}", again), format!("{:?}", value));
}

#[test]
fn channel_charity_campaign_end_is_read_back() {
    let value = CharityCampaignStop::from_json(&parse(r##"
      {
        "id": "123-abc-456-def",
        "broadcaster_id": "123456",
        "broadcaster_name": "SunnySideUp",
        "broadcaster_login": "sunnysideup",
        "charity_name": "Example name",
        "charity_description": "Example description",
        "charity_logo": "https://abc.cloudfront.net/ppgf/1000/100.png",
        "charity_website": "https://www.example.com",
        "current_amount": {
          "value": 1450000,
          "decimal_places": 2,
          "currency": "USD"
        },
        "target_amount": {
          "value": 1500000,
          "decimal_places": 2,
          "currency": "USD"
        },
        "stopped_at": "2022-07-26T22:00:03.17106713Z"
      }"##).unwrap()).unwrap();
    let again = CharityCampaignStop::from_json(&value.to_json()).unwrap();
    assert_eq!(format!("{:?}", again), format!("{:?}", value));
}

#[test]
fn channel_chat_clear_is_read_back() {
    let value = ChatClear::from_json(&parse(r#"
      {
        "broadcaster_user_id": "1337",
        "broadcaster_user_name": "Cool_User",
        "broadcaster_user_login": "cool_user"
      }"#).unwrap()).unwrap();
    let again = ChatClear::from_json(&value.to_json()).unwrap();
    assert_eq!(format!("{:?}", again), format!("{:?}", value));
}

#[test]
fn channel_chat_clear_user_messages_is_read_back() {
    let value = ChatClear::from_json(&parse(r#"
      {
        "broadcaster_user_id": "1337",
        "broadcaster_user_name": "Cool_User",
        "broadcaster_user_login": "cool_user",
        "target_user_id": "7734",
        "target_user_name": "Uncool_viewer",
        "target_user_login": "uncool_viewer"
      }"#).unwrap()).unwrap();
    let again = ChatClear::from_json(&value.to_json()).unwrap();
    assert_eq!(format!("{:?}", again), format!("{:?}", value));
}

#[test]
fn channel_chat_message_is_read_back() {
    let value = ChatMessage::from_json(&parse(r##"
      {
        "broadcaster_user_id": "1971641",
        "broadcaster_user_login": "streamer",
        "broadcaster_user_name": "streamer",
        "chatter_user_id": "4145994",
        "chatter_user_login": "viewer32",
        "chatter_user_name": "viewer32",
        "message_id": "cc106a89-1814-919d-454c-f4f2f970aae7",
        "message": {
          "text": "Hi chat",
          "fragments": [
            {
              "type": "text",
              "text": "Hi chat",
              "cheermote": null,
              "emote": null,
              "mention": null
            }
          ]
        },
        "color": "#00FF7F",
        "badges": [
          {
            "set_id": "moderator",
            "id": "1",
            "info": ""
          },
          {
            "set_id": "subscriber",
            "id": "12",
            "info": "16"
          },
          {
            "set_id": "sub-gifter",
            "id": "1",
            "info": ""
          }
        ],
        "message_type": "text",
        "cheer": null,
        "reply": null,
        "channel_points_custom_reward_id": null,
        "source_broadcaster_user_id": "112233",
        "source_broadcaster_user_login": "streamer33",
        "source_broadcaster_user_name": "streamer33",
        "source_message_id": "e03f6d5d-8ec8-4c63-b473-9e5fe61e289b",
        "source_badges": [
          {
            "set_id": "subscriber",
            "id": "3",
            "info": "3"
          }
        ]
      }"##).unwrap()).unwrap();
    let again = ChatMessage::from_json(&value.to_json()).unwrap();
    assert_eq!(format!("{:?}", again), format!("{:?}", value));
    let value = ChatMessage::from_json(&parse(r##"
      {
        "broadcaster_user_id": "1971641",
        "broadcaster_user_login": "streamer",
        "broadcaster_user_name": "streamer",
        "chatter_user_id": "4145994",
        "chatter_user_login": "viewer32",
        "chatter_user_name": "viewer32",
        "message_id": "cc106a89-1814-919d-454c-f4f2f970aae7",
        "message": {
          "text": "Hi chat",
          "fragments": [
            {
              "type": "text",
              "text": "Hi chat",
              "cheermote": null,
              "emote": null,
              "mention": null
            }
          ]
        },
        "color": "#00FF7F",
        "badges": [
          {
            "set_id": "moderator",
            "id": "1",
            "info": ""
          },
          {
            "set_id": "subscriber",
            "id": "12",
            "info": "16"
          },
          {
            "set_id": "sub-gifter",
            "id": "1",
            "info": ""
          }
        ],
        "message_type": "text",
        "cheer": null,
        "reply": null,
        "channel_points_custom_reward_id": null,
        "source_broadcaster_user_id": null,
        "source_broadcaster_user_login": null,
        "source_broadcaster_user_name": null,
        "source_message_id": null,
        "source_badges": null
      }"##).unwrap()).unwrap();
    let again = ChatMessage::from_json(&value.to_json()).unwrap();
    assert_eq!(format!("{:?}", again), format!("{:?}", value));
}

#[test]
fn channel_chat_message_delete_is_read_back() {
    let value = ChatClear::from_json(&parse(r#"
      {
        "broadcaster_user_id": "1337",
        "broadcaster_user_name": "Cool_User",
        "broadcaster_user_login": "cool_user",
        "target_user_id": "7734",
        "target_user_name": "Uncool_viewer",
        "target_user_login": "uncool_viewer",
        "message_id": "ab24e0b0-2260-4bac-94e4-05eedd4ecd0e"
      }"#).unwrap()).unwrap();
    let again = ChatClear::from_json(&value.to_json()).unwrap();
    assert_eq!(format!("{:?}", again), format!("{:?}", value));
}

#[test]
fn channel_chat_notification_is_read_back() {
    let value = ChatNotification::from_json(&parse(r#"
      {
        "broadcaster_user_id": "1971641",
        "broadcaster_user_login": "streamer",
        "broadcaster_user_name": "streamer",
        "chatter_user_id": "49912639",
        "chatter_user_login": "viewer23",
        "chatter_user_name": "viewer23",
        "chatter_is_anonymous": false,
        "color": "",
        "badges": [],
        "system_message": "viewer23 subscribed at Tier 1. They've subscribed for 10 months!",
        "message_id": "d62235c8-47ff-a4f4--84e8-5a29a65a9c03",
        "message": {
          "text": "",
          "fragments": []
        },
        "notice_type": "shared_chat_resub",
        "sub": null,
        "resub": null,
        "sub_gift": null,
        "community_sub_gift": null,
        "gift_paid_upgrade": null,
        "prime_paid_upgrade": null,
        "pay_it_forward": null,
        "raid": null,
        "unraid": null,
        "announcement": null,
        "bits_badge_tier": null,
        "charity_donation": null,
        "shared_chat_sub": null,
        "shared_chat_resub": {
          "cumulative_months": 10,
          "duration_months": 0,
          "streak_months": null,
          "sub_tier": "1000",
          "is_gift": false,
          "gifter_is_anonymous": null,
          "gifter_user_id": null,
          "gifter_user_name": null,
          "gifter_user_login": null
        },
        "shared_chat_sub_gift": null,
        "shared_chat_community_sub_gift": null,
        "shared_chat_gift_paid_upgrade": null,
        "shared_chat_prime_paid_upgrade": null,
        "shared_chat_pay_it_forward": null,
        "shared_chat_raid": null,
        "shared_chat_unraid": null,
        "shared_chat_announcement": null,
        "shared_chat_bits_badge_tier": null,
        "shared_chat_charity_donation": null,
        "source_broadcaster_user_id": "112233",
        "source_broadcaster_user_login": "streamer33",
        "source_broadcaster_user_name": "streamer33",
        "source_message_id": "2be7193d-0366-4453-b6ec-b288ce9f2c39",
        "source_badges": [{
          "set_id": "subscriber",
          "id": "3",
          "info": "3"
        }]
      }"#).unwrap()).unwrap();
    let again = ChatNotification::from_json(&value.to_json()).unwrap();
    assert_eq!(format!("{:?}", again), format!("{:?}", value));
}

#[test]
fn channel_chat_settings_update_is_read_back() {
    let value = ChatSettingsUpdate::from_json(&parse(r#"
      {
        "broadcaster_user_id": "1337",
        "broadcaster_user_login": "cool_user",
        "broadcaster_user_name": "Cool_User",
        "emote_mode": true,
        "follower_mode": false,
        "follower_mode_duration_minutes": null,
        "slow_mode": true,
        "slow_mode_wait_time_seconds": 10,
        "subscriber_mode": false,
        "unique_chat_mode": false
      }"#).unwrap()).unwrap();
    let again = ChatSettingsUpdate::from_json(&value.to_json()).unwrap();
    assert_eq!(format!("{:?}", again), format!("{:?}", value));
}

#[test]
fn channel_chat_user_message_hold_is_read_back() {
    let value = ChatUserMessageHold::from_json(&parse(r#"
      {
        "broadcaster_user_id": "123",
        "broadcaster_user_login": "bob",
        "broadcaster_user_name": "Bob",
        "user_id": "456",
        "user_login": "tom",
        "user_name": "Tommy",
        "message_id": "789",
        "message": {
          "text": "hey world",
          "fragments": [
            {
              "type": "emote",
              "text": "hey world",
              "cheermote": null,
              "emote": {
                "id": "foo",
                "emote_set_id": "7"
              }
            },
            {
              "type": "cheermote",
              "text": "bye world",
              "cheermote": {
                "prefix": "prefix",
                "bits": 100,
                "tier": 1
              },
              "emote": null
            },
            {
              "type": "text",
              "text": "surprise",
              "cheermote": null,
              "emote": null
            }
          ]
        }
      }"#).unwrap()).unwrap();
    let again = ChatUserMessageHold::from_json(&value.to_json()).unwrap();
    assert_eq!(format!("{:?}", again), format!("{:?}", value));
}

#[test]
fn channel_chat_user_message_update_is_read_back() {
    let value = ChatUserMessageUpdate::from_json(&parse(r#"
      {
        "broadcaster_user_id": "123",
        "broadcaster_user_login": "bob",
        "broadcaster_user_name": "Bob",
        "user_id": "456",
        "user_login": "tom",
        "user_name": "Tommy",
        "status": "approved",
        "message_id": "789",
        "message": {
          "text": "hey world",
          "fragments": [
            {
              "type": "emote",
              "text": "hey world",
              "cheermote": null,
              "emote": {
                  "id": "foo",
                  "emote_set_id": "7"
              }
            },
            {
              "type": "cheermote",
              "text": "bye world",
              "cheermote": {
                  "prefix": "prefix",
                  "bits": 100,
                  "tier": 1
              },
              "emote": null
            },
            {
              "type": "text",
              "text": "surprise",
              "cheermote": null,
              "emote": null
            }
          ]
        }
      }"#).unwrap()).unwrap();
    let again = ChatUserMessageUpdate::from_json(&value.to_json()).unwrap();
    assert_eq!(format!("{:?}", again), format!("{:?}", value));
}

#[test]
fn channel_goal_begin_is_read_back() {
    let value = GoalBegin::from_json(&parse(r##"
      {
        "id": "12345-cool-event",
        "broadcaster_user_id": "141981764",
        "broadcaster_user_name": "TwitchDev",
        "broadcaster_user_login": "twitchdev",
        "type": "subscription",
        "description": "Help me get partner!",
        "current_amount": 100,
        "target_amount": 220,
        "started_at": "2021-07-15T17:16:03.17106713Z"
      }"##).unwrap()).unwrap();
    let again = GoalBegin::from_json(&value.to_json()).unwrap();
    assert_eq!(format!("{:?}", again), format!("{:?}", value));
}

#[test]
fn channel_goal_progress_is_read_back() {
    let value = GoalProgress::from_json(&parse(r##"
      {
        "id": "12345-cool-event",
        "broadcaster_user_id": "141981764",
        "broadcaster_user_name": "TwitchDev",
        "broadcaster_user_login": "twitchdev",
        "type": "subscription",
        "description": "Help me get partner!",
        "current_amount": 120,
        "target_amount": 220,
        "started_at": "2021-07-15T17:16:03.17106713Z"
      }"##).unwrap()).unwrap();
    let again = GoalProgress::from_json(&value.to_json()).unwrap();
    assert_eq!(format!("{:?}", again), format!("{:?}", value));
}

#[test]
fn channel_goal_end_is_read_back() {
    let value = GoalEnd::from_json(&parse(r##"
      {
        "id": "12345-abc-678-defgh",
        "broadcaster_user_id": "141981764",
        "broadcaster_user_name": "TwitchDev",
        "broadcaster_user_login": "twitchdev",
        "type": "subscription",
        "description": "Help me get partner!",
        "is_achieved": false,
        "current_amount": 180,
        "target_amount": 220,
        "started_at": "2021-07-15T17:16:03.17106713Z",
        "ended_at": "2020-07-16T17:16:03.17106713Z"
      }"##).unwrap()).unwrap();
    let again = GoalEnd::from_json(&value.to_json()).unwrap();
    assert_eq!(format!("{:?}", again), format!("{:?}", value));
}

#[test]
fn channel_hypetrain_begin_is_read_back() {
    let value = HypeTrainBegin::from_json(&parse(r##"
      {
        "id": "1b0AsbInCHZW2SQFQkCzqN07Ib2",
        "broadcaster_user_id": "1337",
        "broadcaster_user_login": "cool_user",
        "broadcaster_user_name": "Cool_User",
        "total": 137,
        "progress": 137,
        "goal": 500,
        "top_contributions": [
          { "user_id": "123", "user_login": "pogchamp", "user_name": "PogChamp", "type": "bits", "total": 50 },
          { "user_id": "456", "user_login": "kappa", "user_name": "Kappa", "type": "subscription", "total": 45 }
        ],
        "last_contribution": { "user_id": "123", "user_login": "pogchamp", "user_name": "PogChamp", "type": "bits", "total": 50 },
        "level": 2,
        "started_at": "2020-07-15T17:16:03.17106713Z",
        "expires_at": "2020-07-15T17:16:11.17106713Z",
        "is_golden_kappa_train": false
      }"##).unwrap()).unwrap();
    let again = HypeTrainBegin::from_json(&value.to_json()).unwrap();
    assert_eq!(format!("{:?}", again), format!("{:?}", value));
}

#[test]
fn channel_hypetrain_progress_is_read_back() {
    let value = HypeTrainProgress::from_json(&parse(r##"
      {
        "id": "1b0AsbInCHZW2SQFQkCzqN07Ib2",
        "broadcaster_user_id": "1337",
        "broadcaster_user_login": "cool_user",
        "broadcaster_user_name": "Cool_User",
        "level": 2,
        "total": 700,
        "progress": 200,
        "goal": 1000,
        "top_contributions": [
          { "user_id": "123", "user_login": "pogchamp", "user_name": "PogChamp", "type": "bits", "total": 50 },
          { "user_id": "456", "user_login": "kappa", "user_name": "Kappa", "type": "subscription", "total": 45 }
        ],
        "last_contribution": { "user_id": "123", "user_login": "pogchamp", "user_name": "PogChamp", "type": "bits", "total": 50 },
        "started_at": "2020-07-15T17:16:03.17106713Z",
        "expires_at": "2020-07-15T17:16:11.17106713Z",
        "is_golden_kappa_train": false
      }"##).unwrap()).unwrap();
    let again = HypeTrainProgress::from_json(&value.to_json()).unwrap();
    assert_eq!(format!("{:?}", again), format!("{:?}", value));
}

#[test]
fn channel_hypetrain_end_is_read_back() {
    let value = HypeTrainEnd::from_json(&parse(r##"
      {
        "id": "1b0AsbInCHZW2SQFQkCzqN07Ib2",
        "broadcaster_user_id": "1337",
        "broadcaster_user_login": "cool_user",
        "broadcaster_user_name": "Cool_User",
        "level": 2,
        "total": 137,
        "top_contributions": [
          { "user_id": "123", "user_login": "pogchamp", "user_name": "PogChamp", "type": "bits", "total": 50 },
          { "user_id": "456", "user_login": "kappa", "user_name": "Kappa", "type": "subscription", "total": 45 }
        ],
        "started_at": "2020-07-15T17:16:03.17106713Z",
        "ended_at": "2020-07-15T17:16:11.17106713Z",
        "cooldown_ends_at": "2020-07-15T18:16:11.17106713Z",
        "is_golden_kappa_train": false
      }"##).unwrap()).unwrap();
    let again = HypeTrainEnd::from_json(&value.to_json()).unwrap();
    assert_eq!(format!("{:?}", again), format!("{:?}", value));
}

#[test]
fn channel_ban_is_read_back() {
    let value = Ban::from_json(&parse(r#"
      {
        "user_id": "1234",
        "user_login": "cool_user",
        "user_name": "Cool_User",
        "broadcaster_user_id": "1337",
        "broadcaster_user_login": "cooler_user",
        "broadcaster_user_name": "Cooler_User",
        "moderator_user_id": "1339",
        "moderator_user_login": "mod_user",
        "moderator_user_name": "Mod_User",
        "reason": "Offensive language",
        "banned_at": "2020-07-15T18:15:11.17106713Z",
        "ends_at": "2020-07-15T18:16:11.17106713Z",
        "is_permanent": false
      }"#).unwrap()).unwrap();
    let again = Ban::from_json(&value.to_json()).unwrap();
    assert_eq!(format!("{:?}", again), format!("{:?}", value));
}

#[test]
fn channel_unban_is_read_back() {
    let value = Unban::from_json(&parse(r#"
      {
        "user_id": "1234",
        "user_login": "cool_user",
        "user_name": "Cool_User",
        "broadcaster_user_id": "1337",
        "broadcaster_user_login": "cooler_user",
        "broadcaster_user_name": "Cooler_User",
        "moderator_user_id": "1339",
        "moderator_user_login": "mod_user",
        "moderator_user_name": "Mod_User"
      }"#).unwrap()).unwrap();
    let again = Unban::from_json(&value.to_json()).unwrap();
    assert_eq!(format!("{:?}", again), format!("{:?}", value));
}

#[test]
fn channel_unban_request_create_is_read_back() {
    let value = UnbanRequestCreate::from_json(&parse(r#"
      {
        "id": "60",
        "broadcaster_user_id": "1337",
        "broadcaster_user_login": "cool_user",
        "broadcaster_user_name": "Cool_User",
        "user_id": "1339",
        "user_login": "not_cool_user",
        "user_name": "Not_Cool_User",
        "text": "unban me",
        "created_at": "2023-11-16T10:11:12.634234626Z"
      }"#).unwrap()).unwrap();
    let again = UnbanRequestCreate::from_json(&value.to_json()).unwrap();
    assert_eq!(format!("{:?}", again), format!("{:?}", value));
}

#[test]
fn channel_unban_request_resolve_is_read_back() {
    let value = UnbanRequestResolve::from_json(&parse(r#"
      {
        "id": "60",
        "broadcaster_user_id": "1337",
        "broadcaster_user_login": "cool_user",
        "broadcaster_user_name": "Cool_User",
        "moderator_user_id": "1337",
        "moderator_user_login": "cool_user",
        "moderator_user_name": "Cool_User",
        "user_id": "1339",
        "user_login": "not_cool_user",
        "user_name": "Not_Cool_User",
        "resolution_text": "no",
        "status": "denied"
      }"#).unwrap()).unwrap();
    let again = UnbanRequestResolve::from_json(&value.to_json()).unwrap();
    assert_eq!(format!("{:?}", again), format!("{:?}", value));
}

#[test]
fn channel_moderate_events_is_read_back() {
    let value = Moderate::from_json(&parse(r#"
      {
        "broadcaster_user_id": "423374343",
        "broadcaster_user_login": "glowillig",
        "broadcaster_user_name": "glowillig",
        "source_broadcaster_user_id": "41292030",
        "source_broadcaster_user_login": "adflynn404",
        "source_broadcaster_user_name": "adflynn404",
        "moderator_user_id": "424596340",
        "moderator_user_login": "quotrok",
        "moderator_user_name": "quotrok",
        "action": "warn",
        "followers": null,
        "slow": null,
        "vip": null,
        "unvip": null,
        "warn": {
          "user_id": "141981764",
          "user_login": "twitchdev",
          "user_name": "TwitchDev",
          "reason": "cut it out",
          "chat_rules_cited": null
        },
        "unmod": null,
        "ban": null,
        "unban": null,
        "timeout": null,
        "untimeout": null,
        "raid": null,
        "unraid": null,
        "delete": null,
        "automod_terms": null,
        "unban_request": null,
        "shared_chat_ban": null,
        "shared_chat_unban": null,
        "shared_chat_timeout": null,
        "shared_chat_untimeout": null,
        "shared_chat_delete": null
      }"#).unwrap()).unwrap();
    let again = Moderate::from_json(&value.to_json()).unwrap();
    assert_eq!(format!("{:?}", again), format!("{:?}", value));
    let value = Moderate::from_json(&parse(r#"
      {
        "broadcaster_user_id": "423374343",
        "broadcaster_user_login": "glowillig",
        "broadcaster_user_name": "glowillig",
        "source_broadcaster_user_id": "41292030",
        "source_broadcaster_user_login": "adflynn404",
        "source_broadcaster_user_name": "adflynn404",
        "moderator_user_id": "424596340",
        "moderator_user_login": "quotrok",
        "moderator_user_name": "quotrok",
        "action": "shared_chat_timeout",
        "followers": null,
        "slow": null,
        "vip": null,
        "unvip": null,
        "warn": null,
        "unmod": null,
        "ban": null,
        "unban": null,
        "timeout": null,
        "untimeout": null,
        "raid": null,
        "unraid": null,
        "delete": null,
        "automod_terms": null,
        "unban_request": null,
        "shared_chat_ban": null,
        "shared_chat_unban": null,
        "shared_chat_timeout": {
            "user_id": "141981764",
            "user_login": "twitchdev",
            "user_name": "TwitchDev",
            "reason": "Has never seen the Harry Potter films.",
            "expires_at": "2022-03-15T02:00:28Z"
        },
        "shared_chat_untimeout": null,
        "shared_chat_delete": null
      }"#).unwrap()).unwrap();
    let again = Moderate::from_json(&value.to_json()).unwrap();
    assert_eq!(format!("{:?}", again), format!("{:?}", value));
    let value = Moderate::from_json(&parse(r#"
      {
        "broadcaster_user_id": "423374343",
        "broadcaster_user_login": "glowillig",
        "broadcaster_user_name": "glowillig",
        "source_broadcaster_user_id": "41292030",
        "source_broadcaster_user_login": "adflynn404",
        "source_broadcaster_user_name": "adflynn404",
        "moderator_user_id": "424596340",
        "moderator_user_login": "quotrok",
        "moderator_user_name": "quotrok",
        "action": "mod",
        "followers": null,
        "slow": null,
        "vip": null,
        "unvip": null,
        "warn": null,
        "mod": {
          "user_id": "141981764",
          "user_login": "twitchdev",
          "user_name": "TwitchDev"
        },
        "unmod": null,
        "ban": null,
        "unban": null,
        "timeout": null,
        "untimeout": null,
        "raid": null,
        "unraid": null,
        "delete": null,
        "automod_terms": null,
        "unban_request": null,
        "shared_chat_ban": null,
        "shared_chat_unban": null,
        "shared_chat_timeout": null,
        "shared_chat_untimeout": null,
        "shared_chat_delete": null
      }"#).unwrap()).unwrap();
    let again = Moderate::from_json(&value.to_json()).unwrap();
    assert_eq!(format!("{:?}", again), format!("{:?}", value));
    let value = Moderate::from_json(&parse(r#"
      {
        "broadcaster_user_id": "423374343",
        "broadcaster_user_login": "glowillig",
        "broadcaster_user_name": "glowillig",
        "source_broadcaster_user_id": "41292030",
        "source_broadcaster_user_login": "adflynn404",
        "source_broadcaster_user_name": "adflynn404",
        "moderator_user_id": "424596340",
        "moderator_user_login": "quotrok",
        "moderator_user_name": "quotrok",
        "action": "timeout",
        "followers": null,
        "slow": null,
        "vip": null,
        "unvip": null,
        "mod": null,
        "unmod": null,
        "ban": null,
        "unban": null,
        "warn": null,
        "timeout": {
          "user_id": "141981764",
          "user_login": "twitchdev",
          "user_name": "TwitchDev",
          "reason": "Does not like pineapple on pizza.",
          "expires_at": "2022-03-15T02:00:28Z"
        },
        "untimeout": null,
        "raid": null,
        "unraid": null,
        "delete": null,
        "automod_terms": null,
        "unban_request": null,
        "shared_chat_ban": null,
        "shared_chat_unban": null,
        "shared_chat_timeout": null,
        "shared_chat_untimeout": null,
        "shared_chat_delete": null
      }"#).unwrap()).unwrap();
    let again = Moderate::from_json(&value.to_json()).unwrap();
    assert_eq!(format!("{:?}", again), format!("{:?}", value));
    let value = Moderate::from_json(&parse(r#"
      {
        "broadcaster_user_id": "423374343",
        "broadcaster_user_login": "glowillig",
        "broadcaster_user_name": "glowillig",
        "source_broadcaster_user_id": "41292030",
        "source_broadcaster_user_login": "adflynn404",
        "source_broadcaster_user_name": "adflynn404",
        "moderator_user_id": "424596340",
        "moderator_user_login": "quotrok",
        "moderator_user_name": "quotrok",
        "action": "emoteonly",
        "followers": null,
        "slow": null,
        "vip": null,
        "unvip": null,
        "mod": null,
        "unmod": null,
        "ban": null,
        "unban": null,
        "warn": null,
        "timeout": null,
        "untimeout": null,
        "raid": null,
        "unraid": null,
        "delete": null,
        "automod_terms": null,
        "unban_request": null,
        "shared_chat_ban": null,
        "shared_chat_unban": null,
        "shared_chat_timeout": null,
        "shared_chat_untimeout": null,
        "shared_chat_delete": null
      }"#).unwrap()).unwrap();
    let again = Moderate::from_json(&value.to_json()).unwrap();
    assert_eq!(format!("{:?}", again), format!("{:?}", value));
}

#[test]
fn channel_suspicious_user_message_is_read_back() {
    let value = SuspiciousUserMessage::from_json(&parse(r#"
      {
        "broadcaster_user_id": "1050263432",
        "broadcaster_user_name": "dcf9dd9336034d23b65",
        "broadcaster_user_login": "dcf9dd9336034d23b65",
        "user_id": "1050263434",
        "user_name": "4a46e2cf2e2f4d6a9e6",
        "user_login": "4a46e2cf2e2f4d6a9e6",
        "low_trust_status": "active_monitoring",
        "shared_ban_channel_ids": [
          "100",
          "200"
        ],
        "types": [
          "ban_evader"
        ],
        "ban_evasion_evaluation": "likely",
        "message": {
          "message_id": "101010",
          "text": "bad stuff pogchamp",
          "fragments": [
            {
              "type": "emote",
              "text": "bad stuff",
              "cheermote": null,
              "emote": {
                "id": "899",
                "emote_set_id": "1"
              }
            },
            {
              "type": "cheermote",
              "text": "pogchamp",
              "cheermote": {
                "prefix": "pogchamp",
                "bits": 100,
                "tier": 1
              },
              "emote": null
            }
          ]
        }
      }"#).unwrap()).unwrap();
    let again = SuspiciousUserMessage::from_json(&value.to_json()).unwrap();
    assert_eq!(format!("{:?}", again), format!("{:?}", value));
}

#[test]
fn channel_suspicious_user_update_is_read_back() {
    let value = SuspiciousUserUpdate::from_json(&parse(r#"
      {
        "broadcaster_user_id": "1050263435",
        "broadcaster_user_name": "77f111cbb75341449f5",
        "broadcaster_user_login": "77f111cbb75341449f5",
        "moderator_user_id": "1050263436",
        "moderator_user_name": "29087e59dfc441968f6",
        "moderator_user_login": "29087e59dfc441968f6",
        "user_id": "1050263437",
        "user_name": "06fbcc75952245c5a87",
        "user_login": "06fbcc75952245c5a87",
        "low_trust_status": "restricted"
      }"#).unwrap()).unwrap();
    let again = SuspiciousUserUpdate::from_json(&value.to_json()).unwrap();
    assert_eq!(format!("{:?}", again), format!("{:?}", value));
}

#[test]
fn channel_warning_acknowledge_is_read_back() {
    let value = WarningAcknowledge::from_json(&parse(r#"
      {
        "broadcaster_user_id": "423374343",
        "broadcaster_user_login": "glowillig",
        "broadcaster_user_name": "glowillig",
        "user_id": "141981764",
        "user_login": "twitchdev",
        "user_name": "TwitchDev"
      }"#).unwrap()).unwrap();
    let again = WarningAcknowledge::from_json(&value.to_json()).unwrap();
    assert_eq!(format!("{:?}", again), format!("{:?}", value));
}

#[test]
fn channel_warning_send_is_read_back() {
    let value = WarningSend::from_json(&parse(r#"
      {
        "broadcaster_user_id": "423374343",
        "broadcaster_user_login": "glowillig",
        "broadcaster_user_name": "glowillig",
        "moderator_user_id": "424596340",
        "moderator_user_login": "quotrok",
        "moderator_user_name": "quotrok",
        "user_id": "141981764",
        "user_login": "twitchdev",
        "user_name": "TwitchDev",
        "reason": "cut it out",
        "chat_rules_cited": null
      }"#).unwrap()).unwrap();
    let again = WarningSend::from_json(&value.to_json()).unwrap();
    assert_eq!(format!("{:?}", again), format!("{:?}", value));
}

#[test]
fn channel_shieldmode_begin_is_read_back() {
    let value = ShieldModeBegin::from_json(&parse(r#"
      {
        "broadcaster_user_id": "12345",
        "broadcaster_user_name": "SimplySimple",
        "broadcaster_user_login": "simplysimple",
        "moderator_user_id": "98765",
        "moderator_user_name": "ParticularlyParticular123",
        "moderator_user_login": "particularlyparticular123",
        "started_at": "2022-07-26T17:00:03.17106713Z"
      }"#).unwrap()).unwrap();
    let again = ShieldModeBegin::from_json(&value.to_json()).unwrap();
    assert_eq!(format!("{:?}", again), format!("{:?}", value));
}

#[test]
fn channel_shieldmode_end_is_read_back() {
    let value = ShieldModeEnd::from_json(&parse(r#"
      {
        "broadcaster_user_id": "12345",
        "broadcaster_user_name": "SimplySimple",
        "broadcaster_user_login": "simplysimple",
        "moderator_user_id": "98765",
        "moderator_user_name": "ParticularlyParticular123",
        "moderator_user_login": "particularlyparticular123",
        "ended_at": "2022-07-27T01:30:23.17106713Z"
      }"#).unwrap()).unwrap();
    let again = ShieldModeEnd::from_json(&value.to_json()).unwrap();
    assert_eq!(format!("{:?}", again), format!("{:?}", value));
}

#[test]
fn channel_poll_begin_is_read_back() {
    let value = PollBegin::from_json(&parse(r##"
      {
        "id": "1243456",
        "broadcaster_user_id": "1337",
        "broadcaster_user_login": "cool_user",
        "broadcaster_user_name": "Cool_User",
        "title": "Aren’t shoes just really hard socks?",
        "choices": [
            {"id": "123", "title": "Yeah!"},
            {"id": "124", "title": "No!"},
            {"id": "125", "title": "Maybe!"}
        ],
        "bits_voting": {
            "is_enabled": true,
            "amount_per_vote": 10
        },
        "channel_points_voting": {
            "is_enabled": true,
            "amount_per_vote": 10
        },
        "started_at": "2020-07-15T17:16:03.17106713Z",
        "ends_at": "2020-07-15T17:16:08.17106713Z"
      }"##).unwrap()).unwrap();
    let again = PollBegin::from_json(&value.to_json()).unwrap();
    assert_eq!(format!("{:?}", again), format!("{:?}", value));
}

#[test]
fn channel_poll_progress_is_read_back() {
    let value = PollProgress::from_json(&parse(r##"
      {
        "id": "1243456",
        "broadcaster_user_id": "1337",
        "broadcaster_user_login": "cool_user",
        "broadcaster_user_name": "Cool_User",
        "title": "Aren’t shoes just really hard socks?",
        "choices": [
            {"id": "123", "title": "Yeah!", "bits_votes": 5, "channel_points_votes": 7, "votes": 12},
            {"id": "124", "title": "No!", "bits_votes": 10, "channel_points_votes": 4, "votes": 14},
            {"id": "125", "title": "Maybe!", "bits_votes": 0, "channel_points_votes": 7, "votes": 7}
        ],
        "bits_voting": {
            "is_enabled": true,
            "amount_per_vote": 10
        },
        "channel_points_voting": {
            "is_enabled": true,
            "amount_per_vote": 10
        },
        "started_at": "2020-07-15T17:16:03.17106713Z",
        "ends_at": "2020-07-15T17:16:08.17106713Z"
      }"##).unwrap()).unwrap();
    let again = PollProgress::from_json(&value.to_json()).unwrap();
    assert_eq!(format!("{:?}", again), format!("{:?}", value));
}

#[test]
fn channel_poll_end_is_read_back() {
    let value = PollEnd::from_json(&parse(r##"
      {
        "id": "1243456",
        "broadcaster_user_id": "1337",
        "broadcaster_user_login": "cool_user",
        "broadcaster_user_name": "Cool_User",
        "title": "Aren’t shoes just really hard socks?",
        "choices": [
            {"id": "123", "title": "Blue", "bits_votes": 50, "channel_points_votes": 70, "votes": 120},
            {"id": "124", "title": "Yellow", "bits_votes": 100, "channel_points_votes": 40, "votes": 140},
            {"id": "125", "title": "Green", "bits_votes": 10, "channel_points_votes": 70, "votes": 80}
        ],
        "bits_voting": {
            "is_enabled": true,
            "amount_per_vote": 10
        },
        "channel_points_voting": {
            "is_enabled": true,
            "amount_per_vote": 10
        },
        "status": "completed",
        "started_at": "2020-07-15T17:16:03.17106713Z",
        "ended_at": "2020-07-15T17:16:11.17106713Z"
      }"##).unwrap()).unwrap();
    let again = PollEnd::from_json(&value.to_json()).unwrap();
    assert_eq!(format!("{:?}", again), format!("{:?}", value));
}

#[test]
fn channel_prediction_begin_is_read_back() {
    let value = PredictionBegin::from_json(&parse(r##"
      {
        "id": "1243456",
        "broadcaster_user_id": "1337",
        "broadcaster_user_login": "cool_user",
        "broadcaster_user_name": "Cool_User",
        "title": "Aren’t shoes just really hard socks?",
        "outcomes": [
          {"id": "1243456", "title": "Yeah!", "color": "blue"},
          {"id": "2243456", "title": "No!", "color": "pink"}
        ],
        "started_at": "2020-07-15T17:16:03.17106713Z",
        "locks_at": "2020-07-15T17:21:03.17106713Z"
      }"##).unwrap()).unwrap();
    let again = PredictionBegin::from_json(&value.to_json()).unwrap();
    assert_eq!(format!("{:?}", again), format!("{:?}", value));
}

#[test]
fn channel_prediction_progress_is_read_back() {
    let value = PredictionProgress::from_json(&parse(r##"
      {
        "id": "1243456",
        "broadcaster_user_id": "1337",
        "broadcaster_user_login": "cool_user",
        "broadcaster_user_name": "Cool_User",
        "title": "Aren’t shoes just really hard socks?",
        "outcomes": [
            {
            "id": "1243456",
            "title": "Yeah!",
            "color": "blue",
            "users": 10,
            "channel_points": 15000,
            "top_predictors": [
              {
                "user_name": "Cool_User",
                "user_login": "cool_user",
                "user_id": "1234",
                "channel_points_won": null,
                "channel_points_used": 500
              },
              {
                "user_name": "Coolest_User",
                "user_login": "coolest_user",
                "user_id": "1236",
                "channel_points_won": null,
                "channel_points_used": 200
              }
            ]
          },
          {
            "id": "2243456",
            "title": "No!",
            "color": "pink",
            "top_predictors": [
              {
                "user_name": "Cooler_User",
                "user_login": "cooler_user",
                "user_id": "12345",
                "channel_points_won": null,
                "channel_points_used": 5000
              }
            ]
          }
        ],
        "started_at": "2020-07-15T17:16:03.17106713Z",
        "locks_at": "2020-07-15T17:21:03.17106713Z"
      }"##).unwrap()).unwrap();
    let again = PredictionProgress::from_json(&value.to_json()).unwrap();
    assert_eq!(format!("{:?}", again), format!("{:?}", value));
}

#[test]
fn channel_prediction_lock_is_read_back() {
    let value = PredictionLock::from_json(&parse(r##"
      {
        "id": "1243456",
        "broadcaster_user_id": "1337",
        "broadcaster_user_login": "cool_user",
        "broadcaster_user_name": "Cool_User",
        "title": "Aren’t shoes just really hard socks?",
        "outcomes": [
          {
            "id": "1243456",
            "title": "Yeah!",
            "color": "blue",
            "users": 10,
            "channel_points": 15000,
            "top_predictors": [
              {
                "user_name": "Cool_User",
                "user_login": "cool_user",
                "user_id": "1234",
                "channel_points_won": null,
                "channel_points_used": 500
              },
              {
                "user_name": "Coolest_User",
                "user_login": "coolest_user",
                "user_id": "1236",
                "channel_points_won": null,
                "channel_points_used": 200
              }
            ]
          },
          {
            "id": "2243456",
            "title": "No!",
            "color": "pink",
            "top_predictors": [
              {
                "user_name": "Cooler_User",
                "user_login": "cooler_user",
                "user_id": "12345",
                "channel_points_won": null,
                "channel_points_used": 5000
              }
            ]
          }
        ],
        "started_at": "2020-07-15T17:16:03.17106713Z",
        "locked_at": "2020-07-15T17:21:03.17106713Z"
      }"##).unwrap()).unwrap();
    let again = PredictionLock::from_json(&value.to_json()).unwrap();
    assert_eq!(format!("{:?}", again), format!("{:?}", value));
}

#[test]
fn channel_prediction_end_is_read_back() {
    let value = PredictionEnd::from_json(&parse(r##"
      {
        "id": "1243456",
        "broadcaster_user_id": "1337",
        "broadcaster_user_login": "cool_user",
        "broadcaster_user_name": "Cool_User",
        "title": "Aren’t shoes just really hard socks?",
        "winning_outcome_id": "12345",
        "outcomes": [
          {
            "id": "12345",
            "title": "Yeah!",
            "color": "blue",
            "users": 2,
            "channel_points": 15000,
            "top_predictors": [
              {
                "user_name": "Cool_User",
                "user_login": "cool_user",
                "user_id": "1234",
                "channel_points_won": 10000,
                "channel_points_used": 500
              },
              {
                "user_name": "Coolest_User",
                "user_login": "coolest_user",
                "user_id": "1236",
                "channel_points_won": 5000,
                "channel_points_used": 100
              }
            ]
          },
          {
            "id": "22435",
            "title": "No!",
            "users": 2,
            "channel_points": 200,
            "color": "pink",
            "top_predictors": [
              {
                "user_name": "Cooler_User",
                "user_login": "cooler_user",
                "user_id": "12345",
                "channel_points_won": null,
                "channel_points_used": 100
              },
              {
                "user_name": "Elite_User",
                "user_login": "elite_user",
                "user_id": "1337",
                "channel_points_won": null,
                "channel_points_used": 100
              }
            ]
          }
        ],
        "status": "resolved",
        "started_at": "2020-07-15T17:16:03.17106713Z",
        "ended_at": "2020-07-15T17:16:11.17106713Z"
      }"##).unwrap()).unwrap();
    let again = PredictionEnd::from_json(&value.to_json()).unwrap();
    assert_eq!(format!("{:?}", again), format!("{:?}", value));
}

#[test]
fn channel_points_automatic_reward_redemption_is_read_back() {
    let value = PointsAutomaticRewardRedemption::from_json(&parse(r#"
      {
        "broadcaster_user_id": "12826",
        "broadcaster_user_name": "Twitch",
        "broadcaster_user_login": "twitch",
        "user_id": "141981764",
        "user_name": "TwitchDev",
        "user_login": "twitchdev",
        "id": "f024099a-e0fe-4339-9a0a-a706fb59f353",
        "reward": {
          "type": "send_highlighted_message",
          "cost": 100,
          "unlocked_emote": null
        },
        "message": {
          "text": "Hello world! VoHiYo",
          "emotes": [
            {
              "id": "81274",
              "begin": 13,
              "end": 18
            }
          ]
        },
        "user_input": "Hello world! VoHiYo ",
        "redeemed_at": "2024-02-23T21:14:34.260398045Z"
      }"#).unwrap()).unwrap();
    let again = PointsAutomaticRewardRedemption::from_json(&value.to_json()).unwrap();
    assert_eq!(format!("{:?}", again), format!("{:?}", value));
}

#[test]
fn channel_points_custom_reward_add_is_read_back() {
    let value = PointsCustomRewardAdd::from_json(&parse(r##"
      {
        "id": "9001",
        "broadcaster_user_id": "1337",
        "broadcaster_user_login": "cool_user",
        "broadcaster_user_name": "Cool_User",
        "is_enabled": true,
        "is_paused": false,
        "is_in_stock": true,
        "title": "Cool Reward",
        "cost": 100,
        "prompt": "reward prompt",
        "is_user_input_required": true,
        "should_redemptions_skip_request_queue": false,
        "cooldown_expires_at": null,
        "redemptions_redeemed_current_stream": null,
        "max_per_stream": {
            "is_enabled": true,
            "value": 1000
        },
        "max_per_user_per_stream": {
            "is_enabled": true,
            "value": 1000
        },
        "global_cooldown": {
            "is_enabled": true,
            "seconds": 1000
        },
        "background_color": "#FA1ED2",
        "image": {
            "url_1x": "https://static-cdn.jtvnw.net/image-1.png",
            "url_2x": "https://static-cdn.jtvnw.net/image-2.png",
            "url_4x": "https://static-cdn.jtvnw.net/image-4.png"
        },
        "default_image": {
            "url_1x": "https://static-cdn.jtvnw.net/default-1.png",
            "url_2x": "https://static-cdn.jtvnw.net/default-2.png",
            "url_4x": "https://static-cdn.jtvnw.net/default-4.png"
        }
      }"##).unwrap()).unwrap();
    let again = PointsCustomRewardAdd::from_json(&value.to_json()).unwrap();
    assert_eq!(format!("{:?}", again), format!("{:?}", value));
}

#[test]
fn channel_points_custom_reward_update_is_read_back() {
    let value = PointsCustomRewardUpdate::from_json(&parse(r##"
      {
        "id": "9001",
        "broadcaster_user_id": "1337",
        "broadcaster_user_login": "cool_user",
        "broadcaster_user_name": "Cool_User",
        "is_enabled": true,
        "is_paused": false,
        "is_in_stock": true,
        "title": "Cool Reward",
        "cost": 100,
        "prompt": "reward prompt",
        "is_user_input_required": true,
        "should_redemptions_skip_request_queue": false,
        "cooldown_expires_at": "2019-11-16T10:11:12.634234626Z",
        "redemptions_redeemed_current_stream": 123,
        "max_per_stream": {
            "is_enabled": true,
            "value": 1000
        },
        "max_per_user_per_stream": {
            "is_enabled": true,
            "value": 1000
        },
        "global_cooldown": {
            "is_enabled": true,
            "seconds": 1000
        },
        "background_color": "#FA1ED2",
        "image": {
            "url_1x": "https://static-cdn.jtvnw.net/image-1.png",
            "url_2x": "https://static-cdn.jtvnw.net/image-2.png",
            "url_4x": "https://static-cdn.jtvnw.net/image-4.png"
        },
        "default_image": {
            "url_1x": "https://static-cdn.jtvnw.net/default-1.png",
            "url_2x": "https://static-cdn.jtvnw.net/default-2.png",
            "url_4x": "https://static-cdn.jtvnw.net/default-4.png"
        }
      }"##).unwrap()).unwrap();
    let again = PointsCustomRewardUpdate::from_json(&value.to_json()).unwrap();
    assert_eq!(format!("{:?}", again), format!("{:?}", value));
}

#[test]
fn channel_points_custom_reward_remove_is_read_back() {
    let value = PointsCustomRewardRemove::from_json(&parse(r##"
      {
        "id": "9001",
        "broadcaster_user_id": "1337",
        "broadcaster_user_login": "cool_user",
        "broadcaster_user_name": "Cool_User",
        "is_enabled": true,
        "is_paused": false,
        "is_in_stock": true,
        "title": "Cool Reward",
        "cost": 100,
        "prompt": "reward prompt",
        "is_user_input_required": true,
        "should_redemptions_skip_request_queue": false,
        "cooldown_expires_at": "2019-11-16T10:11:12.634234626Z",
        "redemptions_redeemed_current_stream": 123,
        "max_per_stream": {
            "is_enabled": true,
            "value": 1000
        },
        "max_per_user_per_stream": {
            "is_enabled": true,
            "value": 1000
        },
        "global_cooldown": {
            "is_enabled": true,
            "seconds": 1000
        },
        "background_color": "#FA1ED2",
        "image": {
            "url_1x": "https://static-cdn.jtvnw.net/image-1.png",
            "url_2x": "https://static-cdn.jtvnw.net/image-2.png",
            "url_4x": "https://static-cdn.jtvnw.net/image-4.png"
        },
        "default_image": {
            "url_1x": "https://static-cdn.jtvnw.net/default-1.png",
            "url_2x": "https://static-cdn.jtvnw.net/default-2.png",
            "url_4x": "https://static-cdn.jtvnw.net/default-4.png"
        }
      }"##).unwrap()).unwrap();
    let again = PointsCustomRewardRemove::from_json(&value.to_json()).unwrap();
    assert_eq!(format!("{:?}", again), format!("{:?}", value));
}

#[test]
fn channel_points_custom_reward_redemption_add_is_read_back() {
    let value = PointsCustomRewardRedemptionAdd::from_json(&parse(r##"
      {
        "id": "17fa2df1-ad76-4804-bfa5-a40ef63efe63",
        "broadcaster_user_id": "1337",
        "broadcaster_user_login": "cool_user",
        "broadcaster_user_name": "Cool_User",
        "user_id": "9001",
        "user_login": "cooler_user",
        "user_name": "Cooler_User",
        "user_input": "pogchamp",
        "status": "unfulfilled",
        "reward": {
            "id": "92af127c-7326-4483-a52b-b0da0be61c01",
            "title": "title",
            "cost": 100,
            "prompt": "reward prompt"
        },
        "redeemed_at": "2020-07-15T17:16:03.17106713Z"
      }"##).unwrap()).unwrap();
    let again = PointsCustomRewardRedemptionAdd::from_json(&value.to_json()).unwrap();
    assert_eq!(format!("{:?}", again), format!("{:?}", value));
}

#[test]
fn channel_points_custom_reward_redemption_update_is_read_back() {
    let value = PointsCustomRewardRedemptionUpdate::from_json(&parse(r##"
      {
        "id": "17fa2df1-ad76-4804-bfa5-a40ef63efe63",
        "broadcaster_user_id": "1337",
        "broadcaster_user_login": "cool_user",
        "broadcaster_user_name": "Cool_User",
        "user_id": "9001",
        "user_login": "cooler_user",
        "user_name": "Cooler_User",
        "user_input": "pogchamp",
        "status": "fulfilled",
        "reward": {
            "id": "92af127c-7326-4483-a52b-b0da0be61c01",
            "title": "title",
            "cost": 100,
            "prompt": "reward prompt"
        },
        "redeemed_at": "2020-07-15T17:16:03.17106713Z"
      }"##).unwrap()).unwrap();
    let again = PointsCustomRewardRedemptionUpdate::from_json(&value.to_json()).unwrap();
    assert_eq!(format!("{:?}", again), format!("{:?}", value));
}

#[test]
fn channel_shared_chat_session_begin_is_read_back() {
    let value = SharedChatSessionBegin::from_json(&parse(r#"
      {
        "session_id": "2b64a92a-dbb8-424e-b1c3-304423ba1b6f",
        "broadcaster_user_id": "1971641",
        "broadcaster_user_login": "streamer",
        "broadcaster_user_name": "streamer",
        "host_broadcaster_user_id": "1971641",
        "host_broadcaster_user_login": "streamer",
        "host_broadcaster_user_name": "streamer",
        "participants": [
          {
            "broadcaster_user_id": "1971641",
            "broadcaster_user_name": "streamer",
            "broadcaster_user_login": "streamer"
          },
          {
            "broadcaster_user_id": "112233",
            "broadcaster_user_name": "streamer33",
            "broadcaster_user_login": "streamer33"
          }
        ]
      }"#).unwrap()).unwrap();
    let again = SharedChatSessionBegin::from_json(&value.to_json()).unwrap();
    assert_eq!(format!("{:?}", again), format!("{:?}", value));
}

#[test]
fn channel_shared_chat_session_update_is_read_back() {
    let value = SharedChatSessionUpdate::from_json(&parse(r#"
      {
        "session_id": "2b64a92a-dbb8-424e-b1c3-304423ba1b6f",
        "broadcaster_user_id": "1971641",
        "broadcaster_user_login": "streamer",
        "broadcaster_user_name": "streamer",
        "host_broadcaster_user_id": "1971641",
        "host_broadcaster_user_login": "streamer",
        "host_broadcaster_user_name": "streamer",
        "participants": [
          {
            "broadcaster_user_id": "1971641",
            "broadcaster_user_name": "streamer",
            "broadcaster_user_login": "streamer"
          },
          {
            "broadcaster_user_id": "112233",
            "broadcaster_user_name": "streamer33",
            "broadcaster_user_login": "streamer33"
          },
          {
            "broadcaster_user_id": "332211",
            "broadcaster_user_name": "streamer11",
            "broadcaster_user_login": "streamer11"
          }
        ]
      }"#).unwrap()).unwrap();
    let again = SharedChatSessionUpdate::from_json(&value.to_json()).unwrap();
    assert_eq!(format!("{:?}", again), format!("{:?}", value));
}

#[test]
fn channel_shared_chat_session_end_is_read_back() {
    let value = SharedChatSessionEnd::from_json(&parse(r#"
      {
        "session_id": "2b64a92a-dbb8-424e-b1c3-304423ba1b6f",
        "broadcaster_user_id": "1971641",
        "broadcaster_user_login": "streamer",
        "broadcaster_user_name": "streamer",
        "host_broadcaster_user_id": "1971641",
        "host_broadcaster_user_login": "streamer",
        "host_broadcaster_user_name": "streamer"
      }"#).unwrap()).unwrap();
    let again = SharedChatSessionEnd::from_json(&value.to_json()).unwrap();
    assert_eq!(format!("{:?}", again), format!("{:?}", value));
}

#[test]
fn channel_subscribe_is_read_back() {
    let value = Subscribe::from_json(&parse(r#"
      {
        "user_id": "1234",
        "user_login": "cool_user",
        "user_name": "Cool_User",
        "broadcaster_user_id": "1337",
        "broadcaster_user_login": "cooler_user",
        "broadcaster_user_name": "Cooler_User",
        "tier": "1000",
        "is_gift": false
      }"#).unwrap()).unwrap();
    let again = Subscribe::from_json(&value.to_json()).unwrap();
    assert_eq!(format!("{:?}", again), format!("{:?}", value));
}

#[test]
fn channel_subscribtion_end_is_read_back() {
    let value = SubscriptionEnd::from_json(&parse(r#"
      {
        "user_id": "1234",
        "user_login": "cool_user",
        "user_name": "Cool_User",
        "broadcaster_user_id": "1337",
        "broadcaster_user_login": "cooler_user",
        "broadcaster_user_name": "Cooler_User",
        "tier": "1000",
        "is_gift": false
      }"#).unwrap()).unwrap();
    let again = SubscriptionEnd::from_json(&value.to_json()).unwrap();
    assert_eq!(format!("{:?}", again), format!("{:?}", value));
}

#[test]
fn channel_subscribtion_gift_is_read_back() {
    let value = SubscriptionGift::from_json(&parse(r#"
      {
        "user_id": "1234",
        "user_login": "cool_user",
        "user_name": "Cool_User",
        "broadcaster_user_id": "1337",
        "broadcaster_user_login": "cooler_user",
        "broadcaster_user_name": "Cooler_User",
        "total": 2,
        "tier": "1000",
        "cumulative_total": 284,
        "is_anonymous": false
      }"#).unwrap()).unwrap();
    let again = SubscriptionGift::from_json(&value.to_json()).unwrap();
    assert_eq!(format!("{:?}", again), format!("{:?}", value));
}

#[test]
fn channel_subscribtion_message_is_read_back() {
    let value = SubscriptionMessage::from_json(&parse(r#"
      {
        "user_id": "1234",
        "user_login": "cool_user",
        "user_name": "Cool_User",
        "broadcaster_user_id": "1337",
        "broadcaster_user_login": "cooler_user",
        "broadcaster_user_name": "Cooler_User",
        "tier": "1000",
        "message": {
          "text": "Love the stream! FevziGG",
          "emotes": [
            {
              "begin": 23,
              "end": 30,
              "id": "302976485"
            }
          ]
        },
        "cumulative_months": 15,
        "streak_months": 1,
        "duration_months": 6
      }"#).unwrap()).unwrap();
    let again = SubscriptionMessage::from_json(&value.to_json()).unwrap();
    assert_eq!(format!("{:?}", again), format!("{:?}", value));
}

#[test]
fn user_update_is_read_back() {
    let value = UserUpdate::from_json(&parse(r##"
      {
        "user_id": "1337",
        "user_login": "cool_user",
        "user_name": "Cool_User",
        "email": "user@email.com",
        "email_verified": true,
        "description": "cool description"
      }"##).unwrap()).unwrap();
    let again = UserUpdate::from_json(&value.to_json()).unwrap();
    assert_eq!(format!("{:?}", again), format!("{:?}", value));
}

#[test]
fn whisper_received_is_read_back() {
    let value = WhisperReceived::from_json(&parse(r##"
      {
        "from_user_id": "423374343",
        "from_user_login": "glowillig",
        "from_user_name": "glowillig",
        "to_user_id": "424596340",
        "to_user_login": "quotrok",
        "to_user_name": "quotrok",
        "whisper_id": "some-whisper-id",
        "whisper": {
          "text": "a secret"
        }
      }"##).unwrap()).unwrap();
    let again = WhisperReceived::from_json(&value.to_json()).unwrap();
    assert_eq!(format!("{:?}", again), format!("{:?}", value));
}
