use eventsub::eventsub::events::automod::AutomodMessageHold;
use eventsub::eventsub::events::automod::AutomodMessageUpdate;
use eventsub::eventsub::events::automod::AutomodSettingsUpdate;
use eventsub::eventsub::events::automod::AutomodTermsUpdate;
use eventsub::json::FromJson;
use eventsub::json::parse;

#[test]
fn automod_message_hold() {
    let event = r#"
  {
    "broadcaster_user_id": "1337",
    "broadcaster_user_login": "blah",
    "broadcaster_user_name": "blahblah",
    "user_id": "4242",
    "user_login": "baduser",
    "user_name": "badbaduser",
    "message_id": "bad-message-id",
    "message": {
      "text": "This is a bad message… pogchamp",
      "fragments": [
        {
          "type": "text",
          "text": "This is a bad message… ",
          "cheermote": null,
          "emote": null
        },
        {
          "type": "cheermote",
          "text": "pogchamp",
          "cheermote": {
            "prefix": "pogchamp",
            "bits": 1000,
            "tier": 1
          },
          "emote": null
        },
        {
          "type": "emote",
          "text": "pogchamp",
          "cheermote": null,
          "emote": {
            "id": "1",
            "emote_set_id": "1",
            "owner_id": "1",
            "format": [
              "static",
              "animated"
            ]
          }
        }
      ]
    },
    "reason": "automod",
    "automod": {
      "category": "aggressive",
      "level": 1,
      "boundaries": [
        {
          "start_pos": 0,
          "end_pos": 10
        },
        {
          "start_pos": 20,
          "end_pos": 30
        }
      ]
    },
    "blocked_term": null,
    "held_at": "2022-12-02T15:00:00.00Z"
  }"#;
    AutomodMessageHold::from_json(&parse(event).unwrap()).unwrap();
}

#[test]
fn automod_message_update() {
    let event = r#"
  {
    "broadcaster_user_id": "1337",
    "broadcaster_user_login": "blah",
    "broadcaster_user_name": "blahblah",
    "moderator_user_id": "9001",
    "moderator_user_login": "the_mod",
    "moderator_user_name": "The_Mod",
    "user_id": "4242",
    "user_login": "baduser",
    "user_name": "badbaduser",
    "message_id": "bad-message-id",
    "message": {
      "text": "This is a bad message… pogchamp",
      "fragments": [
        {
          "type": "text",
          "text": "This is a bad message… ",
          "cheermote": null,
          "emote": null
        },
        {
          "type": "cheermote",
          "text": "pogchamp",
          "cheermote": {
            "prefix": "pogchamp",
            "bits": 1000,
            "tier": 1
          },
          "emote": null
        }
      ]
    },
    "reason": "blocked_term",
    "automod": null,
    "blocked_term": {
      "terms_found": [
        {
          "term_id": "123",
          "owner_broadcaster_user_id": "1337",
          "owner_broadcaster_user_login": "blah",
          "owner_broadcaster_user_name": "blahblah",
          "boundary": {
            "start_pos": 0,
            "end_pos": 30
          }
        }
      ]
    },
    "status": "approved",
    "held_at": "2022-12-02T15:00:00.00Z"
  }"#;
    AutomodMessageUpdate::from_json(&parse(event).unwrap()).unwrap();
}

#[test]
fn automod_settings_update() {
    let event = r#"
  {
    "broadcaster_user_id": "1337",
    "broadcaster_user_name": "CoolUser",
    "broadcaster_user_login": "cooluser",
    "moderator_user_id": "9001",
    "moderator_user_name": "CoolMod",
    "moderator_user_login": "coolmod",
    "overall_level": null,
    "disability": 3,
    "aggression": 3,
    "sexuality_sex_or_gender": 3,
    "misogyny": 3,
    "bullying": 3,
    "swearing": 0,
    "race_ethnicity_or_religion": 3,
    "sex_based_terms":30
  }"#;
    AutomodSettingsUpdate::from_json(&parse(event).unwrap()).unwrap();
}

#[test]
fn automod_terms_update() {
    let event = r#"
  {
    "broadcaster_user_id": "1337",
    "broadcaster_user_name": "blah",
    "broadcaster_user_login": "blahblah",
    "moderator_user_id": "9001",
    "moderator_user_login": "the_mod",
    "moderator_user_name": "The_Mod",
    "action": "add_blocked",
    "from_automod": true,
    "terms": ["automodterm1", "automodterm2", "automodterm3"]
  }"#;
    AutomodTermsUpdate::from_json(&parse(event).unwrap()).unwrap();
}
