use eventsub::eventsub::events::moderation::Ban;
use eventsub::eventsub::events::moderation::Moderate;
use eventsub::eventsub::events::moderation::ShieldModeBegin;
use eventsub::eventsub::events::moderation::ShieldModeEnd;
use eventsub::eventsub::events::moderation::SuspiciousUserMessage;
use eventsub::eventsub::events::moderation::SuspiciousUserUpdate;
use eventsub::eventsub::events::moderation::Unban;
use eventsub::eventsub::events::moderation::UnbanRequestCreate;
use eventsub::eventsub::events::moderation::UnbanRequestResolve;
use eventsub::eventsub::events::moderation::WarningAcknowledge;
use eventsub::eventsub::events::moderation::WarningSend;
use eventsub::json::FromJson;
use eventsub::json::parse;

#[test]
fn channel_ban() {
    let event = r#"
  {
    "user_id": "1234",
    "user_login": "cool_user",
    "user_name": "Cool_User",
    "broadcaster_user_id": "1337",
    "broadcaster_user_login": "cooler_user",
    "broadcaster_user_name": "Cooler_User",
    "moderator_user_id": "1339",
    "moderator_user_login": "mod_user",
    "moderator_user_name": "Mod_User",
    "reason": "Offensive language",
    "banned_at": "2020-07-15T18:15:11.17106713Z",
    "ends_at": "2020-07-15T18:16:11.17106713Z",
    "is_permanent": false
  }"#;
    Ban::from_json(&parse(event).unwrap()).unwrap();
}

#[test]
fn channel_unban() {
    let event = r#"
  {
    "user_id": "1234",
    "user_login": "cool_user",
    "user_name": "Cool_User",
    "broadcaster_user_id": "1337",
    "broadcaster_user_login": "cooler_user",
    "broadcaster_user_name": "Cooler_User",
    "moderator_user_id": "1339",
    "moderator_user_login": "mod_user",
    "moderator_user_name": "Mod_User"
  }"#;
    Unban::from_json(&parse(event).unwrap()).unwrap();
}

#[test]
fn channel_unban_request_create() {
    let event = r#"
  {
    "id": "60",
    "broadcaster_user_id": "1337",
    "broadcaster_user_login": "cool_user",
    "broadcaster_user_name": "Cool_User",
    "user_id": "1339",
    "user_login": "not_cool_user",
    "user_name": "Not_Cool_User",
    "text": "unban me",
    "created_at": "2023-11-16T10:11:12.634234626Z"
  }"#;
    UnbanRequestCreate::from_json(&parse(event).unwrap()).unwrap();
}

#[test]
fn channel_unban_request_resolve() {
    let event = r#"
  {
    "id": "60",
    "broadcaster_user_id": "1337",
    "broadcaster_user_login": "cool_user",
    "broadcaster_user_name": "Cool_User",
    "moderator_user_id": "1337",
    "moderator_user_login": "cool_user",
    "moderator_user_name": "Cool_User",
    "user_id": "1339",
    "user_login": "not_cool_user",
    "user_name": "Not_Cool_User",
    "resolution_text": "no",
    "status": "denied"
  }"#;
    UnbanRequestResolve::from_json(&parse(event).unwrap()).unwrap();
}

#[test]
fn channel_moderate_events() {
    let event = r#"
  {
    "broadcaster_user_id": "423374343",
    "broadcaster_user_login": "glowillig",
    "broadcaster_user_name": "glowillig",
    "source_broadcaster_user_id": "41292030",
    "source_broadcaster_user_login": "adflynn404",
    "source_broadcaster_user_name": "adflynn404",
    "moderator_user_id": "424596340",
    "moderator_user_login": "quotrok",
    "moderator_user_name": "quotrok",
    "action": "warn",
    "followers": null,
    "slow": null,
    "vip": null,
    "unvip": null,
    "warn": {
      "user_id": "141981764",
      "user_login": "twitchdev",
      "user_name": "TwitchDev",
      "reason": "cut it out",
      "chat_rules_cited": null
    },
    "unmod": null,
    "ban": null,
    "unban": null,
    "timeout": null,
    "untimeout": null,
    "raid": null,
    "unraid": null,
    "delete": null,
    "automod_terms": null,
    "unban_request": null,
    "shared_chat_ban": null,
    "shared_chat_unban": null,
    "shared_chat_timeout": null,
    "shared_chat_untimeout": null,
    "shared_chat_delete": null
  }"#;
    Moderate::from_json(&parse(event).unwrap()).unwrap();

    let event = r#"
  {
    "broadcaster_user_id": "423374343",
    "broadcaster_user_login": "glowillig",
    "broadcaster_user_name": "glowillig",
    "source_broadcaster_user_id": "41292030",
    "source_broadcaster_user_login": "adflynn404",
    "source_broadcaster_user_name": "adflynn404",
    "moderator_user_id": "424596340",
    "moderator_user_login": "quotrok",
    "moderator_user_name": "quotrok",
    "action": "shared_chat_timeout",
    "followers": null,
    "slow": null,
    "vip": null,
    "unvip": null,
    "warn": null,
    "unmod": null,
    "ban": null,
    "unban": null,
    "timeout": null,
    "untimeout": null,
    "raid": null,
    "unraid": null,
    "delete": null,
    "automod_terms": null,
    "unban_request": null,
    "shared_chat_ban": null,
    "shared_chat_unban": null,
    "shared_chat_timeout": {
        "user_id": "141981764",
        "user_login": "twitchdev",
        "user_name": "TwitchDev",
        "reason": "Has never seen the Harry Potter films.",
        "expires_at": "2022-03-15T02:00:28Z"
    },
    "shared_chat_untimeout": null,
    "shared_chat_delete": null
  }"#;
    Moderate::from_json(&parse(event).unwrap()).unwrap();

    let event = r#"
  {
    "broadcaster_user_id": "423374343",
    "broadcaster_user_login": "glowillig",
    "broadcaster_user_name": "glowillig",
    "source_broadcaster_user_id": "41292030",
    "source_broadcaster_user_login": "adflynn404",
    "source_broadcaster_user_name": "adflynn404",
    "moderator_user_id": "424596340",
    "moderator_user_login": "quotrok",
    "moderator_user_name": "quotrok",
    "action": "mod",
    "followers": null,
    "slow": null,
    "vip": null,
    "unvip": null,
    "warn": null,
    "mod": {
      "user_id": "141981764",
      "user_login": "twitchdev",
      "user_name": "TwitchDev"
    },
    "unmod": null,
    "ban": null,
    "unban": null,
    "timeout": null,
    "untimeout": null,
    "raid": null,
    "unraid": null,
    "delete": null,
    "automod_terms": null,
    "unban_request": null,
    "shared_chat_ban": null,
    "shared_chat_unban": null,
    "shared_chat_timeout": null,
    "shared_chat_untimeout": null,
    "shared_chat_delete": null
  }"#;
    Moderate::from_json(&parse(event).unwrap()).unwrap();

    let event = r#"
  {
    "broadcaster_user_id": "423374343",
    "broadcaster_user_login": "glowillig",
    "broadcaster_user_name": "glowillig",
    "source_broadcaster_user_id": "41292030",
    "source_broadcaster_user_login": "adflynn404",
    "source_broadcaster_user_name": "adflynn404",
    "moderator_user_id": "424596340",
    "moderator_user_login": "quotrok",
    "moderator_user_name": "quotrok",
    "action": "timeout",
    "followers": null,
    "slow": null,
    "vip": null,
    "unvip": null,
    "mod": null,
    "unmod": null,
    "ban": null,
    "unban": null,
    "warn": null,
    "timeout": {
      "user_id": "141981764",
      "user_login": "twitchdev",
      "user_name": "TwitchDev",
      "reason": "Does not like pineapple on pizza.",
      "expires_at": "2022-03-15T02:00:28Z"
    },
    "untimeout": null,
    "raid": null,
    "unraid": null,
    "delete": null,
    "automod_terms": null,
    "unban_request": null,
    "shared_chat_ban": null,
    "shared_chat_unban": null,
    "shared_chat_timeout": null,
    "shared_chat_untimeout": null,
    "shared_chat_delete": null
  }"#;
    Moderate::from_json(&parse(event).unwrap()).unwrap();

    let event = r#"
  {
    "broadcaster_user_id": "423374343",
    "broadcaster_user_login": "glowillig",
    "broadcaster_user_name": "glowillig",
    "source_broadcaster_user_id": "41292030",
    "source_broadcaster_user_login": "adflynn404",
    "source_broadcaster_user_name": "adflynn404",
    "moderator_user_id": "424596340",
    "moderator_user_login": "quotrok",
    "moderator_user_name": "quotrok",
    "action": "emoteonly",
    "followers": null,
    "slow": null,
    "vip": null,
    "unvip": null,
    "mod": null,
    "unmod": null,
    "ban": null,
    "unban": null,
    "warn": null,
    "timeout": null,
    "untimeout": null,
    "raid": null,
    "unraid": null,
    "delete": null,
    "automod_terms": null,
    "unban_request": null,
    "shared_chat_ban": null,
    "shared_chat_unban": null,
    "shared_chat_timeout": null,
    "shared_chat_untimeout": null,
    "shared_chat_delete": null
  }"#;
    Moderate::from_json(&parse(event).unwrap()).unwrap();
}

#[test]
fn channel_suspicious_user_message() {
    let event = r#"
  {
    "broadcaster_user_id": "1050263432",
    "broadcaster_user_name": "dcf9dd9336034d23b65",
    "broadcaster_user_login": "dcf9dd9336034d23b65",
    "user_id": "1050263434",
    "user_name": "4a46e2cf2e2f4d6a9e6",
    "user_login": "4a46e2cf2e2f4d6a9e6",
    "low_trust_status": "active_monitoring",
    "shared_ban_channel_ids": [
      "100",
      "200"
    ],
    "types": [
      "ban_evader"
    ],
    "ban_evasion_evaluation": "likely",
    "message": {
      "message_id": "101010",
      "text": "bad stuff pogchamp",
      "fragments": [
        {
          "type": "emote",
          "text": "bad stuff",
          "cheermote": null,
          "emote": {
            "id": "899",
            "emote_set_id": "1"
          }
        },
        {
          "type": "cheermote",
          "text": "pogchamp",
          "cheermote": {
            "prefix": "pogchamp",
            "bits": 100,
            "tier": 1
          },
          "emote": null
        }
      ]
    }
  }"#;
    SuspiciousUserMessage::from_json(&parse(event).unwrap()).unwrap();
}

#[test]
fn channel_suspicious_user_update() {
    let event = r#"
  {
    "broadcaster_user_id": "1050263435",
    "broadcaster_user_name": "77f111cbb75341449f5",
    "broadcaster_user_login": "77f111cbb75341449f5",
    "moderator_user_id": "1050263436",
    "moderator_user_name": "29087e59dfc441968f6",
    "moderator_user_login": "29087e59dfc441968f6",
    "user_id": "1050263437",
    "user_name": "06fbcc75952245c5a87",
    "user_login": "06fbcc75952245c5a87",
    "low_trust_status": "restricted"
  }"#;
    SuspiciousUserUpdate::from_json(&parse(event).unwrap()).unwrap();
}

#[test]
fn channel_warning_acknowledge() {
    let event = r#"
  {
    "broadcaster_user_id": "423374343",
    "broadcaster_user_login": "glowillig",
    "broadcaster_user_name": "glowillig",
    "user_id": "141981764",
    "user_login": "twitchdev",
    "user_name": "TwitchDev"
  }"#;
    WarningAcknowledge::from_json(&parse(event).unwrap()).unwrap();
}

#[test]
fn channel_warning_send() {
    let event = r#"
  {
    "broadcaster_user_id": "423374343",
    "broadcaster_user_login": "glowillig",
    "broadcaster_user_name": "glowillig",
    "moderator_user_id": "424596340",
    "moderator_user_login": "quotrok",
    "moderator_user_name": "quotrok",
    "user_id": "141981764",
    "user_login": "twitchdev",
    "user_name": "TwitchDev",
    "reason": "cut it out",
    "chat_rules_cited": null
  }"#;
    WarningSend::from_json(&parse(event).unwrap()).unwrap();
}

#[test]
fn channel_shieldmode_begin() {
    let event = r#"
  {
    "broadcaster_user_id": "12345",
    "broadcaster_user_name": "SimplySimple",
    "broadcaster_user_login": "simplysimple",
    "moderator_user_id": "98765",
    "moderator_user_name": "ParticularlyParticular123",
    "moderator_user_login": "particularlyparticular123",
    "started_at": "2022-07-26T17:00:03.17106713Z"
  }"#;
    ShieldModeBegin::from_json(&parse(event).unwrap()).unwrap();
}

#[test]
fn channel_shieldmode_end() {
    let event = r#"
  {
    "broadcaster_user_id": "12345",
    "broadcaster_user_name": "SimplySimple",
    "broadcaster_user_login": "simplysimple",
    "moderator_user_id": "98765",
    "moderator_user_name": "ParticularlyParticular123",
    "moderator_user_login": "particularlyparticular123",
    "ended_at": "2022-07-27T01:30:23.17106713Z"
  }"#;
    ShieldModeEnd::from_json(&parse(event).unwrap()).unwrap();
}
