use eventsub::eventsub::events::channel::Cheer;
use eventsub::eventsub::events::channel::Cheerer;
use eventsub::eventsub::events::channel::Follow;
use eventsub::eventsub::events::chat::Gifter;
use eventsub::eventsub::events::chat::NoticeType;
use eventsub::eventsub::events::chat::SharedMessage;
use eventsub::eventsub::events::chat::UnraidNotice;
use eventsub::eventsub::events::polls::Choice;
use eventsub::eventsub::events::Event;
use eventsub::eventsub::events::EventsubMessage;
use eventsub::eventsub::events::Fragment;
use eventsub::eventsub::events::Payload;
use eventsub::json::parse;
use eventsub::json::parse_u64;
use eventsub::json::FromJson;
use eventsub::json::ToJson;
use eventsub::json::Json;

#[test]
fn json_is_parsed_into_a_tree() {
    let j = parse(r#"{ "a": [1, "two", null, true, -3, 1.5], "b": { "c": "d" } }"#).unwrap();
    assert_eq!(j.get("b").unwrap().text("c").as_deref(), Some("d"));
    let items = j.items("a").unwrap();
    assert_eq!(items.len(), 6);
    assert_eq!(items[0].as_count(), Some(1));
    assert_eq!(items[1].as_count(), None);
    assert!(matches!(items[2], Json::Null));
    assert!(matches!(items[3], Json::Bool(true)));
    assert!(matches!(&items[4], Json::Number(n) if n.unsigned.is_none() && n.signed == Some(-3)));
    assert!(matches!(&items[5], Json::Number(n) if n.unsigned.is_none() && n.signed.is_none()));
    assert!(j.get("z").is_none());
    assert!(parse("{").is_none());
    assert!(parse("").is_none());
    assert!(parse("1 2").is_none());
}

#[test]
fn counts_and_flags_may_be_spelled_in_strings() {
    let j = parse(r#"{ "n": "42", "m": 42, "big": 4294967296, "bad": "4x", "t": "true", "f": false, "no": "yes" }"#).unwrap();
    assert_eq!(j.count32("n"), Some(42));
    assert_eq!(j.count32("m"), Some(42));
    assert_eq!(j.count32("big"), None);
    assert_eq!(j.count("big"), Some(4294967296));
    assert_eq!(j.count("bad"), None);
    assert_eq!(j.count("missing"), None);
    assert_eq!(j.count_or_zero("missing"), Some(0));
    assert_eq!(j.flag("t"), Some(true));
    assert_eq!(j.flag("f"), Some(false));
    assert_eq!(j.flag("no"), None);
    assert_eq!(j.optional_count32("n"), None);
    assert_eq!(j.optional_count32("m"), Some(Some(42)));
    assert_eq!(j.optional_count32("missing"), Some(None));
}

#[test]
fn a_follow_is_read_field_by_field() {
    let j = parse(
        r#"{
            "user_id": "1234", "user_login": "cool_user", "user_name": "Cool_User",
            "broadcaster_user_id": "1337", "broadcaster_user_login": "cooler_user",
            "broadcaster_user_name": "Cooler_User", "followed_at": "2020-07-15T18:16:11.17106713Z"
        }"#,
    )
    .unwrap();
    let follow = Follow::from_json(&j).unwrap();
    assert_eq!(follow.user.user_id, "1234");
    assert_eq!(follow.user.user_login, "cool_user");
    assert_eq!(follow.user.user_name, "Cool_User");
    assert_eq!(follow.broadcaster.user_id, "1337");
    assert_eq!(follow.broadcaster.user_login, "cooler_user");
    assert_eq!(follow.broadcaster.user_name, "Cooler_User");
    assert_eq!(follow.followed_at, "2020-07-15T18:16:11.17106713Z");
    assert!(matches!(Event::from_json("channel.follow", &j), Some(Event::Follow(_))));
    assert!(Event::from_json("channel.cheer", &j).is_none());
    assert!(Event::from_json("no.such.category", &j).is_none());
    let without = parse(r#"{ "user_id": "1234", "user_login": "cool_user", "user_name": "Cool_User" }"#).unwrap();
    assert!(Follow::from_json(&without).is_none());
}

#[test]
fn votes_that_are_left_out_count_as_none() {
    let j = parse(r#"{ "id": "1", "title": "Yes", "votes": "7" }"#).unwrap();
    let choice = Choice::from_json(&j).unwrap();
    assert_eq!((choice.bits_votes, choice.channel_points_votes, choice.votes), (0, 0, 7));
}

#[test]
fn a_cheer_may_be_anonymous() {
    let named = parse(
        r#"{
            "is_anonymous": false, "user_id": "1234", "user_login": "cool_user", "user_name": "Cool_User",
            "broadcaster_user_id": "1337", "broadcaster_user_login": "cooler_user",
            "broadcaster_user_name": "Cooler_User", "message": "pogchamp", "bits": 1000
        }"#,
    )
    .unwrap();
    let cheer = Cheer::from_json(&named).unwrap();
    assert!(matches!(&cheer.user, Cheerer::Cheerer { user } if user.user_id == "1234"));
    assert_eq!(cheer.bits, 1000);
    assert!(matches!(Event::from_json("channel.cheer", &named), Some(Event::Cheer(_))));
    let anonymous = parse(
        r#"{
            "is_anonymous": true, "user_id": null, "user_login": null, "user_name": null,
            "broadcaster_user_id": "1337", "broadcaster_user_login": "cooler_user",
            "broadcaster_user_name": "Cooler_User", "message": "pogchamp", "bits": "5"
        }"#,
    )
    .unwrap();
    assert!(matches!(Cheer::from_json(&anonymous).unwrap().user, Cheerer::Anonymous));
    let nameless = parse(r#"{ "is_anonymous": false, "user_id": null }"#).unwrap();
    assert!(Cheerer::from_json(&nameless).is_none());
    let undecided = parse(r#"{ "user_id": "1", "user_login": "a", "user_name": "A" }"#).unwrap();
    assert!(Cheerer::from_json(&undecided).is_none());
}

#[test]
fn a_gifter_is_named_anonymous_or_absent() {
    let named = parse(
        r#"{ "gifter_is_anonymous": false, "gifter_user_id": "9", "gifter_user_login": "g", "gifter_user_name": "G" }"#,
    )
    .unwrap();
    assert!(matches!(Gifter::from_json(&named), Some(Gifter::Gifter { gifter }) if gifter.user_name == "G"));
    let anonymous = parse(r#"{ "gifter_is_anonymous": true, "gifter_user_id": null }"#).unwrap();
    assert!(matches!(Gifter::from_json(&anonymous), Some(Gifter::Anonymous)));
    let absent = parse(r#"{ "other": 1 }"#).unwrap();
    assert!(matches!(Gifter::from_json(&absent), Some(Gifter::Absent)));
    let partial = parse(r#"{ "gifter_is_anonymous": false, "gifter_user_id": "9" }"#).unwrap();
    assert!(matches!(Gifter::from_json(&partial), Some(Gifter::Absent)));
    let mistyped = parse(r#"{ "gifter_is_anonymous": "no" }"#).unwrap();
    assert!(Gifter::from_json(&mistyped).is_none());
}

#[test]
fn a_message_may_come_from_another_channel() {
    let shared = parse(
        r#"{
            "source_broadcaster_user_id": "1", "source_broadcaster_user_login": "s",
            "source_broadcaster_user_name": "S", "source_message_id": "m-1",
            "source_badges": [ { "set_id": "moderator", "id": "1", "info": "" } ]
        }"#,
    )
    .unwrap();
    match SharedMessage::from_json(&shared) {
        Some(SharedMessage::Message { source_broadcaster, source_message_id, source_badges }) => {
            assert_eq!(source_broadcaster.user_login, "s");
            assert_eq!(source_message_id, "m-1");
            assert_eq!(source_badges.len(), 1);
            assert_eq!(source_badges[0].set_id, "moderator");
        }
        other => panic!("unexpected: {:?}", other),
    }
    let own = parse(r#"{ "source_broadcaster_user_id": null, "source_message_id": null, "source_badges": null }"#).unwrap();
    assert!(matches!(SharedMessage::from_json(&own), Some(SharedMessage::Absent)));
    let mistyped = parse(r#"{ "source_badges": "none" }"#).unwrap();
    assert!(SharedMessage::from_json(&mistyped).is_none());
}

#[test]
fn fragments_are_told_apart_by_what_they_hold() {
    let cheermote = parse(r#"{ "text": "Cheer100", "cheermote": { "prefix": "cheer", "bits": 100, "tier": "1" } }"#).unwrap();
    assert!(matches!(
        Fragment::from_json(&cheermote),
        Some(Fragment::Cheermote { text, cheermote }) if text == "Cheer100" && cheermote.bits == 100 && cheermote.tier == 1
    ));
    let emote = parse(
        r#"{ "text": "Kappa", "emote": { "id": "25", "emote_set_id": "0", "owner_id": "0", "format": ["static", "animated"] } }"#,
    )
    .unwrap();
    assert!(matches!(Fragment::from_json(&emote), Some(Fragment::Emote { emote, .. }) if emote.format.len() == 2));
    let mention = parse(r#"{ "text": "@you", "user_id": "1", "user_login": "you", "user_name": "You" }"#).unwrap();
    assert!(matches!(Fragment::from_json(&mention), Some(Fragment::Mention { user, .. }) if user.user_login == "you"));
    let plain = parse(r#"{ "text": "hello", "cheermote": null, "emote": null, "mention": null }"#).unwrap();
    assert!(matches!(Fragment::from_json(&plain), Some(Fragment::Text { text }) if text == "hello"));
    assert!(Fragment::from_json(&parse(r#"{ "emote": null }"#).unwrap()).is_none());
}

#[test]
fn a_message_is_read_by_its_kind() {
    let keepalive = parse(
        r#"{ "metadata": { "message_id": "1", "message_type": "session_keepalive", "message_timestamp": "t" }, "payload": {} }"#,
    )
    .unwrap();
    let message = EventsubMessage::from_json(&keepalive).unwrap();
    assert!(matches!(message.payload, Payload::Keepalive));
    assert_eq!(message.metadata.message_id, "1");
    assert_eq!(message.metadata.subscription_type, None);
    let mismatched = parse(
        r#"{ "metadata": { "message_id": "1", "message_type": "session_keepalive", "message_timestamp": "t" }, "payload": { "session": {} } }"#,
    )
    .unwrap();
    assert!(EventsubMessage::from_json(&mismatched).is_none());
    assert!(!EventsubMessage::lacks_session_id(&mismatched));
}

#[test]
fn a_follow_is_written_and_read_back() {
    let j = parse(
        r#"{
            "user_id": "1234", "user_login": "cool_user", "user_name": "Cool_User",
            "broadcaster_user_id": "1337", "broadcaster_user_login": "cooler_user",
            "broadcaster_user_name": "Cooler_User", "followed_at": "2020-07-15T18:16:11.17106713Z"
        }"#,
    )
    .unwrap();
    let event = Event::from_json("channel.follow", &j).unwrap();
    assert_eq!(event.kind(), "channel.follow");
    let written = event.to_json();
    assert_eq!(written.text("followed_at").as_deref(), Some("2020-07-15T18:16:11.17106713Z"));
    assert_eq!(written.text("broadcaster_user_login").as_deref(), Some("cooler_user"));
    let again = Event::from_json(event.kind(), &written).unwrap();
    assert_eq!(format!("{:?}", again), format!("{:?}", event));
}

#[test]
fn a_cheer_is_written_and_read_back() {
    for text in [
        r#"{
            "is_anonymous": false, "user_id": "1234", "user_login": "cool_user", "user_name": "Cool_User",
            "broadcaster_user_id": "1337", "broadcaster_user_login": "cooler_user",
            "broadcaster_user_name": "Cooler_User", "message": "pogchamp", "bits": 1000
        }"#,
        r#"{
            "is_anonymous": true,
            "broadcaster_user_id": "1337", "broadcaster_user_login": "cooler_user",
            "broadcaster_user_name": "Cooler_User", "message": "pogchamp", "bits": "5"
        }"#,
    ] {
        let event = Event::from_json("channel.cheer", &parse(text).unwrap()).unwrap();
        let again = Event::from_json(event.kind(), &event.to_json()).unwrap();
        assert_eq!(format!("{:?}", again), format!("{:?}", event));
    }
}

#[test]
fn parts_are_written_and_read_back() {
    let choice = Choice::from_json(&parse(r#"{ "id": "1", "title": "Yes", "votes": "7" }"#).unwrap()).unwrap();
    let written = choice.to_json();
    assert_eq!(written.count("votes"), Some(7));
    assert_eq!(written.count("bits_votes"), Some(0));
    let again = Choice::from_json(&written).unwrap();
    assert_eq!(format!("{:?}", again), format!("{:?}", choice));
    for text in [
        r#"{ "text": "Cheer100", "cheermote": { "prefix": "cheer", "bits": 100, "tier": "1" } }"#,
        r#"{ "text": "Kappa", "emote": { "id": "25", "emote_set_id": "0", "owner_id": "0", "format": ["static"] } }"#,
        r#"{ "text": "@you", "user_id": "1", "user_login": "you", "user_name": "You" }"#,
        r#"{ "text": "hello" }"#,
    ] {
        let fragment = Fragment::from_json(&parse(text).unwrap()).unwrap();
        let again = Fragment::from_json(&fragment.to_json()).unwrap();
        assert_eq!(format!("{:?}", again), format!("{:?}", fragment));
    }
    for text in [
        r#"{ "gifter_is_anonymous": false, "gifter_user_id": "9", "gifter_user_login": "g", "gifter_user_name": "G" }"#,
        r#"{ "gifter_is_anonymous": true }"#,
        r#"{ }"#,
    ] {
        let gifter = Gifter::from_json(&parse(text).unwrap()).unwrap();
        let again = Gifter::from_json(&gifter.to_json()).unwrap();
        assert_eq!(format!("{:?}", again), format!("{:?}", gifter));
    }
}

#[test]
fn counts_are_read_as_the_standard_library_reads_them() {
    assert_eq!(parse_u64("0"), Some(0));
    assert_eq!(parse_u64("+5"), Some(5));
    assert_eq!(parse_u64("007"), Some(7));
    assert_eq!(parse_u64("18446744073709551615"), Some(u64::MAX));
    assert_eq!(parse_u64("18446744073709551616"), None);
    assert_eq!(parse_u64(""), None);
    assert_eq!(parse_u64("+"), None);
    for text in [
        "0", "9", "10", "+5", "++5", "-1", "-0", "007", " 1", "1 ", "1_000", "0x10", "1e3", "1.0", "",
        "+", "\u{ff11}\u{ff12}", "12\u{e9}", "18446744073709551615", "18446744073709551616",
        "99999999999999999999999", "000000000000000000000000000001", "+18446744073709551615",
    ] {
        assert_eq!(parse_u64(text), text.parse::<u64>().ok(), "for {:?}", text);
    }
}

#[test]
fn an_unraid_notice_is_an_object_without_members() {
    let written = UnraidNotice {}.to_json();
    assert!(matches!(&written, Json::Object(entries) if entries.is_empty()));
    assert!(UnraidNotice::from_json(&written).is_some());
    assert!(UnraidNotice::from_json(&parse(r#"{ "later": 1 }"#).unwrap()).is_some());
    for text in ["null", "0", "\"unraid\"", "true", "[]"] {
        assert!(UnraidNotice::from_json(&parse(text).unwrap()).is_none(), "for {}", text);
    }
    let called_off = parse(r#"{ "notice_type": "unraid", "unraid": {} }"#).unwrap();
    let notice = NoticeType::from_json(&called_off).unwrap();
    assert!(matches!(notice, NoticeType::Unraid { .. }));
    let again = NoticeType::from_json(&notice.to_json()).unwrap();
    assert!(matches!(again, NoticeType::Unraid { .. }));
    let missing = parse(r#"{ "notice_type": "unraid", "unraid": null }"#).unwrap();
    assert!(NoticeType::from_json(&missing).is_none());
}
