//! Events about chat: messages, notifications and settings.

use vstd::prelude::*;
use crate::json::Json;
use crate::json::FromJson;
use crate::json::lemma_member_append;
use crate::json::ToJson;
use crate::json::put;
use crate::json::member;
use crate::json::write_all;
use crate::json::write_optional;
use crate::json::count_json;
use crate::json::optional_count32_json;
use crate::json::optional_text_json;
use crate::json::read_member;
use crate::json::read_optional;
use crate::json::read_list;
use crate::json::read_optional_list;
use crate::json::member_parses;
use crate::json::member_parsed_as;
use crate::json::optional_parses;
use crate::json::optional_parsed_as;
use crate::json::list_parses;
use crate::json::list_parsed_as;
use crate::json::optional_list_parses;
use crate::json::same_text;
use crate::eventsub::events::charity::CharityDonation;
use crate::eventsub::events::DonationAmount;
use crate::eventsub::events::Message;
use crate::eventsub::events::channel::Raid;
use crate::eventsub::events::automod::UpdateStatus;
use crate::eventsub::events::User;

verus! {

/// An event of the category `channel.chat.clear`.
#[derive(Debug)]
pub struct ChatClear {
    pub broadcaster: User,
}

impl FromJson for ChatClear {
    open spec fn parses(j: Json) -> bool {
        &&& User::parses(
            j,
            "broadcaster_user_id"@,
            "broadcaster_user_login"@,
            "broadcaster_user_name"@,
        )
    }

    open spec fn parsed_as(j: Json, v: ChatClear) -> bool {
        &&& User::parsed_as(
            j,
            "broadcaster_user_id"@,
            "broadcaster_user_login"@,
            "broadcaster_user_name"@,
            v.broadcaster,
        )
    }

    fn from_json(j: &Json) -> (r: Option<ChatClear>) {
        let broadcaster = User::from_json(
            j,
            "broadcaster_user_id",
            "broadcaster_user_login",
            "broadcaster_user_name",
        );
        if broadcaster.is_some() {
            Some(ChatClear { broadcaster: broadcaster.unwrap() })
        } else {
            None
        }
    }
}

impl ToJson for ChatClear {
    fn to_json(&self) -> (r: Json) {
        let mut entries: Vec<(String, Json)> = Vec::new();
        proof {
            reveal_strlit("broadcaster_user_id");
            reveal_strlit("broadcaster_user_login");
            reveal_strlit("broadcaster_user_name");
            assert("broadcaster_user_id"@.len() == 19);
            assert("broadcaster_user_login"@.len() == 22);
            assert("broadcaster_user_name"@.len() == 21);
        }
        let broadcaster_id_json = Json::Text(self.broadcaster.user_id.clone());
        let broadcaster_login_json = Json::Text(self.broadcaster.user_login.clone());
        let broadcaster_name_json = Json::Text(self.broadcaster.user_name.clone());
        put(&mut entries, "broadcaster_user_id", broadcaster_id_json);
        put(&mut entries, "broadcaster_user_login", broadcaster_login_json);
        put(&mut entries, "broadcaster_user_name", broadcaster_name_json);
        proof {
            assert(member(entries@, "broadcaster_user_id"@) == Some(broadcaster_id_json));
            assert(member(entries@, "broadcaster_user_login"@) == Some(broadcaster_login_json));
            assert(member(entries@, "broadcaster_user_name"@) == Some(broadcaster_name_json));
        }
        Json::Object(entries)
    }
}

/// An event of the category `channel.chat.clear_user_messages`.
#[derive(Debug)]
pub struct ChatClearUserMessages {
    pub broadcaster: User,
    pub target: User,
}

impl FromJson for ChatClearUserMessages {
    open spec fn parses(j: Json) -> bool {
        &&& User::parses(
            j,
            "broadcaster_user_id"@,
            "broadcaster_user_login"@,
            "broadcaster_user_name"@,
        )
        &&& User::parses(j, "target_user_id"@, "target_user_login"@, "target_user_name"@)
    }

    open spec fn parsed_as(j: Json, v: ChatClearUserMessages) -> bool {
        &&& User::parsed_as(
            j,
            "broadcaster_user_id"@,
            "broadcaster_user_login"@,
            "broadcaster_user_name"@,
            v.broadcaster,
        )
        &&& User::parsed_as(
            j,
            "target_user_id"@,
            "target_user_login"@,
            "target_user_name"@,
            v.target,
        )
    }

    fn from_json(j: &Json) -> (r: Option<ChatClearUserMessages>) {
        let broadcaster = User::from_json(
            j,
            "broadcaster_user_id",
            "broadcaster_user_login",
            "broadcaster_user_name",
        );
        let target = User::from_json(j, "target_user_id", "target_user_login", "target_user_name");
        if broadcaster.is_some() && target.is_some() {
            Some(
                ChatClearUserMessages {
                    broadcaster: broadcaster.unwrap(),
                    target: target.unwrap(),
                },
            )
        } else {
            None
        }
    }
}

impl ToJson for ChatClearUserMessages {
    fn to_json(&self) -> (r: Json) {
        let mut entries: Vec<(String, Json)> = Vec::new();
        proof {
            reveal_strlit("broadcaster_user_id");
            reveal_strlit("broadcaster_user_login");
            reveal_strlit("broadcaster_user_name");
            reveal_strlit("target_user_id");
            reveal_strlit("target_user_login");
            reveal_strlit("target_user_name");
            assert("broadcaster_user_id"@.len() == 19);
            assert("broadcaster_user_login"@.len() == 22);
            assert("broadcaster_user_name"@.len() == 21);
            assert("target_user_id"@.len() == 14);
            assert("target_user_login"@.len() == 17);
            assert("target_user_name"@.len() == 16);
        }
        let broadcaster_id_json = Json::Text(self.broadcaster.user_id.clone());
        let broadcaster_login_json = Json::Text(self.broadcaster.user_login.clone());
        let broadcaster_name_json = Json::Text(self.broadcaster.user_name.clone());
        let target_id_json = Json::Text(self.target.user_id.clone());
        let target_login_json = Json::Text(self.target.user_login.clone());
        let target_name_json = Json::Text(self.target.user_name.clone());
        put(&mut entries, "broadcaster_user_id", broadcaster_id_json);
        put(&mut entries, "broadcaster_user_login", broadcaster_login_json);
        put(&mut entries, "broadcaster_user_name", broadcaster_name_json);
        put(&mut entries, "target_user_id", target_id_json);
        put(&mut entries, "target_user_login", target_login_json);
        put(&mut entries, "target_user_name", target_name_json);
        proof {
            assert(member(entries@, "broadcaster_user_id"@) == Some(broadcaster_id_json));
            assert(member(entries@, "broadcaster_user_login"@) == Some(broadcaster_login_json));
            assert(member(entries@, "broadcaster_user_name"@) == Some(broadcaster_name_json));
            assert(member(entries@, "target_user_id"@) == Some(target_id_json));
            assert(member(entries@, "target_user_login"@) == Some(target_login_json));
            assert(member(entries@, "target_user_name"@) == Some(target_name_json));
        }
        Json::Object(entries)
    }
}

/// An event of the category `channel.chat.message`.
#[derive(Debug)]
pub struct ChatMessage {
    pub broadcaster: User,
    pub chatter: User,
    pub message_id: String,
    pub message: Message,
    pub message_type: MessageType,
    pub badges: Vec<Badge>,
    pub cheer: Option<CheerInfo>,
    pub color: String,
    pub reply: Option<Reply>,
    pub channel_points_custom_reward_id: Option<String>,
    pub source: SharedMessage,
}

impl FromJson for ChatMessage {
    open spec fn parses(j: Json) -> bool {
        &&& User::parses(
            j,
            "broadcaster_user_id"@,
            "broadcaster_user_login"@,
            "broadcaster_user_name"@,
        )
        &&& User::parses(j, "chatter_user_id"@, "chatter_user_login"@, "chatter_user_name"@)
        &&& j.spec_text("message_id"@) is Some
        &&& member_parses::<Message>(j, "message"@)
        &&& member_parses::<MessageType>(j, "message_type"@)
        &&& list_parses::<Badge>(j, "badges"@)
        &&& optional_parses::<CheerInfo>(j, "cheer"@)
        &&& j.spec_text("color"@) is Some
        &&& optional_parses::<Reply>(j, "reply"@)
        &&& j.spec_optional_text("channel_points_custom_reward_id"@) is Some
        &&& SharedMessage::parses(j)
    }

    open spec fn parsed_as(j: Json, v: ChatMessage) -> bool {
        &&& User::parsed_as(
            j,
            "broadcaster_user_id"@,
            "broadcaster_user_login"@,
            "broadcaster_user_name"@,
            v.broadcaster,
        )
        &&& User::parsed_as(
            j,
            "chatter_user_id"@,
            "chatter_user_login"@,
            "chatter_user_name"@,
            v.chatter,
        )
        &&& j.spec_text("message_id"@) == Some(v.message_id)
        &&& member_parsed_as(j, "message"@, v.message)
        &&& member_parsed_as(j, "message_type"@, v.message_type)
        &&& list_parsed_as(j, "badges"@, v.badges@)
        &&& optional_parsed_as(j, "cheer"@, v.cheer)
        &&& j.spec_text("color"@) == Some(v.color)
        &&& optional_parsed_as(j, "reply"@, v.reply)
        &&& j.spec_optional_text("channel_points_custom_reward_id"@) == Some(
            v.channel_points_custom_reward_id,
        )
        &&& SharedMessage::parsed_as(j, v.source)
    }

    fn from_json(j: &Json) -> (r: Option<ChatMessage>) {
        let broadcaster = User::from_json(
            j,
            "broadcaster_user_id",
            "broadcaster_user_login",
            "broadcaster_user_name",
        );
        let chatter = User::from_json(
            j,
            "chatter_user_id",
            "chatter_user_login",
            "chatter_user_name",
        );
        let message_id = j.text("message_id");
        let message = read_member::<Message>(j, "message");
        let message_type = read_member::<MessageType>(j, "message_type");
        let badges = read_list::<Badge>(j, "badges");
        let cheer = read_optional::<CheerInfo>(j, "cheer");
        let color = j.text("color");
        let reply = read_optional::<Reply>(j, "reply");
        let channel_points_custom_reward_id = j.optional_text("channel_points_custom_reward_id");
        let source = SharedMessage::from_json(j);
        if broadcaster.is_some() && chatter.is_some() && message_id.is_some() && message.is_some()
            && message_type.is_some() && badges.is_some() && cheer.is_some() && color.is_some()
            && reply.is_some() && channel_points_custom_reward_id.is_some() && source.is_some() {
            Some(
                ChatMessage {
                    broadcaster: broadcaster.unwrap(),
                    chatter: chatter.unwrap(),
                    message_id: message_id.unwrap(),
                    message: message.unwrap(),
                    message_type: message_type.unwrap(),
                    badges: badges.unwrap(),
                    cheer: cheer.unwrap(),
                    color: color.unwrap(),
                    reply: reply.unwrap(),
                    channel_points_custom_reward_id: channel_points_custom_reward_id.unwrap(),
                    source: source.unwrap(),
                },
            )
        } else {
            None
        }
    }
}

impl ToJson for ChatMessage {
    fn to_json(&self) -> (r: Json) {
        let mut entries: Vec<(String, Json)> = Vec::new();
        proof {
            assert(!CheerInfo::parses(Json::Null));
            assert(!Reply::parses(Json::Null));
            reveal_strlit("broadcaster_user_id");
            reveal_strlit("broadcaster_user_login");
            reveal_strlit("broadcaster_user_name");
            reveal_strlit("chatter_user_id");
            reveal_strlit("chatter_user_login");
            reveal_strlit("chatter_user_name");
            reveal_strlit("message_id");
            reveal_strlit("message");
            reveal_strlit("message_type");
            reveal_strlit("badges");
            reveal_strlit("cheer");
            reveal_strlit("color");
            reveal_strlit("reply");
            reveal_strlit("channel_points_custom_reward_id");
            reveal_strlit("source_broadcaster_user_id");
            reveal_strlit("source_broadcaster_user_name");
            reveal_strlit("source_broadcaster_user_login");
            reveal_strlit("source_message_id");
            reveal_strlit("source_badges");
            assert("broadcaster_user_id"@.len() == 19);
            assert("broadcaster_user_login"@.len() == 22);
            assert("broadcaster_user_name"@.len() == 21);
            assert("chatter_user_id"@.len() == 15);
            assert("chatter_user_login"@.len() == 18);
            assert("chatter_user_name"@.len() == 17);
            assert("message_id"@.len() == 10);
            assert("message"@.len() == 7);
            assert("message_type"@.len() == 12);
            assert("badges"@.len() == 6);
            assert("cheer"@.len() == 5);
            assert("color"@.len() == 5);
            assert("reply"@.len() == 5);
            assert("channel_points_custom_reward_id"@.len() == 31);
            assert("source_broadcaster_user_id"@.len() == 26);
            assert("source_broadcaster_user_name"@.len() == 28);
            assert("source_broadcaster_user_login"@.len() == 29);
            assert("source_message_id"@.len() == 17);
            assert("source_badges"@.len() == 13);
            assert("chatter_user_name"@[0] != "source_message_id"@[0]);
            assert("cheer"@[1] != "color"@[1]);
            assert("cheer"@[0] != "reply"@[0]);
            assert("color"@[0] != "reply"@[0]);
        }
        let broadcaster_id_json = Json::Text(self.broadcaster.user_id.clone());
        let broadcaster_login_json = Json::Text(self.broadcaster.user_login.clone());
        let broadcaster_name_json = Json::Text(self.broadcaster.user_name.clone());
        let chatter_id_json = Json::Text(self.chatter.user_id.clone());
        let chatter_login_json = Json::Text(self.chatter.user_login.clone());
        let chatter_name_json = Json::Text(self.chatter.user_name.clone());
        let message_id_json = Json::Text(self.message_id.clone());
        let message_json = self.message.to_json();
        let message_type_json = self.message_type.to_json();
        let badges_json = Json::List(write_all(&self.badges));
        let cheer_json = write_optional(&self.cheer);
        let color_json = Json::Text(self.color.clone());
        let reply_json = write_optional(&self.reply);
        let channel_points_custom_reward_id_json = optional_text_json(
            &self.channel_points_custom_reward_id,
        );
        put(&mut entries, "broadcaster_user_id", broadcaster_id_json);
        put(&mut entries, "broadcaster_user_login", broadcaster_login_json);
        put(&mut entries, "broadcaster_user_name", broadcaster_name_json);
        put(&mut entries, "chatter_user_id", chatter_id_json);
        put(&mut entries, "chatter_user_login", chatter_login_json);
        put(&mut entries, "chatter_user_name", chatter_name_json);
        put(&mut entries, "message_id", message_id_json);
        put(&mut entries, "message", message_json);
        put(&mut entries, "message_type", message_type_json);
        put(&mut entries, "badges", badges_json);
        put(&mut entries, "cheer", cheer_json);
        put(&mut entries, "color", color_json);
        put(&mut entries, "reply", reply_json);
        put(&mut entries, "channel_points_custom_reward_id", channel_points_custom_reward_id_json);
        let ghost own = entries@;
        proof {
            assert(member(own, "broadcaster_user_id"@) == Some(broadcaster_id_json));
            assert(member(own, "broadcaster_user_login"@) == Some(broadcaster_login_json));
            assert(member(own, "broadcaster_user_name"@) == Some(broadcaster_name_json));
            assert(member(own, "chatter_user_id"@) == Some(chatter_id_json));
            assert(member(own, "chatter_user_login"@) == Some(chatter_login_json));
            assert(member(own, "chatter_user_name"@) == Some(chatter_name_json));
            assert(member(own, "message_id"@) == Some(message_id_json));
            assert(member(own, "message"@) == Some(message_json));
            assert(member(own, "message_type"@) == Some(message_type_json));
            assert(member(own, "badges"@) == Some(badges_json));
            assert(member(own, "cheer"@) == Some(cheer_json));
            assert(member(own, "color"@) == Some(color_json));
            assert(member(own, "reply"@) == Some(reply_json));
            assert(member(own, "channel_points_custom_reward_id"@)
                == Some(channel_points_custom_reward_id_json));
        }
        let mut source_entries = self.source.write();
        let ghost source_json = Json::Object(source_entries);
        let ghost before_source = entries@;
        entries.append(&mut source_entries);
        proof {
            let written = Json::Object(entries);
            assert forall|k: Seq<char>| member(own, k) is Some implies member(entries@, k)
                == member(own, k) by {
                lemma_member_append(before_source, source_json->Object_0@, k);
            }
            assert forall|k: Seq<char>| SharedMessage::own_key(k) implies written.spec_get(k)
                == source_json.spec_get(k) by {
                lemma_member_append(before_source, source_json->Object_0@, k);
                assert(member(own, k) is None);
            }
            SharedMessage::lemma_own_keys(written, source_json, self.source);
            assert(member(entries@, "broadcaster_user_id"@) == Some(broadcaster_id_json));
            assert(member(entries@, "broadcaster_user_login"@) == Some(broadcaster_login_json));
            assert(member(entries@, "broadcaster_user_name"@) == Some(broadcaster_name_json));
            assert(member(entries@, "chatter_user_id"@) == Some(chatter_id_json));
            assert(member(entries@, "chatter_user_login"@) == Some(chatter_login_json));
            assert(member(entries@, "chatter_user_name"@) == Some(chatter_name_json));
            assert(member(entries@, "message_id"@) == Some(message_id_json));
            assert(member(entries@, "message"@) == Some(message_json));
            assert(member(entries@, "message_type"@) == Some(message_type_json));
            assert(member(entries@, "badges"@) == Some(badges_json));
            assert(member(entries@, "cheer"@) == Some(cheer_json));
            assert(member(entries@, "color"@) == Some(color_json));
            assert(member(entries@, "reply"@) == Some(reply_json));
            assert(member(entries@, "channel_points_custom_reward_id"@)
                == Some(channel_points_custom_reward_id_json));
        }
        Json::Object(entries)
    }
}

/// An event of the category `channel.chat.message_delete`.
#[derive(Debug)]
pub struct ChatMessageDelete {
    pub broadcaster: User,
    pub target: User,
    pub message_id: String,
}

impl FromJson for ChatMessageDelete {
    open spec fn parses(j: Json) -> bool {
        &&& User::parses(
            j,
            "broadcaster_user_id"@,
            "broadcaster_user_login"@,
            "broadcaster_user_name"@,
        )
        &&& User::parses(j, "target_user_id"@, "target_user_login"@, "target_user_name"@)
        &&& j.spec_text("message_id"@) is Some
    }

    open spec fn parsed_as(j: Json, v: ChatMessageDelete) -> bool {
        &&& User::parsed_as(
            j,
            "broadcaster_user_id"@,
            "broadcaster_user_login"@,
            "broadcaster_user_name"@,
            v.broadcaster,
        )
        &&& User::parsed_as(
            j,
            "target_user_id"@,
            "target_user_login"@,
            "target_user_name"@,
            v.target,
        )
        &&& j.spec_text("message_id"@) == Some(v.message_id)
    }

    fn from_json(j: &Json) -> (r: Option<ChatMessageDelete>) {
        let broadcaster = User::from_json(
            j,
            "broadcaster_user_id",
            "broadcaster_user_login",
            "broadcaster_user_name",
        );
        let target = User::from_json(j, "target_user_id", "target_user_login", "target_user_name");
        let message_id = j.text("message_id");
        if broadcaster.is_some() && target.is_some() && message_id.is_some() {
            Some(
                ChatMessageDelete {
                    broadcaster: broadcaster.unwrap(),
                    target: target.unwrap(),
                    message_id: message_id.unwrap(),
                },
            )
        } else {
            None
        }
    }
}

impl ToJson for ChatMessageDelete {
    fn to_json(&self) -> (r: Json) {
        let mut entries: Vec<(String, Json)> = Vec::new();
        proof {
            reveal_strlit("broadcaster_user_id");
            reveal_strlit("broadcaster_user_login");
            reveal_strlit("broadcaster_user_name");
            reveal_strlit("target_user_id");
            reveal_strlit("target_user_login");
            reveal_strlit("target_user_name");
            reveal_strlit("message_id");
            assert("broadcaster_user_id"@.len() == 19);
            assert("broadcaster_user_login"@.len() == 22);
            assert("broadcaster_user_name"@.len() == 21);
            assert("target_user_id"@.len() == 14);
            assert("target_user_login"@.len() == 17);
            assert("target_user_name"@.len() == 16);
            assert("message_id"@.len() == 10);
        }
        let broadcaster_id_json = Json::Text(self.broadcaster.user_id.clone());
        let broadcaster_login_json = Json::Text(self.broadcaster.user_login.clone());
        let broadcaster_name_json = Json::Text(self.broadcaster.user_name.clone());
        let target_id_json = Json::Text(self.target.user_id.clone());
        let target_login_json = Json::Text(self.target.user_login.clone());
        let target_name_json = Json::Text(self.target.user_name.clone());
        let message_id_json = Json::Text(self.message_id.clone());
        put(&mut entries, "broadcaster_user_id", broadcaster_id_json);
        put(&mut entries, "broadcaster_user_login", broadcaster_login_json);
        put(&mut entries, "broadcaster_user_name", broadcaster_name_json);
        put(&mut entries, "target_user_id", target_id_json);
        put(&mut entries, "target_user_login", target_login_json);
        put(&mut entries, "target_user_name", target_name_json);
        put(&mut entries, "message_id", message_id_json);
        proof {
            assert(member(entries@, "broadcaster_user_id"@) == Some(broadcaster_id_json));
            assert(member(entries@, "broadcaster_user_login"@) == Some(broadcaster_login_json));
            assert(member(entries@, "broadcaster_user_name"@) == Some(broadcaster_name_json));
            assert(member(entries@, "target_user_id"@) == Some(target_id_json));
            assert(member(entries@, "target_user_login"@) == Some(target_login_json));
            assert(member(entries@, "target_user_name"@) == Some(target_name_json));
            assert(member(entries@, "message_id"@) == Some(message_id_json));
        }
        Json::Object(entries)
    }
}

/// An event of the category `channel.chat.notification`.
#[derive(Debug)]
pub struct ChatNotification {
    pub broadcaster: User,
    pub chatter: User,
    pub color: String,
    pub badges: Vec<Badge>,
    pub system_message: String,
    pub message_id: String,
    pub message: Message,
    pub notice_type: NoticeType,
    pub source: SharedMessage,
}

impl FromJson for ChatNotification {
    open spec fn parses(j: Json) -> bool {
        &&& User::parses(
            j,
            "broadcaster_user_id"@,
            "broadcaster_user_login"@,
            "broadcaster_user_name"@,
        )
        &&& User::parses(j, "chatter_user_id"@, "chatter_user_login"@, "chatter_user_name"@)
        &&& j.spec_text("color"@) is Some
        &&& list_parses::<Badge>(j, "badges"@)
        &&& j.spec_text("system_message"@) is Some
        &&& j.spec_text("message_id"@) is Some
        &&& member_parses::<Message>(j, "message"@)
        &&& NoticeType::parses(j)
        &&& SharedMessage::parses(j)
    }

    open spec fn parsed_as(j: Json, v: ChatNotification) -> bool {
        &&& User::parsed_as(
            j,
            "broadcaster_user_id"@,
            "broadcaster_user_login"@,
            "broadcaster_user_name"@,
            v.broadcaster,
        )
        &&& User::parsed_as(
            j,
            "chatter_user_id"@,
            "chatter_user_login"@,
            "chatter_user_name"@,
            v.chatter,
        )
        &&& j.spec_text("color"@) == Some(v.color)
        &&& list_parsed_as(j, "badges"@, v.badges@)
        &&& j.spec_text("system_message"@) == Some(v.system_message)
        &&& j.spec_text("message_id"@) == Some(v.message_id)
        &&& member_parsed_as(j, "message"@, v.message)
        &&& NoticeType::parsed_as(j, v.notice_type)
        &&& SharedMessage::parsed_as(j, v.source)
    }

    fn from_json(j: &Json) -> (r: Option<ChatNotification>) {
        let broadcaster = User::from_json(
            j,
            "broadcaster_user_id",
            "broadcaster_user_login",
            "broadcaster_user_name",
        );
        let chatter = User::from_json(
            j,
            "chatter_user_id",
            "chatter_user_login",
            "chatter_user_name",
        );
        let color = j.text("color");
        let badges = read_list::<Badge>(j, "badges");
        let system_message = j.text("system_message");
        let message_id = j.text("message_id");
        let message = read_member::<Message>(j, "message");
        let notice_type = NoticeType::from_json(j);
        let source = SharedMessage::from_json(j);
        if broadcaster.is_some() && chatter.is_some() && color.is_some() && badges.is_some()
            && system_message.is_some() && message_id.is_some() && message.is_some()
            && notice_type.is_some() && source.is_some() {
            Some(
                ChatNotification {
                    broadcaster: broadcaster.unwrap(),
                    chatter: chatter.unwrap(),
                    color: color.unwrap(),
                    badges: badges.unwrap(),
                    system_message: system_message.unwrap(),
                    message_id: message_id.unwrap(),
                    message: message.unwrap(),
                    notice_type: notice_type.unwrap(),
                    source: source.unwrap(),
                },
            )
        } else {
            None
        }
    }
}

impl ToJson for ChatNotification {
    fn to_json(&self) -> (r: Json) {
        let mut entries: Vec<(String, Json)> = Vec::new();
        proof {
            reveal_strlit("broadcaster_user_id");
            reveal_strlit("broadcaster_user_login");
            reveal_strlit("broadcaster_user_name");
            reveal_strlit("chatter_user_id");
            reveal_strlit("chatter_user_login");
            reveal_strlit("chatter_user_name");
            reveal_strlit("color");
            reveal_strlit("badges");
            reveal_strlit("system_message");
            reveal_strlit("message_id");
            reveal_strlit("message");
            reveal_strlit("notice_type");
            reveal_strlit("sub");
            reveal_strlit("resub");
            reveal_strlit("sub_gift");
            reveal_strlit("community_sub_gift");
            reveal_strlit("gift_paid_upgrade");
            reveal_strlit("prime_paid_upgrade");
            reveal_strlit("raid");
            reveal_strlit("unraid");
            reveal_strlit("pay_it_forward");
            reveal_strlit("announcement");
            reveal_strlit("bits_badge_tier");
            reveal_strlit("charity_donation");
            reveal_strlit("shared_chat_sub");
            reveal_strlit("shared_chat_resub");
            reveal_strlit("shared_chat_sub_gift");
            reveal_strlit("shared_community_sub_gift");
            reveal_strlit("shared_chat_gift_paid_upgrade");
            reveal_strlit("shared_chat_prime_paid_upgrade");
            reveal_strlit("shared_chat_raid");
            reveal_strlit("shared_chat_pay_it_forward");
            reveal_strlit("shared_chat_announcement");
            reveal_strlit("source_broadcaster_user_id");
            reveal_strlit("source_broadcaster_user_name");
            reveal_strlit("source_broadcaster_user_login");
            reveal_strlit("source_message_id");
            reveal_strlit("source_badges");
            assert("broadcaster_user_id"@.len() == 19);
            assert("broadcaster_user_login"@.len() == 22);
            assert("broadcaster_user_name"@.len() == 21);
            assert("chatter_user_id"@.len() == 15);
            assert("chatter_user_login"@.len() == 18);
            assert("chatter_user_name"@.len() == 17);
            assert("color"@.len() == 5);
            assert("badges"@.len() == 6);
            assert("system_message"@.len() == 14);
            assert("message_id"@.len() == 10);
            assert("message"@.len() == 7);
            assert("notice_type"@.len() == 11);
            assert("sub"@.len() == 3);
            assert("resub"@.len() == 5);
            assert("sub_gift"@.len() == 8);
            assert("community_sub_gift"@.len() == 18);
            assert("gift_paid_upgrade"@.len() == 17);
            assert("prime_paid_upgrade"@.len() == 18);
            assert("raid"@.len() == 4);
            assert("unraid"@.len() == 6);
            assert("pay_it_forward"@.len() == 14);
            assert("announcement"@.len() == 12);
            assert("bits_badge_tier"@.len() == 15);
            assert("charity_donation"@.len() == 16);
            assert("shared_chat_sub"@.len() == 15);
            assert("shared_chat_resub"@.len() == 17);
            assert("shared_chat_sub_gift"@.len() == 20);
            assert("shared_community_sub_gift"@.len() == 25);
            assert("shared_chat_gift_paid_upgrade"@.len() == 29);
            assert("shared_chat_prime_paid_upgrade"@.len() == 30);
            assert("shared_chat_raid"@.len() == 16);
            assert("shared_chat_pay_it_forward"@.len() == 26);
            assert("shared_chat_announcement"@.len() == 24);
            assert("source_broadcaster_user_id"@.len() == 26);
            assert("source_broadcaster_user_name"@.len() == 28);
            assert("source_broadcaster_user_login"@.len() == 29);
            assert("source_message_id"@.len() == 17);
            assert("source_badges"@.len() == 13);
            assert("chatter_user_id"@[0] != "bits_badge_tier"@[0]);
            assert("chatter_user_id"@[0] != "shared_chat_sub"@[0]);
            assert("chatter_user_login"@[1] != "community_sub_gift"@[1]);
            assert("chatter_user_login"@[0] != "prime_paid_upgrade"@[0]);
            assert("chatter_user_name"@[0] != "gift_paid_upgrade"@[0]);
            assert("chatter_user_name"@[0] != "shared_chat_resub"@[0]);
            assert("chatter_user_name"@[0] != "source_message_id"@[0]);
            assert("color"@[0] != "resub"@[0]);
            assert("badges"@[0] != "unraid"@[0]);
            assert("system_message"@[0] != "pay_it_forward"@[0]);
            assert("community_sub_gift"@[0] != "prime_paid_upgrade"@[0]);
            assert("gift_paid_upgrade"@[0] != "shared_chat_resub"@[0]);
            assert("gift_paid_upgrade"@[0] != "source_message_id"@[0]);
            assert("bits_badge_tier"@[0] != "shared_chat_sub"@[0]);
            assert("charity_donation"@[0] != "shared_chat_raid"@[0]);
            assert("shared_chat_resub"@[1] != "source_message_id"@[1]);
            assert("shared_chat_gift_paid_upgrade"@[1] != "source_broadcaster_user_login"@[1]);
            assert("shared_chat_pay_it_forward"@[1] != "source_broadcaster_user_id"@[1]);
        }
        let broadcaster_id_json = Json::Text(self.broadcaster.user_id.clone());
        let broadcaster_login_json = Json::Text(self.broadcaster.user_login.clone());
        let broadcaster_name_json = Json::Text(self.broadcaster.user_name.clone());
        let chatter_id_json = Json::Text(self.chatter.user_id.clone());
        let chatter_login_json = Json::Text(self.chatter.user_login.clone());
        let chatter_name_json = Json::Text(self.chatter.user_name.clone());
        let color_json = Json::Text(self.color.clone());
        let badges_json = Json::List(write_all(&self.badges));
        let system_message_json = Json::Text(self.system_message.clone());
        let message_id_json = Json::Text(self.message_id.clone());
        let message_json = self.message.to_json();
        put(&mut entries, "broadcaster_user_id", broadcaster_id_json);
        put(&mut entries, "broadcaster_user_login", broadcaster_login_json);
        put(&mut entries, "broadcaster_user_name", broadcaster_name_json);
        put(&mut entries, "chatter_user_id", chatter_id_json);
        put(&mut entries, "chatter_user_login", chatter_login_json);
        put(&mut entries, "chatter_user_name", chatter_name_json);
        put(&mut entries, "color", color_json);
        put(&mut entries, "badges", badges_json);
        put(&mut entries, "system_message", system_message_json);
        put(&mut entries, "message_id", message_id_json);
        put(&mut entries, "message", message_json);
        let ghost own = entries@;
        proof {
            assert(member(own, "broadcaster_user_id"@) == Some(broadcaster_id_json));
            assert(member(own, "broadcaster_user_login"@) == Some(broadcaster_login_json));
            assert(member(own, "broadcaster_user_name"@) == Some(broadcaster_name_json));
            assert(member(own, "chatter_user_id"@) == Some(chatter_id_json));
            assert(member(own, "chatter_user_login"@) == Some(chatter_login_json));
            assert(member(own, "chatter_user_name"@) == Some(chatter_name_json));
            assert(member(own, "color"@) == Some(color_json));
            assert(member(own, "badges"@) == Some(badges_json));
            assert(member(own, "system_message"@) == Some(system_message_json));
            assert(member(own, "message_id"@) == Some(message_id_json));
            assert(member(own, "message"@) == Some(message_json));
        }
        let mut notice_type_entries = self.notice_type.write();
        let ghost notice_type_json = Json::Object(notice_type_entries);
        let ghost before_notice_type = entries@;
        entries.append(&mut notice_type_entries);
        let mut source_entries = self.source.write();
        let ghost source_json = Json::Object(source_entries);
        let ghost before_source = entries@;
        entries.append(&mut source_entries);
        proof {
            let written = Json::Object(entries);
            assert forall|k: Seq<char>| member(own, k) is Some implies member(entries@, k)
                == member(own, k) by {
                lemma_member_append(before_notice_type, notice_type_json->Object_0@, k);
                lemma_member_append(before_source, source_json->Object_0@, k);
            }
            assert forall|k: Seq<char>| NoticeType::own_key(k) implies written.spec_get(k)
                == notice_type_json.spec_get(k) by {
                lemma_member_append(before_notice_type, notice_type_json->Object_0@, k);
                lemma_member_append(before_source, source_json->Object_0@, k);
                assert(member(own, k) is None);
                assert(!SharedMessage::own_key(k));
                assert(member(source_json->Object_0@, k) is None);
            }
            NoticeType::lemma_own_keys(written, notice_type_json, self.notice_type);
            assert forall|k: Seq<char>| SharedMessage::own_key(k) implies written.spec_get(k)
                == source_json.spec_get(k) by {
                lemma_member_append(before_notice_type, notice_type_json->Object_0@, k);
                lemma_member_append(before_source, source_json->Object_0@, k);
                assert(member(own, k) is None);
                assert(!NoticeType::own_key(k));
                assert(member(notice_type_json->Object_0@, k) is None);
            }
            SharedMessage::lemma_own_keys(written, source_json, self.source);
            assert(member(entries@, "broadcaster_user_id"@) == Some(broadcaster_id_json));
            assert(member(entries@, "broadcaster_user_login"@) == Some(broadcaster_login_json));
            assert(member(entries@, "broadcaster_user_name"@) == Some(broadcaster_name_json));
            assert(member(entries@, "chatter_user_id"@) == Some(chatter_id_json));
            assert(member(entries@, "chatter_user_login"@) == Some(chatter_login_json));
            assert(member(entries@, "chatter_user_name"@) == Some(chatter_name_json));
            assert(member(entries@, "color"@) == Some(color_json));
            assert(member(entries@, "badges"@) == Some(badges_json));
            assert(member(entries@, "system_message"@) == Some(system_message_json));
            assert(member(entries@, "message_id"@) == Some(message_id_json));
            assert(member(entries@, "message"@) == Some(message_json));
        }
        Json::Object(entries)
    }
}

/// An event of the category `channel.chat_settings.update`.
#[derive(Debug)]
pub struct ChatSettingsUpdate {
    pub broadcaster: User,
    pub emote_mode: bool,
    pub follower_mode_duration_minutes: Option<u32>,
    pub slow_mode_wait_time_seconds: Option<u32>,
    pub subscriber_mode: bool,
    pub unique_chat_mode: bool,
}

impl FromJson for ChatSettingsUpdate {
    open spec fn parses(j: Json) -> bool {
        &&& User::parses(
            j,
            "broadcaster_user_id"@,
            "broadcaster_user_login"@,
            "broadcaster_user_name"@,
        )
        &&& j.spec_flag("emote_mode"@) is Some
        &&& j.spec_optional_count32("follower_mode_duration_minutes"@) is Some
        &&& j.spec_optional_count32("slow_mode_wait_time_seconds"@) is Some
        &&& j.spec_flag("subscriber_mode"@) is Some
        &&& j.spec_flag("unique_chat_mode"@) is Some
    }

    open spec fn parsed_as(j: Json, v: ChatSettingsUpdate) -> bool {
        &&& User::parsed_as(
            j,
            "broadcaster_user_id"@,
            "broadcaster_user_login"@,
            "broadcaster_user_name"@,
            v.broadcaster,
        )
        &&& j.spec_flag("emote_mode"@) == Some(v.emote_mode)
        &&& j.spec_optional_count32("follower_mode_duration_minutes"@) == Some(
            v.follower_mode_duration_minutes,
        )
        &&& j.spec_optional_count32("slow_mode_wait_time_seconds"@) == Some(
            v.slow_mode_wait_time_seconds,
        )
        &&& j.spec_flag("subscriber_mode"@) == Some(v.subscriber_mode)
        &&& j.spec_flag("unique_chat_mode"@) == Some(v.unique_chat_mode)
    }

    fn from_json(j: &Json) -> (r: Option<ChatSettingsUpdate>) {
        let broadcaster = User::from_json(
            j,
            "broadcaster_user_id",
            "broadcaster_user_login",
            "broadcaster_user_name",
        );
        let emote_mode = j.flag("emote_mode");
        let follower_mode_duration_minutes = j.optional_count32("follower_mode_duration_minutes");
        let slow_mode_wait_time_seconds = j.optional_count32("slow_mode_wait_time_seconds");
        let subscriber_mode = j.flag("subscriber_mode");
        let unique_chat_mode = j.flag("unique_chat_mode");
        if broadcaster.is_some() && emote_mode.is_some()
            && follower_mode_duration_minutes.is_some() && slow_mode_wait_time_seconds.is_some()
            && subscriber_mode.is_some() && unique_chat_mode.is_some() {
            Some(
                ChatSettingsUpdate {
                    broadcaster: broadcaster.unwrap(),
                    emote_mode: emote_mode.unwrap(),
                    follower_mode_duration_minutes: follower_mode_duration_minutes.unwrap(),
                    slow_mode_wait_time_seconds: slow_mode_wait_time_seconds.unwrap(),
                    subscriber_mode: subscriber_mode.unwrap(),
                    unique_chat_mode: unique_chat_mode.unwrap(),
                },
            )
        } else {
            None
        }
    }
}

impl ToJson for ChatSettingsUpdate {
    fn to_json(&self) -> (r: Json) {
        let mut entries: Vec<(String, Json)> = Vec::new();
        proof {
            reveal_strlit("broadcaster_user_id");
            reveal_strlit("broadcaster_user_login");
            reveal_strlit("broadcaster_user_name");
            reveal_strlit("emote_mode");
            reveal_strlit("follower_mode_duration_minutes");
            reveal_strlit("slow_mode_wait_time_seconds");
            reveal_strlit("subscriber_mode");
            reveal_strlit("unique_chat_mode");
            assert("broadcaster_user_id"@.len() == 19);
            assert("broadcaster_user_login"@.len() == 22);
            assert("broadcaster_user_name"@.len() == 21);
            assert("emote_mode"@.len() == 10);
            assert("follower_mode_duration_minutes"@.len() == 30);
            assert("slow_mode_wait_time_seconds"@.len() == 27);
            assert("subscriber_mode"@.len() == 15);
            assert("unique_chat_mode"@.len() == 16);
        }
        let broadcaster_id_json = Json::Text(self.broadcaster.user_id.clone());
        let broadcaster_login_json = Json::Text(self.broadcaster.user_login.clone());
        let broadcaster_name_json = Json::Text(self.broadcaster.user_name.clone());
        let emote_mode_json = Json::Bool(self.emote_mode);
        let follower_mode_duration_minutes_json = optional_count32_json(
            &self.follower_mode_duration_minutes,
        );
        let slow_mode_wait_time_seconds_json = optional_count32_json(
            &self.slow_mode_wait_time_seconds,
        );
        let subscriber_mode_json = Json::Bool(self.subscriber_mode);
        let unique_chat_mode_json = Json::Bool(self.unique_chat_mode);
        put(&mut entries, "broadcaster_user_id", broadcaster_id_json);
        put(&mut entries, "broadcaster_user_login", broadcaster_login_json);
        put(&mut entries, "broadcaster_user_name", broadcaster_name_json);
        put(&mut entries, "emote_mode", emote_mode_json);
        put(&mut entries, "follower_mode_duration_minutes", follower_mode_duration_minutes_json);
        put(&mut entries, "slow_mode_wait_time_seconds", slow_mode_wait_time_seconds_json);
        put(&mut entries, "subscriber_mode", subscriber_mode_json);
        put(&mut entries, "unique_chat_mode", unique_chat_mode_json);
        proof {
            assert(member(entries@, "broadcaster_user_id"@) == Some(broadcaster_id_json));
            assert(member(entries@, "broadcaster_user_login"@) == Some(broadcaster_login_json));
            assert(member(entries@, "broadcaster_user_name"@) == Some(broadcaster_name_json));
            assert(member(entries@, "emote_mode"@) == Some(emote_mode_json));
            assert(member(entries@, "follower_mode_duration_minutes"@)
                == Some(follower_mode_duration_minutes_json));
            assert(member(entries@, "slow_mode_wait_time_seconds"@)
                == Some(slow_mode_wait_time_seconds_json));
            assert(member(entries@, "subscriber_mode"@) == Some(subscriber_mode_json));
            assert(member(entries@, "unique_chat_mode"@) == Some(unique_chat_mode_json));
        }
        Json::Object(entries)
    }
}

/// An event of the category `channel.chat.user_message_hold`.
#[derive(Debug)]
pub struct ChatUserMessageHold {
    pub broadcaster: User,
    pub user: User,
    pub message_id: String,
    pub message: Message,
}

impl FromJson for ChatUserMessageHold {
    open spec fn parses(j: Json) -> bool {
        &&& User::parses(
            j,
            "broadcaster_user_id"@,
            "broadcaster_user_login"@,
            "broadcaster_user_name"@,
        )
        &&& User::parses(j, "user_id"@, "user_login"@, "user_name"@)
        &&& j.spec_text("message_id"@) is Some
        &&& member_parses::<Message>(j, "message"@)
    }

    open spec fn parsed_as(j: Json, v: ChatUserMessageHold) -> bool {
        &&& User::parsed_as(
            j,
            "broadcaster_user_id"@,
            "broadcaster_user_login"@,
            "broadcaster_user_name"@,
            v.broadcaster,
        )
        &&& User::parsed_as(j, "user_id"@, "user_login"@, "user_name"@, v.user)
        &&& j.spec_text("message_id"@) == Some(v.message_id)
        &&& member_parsed_as(j, "message"@, v.message)
    }

    fn from_json(j: &Json) -> (r: Option<ChatUserMessageHold>) {
        let broadcaster = User::from_json(
            j,
            "broadcaster_user_id",
            "broadcaster_user_login",
            "broadcaster_user_name",
        );
        let user = User::from_json(j, "user_id", "user_login", "user_name");
        let message_id = j.text("message_id");
        let message = read_member::<Message>(j, "message");
        if broadcaster.is_some() && user.is_some() && message_id.is_some() && message.is_some() {
            Some(
                ChatUserMessageHold {
                    broadcaster: broadcaster.unwrap(),
                    user: user.unwrap(),
                    message_id: message_id.unwrap(),
                    message: message.unwrap(),
                },
            )
        } else {
            None
        }
    }
}

impl ToJson for ChatUserMessageHold {
    fn to_json(&self) -> (r: Json) {
        let mut entries: Vec<(String, Json)> = Vec::new();
        proof {
            reveal_strlit("broadcaster_user_id");
            reveal_strlit("broadcaster_user_login");
            reveal_strlit("broadcaster_user_name");
            reveal_strlit("user_id");
            reveal_strlit("user_login");
            reveal_strlit("user_name");
            reveal_strlit("message_id");
            reveal_strlit("message");
            assert("broadcaster_user_id"@.len() == 19);
            assert("broadcaster_user_login"@.len() == 22);
            assert("broadcaster_user_name"@.len() == 21);
            assert("user_id"@.len() == 7);
            assert("user_login"@.len() == 10);
            assert("user_name"@.len() == 9);
            assert("message_id"@.len() == 10);
            assert("message"@.len() == 7);
            assert("user_id"@[0] != "message"@[0]);
            assert("user_login"@[0] != "message_id"@[0]);
        }
        let broadcaster_id_json = Json::Text(self.broadcaster.user_id.clone());
        let broadcaster_login_json = Json::Text(self.broadcaster.user_login.clone());
        let broadcaster_name_json = Json::Text(self.broadcaster.user_name.clone());
        let user_id_json = Json::Text(self.user.user_id.clone());
        let user_login_json = Json::Text(self.user.user_login.clone());
        let user_name_json = Json::Text(self.user.user_name.clone());
        let message_id_json = Json::Text(self.message_id.clone());
        let message_json = self.message.to_json();
        put(&mut entries, "broadcaster_user_id", broadcaster_id_json);
        put(&mut entries, "broadcaster_user_login", broadcaster_login_json);
        put(&mut entries, "broadcaster_user_name", broadcaster_name_json);
        put(&mut entries, "user_id", user_id_json);
        put(&mut entries, "user_login", user_login_json);
        put(&mut entries, "user_name", user_name_json);
        put(&mut entries, "message_id", message_id_json);
        put(&mut entries, "message", message_json);
        proof {
            assert(member(entries@, "broadcaster_user_id"@) == Some(broadcaster_id_json));
            assert(member(entries@, "broadcaster_user_login"@) == Some(broadcaster_login_json));
            assert(member(entries@, "broadcaster_user_name"@) == Some(broadcaster_name_json));
            assert(member(entries@, "user_id"@) == Some(user_id_json));
            assert(member(entries@, "user_login"@) == Some(user_login_json));
            assert(member(entries@, "user_name"@) == Some(user_name_json));
            assert(member(entries@, "message_id"@) == Some(message_id_json));
            assert(member(entries@, "message"@) == Some(message_json));
        }
        Json::Object(entries)
    }
}

/// An event of the category `channel.chat.user_message_update`.
#[derive(Debug)]
pub struct ChatUserMessageUpdate {
    pub broadcaster: User,
    pub user: User,
    pub status: UpdateStatus,
    pub message_id: String,
    pub message: Message,
}

impl FromJson for ChatUserMessageUpdate {
    open spec fn parses(j: Json) -> bool {
        &&& User::parses(
            j,
            "broadcaster_user_id"@,
            "broadcaster_user_login"@,
            "broadcaster_user_name"@,
        )
        &&& User::parses(j, "user_id"@, "user_login"@, "user_name"@)
        &&& member_parses::<UpdateStatus>(j, "status"@)
        &&& j.spec_text("message_id"@) is Some
        &&& member_parses::<Message>(j, "message"@)
    }

    open spec fn parsed_as(j: Json, v: ChatUserMessageUpdate) -> bool {
        &&& User::parsed_as(
            j,
            "broadcaster_user_id"@,
            "broadcaster_user_login"@,
            "broadcaster_user_name"@,
            v.broadcaster,
        )
        &&& User::parsed_as(j, "user_id"@, "user_login"@, "user_name"@, v.user)
        &&& member_parsed_as(j, "status"@, v.status)
        &&& j.spec_text("message_id"@) == Some(v.message_id)
        &&& member_parsed_as(j, "message"@, v.message)
    }

    fn from_json(j: &Json) -> (r: Option<ChatUserMessageUpdate>) {
        let broadcaster = User::from_json(
            j,
            "broadcaster_user_id",
            "broadcaster_user_login",
            "broadcaster_user_name",
        );
        let user = User::from_json(j, "user_id", "user_login", "user_name");
        let status = read_member::<UpdateStatus>(j, "status");
        let message_id = j.text("message_id");
        let message = read_member::<Message>(j, "message");
        if broadcaster.is_some() && user.is_some() && status.is_some() && message_id.is_some()
            && message.is_some() {
            Some(
                ChatUserMessageUpdate {
                    broadcaster: broadcaster.unwrap(),
                    user: user.unwrap(),
                    status: status.unwrap(),
                    message_id: message_id.unwrap(),
                    message: message.unwrap(),
                },
            )
        } else {
            None
        }
    }
}

impl ToJson for ChatUserMessageUpdate {
    fn to_json(&self) -> (r: Json) {
        let mut entries: Vec<(String, Json)> = Vec::new();
        proof {
            reveal_strlit("broadcaster_user_id");
            reveal_strlit("broadcaster_user_login");
            reveal_strlit("broadcaster_user_name");
            reveal_strlit("user_id");
            reveal_strlit("user_login");
            reveal_strlit("user_name");
            reveal_strlit("status");
            reveal_strlit("message_id");
            reveal_strlit("message");
            assert("broadcaster_user_id"@.len() == 19);
            assert("broadcaster_user_login"@.len() == 22);
            assert("broadcaster_user_name"@.len() == 21);
            assert("user_id"@.len() == 7);
            assert("user_login"@.len() == 10);
            assert("user_name"@.len() == 9);
            assert("status"@.len() == 6);
            assert("message_id"@.len() == 10);
            assert("message"@.len() == 7);
            assert("user_id"@[0] != "message"@[0]);
            assert("user_login"@[0] != "message_id"@[0]);
        }
        let broadcaster_id_json = Json::Text(self.broadcaster.user_id.clone());
        let broadcaster_login_json = Json::Text(self.broadcaster.user_login.clone());
        let broadcaster_name_json = Json::Text(self.broadcaster.user_name.clone());
        let user_id_json = Json::Text(self.user.user_id.clone());
        let user_login_json = Json::Text(self.user.user_login.clone());
        let user_name_json = Json::Text(self.user.user_name.clone());
        let status_json = self.status.to_json();
        let message_id_json = Json::Text(self.message_id.clone());
        let message_json = self.message.to_json();
        put(&mut entries, "broadcaster_user_id", broadcaster_id_json);
        put(&mut entries, "broadcaster_user_login", broadcaster_login_json);
        put(&mut entries, "broadcaster_user_name", broadcaster_name_json);
        put(&mut entries, "user_id", user_id_json);
        put(&mut entries, "user_login", user_login_json);
        put(&mut entries, "user_name", user_name_json);
        put(&mut entries, "status", status_json);
        put(&mut entries, "message_id", message_id_json);
        put(&mut entries, "message", message_json);
        proof {
            assert(member(entries@, "broadcaster_user_id"@) == Some(broadcaster_id_json));
            assert(member(entries@, "broadcaster_user_login"@) == Some(broadcaster_login_json));
            assert(member(entries@, "broadcaster_user_name"@) == Some(broadcaster_name_json));
            assert(member(entries@, "user_id"@) == Some(user_id_json));
            assert(member(entries@, "user_login"@) == Some(user_login_json));
            assert(member(entries@, "user_name"@) == Some(user_name_json));
            assert(member(entries@, "status"@) == Some(status_json));
            assert(member(entries@, "message_id"@) == Some(message_id_json));
            assert(member(entries@, "message"@) == Some(message_json));
        }
        Json::Object(entries)
    }
}

#[derive(Clone, Copy, Debug, PartialEq, Eq, Structural)]
pub enum MessageType {
    Text,
    ChannelPointsHighlighted,
    ChannelPointsSubOnly,
    UserInto,
    PowerUpsMessageEffect,
    PowerUpsGigantifiedEmote,
}

impl MessageType {
    /// The value that a name stands for.
    pub open spec fn spec_named(name: Seq<char>) -> Option<MessageType> {
        if name == "text"@ {
            Some(MessageType::Text)
        } else if name == "channel_points_highlighted"@ {
            Some(MessageType::ChannelPointsHighlighted)
        } else if name == "channel_points_sub_only"@ {
            Some(MessageType::ChannelPointsSubOnly)
        } else if name == "user_into"@ {
            Some(MessageType::UserInto)
        } else if name == "power_ups_message_effect"@ {
            Some(MessageType::PowerUpsMessageEffect)
        } else if name == "power_ups_gigantified_emote"@ {
            Some(MessageType::PowerUpsGigantifiedEmote)
        } else {
            None
        }
    }

    /// The value that a name stands for.
    pub fn named(name: &str) -> (r: Option<MessageType>)
        ensures
            r == Self::spec_named(name@),
    {
        if same_text(name, "text") {
            Some(MessageType::Text)
        } else if same_text(name, "channel_points_highlighted") {
            Some(MessageType::ChannelPointsHighlighted)
        } else if same_text(name, "channel_points_sub_only") {
            Some(MessageType::ChannelPointsSubOnly)
        } else if same_text(name, "user_into") {
            Some(MessageType::UserInto)
        } else if same_text(name, "power_ups_message_effect") {
            Some(MessageType::PowerUpsMessageEffect)
        } else if same_text(name, "power_ups_gigantified_emote") {
            Some(MessageType::PowerUpsGigantifiedEmote)
        } else {
            None
        }
    }
}

impl FromJson for MessageType {
    open spec fn parses(j: Json) -> bool {
        j matches Json::Text(s) && Self::spec_named(s@) is Some
    }

    open spec fn parsed_as(j: Json, v: MessageType) -> bool {
        j matches Json::Text(s) && Self::spec_named(s@) == Some(v)
    }

    fn from_json(j: &Json) -> (r: Option<MessageType>) {
        match j {
            Json::Text(s) => Self::named(s.as_str()),
            _ => None,
        }
    }
}

impl MessageType {
    /// The name that stands for the value.
    pub fn name(&self) -> (r: &'static str)
        ensures
            Self::spec_named(r@) == Some(*self),
    {
        proof {
            reveal_strlit("text");
            reveal_strlit("channel_points_highlighted");
            reveal_strlit("channel_points_sub_only");
            reveal_strlit("user_into");
            reveal_strlit("power_ups_message_effect");
            reveal_strlit("power_ups_gigantified_emote");
            assert("text"@.len() == 4);
            assert("channel_points_highlighted"@.len() == 26);
            assert("channel_points_sub_only"@.len() == 23);
            assert("user_into"@.len() == 9);
            assert("power_ups_message_effect"@.len() == 24);
            assert("power_ups_gigantified_emote"@.len() == 27);
        }
        match self {
            MessageType::Text => "text",
            MessageType::ChannelPointsHighlighted => "channel_points_highlighted",
            MessageType::ChannelPointsSubOnly => "channel_points_sub_only",
            MessageType::UserInto => "user_into",
            MessageType::PowerUpsMessageEffect => "power_ups_message_effect",
            MessageType::PowerUpsGigantifiedEmote => "power_ups_gigantified_emote",
        }
    }
}

impl ToJson for MessageType {
    fn to_json(&self) -> (r: Json) {
        Json::Text(self.name().to_owned())
    }
}

#[derive(Debug)]
pub struct CheerInfo {
    pub bits: u32,
}

impl FromJson for CheerInfo {
    open spec fn parses(j: Json) -> bool {
        &&& j.spec_count32("bits"@) is Some
    }

    open spec fn parsed_as(j: Json, v: CheerInfo) -> bool {
        &&& j.spec_count32("bits"@) == Some(v.bits)
    }

    fn from_json(j: &Json) -> (r: Option<CheerInfo>) {
        let bits = j.count32("bits");
        if bits.is_some() {
            Some(CheerInfo { bits: bits.unwrap() })
        } else {
            None
        }
    }
}

impl ToJson for CheerInfo {
    fn to_json(&self) -> (r: Json) {
        let mut entries: Vec<(String, Json)> = Vec::new();
        proof {
            reveal_strlit("bits");
            assert("bits"@.len() == 4);
        }
        let bits_json = count_json(self.bits as u64);
        put(&mut entries, "bits", bits_json);
        proof {
            assert(member(entries@, "bits"@) == Some(bits_json));
        }
        Json::Object(entries)
    }
}

#[derive(Debug)]
pub struct Reply {
    pub parent: User,
    pub parent_message_id: String,
    pub parent_message_body: String,
    pub thread: User,
    pub thread_message_id: String,
}

impl FromJson for Reply {
    open spec fn parses(j: Json) -> bool {
        &&& User::parses(j, "parent_user_id"@, "parent_user_login"@, "parent_user_name"@)
        &&& j.spec_text("parent_message_id"@) is Some
        &&& j.spec_text("parent_message_body"@) is Some
        &&& User::parses(j, "thread_user_id"@, "thread_user_login"@, "thread_user_name"@)
        &&& j.spec_text("thread_message_id"@) is Some
    }

    open spec fn parsed_as(j: Json, v: Reply) -> bool {
        &&& User::parsed_as(
            j,
            "parent_user_id"@,
            "parent_user_login"@,
            "parent_user_name"@,
            v.parent,
        )
        &&& j.spec_text("parent_message_id"@) == Some(v.parent_message_id)
        &&& j.spec_text("parent_message_body"@) == Some(v.parent_message_body)
        &&& User::parsed_as(
            j,
            "thread_user_id"@,
            "thread_user_login"@,
            "thread_user_name"@,
            v.thread,
        )
        &&& j.spec_text("thread_message_id"@) == Some(v.thread_message_id)
    }

    fn from_json(j: &Json) -> (r: Option<Reply>) {
        let parent = User::from_json(j, "parent_user_id", "parent_user_login", "parent_user_name");
        let parent_message_id = j.text("parent_message_id");
        let parent_message_body = j.text("parent_message_body");
        let thread = User::from_json(j, "thread_user_id", "thread_user_login", "thread_user_name");
        let thread_message_id = j.text("thread_message_id");
        if parent.is_some() && parent_message_id.is_some() && parent_message_body.is_some()
            && thread.is_some() && thread_message_id.is_some() {
            Some(
                Reply {
                    parent: parent.unwrap(),
                    parent_message_id: parent_message_id.unwrap(),
                    parent_message_body: parent_message_body.unwrap(),
                    thread: thread.unwrap(),
                    thread_message_id: thread_message_id.unwrap(),
                },
            )
        } else {
            None
        }
    }
}

impl ToJson for Reply {
    fn to_json(&self) -> (r: Json) {
        let mut entries: Vec<(String, Json)> = Vec::new();
        proof {
            reveal_strlit("parent_user_id");
            reveal_strlit("parent_user_login");
            reveal_strlit("parent_user_name");
            reveal_strlit("parent_message_id");
            reveal_strlit("parent_message_body");
            reveal_strlit("thread_user_id");
            reveal_strlit("thread_user_login");
            reveal_strlit("thread_user_name");
            reveal_strlit("thread_message_id");
            assert("parent_user_id"@.len() == 14);
            assert("parent_user_login"@.len() == 17);
            assert("parent_user_name"@.len() == 16);
            assert("parent_message_id"@.len() == 17);
            assert("parent_message_body"@.len() == 19);
            assert("thread_user_id"@.len() == 14);
            assert("thread_user_login"@.len() == 17);
            assert("thread_user_name"@.len() == 16);
            assert("thread_message_id"@.len() == 17);
            assert("parent_user_id"@[0] != "thread_user_id"@[0]);
            assert("parent_user_login"@[7] != "parent_message_id"@[7]);
            assert("parent_user_login"@[0] != "thread_user_login"@[0]);
            assert("parent_user_login"@[0] != "thread_message_id"@[0]);
            assert("parent_user_name"@[0] != "thread_user_name"@[0]);
            assert("parent_message_id"@[0] != "thread_user_login"@[0]);
            assert("parent_message_id"@[0] != "thread_message_id"@[0]);
            assert("thread_user_login"@[7] != "thread_message_id"@[7]);
        }
        let parent_id_json = Json::Text(self.parent.user_id.clone());
        let parent_login_json = Json::Text(self.parent.user_login.clone());
        let parent_name_json = Json::Text(self.parent.user_name.clone());
        let parent_message_id_json = Json::Text(self.parent_message_id.clone());
        let parent_message_body_json = Json::Text(self.parent_message_body.clone());
        let thread_id_json = Json::Text(self.thread.user_id.clone());
        let thread_login_json = Json::Text(self.thread.user_login.clone());
        let thread_name_json = Json::Text(self.thread.user_name.clone());
        let thread_message_id_json = Json::Text(self.thread_message_id.clone());
        put(&mut entries, "parent_user_id", parent_id_json);
        put(&mut entries, "parent_user_login", parent_login_json);
        put(&mut entries, "parent_user_name", parent_name_json);
        put(&mut entries, "parent_message_id", parent_message_id_json);
        put(&mut entries, "parent_message_body", parent_message_body_json);
        put(&mut entries, "thread_user_id", thread_id_json);
        put(&mut entries, "thread_user_login", thread_login_json);
        put(&mut entries, "thread_user_name", thread_name_json);
        put(&mut entries, "thread_message_id", thread_message_id_json);
        proof {
            assert(member(entries@, "parent_user_id"@) == Some(parent_id_json));
            assert(member(entries@, "parent_user_login"@) == Some(parent_login_json));
            assert(member(entries@, "parent_user_name"@) == Some(parent_name_json));
            assert(member(entries@, "parent_message_id"@) == Some(parent_message_id_json));
            assert(member(entries@, "parent_message_body"@) == Some(parent_message_body_json));
            assert(member(entries@, "thread_user_id"@) == Some(thread_id_json));
            assert(member(entries@, "thread_user_login"@) == Some(thread_login_json));
            assert(member(entries@, "thread_user_name"@) == Some(thread_name_json));
            assert(member(entries@, "thread_message_id"@) == Some(thread_message_id_json));
        }
        Json::Object(entries)
    }
}

#[derive(Debug)]
pub struct Badge {
    pub set_id: String,
    pub id: String,
    pub info: String,
}

impl FromJson for Badge {
    open spec fn parses(j: Json) -> bool {
        &&& j.spec_text("set_id"@) is Some
        &&& j.spec_text("id"@) is Some
        &&& j.spec_text("info"@) is Some
    }

    open spec fn parsed_as(j: Json, v: Badge) -> bool {
        &&& j.spec_text("set_id"@) == Some(v.set_id)
        &&& j.spec_text("id"@) == Some(v.id)
        &&& j.spec_text("info"@) == Some(v.info)
    }

    fn from_json(j: &Json) -> (r: Option<Badge>) {
        let set_id = j.text("set_id");
        let id = j.text("id");
        let info = j.text("info");
        if set_id.is_some() && id.is_some() && info.is_some() {
            Some(Badge { set_id: set_id.unwrap(), id: id.unwrap(), info: info.unwrap() })
        } else {
            None
        }
    }
}

impl ToJson for Badge {
    fn to_json(&self) -> (r: Json) {
        let mut entries: Vec<(String, Json)> = Vec::new();
        proof {
            reveal_strlit("set_id");
            reveal_strlit("id");
            reveal_strlit("info");
            assert("set_id"@.len() == 6);
            assert("id"@.len() == 2);
            assert("info"@.len() == 4);
        }
        let set_id_json = Json::Text(self.set_id.clone());
        let id_json = Json::Text(self.id.clone());
        let info_json = Json::Text(self.info.clone());
        put(&mut entries, "set_id", set_id_json);
        put(&mut entries, "id", id_json);
        put(&mut entries, "info", info_json);
        proof {
            assert(member(entries@, "set_id"@) == Some(set_id_json));
            assert(member(entries@, "id"@) == Some(id_json));
            assert(member(entries@, "info"@) == Some(info_json));
        }
        Json::Object(entries)
    }
}

/// Told apart by the member `notice_type`.
#[derive(Debug)]
pub enum NoticeType {
    Sub { sub: SubNotice },
    Resub { resub: ResubNotice },
    SubGift { sub_gift: SubGiftNotice },
    CommunitySubGift { community_sub_gift: CommunitySubGiftNotice },
    GiftPaidUpgrade { gift_paid_upgrade: GiftUpgradeNotice },
    PrimePaidUpgrade { prime_paid_upgrade: PrimePaidUpgradeNotice },
    Raid { raid: RaidNotice },
    Unraid { unraid: UnraidNotice },
    PayItForward { pay_it_forward: GiftUpgradeNotice },
    Announcement { announcement: AnnouncementNotice },
    BitsBandTier { bits_badge_tier: BitsBadgeTierNotice },
    CharityDonation { charity_donation: CharityDonationNotice },
    SharedChatSub { shared_chat_sub: SubNotice },
    SharedChatResub { shared_chat_resub: ResubNotice },
    SharedChatSubGift { shared_chat_sub_gift: SubGiftNotice },
    SharedChatCommunitySubGift { shared_community_sub_gift: CommunitySubGiftNotice },
    SharedChatGiftPaidUpgrade { shared_chat_gift_paid_upgrade: GiftUpgradeNotice },
    SharedChatPrimePaidUpgrade { shared_chat_prime_paid_upgrade: PrimePaidUpgradeNotice },
    SharedChatRaid { shared_chat_raid: RaidNotice },
    SharedChatPayItForward { shared_chat_pay_it_forward: GiftUpgradeNotice },
    SharedChatAnnouncement { shared_chat_announcement: AnnouncementNotice },
}

impl FromJson for NoticeType {
    open spec fn parses(j: Json) -> bool {
        match j.spec_text("notice_type"@) {
            Some(tag) => if tag@ == "sub"@ {
                member_parses::<SubNotice>(j, "sub"@)
            } else if tag@ == "resub"@ {
                member_parses::<ResubNotice>(j, "resub"@)
            } else if tag@ == "sub_gift"@ {
                member_parses::<SubGiftNotice>(j, "sub_gift"@)
            } else if tag@ == "community_sub_gift"@ {
                member_parses::<CommunitySubGiftNotice>(j, "community_sub_gift"@)
            } else if tag@ == "gift_paid_upgrade"@ {
                member_parses::<GiftUpgradeNotice>(j, "gift_paid_upgrade"@)
            } else if tag@ == "prime_paid_upgrade"@ {
                member_parses::<PrimePaidUpgradeNotice>(j, "prime_paid_upgrade"@)
            } else if tag@ == "raid"@ {
                member_parses::<RaidNotice>(j, "raid"@)
            } else if tag@ == "unraid"@ {
                member_parses::<UnraidNotice>(j, "unraid"@)
            } else if tag@ == "pay_it_forward"@ {
                member_parses::<GiftUpgradeNotice>(j, "pay_it_forward"@)
            } else if tag@ == "announcement"@ {
                member_parses::<AnnouncementNotice>(j, "announcement"@)
            } else if tag@ == "bits_band_tier"@ {
                member_parses::<BitsBadgeTierNotice>(j, "bits_badge_tier"@)
            } else if tag@ == "charity_donation"@ {
                member_parses::<CharityDonationNotice>(j, "charity_donation"@)
            } else if tag@ == "shared_chat_sub"@ {
                member_parses::<SubNotice>(j, "shared_chat_sub"@)
            } else if tag@ == "shared_chat_resub"@ {
                member_parses::<ResubNotice>(j, "shared_chat_resub"@)
            } else if tag@ == "shared_chat_sub_gift"@ {
                member_parses::<SubGiftNotice>(j, "shared_chat_sub_gift"@)
            } else if tag@ == "shared_chat_community_sub_gift"@ {
                member_parses::<CommunitySubGiftNotice>(j, "shared_community_sub_gift"@)
            } else if tag@ == "shared_chat_gift_paid_upgrade"@ {
                member_parses::<GiftUpgradeNotice>(j, "shared_chat_gift_paid_upgrade"@)
            } else if tag@ == "shared_chat_prime_paid_upgrade"@ {
                member_parses::<PrimePaidUpgradeNotice>(j, "shared_chat_prime_paid_upgrade"@)
            } else if tag@ == "shared_chat_raid"@ {
                member_parses::<RaidNotice>(j, "shared_chat_raid"@)
            } else if tag@ == "shared_chat_pay_it_forward"@ {
                member_parses::<GiftUpgradeNotice>(j, "shared_chat_pay_it_forward"@)
            } else if tag@ == "shared_chat_announcement"@ {
                member_parses::<AnnouncementNotice>(j, "shared_chat_announcement"@)
            } else {
                false
            },
            None => false,
        }
    }

    open spec fn parsed_as(j: Json, v: NoticeType) -> bool {
        match j.spec_text("notice_type"@) {
            Some(tag) => if tag@ == "sub"@ {
                v matches NoticeType::Sub { sub } && member_parsed_as(j, "sub"@, sub)
            } else if tag@ == "resub"@ {
                v matches NoticeType::Resub { resub } && member_parsed_as(j, "resub"@, resub)
            } else if tag@ == "sub_gift"@ {
                v matches NoticeType::SubGift { sub_gift }
                    && member_parsed_as(j, "sub_gift"@, sub_gift)
            } else if tag@ == "community_sub_gift"@ {
                v matches NoticeType::CommunitySubGift { community_sub_gift }
                    && member_parsed_as(j, "community_sub_gift"@, community_sub_gift)
            } else if tag@ == "gift_paid_upgrade"@ {
                v matches NoticeType::GiftPaidUpgrade { gift_paid_upgrade }
                    && member_parsed_as(j, "gift_paid_upgrade"@, gift_paid_upgrade)
            } else if tag@ == "prime_paid_upgrade"@ {
                v matches NoticeType::PrimePaidUpgrade { prime_paid_upgrade }
                    && member_parsed_as(j, "prime_paid_upgrade"@, prime_paid_upgrade)
            } else if tag@ == "raid"@ {
                v matches NoticeType::Raid { raid } && member_parsed_as(j, "raid"@, raid)
            } else if tag@ == "unraid"@ {
                v matches NoticeType::Unraid { unraid } && member_parsed_as(j, "unraid"@, unraid)
            } else if tag@ == "pay_it_forward"@ {
                v matches NoticeType::PayItForward { pay_it_forward }
                    && member_parsed_as(j, "pay_it_forward"@, pay_it_forward)
            } else if tag@ == "announcement"@ {
                v matches NoticeType::Announcement { announcement }
                    && member_parsed_as(j, "announcement"@, announcement)
            } else if tag@ == "bits_band_tier"@ {
                v matches NoticeType::BitsBandTier { bits_badge_tier }
                    && member_parsed_as(j, "bits_badge_tier"@, bits_badge_tier)
            } else if tag@ == "charity_donation"@ {
                v matches NoticeType::CharityDonation { charity_donation }
                    && member_parsed_as(j, "charity_donation"@, charity_donation)
            } else if tag@ == "shared_chat_sub"@ {
                v matches NoticeType::SharedChatSub { shared_chat_sub }
                    && member_parsed_as(j, "shared_chat_sub"@, shared_chat_sub)
            } else if tag@ == "shared_chat_resub"@ {
                v matches NoticeType::SharedChatResub { shared_chat_resub }
                    && member_parsed_as(j, "shared_chat_resub"@, shared_chat_resub)
            } else if tag@ == "shared_chat_sub_gift"@ {
                v matches NoticeType::SharedChatSubGift { shared_chat_sub_gift }
                    && member_parsed_as(j, "shared_chat_sub_gift"@, shared_chat_sub_gift)
            } else if tag@ == "shared_chat_community_sub_gift"@ {
                v matches NoticeType::SharedChatCommunitySubGift { shared_community_sub_gift }
                    && member_parsed_as(j, "shared_community_sub_gift"@, shared_community_sub_gift)
            } else if tag@ == "shared_chat_gift_paid_upgrade"@ {
                v matches NoticeType::SharedChatGiftPaidUpgrade { shared_chat_gift_paid_upgrade } && member_parsed_as(
                    j,
                    "shared_chat_gift_paid_upgrade"@,
                    shared_chat_gift_paid_upgrade,
                )
            } else if tag@ == "shared_chat_prime_paid_upgrade"@ {
                v matches NoticeType::SharedChatPrimePaidUpgrade { shared_chat_prime_paid_upgrade } && member_parsed_as(
                    j,
                    "shared_chat_prime_paid_upgrade"@,
                    shared_chat_prime_paid_upgrade,
                )
            } else if tag@ == "shared_chat_raid"@ {
                v matches NoticeType::SharedChatRaid { shared_chat_raid }
                    && member_parsed_as(j, "shared_chat_raid"@, shared_chat_raid)
            } else if tag@ == "shared_chat_pay_it_forward"@ {
                v matches NoticeType::SharedChatPayItForward { shared_chat_pay_it_forward }
                    && member_parsed_as(
                        j,
                        "shared_chat_pay_it_forward"@,
                        shared_chat_pay_it_forward,
                    )
            } else if tag@ == "shared_chat_announcement"@ {
                v matches NoticeType::SharedChatAnnouncement { shared_chat_announcement }
                    && member_parsed_as(j, "shared_chat_announcement"@, shared_chat_announcement)
            } else {
                false
            },
            None => false,
        }
    }

    fn from_json(j: &Json) -> (r: Option<NoticeType>) {
        match j.text("notice_type") {
            Some(tag) => if same_text(tag.as_str(), "sub") {
                let sub = read_member::<SubNotice>(j, "sub");
                if sub.is_some() {
                    Some(NoticeType::Sub { sub: sub.unwrap() })
                } else {
                    None
                }
            } else if same_text(tag.as_str(), "resub") {
                let resub = read_member::<ResubNotice>(j, "resub");
                if resub.is_some() {
                    Some(NoticeType::Resub { resub: resub.unwrap() })
                } else {
                    None
                }
            } else if same_text(tag.as_str(), "sub_gift") {
                let sub_gift = read_member::<SubGiftNotice>(j, "sub_gift");
                if sub_gift.is_some() {
                    Some(NoticeType::SubGift { sub_gift: sub_gift.unwrap() })
                } else {
                    None
                }
            } else if same_text(tag.as_str(), "community_sub_gift") {
                let community_sub_gift = read_member::<CommunitySubGiftNotice>(
                    j,
                    "community_sub_gift",
                );
                if community_sub_gift.is_some() {
                    Some(
                        NoticeType::CommunitySubGift {
                            community_sub_gift: community_sub_gift.unwrap(),
                        },
                    )
                } else {
                    None
                }
            } else if same_text(tag.as_str(), "gift_paid_upgrade") {
                let gift_paid_upgrade = read_member::<GiftUpgradeNotice>(j, "gift_paid_upgrade");
                if gift_paid_upgrade.is_some() {
                    Some(
                        NoticeType::GiftPaidUpgrade {
                            gift_paid_upgrade: gift_paid_upgrade.unwrap(),
                        },
                    )
                } else {
                    None
                }
            } else if same_text(tag.as_str(), "prime_paid_upgrade") {
                let prime_paid_upgrade = read_member::<PrimePaidUpgradeNotice>(
                    j,
                    "prime_paid_upgrade",
                );
                if prime_paid_upgrade.is_some() {
                    Some(
                        NoticeType::PrimePaidUpgrade {
                            prime_paid_upgrade: prime_paid_upgrade.unwrap(),
                        },
                    )
                } else {
                    None
                }
            } else if same_text(tag.as_str(), "raid") {
                let raid = read_member::<RaidNotice>(j, "raid");
                if raid.is_some() {
                    Some(NoticeType::Raid { raid: raid.unwrap() })
                } else {
                    None
                }
            } else if same_text(tag.as_str(), "unraid") {
                let unraid = read_member::<UnraidNotice>(j, "unraid");
                if unraid.is_some() {
                    Some(NoticeType::Unraid { unraid: unraid.unwrap() })
                } else {
                    None
                }
            } else if same_text(tag.as_str(), "pay_it_forward") {
                let pay_it_forward = read_member::<GiftUpgradeNotice>(j, "pay_it_forward");
                if pay_it_forward.is_some() {
                    Some(NoticeType::PayItForward { pay_it_forward: pay_it_forward.unwrap() })
                } else {
                    None
                }
            } else if same_text(tag.as_str(), "announcement") {
                let announcement = read_member::<AnnouncementNotice>(j, "announcement");
                if announcement.is_some() {
                    Some(NoticeType::Announcement { announcement: announcement.unwrap() })
                } else {
                    None
                }
            } else if same_text(tag.as_str(), "bits_band_tier") {
                let bits_badge_tier = read_member::<BitsBadgeTierNotice>(j, "bits_badge_tier");
                if bits_badge_tier.is_some() {
                    Some(NoticeType::BitsBandTier { bits_badge_tier: bits_badge_tier.unwrap() })
                } else {
                    None
                }
            } else if same_text(tag.as_str(), "charity_donation") {
                let charity_donation = read_member::<CharityDonationNotice>(j, "charity_donation");
                if charity_donation.is_some() {
                    Some(
                        NoticeType::CharityDonation {
                            charity_donation: charity_donation.unwrap(),
                        },
                    )
                } else {
                    None
                }
            } else if same_text(tag.as_str(), "shared_chat_sub") {
                let shared_chat_sub = read_member::<SubNotice>(j, "shared_chat_sub");
                if shared_chat_sub.is_some() {
                    Some(NoticeType::SharedChatSub { shared_chat_sub: shared_chat_sub.unwrap() })
                } else {
                    None
                }
            } else if same_text(tag.as_str(), "shared_chat_resub") {
                let shared_chat_resub = read_member::<ResubNotice>(j, "shared_chat_resub");
                if shared_chat_resub.is_some() {
                    Some(
                        NoticeType::SharedChatResub {
                            shared_chat_resub: shared_chat_resub.unwrap(),
                        },
                    )
                } else {
                    None
                }
            } else if same_text(tag.as_str(), "shared_chat_sub_gift") {
                let shared_chat_sub_gift = read_member::<SubGiftNotice>(j, "shared_chat_sub_gift");
                if shared_chat_sub_gift.is_some() {
                    Some(
                        NoticeType::SharedChatSubGift {
                            shared_chat_sub_gift: shared_chat_sub_gift.unwrap(),
                        },
                    )
                } else {
                    None
                }
            } else if same_text(tag.as_str(), "shared_chat_community_sub_gift") {
                let shared_community_sub_gift = read_member::<CommunitySubGiftNotice>(
                    j,
                    "shared_community_sub_gift",
                );
                if shared_community_sub_gift.is_some() {
                    Some(
                        NoticeType::SharedChatCommunitySubGift {
                            shared_community_sub_gift: shared_community_sub_gift.unwrap(),
                        },
                    )
                } else {
                    None
                }
            } else if same_text(tag.as_str(), "shared_chat_gift_paid_upgrade") {
                let shared_chat_gift_paid_upgrade = read_member::<GiftUpgradeNotice>(
                    j,
                    "shared_chat_gift_paid_upgrade",
                );
                if shared_chat_gift_paid_upgrade.is_some() {
                    Some(
                        NoticeType::SharedChatGiftPaidUpgrade {
                            shared_chat_gift_paid_upgrade: shared_chat_gift_paid_upgrade.unwrap(),
                        },
                    )
                } else {
                    None
                }
            } else if same_text(tag.as_str(), "shared_chat_prime_paid_upgrade") {
                let shared_chat_prime_paid_upgrade = read_member::<PrimePaidUpgradeNotice>(
                    j,
                    "shared_chat_prime_paid_upgrade",
                );
                if shared_chat_prime_paid_upgrade.is_some() {
                    Some(
                        NoticeType::SharedChatPrimePaidUpgrade {
                            shared_chat_prime_paid_upgrade: shared_chat_prime_paid_upgrade.unwrap(),
                        },
                    )
                } else {
                    None
                }
            } else if same_text(tag.as_str(), "shared_chat_raid") {
                let shared_chat_raid = read_member::<RaidNotice>(j, "shared_chat_raid");
                if shared_chat_raid.is_some() {
                    Some(NoticeType::SharedChatRaid { shared_chat_raid: shared_chat_raid.unwrap() })
                } else {
                    None
                }
            } else if same_text(tag.as_str(), "shared_chat_pay_it_forward") {
                let shared_chat_pay_it_forward = read_member::<GiftUpgradeNotice>(
                    j,
                    "shared_chat_pay_it_forward",
                );
                if shared_chat_pay_it_forward.is_some() {
                    Some(
                        NoticeType::SharedChatPayItForward {
                            shared_chat_pay_it_forward: shared_chat_pay_it_forward.unwrap(),
                        },
                    )
                } else {
                    None
                }
            } else if same_text(tag.as_str(), "shared_chat_announcement") {
                let shared_chat_announcement = read_member::<AnnouncementNotice>(
                    j,
                    "shared_chat_announcement",
                );
                if shared_chat_announcement.is_some() {
                    Some(
                        NoticeType::SharedChatAnnouncement {
                            shared_chat_announcement: shared_chat_announcement.unwrap(),
                        },
                    )
                } else {
                    None
                }
            } else {
                None
            },
            None => None,
        }
    }
}

impl NoticeType {
    /// Whether the type reads the member of this name.
    pub open spec fn own_key(k: Seq<char>) -> bool {
        k == "notice_type"@
            || k == "sub"@
            || k == "resub"@
            || k == "sub_gift"@
            || k == "community_sub_gift"@
            || k == "gift_paid_upgrade"@
            || k == "prime_paid_upgrade"@
            || k == "raid"@
            || k == "unraid"@
            || k == "pay_it_forward"@
            || k == "announcement"@
            || k == "bits_badge_tier"@
            || k == "charity_donation"@
            || k == "shared_chat_sub"@
            || k == "shared_chat_resub"@
            || k == "shared_chat_sub_gift"@
            || k == "shared_community_sub_gift"@
            || k == "shared_chat_gift_paid_upgrade"@
            || k == "shared_chat_prime_paid_upgrade"@
            || k == "shared_chat_raid"@
            || k == "shared_chat_pay_it_forward"@
            || k == "shared_chat_announcement"@
    }

    /// What is read depends on the members of these names alone.
    pub proof fn lemma_own_keys(a: Json, b: Json, v: NoticeType)
        requires
            forall|k: Seq<char>| Self::own_key(k) ==> a.spec_get(k) == b.spec_get(k),
        ensures
            Self::parses(a) == Self::parses(b),
            Self::parsed_as(a, v) == Self::parsed_as(b, v),
    {
        assert(Self::own_key("notice_type"@));
        assert(Self::own_key("sub"@));
        assert(Self::own_key("resub"@));
        assert(Self::own_key("sub_gift"@));
        assert(Self::own_key("community_sub_gift"@));
        assert(Self::own_key("gift_paid_upgrade"@));
        assert(Self::own_key("prime_paid_upgrade"@));
        assert(Self::own_key("raid"@));
        assert(Self::own_key("unraid"@));
        assert(Self::own_key("pay_it_forward"@));
        assert(Self::own_key("announcement"@));
        assert(Self::own_key("bits_badge_tier"@));
        assert(Self::own_key("charity_donation"@));
        assert(Self::own_key("shared_chat_sub"@));
        assert(Self::own_key("shared_chat_resub"@));
        assert(Self::own_key("shared_chat_sub_gift"@));
        assert(Self::own_key("shared_community_sub_gift"@));
        assert(Self::own_key("shared_chat_gift_paid_upgrade"@));
        assert(Self::own_key("shared_chat_prime_paid_upgrade"@));
        assert(Self::own_key("shared_chat_raid"@));
        assert(Self::own_key("shared_chat_pay_it_forward"@));
        assert(Self::own_key("shared_chat_announcement"@));
    }

    /// Writes the members. What is written is read back as the same value,
    /// and holds no member of another name.
    pub fn write(&self) -> (r: Vec<(String, Json)>)
        ensures
            Self::parses(Json::Object(r)),
            Self::parsed_as(Json::Object(r), *self),
            forall|k: Seq<char>| !Self::own_key(k) ==> member(r@, k) is None,
    {
        let mut entries: Vec<(String, Json)> = Vec::new();
        proof {
            reveal_strlit("sub");
            reveal_strlit("resub");
            reveal_strlit("sub_gift");
            reveal_strlit("community_sub_gift");
            reveal_strlit("gift_paid_upgrade");
            reveal_strlit("prime_paid_upgrade");
            reveal_strlit("raid");
            reveal_strlit("unraid");
            reveal_strlit("pay_it_forward");
            reveal_strlit("announcement");
            reveal_strlit("bits_band_tier");
            reveal_strlit("charity_donation");
            reveal_strlit("shared_chat_sub");
            reveal_strlit("shared_chat_resub");
            reveal_strlit("shared_chat_sub_gift");
            reveal_strlit("shared_chat_community_sub_gift");
            reveal_strlit("shared_chat_gift_paid_upgrade");
            reveal_strlit("shared_chat_prime_paid_upgrade");
            reveal_strlit("shared_chat_raid");
            reveal_strlit("shared_chat_pay_it_forward");
            reveal_strlit("shared_chat_announcement");
            assert("sub"@.len() == 3);
            assert("resub"@.len() == 5);
            assert("sub_gift"@.len() == 8);
            assert("community_sub_gift"@.len() == 18);
            assert("gift_paid_upgrade"@.len() == 17);
            assert("prime_paid_upgrade"@.len() == 18);
            assert("raid"@.len() == 4);
            assert("unraid"@.len() == 6);
            assert("pay_it_forward"@.len() == 14);
            assert("announcement"@.len() == 12);
            assert("bits_band_tier"@.len() == 14);
            assert("charity_donation"@.len() == 16);
            assert("shared_chat_sub"@.len() == 15);
            assert("shared_chat_resub"@.len() == 17);
            assert("shared_chat_sub_gift"@.len() == 20);
            assert("shared_chat_community_sub_gift"@.len() == 30);
            assert("shared_chat_gift_paid_upgrade"@.len() == 29);
            assert("shared_chat_prime_paid_upgrade"@.len() == 30);
            assert("shared_chat_raid"@.len() == 16);
            assert("shared_chat_pay_it_forward"@.len() == 26);
            assert("shared_chat_announcement"@.len() == 24);
            assert("community_sub_gift"@[0] != "prime_paid_upgrade"@[0]);
            assert("gift_paid_upgrade"@[0] != "shared_chat_resub"@[0]);
            assert("pay_it_forward"@[0] != "bits_band_tier"@[0]);
            assert("charity_donation"@[0] != "shared_chat_raid"@[0]);
            assert("shared_chat_community_sub_gift"@[12] != "shared_chat_prime_paid_upgrade"@[12]);
            reveal_strlit("notice_type");
            reveal_strlit("sub");
            reveal_strlit("resub");
            reveal_strlit("sub_gift");
            reveal_strlit("community_sub_gift");
            reveal_strlit("gift_paid_upgrade");
            reveal_strlit("prime_paid_upgrade");
            reveal_strlit("raid");
            reveal_strlit("unraid");
            reveal_strlit("pay_it_forward");
            reveal_strlit("announcement");
            reveal_strlit("bits_badge_tier");
            reveal_strlit("charity_donation");
            reveal_strlit("shared_chat_sub");
            reveal_strlit("shared_chat_resub");
            reveal_strlit("shared_chat_sub_gift");
            reveal_strlit("shared_community_sub_gift");
            reveal_strlit("shared_chat_gift_paid_upgrade");
            reveal_strlit("shared_chat_prime_paid_upgrade");
            reveal_strlit("shared_chat_raid");
            reveal_strlit("shared_chat_pay_it_forward");
            reveal_strlit("shared_chat_announcement");
            assert("notice_type"@.len() == 11);
            assert("sub"@.len() == 3);
            assert("resub"@.len() == 5);
            assert("sub_gift"@.len() == 8);
            assert("community_sub_gift"@.len() == 18);
            assert("gift_paid_upgrade"@.len() == 17);
            assert("prime_paid_upgrade"@.len() == 18);
            assert("raid"@.len() == 4);
            assert("unraid"@.len() == 6);
            assert("pay_it_forward"@.len() == 14);
            assert("announcement"@.len() == 12);
            assert("bits_badge_tier"@.len() == 15);
            assert("charity_donation"@.len() == 16);
            assert("shared_chat_sub"@.len() == 15);
            assert("shared_chat_resub"@.len() == 17);
            assert("shared_chat_sub_gift"@.len() == 20);
            assert("shared_community_sub_gift"@.len() == 25);
            assert("shared_chat_gift_paid_upgrade"@.len() == 29);
            assert("shared_chat_prime_paid_upgrade"@.len() == 30);
            assert("shared_chat_raid"@.len() == 16);
            assert("shared_chat_pay_it_forward"@.len() == 26);
            assert("shared_chat_announcement"@.len() == 24);
            assert("community_sub_gift"@[0] != "prime_paid_upgrade"@[0]);
            assert("gift_paid_upgrade"@[0] != "shared_chat_resub"@[0]);
            assert("bits_badge_tier"@[0] != "shared_chat_sub"@[0]);
            assert("charity_donation"@[0] != "shared_chat_raid"@[0]);
        }
        match self {
            NoticeType::Sub { sub } => {
                let tag = Json::Text("sub".to_owned());
                let sub_json = sub.to_json();
                put(&mut entries, "notice_type", tag);
                put(&mut entries, "sub", sub_json);
                proof {
                    assert(member(entries@, "notice_type"@) == Some(tag));
                    assert(member(entries@, "sub"@) == Some(sub_json));
                }
            },
            NoticeType::Resub { resub } => {
                let tag = Json::Text("resub".to_owned());
                let resub_json = resub.to_json();
                put(&mut entries, "notice_type", tag);
                put(&mut entries, "resub", resub_json);
                proof {
                    assert(member(entries@, "notice_type"@) == Some(tag));
                    assert(member(entries@, "resub"@) == Some(resub_json));
                }
            },
            NoticeType::SubGift { sub_gift } => {
                let tag = Json::Text("sub_gift".to_owned());
                let sub_gift_json = sub_gift.to_json();
                put(&mut entries, "notice_type", tag);
                put(&mut entries, "sub_gift", sub_gift_json);
                proof {
                    assert(member(entries@, "notice_type"@) == Some(tag));
                    assert(member(entries@, "sub_gift"@) == Some(sub_gift_json));
                }
            },
            NoticeType::CommunitySubGift { community_sub_gift } => {
                let tag = Json::Text("community_sub_gift".to_owned());
                let community_sub_gift_json = community_sub_gift.to_json();
                put(&mut entries, "notice_type", tag);
                put(&mut entries, "community_sub_gift", community_sub_gift_json);
                proof {
                    assert(member(entries@, "notice_type"@) == Some(tag));
                    assert(member(entries@, "community_sub_gift"@)
                        == Some(community_sub_gift_json));
                }
            },
            NoticeType::GiftPaidUpgrade { gift_paid_upgrade } => {
                let tag = Json::Text("gift_paid_upgrade".to_owned());
                let gift_paid_upgrade_json = gift_paid_upgrade.to_json();
                put(&mut entries, "notice_type", tag);
                put(&mut entries, "gift_paid_upgrade", gift_paid_upgrade_json);
                proof {
                    assert(member(entries@, "notice_type"@) == Some(tag));
                    assert(member(entries@, "gift_paid_upgrade"@) == Some(gift_paid_upgrade_json));
                }
            },
            NoticeType::PrimePaidUpgrade { prime_paid_upgrade } => {
                let tag = Json::Text("prime_paid_upgrade".to_owned());
                let prime_paid_upgrade_json = prime_paid_upgrade.to_json();
                put(&mut entries, "notice_type", tag);
                put(&mut entries, "prime_paid_upgrade", prime_paid_upgrade_json);
                proof {
                    assert(member(entries@, "notice_type"@) == Some(tag));
                    assert(member(entries@, "prime_paid_upgrade"@)
                        == Some(prime_paid_upgrade_json));
                }
            },
            NoticeType::Raid { raid } => {
                let tag = Json::Text("raid".to_owned());
                let raid_json = raid.to_json();
                put(&mut entries, "notice_type", tag);
                put(&mut entries, "raid", raid_json);
                proof {
                    assert(member(entries@, "notice_type"@) == Some(tag));
                    assert(member(entries@, "raid"@) == Some(raid_json));
                }
            },
            NoticeType::Unraid { unraid } => {
                let tag = Json::Text("unraid".to_owned());
                let unraid_json = unraid.to_json();
                put(&mut entries, "notice_type", tag);
                put(&mut entries, "unraid", unraid_json);
                proof {
                    assert(member(entries@, "notice_type"@) == Some(tag));
                    assert(member(entries@, "unraid"@) == Some(unraid_json));
                }
            },
            NoticeType::PayItForward { pay_it_forward } => {
                let tag = Json::Text("pay_it_forward".to_owned());
                let pay_it_forward_json = pay_it_forward.to_json();
                put(&mut entries, "notice_type", tag);
                put(&mut entries, "pay_it_forward", pay_it_forward_json);
                proof {
                    assert(member(entries@, "notice_type"@) == Some(tag));
                    assert(member(entries@, "pay_it_forward"@) == Some(pay_it_forward_json));
                }
            },
            NoticeType::Announcement { announcement } => {
                let tag = Json::Text("announcement".to_owned());
                let announcement_json = announcement.to_json();
                put(&mut entries, "notice_type", tag);
                put(&mut entries, "announcement", announcement_json);
                proof {
                    assert(member(entries@, "notice_type"@) == Some(tag));
                    assert(member(entries@, "announcement"@) == Some(announcement_json));
                }
            },
            NoticeType::BitsBandTier { bits_badge_tier } => {
                let tag = Json::Text("bits_band_tier".to_owned());
                let bits_badge_tier_json = bits_badge_tier.to_json();
                put(&mut entries, "notice_type", tag);
                put(&mut entries, "bits_badge_tier", bits_badge_tier_json);
                proof {
                    assert(member(entries@, "notice_type"@) == Some(tag));
                    assert(member(entries@, "bits_badge_tier"@) == Some(bits_badge_tier_json));
                }
            },
            NoticeType::CharityDonation { charity_donation } => {
                let tag = Json::Text("charity_donation".to_owned());
                let charity_donation_json = charity_donation.to_json();
                put(&mut entries, "notice_type", tag);
                put(&mut entries, "charity_donation", charity_donation_json);
                proof {
                    assert(member(entries@, "notice_type"@) == Some(tag));
                    assert(member(entries@, "charity_donation"@) == Some(charity_donation_json));
                }
            },
            NoticeType::SharedChatSub { shared_chat_sub } => {
                let tag = Json::Text("shared_chat_sub".to_owned());
                let shared_chat_sub_json = shared_chat_sub.to_json();
                put(&mut entries, "notice_type", tag);
                put(&mut entries, "shared_chat_sub", shared_chat_sub_json);
                proof {
                    assert(member(entries@, "notice_type"@) == Some(tag));
                    assert(member(entries@, "shared_chat_sub"@) == Some(shared_chat_sub_json));
                }
            },
            NoticeType::SharedChatResub { shared_chat_resub } => {
                let tag = Json::Text("shared_chat_resub".to_owned());
                let shared_chat_resub_json = shared_chat_resub.to_json();
                put(&mut entries, "notice_type", tag);
                put(&mut entries, "shared_chat_resub", shared_chat_resub_json);
                proof {
                    assert(member(entries@, "notice_type"@) == Some(tag));
                    assert(member(entries@, "shared_chat_resub"@) == Some(shared_chat_resub_json));
                }
            },
            NoticeType::SharedChatSubGift { shared_chat_sub_gift } => {
                let tag = Json::Text("shared_chat_sub_gift".to_owned());
                let shared_chat_sub_gift_json = shared_chat_sub_gift.to_json();
                put(&mut entries, "notice_type", tag);
                put(&mut entries, "shared_chat_sub_gift", shared_chat_sub_gift_json);
                proof {
                    assert(member(entries@, "notice_type"@) == Some(tag));
                    assert(member(entries@, "shared_chat_sub_gift"@)
                        == Some(shared_chat_sub_gift_json));
                }
            },
            NoticeType::SharedChatCommunitySubGift { shared_community_sub_gift } => {
                let tag = Json::Text("shared_chat_community_sub_gift".to_owned());
                let shared_community_sub_gift_json = shared_community_sub_gift.to_json();
                put(&mut entries, "notice_type", tag);
                put(&mut entries, "shared_community_sub_gift", shared_community_sub_gift_json);
                proof {
                    assert(member(entries@, "notice_type"@) == Some(tag));
                    assert(member(entries@, "shared_community_sub_gift"@)
                        == Some(shared_community_sub_gift_json));
                }
            },
            NoticeType::SharedChatGiftPaidUpgrade { shared_chat_gift_paid_upgrade } => {
                let tag = Json::Text("shared_chat_gift_paid_upgrade".to_owned());
                let shared_chat_gift_paid_upgrade_json = shared_chat_gift_paid_upgrade.to_json();
                put(&mut entries, "notice_type", tag);
                put(
                    &mut entries,
                    "shared_chat_gift_paid_upgrade",
                    shared_chat_gift_paid_upgrade_json,
                );
                proof {
                    assert(member(entries@, "notice_type"@) == Some(tag));
                    assert(member(entries@, "shared_chat_gift_paid_upgrade"@)
                        == Some(shared_chat_gift_paid_upgrade_json));
                }
            },
            NoticeType::SharedChatPrimePaidUpgrade { shared_chat_prime_paid_upgrade } => {
                let tag = Json::Text("shared_chat_prime_paid_upgrade".to_owned());
                let shared_chat_prime_paid_upgrade_json = shared_chat_prime_paid_upgrade.to_json();
                put(&mut entries, "notice_type", tag);
                put(
                    &mut entries,
                    "shared_chat_prime_paid_upgrade",
                    shared_chat_prime_paid_upgrade_json,
                );
                proof {
                    assert(member(entries@, "notice_type"@) == Some(tag));
                    assert(member(entries@, "shared_chat_prime_paid_upgrade"@)
                        == Some(shared_chat_prime_paid_upgrade_json));
                }
            },
            NoticeType::SharedChatRaid { shared_chat_raid } => {
                let tag = Json::Text("shared_chat_raid".to_owned());
                let shared_chat_raid_json = shared_chat_raid.to_json();
                put(&mut entries, "notice_type", tag);
                put(&mut entries, "shared_chat_raid", shared_chat_raid_json);
                proof {
                    assert(member(entries@, "notice_type"@) == Some(tag));
                    assert(member(entries@, "shared_chat_raid"@) == Some(shared_chat_raid_json));
                }
            },
            NoticeType::SharedChatPayItForward { shared_chat_pay_it_forward } => {
                let tag = Json::Text("shared_chat_pay_it_forward".to_owned());
                let shared_chat_pay_it_forward_json = shared_chat_pay_it_forward.to_json();
                put(&mut entries, "notice_type", tag);
                put(&mut entries, "shared_chat_pay_it_forward", shared_chat_pay_it_forward_json);
                proof {
                    assert(member(entries@, "notice_type"@) == Some(tag));
                    assert(member(entries@, "shared_chat_pay_it_forward"@)
                        == Some(shared_chat_pay_it_forward_json));
                }
            },
            NoticeType::SharedChatAnnouncement { shared_chat_announcement } => {
                let tag = Json::Text("shared_chat_announcement".to_owned());
                let shared_chat_announcement_json = shared_chat_announcement.to_json();
                put(&mut entries, "notice_type", tag);
                put(&mut entries, "shared_chat_announcement", shared_chat_announcement_json);
                proof {
                    assert(member(entries@, "notice_type"@) == Some(tag));
                    assert(member(entries@, "shared_chat_announcement"@)
                        == Some(shared_chat_announcement_json));
                }
            },
        }
        entries
    }
}

impl ToJson for NoticeType {
    fn to_json(&self) -> (r: Json) {
        Json::Object(self.write())
    }
}

#[derive(Debug)]
pub struct SubNotice {
    pub sub_tier: String,
    pub is_prime: bool,
    pub duriation_months: u32,
}

impl FromJson for SubNotice {
    open spec fn parses(j: Json) -> bool {
        &&& j.spec_text("sub_tier"@) is Some
        &&& j.spec_flag("is_prime"@) is Some
        &&& j.spec_count32("duriation_months"@) is Some
    }

    open spec fn parsed_as(j: Json, v: SubNotice) -> bool {
        &&& j.spec_text("sub_tier"@) == Some(v.sub_tier)
        &&& j.spec_flag("is_prime"@) == Some(v.is_prime)
        &&& j.spec_count32("duriation_months"@) == Some(v.duriation_months)
    }

    fn from_json(j: &Json) -> (r: Option<SubNotice>) {
        let sub_tier = j.text("sub_tier");
        let is_prime = j.flag("is_prime");
        let duriation_months = j.count32("duriation_months");
        if sub_tier.is_some() && is_prime.is_some() && duriation_months.is_some() {
            Some(
                SubNotice {
                    sub_tier: sub_tier.unwrap(),
                    is_prime: is_prime.unwrap(),
                    duriation_months: duriation_months.unwrap(),
                },
            )
        } else {
            None
        }
    }
}

impl ToJson for SubNotice {
    fn to_json(&self) -> (r: Json) {
        let mut entries: Vec<(String, Json)> = Vec::new();
        proof {
            reveal_strlit("sub_tier");
            reveal_strlit("is_prime");
            reveal_strlit("duriation_months");
            assert("sub_tier"@.len() == 8);
            assert("is_prime"@.len() == 8);
            assert("duriation_months"@.len() == 16);
            assert("sub_tier"@[0] != "is_prime"@[0]);
        }
        let sub_tier_json = Json::Text(self.sub_tier.clone());
        let is_prime_json = Json::Bool(self.is_prime);
        let duriation_months_json = count_json(self.duriation_months as u64);
        put(&mut entries, "sub_tier", sub_tier_json);
        put(&mut entries, "is_prime", is_prime_json);
        put(&mut entries, "duriation_months", duriation_months_json);
        proof {
            assert(member(entries@, "sub_tier"@) == Some(sub_tier_json));
            assert(member(entries@, "is_prime"@) == Some(is_prime_json));
            assert(member(entries@, "duriation_months"@) == Some(duriation_months_json));
        }
        Json::Object(entries)
    }
}

#[derive(Debug)]
pub struct ResubNotice {
    pub cumulative_months: u32,
    pub duration_months: u32,
    pub streak_months: Option<u32>,
    pub sub_tier: String,
    pub is_prime: bool,
    pub is_gift: bool,
    pub gifter: Gifter,
}

impl FromJson for ResubNotice {
    open spec fn parses(j: Json) -> bool {
        &&& j.spec_count32("cumulative_months"@) is Some
        &&& j.spec_count32("duration_months"@) is Some
        &&& j.spec_optional_count32("streak_months"@) is Some
        &&& j.spec_text("sub_tier"@) is Some
        &&& j.spec_flag_or_false("is_prime"@) is Some
        &&& j.spec_flag("is_gift"@) is Some
        &&& Gifter::parses(j)
    }

    open spec fn parsed_as(j: Json, v: ResubNotice) -> bool {
        &&& j.spec_count32("cumulative_months"@) == Some(v.cumulative_months)
        &&& j.spec_count32("duration_months"@) == Some(v.duration_months)
        &&& j.spec_optional_count32("streak_months"@) == Some(v.streak_months)
        &&& j.spec_text("sub_tier"@) == Some(v.sub_tier)
        &&& j.spec_flag_or_false("is_prime"@) == Some(v.is_prime)
        &&& j.spec_flag("is_gift"@) == Some(v.is_gift)
        &&& Gifter::parsed_as(j, v.gifter)
    }

    fn from_json(j: &Json) -> (r: Option<ResubNotice>) {
        let cumulative_months = j.count32("cumulative_months");
        let duration_months = j.count32("duration_months");
        let streak_months = j.optional_count32("streak_months");
        let sub_tier = j.text("sub_tier");
        let is_prime = j.flag_or_false("is_prime");
        let is_gift = j.flag("is_gift");
        let gifter = Gifter::from_json(j);
        if cumulative_months.is_some() && duration_months.is_some() && streak_months.is_some()
            && sub_tier.is_some() && is_prime.is_some() && is_gift.is_some() && gifter.is_some() {
            Some(
                ResubNotice {
                    cumulative_months: cumulative_months.unwrap(),
                    duration_months: duration_months.unwrap(),
                    streak_months: streak_months.unwrap(),
                    sub_tier: sub_tier.unwrap(),
                    is_prime: is_prime.unwrap(),
                    is_gift: is_gift.unwrap(),
                    gifter: gifter.unwrap(),
                },
            )
        } else {
            None
        }
    }
}

impl ToJson for ResubNotice {
    fn to_json(&self) -> (r: Json) {
        let mut entries: Vec<(String, Json)> = Vec::new();
        proof {
            reveal_strlit("cumulative_months");
            reveal_strlit("duration_months");
            reveal_strlit("streak_months");
            reveal_strlit("sub_tier");
            reveal_strlit("is_prime");
            reveal_strlit("is_gift");
            reveal_strlit("gifter_user_id");
            reveal_strlit("gifter_user_name");
            reveal_strlit("gifter_user_login");
            reveal_strlit("gifter_is_anonymous");
            assert("cumulative_months"@.len() == 17);
            assert("duration_months"@.len() == 15);
            assert("streak_months"@.len() == 13);
            assert("sub_tier"@.len() == 8);
            assert("is_prime"@.len() == 8);
            assert("is_gift"@.len() == 7);
            assert("gifter_user_id"@.len() == 14);
            assert("gifter_user_name"@.len() == 16);
            assert("gifter_user_login"@.len() == 17);
            assert("gifter_is_anonymous"@.len() == 19);
            assert("cumulative_months"@[0] != "gifter_user_login"@[0]);
            assert("sub_tier"@[0] != "is_prime"@[0]);
        }
        let cumulative_months_json = count_json(self.cumulative_months as u64);
        let duration_months_json = count_json(self.duration_months as u64);
        let streak_months_json = optional_count32_json(&self.streak_months);
        let sub_tier_json = Json::Text(self.sub_tier.clone());
        let is_prime_json = Json::Bool(self.is_prime);
        let is_gift_json = Json::Bool(self.is_gift);
        put(&mut entries, "cumulative_months", cumulative_months_json);
        put(&mut entries, "duration_months", duration_months_json);
        put(&mut entries, "streak_months", streak_months_json);
        put(&mut entries, "sub_tier", sub_tier_json);
        put(&mut entries, "is_prime", is_prime_json);
        put(&mut entries, "is_gift", is_gift_json);
        let ghost own = entries@;
        proof {
            assert(member(own, "cumulative_months"@) == Some(cumulative_months_json));
            assert(member(own, "duration_months"@) == Some(duration_months_json));
            assert(member(own, "streak_months"@) == Some(streak_months_json));
            assert(member(own, "sub_tier"@) == Some(sub_tier_json));
            assert(member(own, "is_prime"@) == Some(is_prime_json));
            assert(member(own, "is_gift"@) == Some(is_gift_json));
        }
        let mut gifter_entries = self.gifter.write();
        let ghost gifter_json = Json::Object(gifter_entries);
        let ghost before_gifter = entries@;
        entries.append(&mut gifter_entries);
        proof {
            let written = Json::Object(entries);
            assert forall|k: Seq<char>| member(own, k) is Some implies member(entries@, k)
                == member(own, k) by {
                lemma_member_append(before_gifter, gifter_json->Object_0@, k);
            }
            assert forall|k: Seq<char>| Gifter::own_key(k) implies written.spec_get(k)
                == gifter_json.spec_get(k) by {
                lemma_member_append(before_gifter, gifter_json->Object_0@, k);
                assert(member(own, k) is None);
            }
            Gifter::lemma_own_keys(written, gifter_json, self.gifter);
            assert(member(entries@, "cumulative_months"@) == Some(cumulative_months_json));
            assert(member(entries@, "duration_months"@) == Some(duration_months_json));
            assert(member(entries@, "streak_months"@) == Some(streak_months_json));
            assert(member(entries@, "sub_tier"@) == Some(sub_tier_json));
            assert(member(entries@, "is_prime"@) == Some(is_prime_json));
            assert(member(entries@, "is_gift"@) == Some(is_gift_json));
        }
        Json::Object(entries)
    }
}

#[derive(Debug)]
pub struct SubGiftNotice {
    pub cumulative_months: u32,
    pub duriation_months: u32,
    pub sub_tier: String,
    pub community_gift_id: Option<String>,
}

impl FromJson for SubGiftNotice {
    open spec fn parses(j: Json) -> bool {
        &&& j.spec_count32("cumulative_months"@) is Some
        &&& j.spec_count32("duriation_months"@) is Some
        &&& j.spec_text("sub_tier"@) is Some
        &&& j.spec_optional_text("community_gift_id"@) is Some
    }

    open spec fn parsed_as(j: Json, v: SubGiftNotice) -> bool {
        &&& j.spec_count32("cumulative_months"@) == Some(v.cumulative_months)
        &&& j.spec_count32("duriation_months"@) == Some(v.duriation_months)
        &&& j.spec_text("sub_tier"@) == Some(v.sub_tier)
        &&& j.spec_optional_text("community_gift_id"@) == Some(v.community_gift_id)
    }

    fn from_json(j: &Json) -> (r: Option<SubGiftNotice>) {
        let cumulative_months = j.count32("cumulative_months");
        let duriation_months = j.count32("duriation_months");
        let sub_tier = j.text("sub_tier");
        let community_gift_id = j.optional_text("community_gift_id");
        if cumulative_months.is_some() && duriation_months.is_some() && sub_tier.is_some()
            && community_gift_id.is_some() {
            Some(
                SubGiftNotice {
                    cumulative_months: cumulative_months.unwrap(),
                    duriation_months: duriation_months.unwrap(),
                    sub_tier: sub_tier.unwrap(),
                    community_gift_id: community_gift_id.unwrap(),
                },
            )
        } else {
            None
        }
    }
}

impl ToJson for SubGiftNotice {
    fn to_json(&self) -> (r: Json) {
        let mut entries: Vec<(String, Json)> = Vec::new();
        proof {
            reveal_strlit("cumulative_months");
            reveal_strlit("duriation_months");
            reveal_strlit("sub_tier");
            reveal_strlit("community_gift_id");
            assert("cumulative_months"@.len() == 17);
            assert("duriation_months"@.len() == 16);
            assert("sub_tier"@.len() == 8);
            assert("community_gift_id"@.len() == 17);
            assert("cumulative_months"@[1] != "community_gift_id"@[1]);
        }
        let cumulative_months_json = count_json(self.cumulative_months as u64);
        let duriation_months_json = count_json(self.duriation_months as u64);
        let sub_tier_json = Json::Text(self.sub_tier.clone());
        let community_gift_id_json = optional_text_json(&self.community_gift_id);
        put(&mut entries, "cumulative_months", cumulative_months_json);
        put(&mut entries, "duriation_months", duriation_months_json);
        put(&mut entries, "sub_tier", sub_tier_json);
        put(&mut entries, "community_gift_id", community_gift_id_json);
        proof {
            assert(member(entries@, "cumulative_months"@) == Some(cumulative_months_json));
            assert(member(entries@, "duriation_months"@) == Some(duriation_months_json));
            assert(member(entries@, "sub_tier"@) == Some(sub_tier_json));
            assert(member(entries@, "community_gift_id"@) == Some(community_gift_id_json));
        }
        Json::Object(entries)
    }
}

#[derive(Debug)]
pub struct CommunitySubGiftNotice {
    pub id: String,
    pub total: u32,
    pub sub_tier: String,
    pub cumulative_total: Option<u32>,
}

impl FromJson for CommunitySubGiftNotice {
    open spec fn parses(j: Json) -> bool {
        &&& j.spec_text("id"@) is Some
        &&& j.spec_count32("total"@) is Some
        &&& j.spec_text("sub_tier"@) is Some
        &&& j.spec_optional_count32("cumulative_total"@) is Some
    }

    open spec fn parsed_as(j: Json, v: CommunitySubGiftNotice) -> bool {
        &&& j.spec_text("id"@) == Some(v.id)
        &&& j.spec_count32("total"@) == Some(v.total)
        &&& j.spec_text("sub_tier"@) == Some(v.sub_tier)
        &&& j.spec_optional_count32("cumulative_total"@) == Some(v.cumulative_total)
    }

    fn from_json(j: &Json) -> (r: Option<CommunitySubGiftNotice>) {
        let id = j.text("id");
        let total = j.count32("total");
        let sub_tier = j.text("sub_tier");
        let cumulative_total = j.optional_count32("cumulative_total");
        if id.is_some() && total.is_some() && sub_tier.is_some() && cumulative_total.is_some() {
            Some(
                CommunitySubGiftNotice {
                    id: id.unwrap(),
                    total: total.unwrap(),
                    sub_tier: sub_tier.unwrap(),
                    cumulative_total: cumulative_total.unwrap(),
                },
            )
        } else {
            None
        }
    }
}

impl ToJson for CommunitySubGiftNotice {
    fn to_json(&self) -> (r: Json) {
        let mut entries: Vec<(String, Json)> = Vec::new();
        proof {
            reveal_strlit("id");
            reveal_strlit("total");
            reveal_strlit("sub_tier");
            reveal_strlit("cumulative_total");
            assert("id"@.len() == 2);
            assert("total"@.len() == 5);
            assert("sub_tier"@.len() == 8);
            assert("cumulative_total"@.len() == 16);
        }
        let id_json = Json::Text(self.id.clone());
        let total_json = count_json(self.total as u64);
        let sub_tier_json = Json::Text(self.sub_tier.clone());
        let cumulative_total_json = optional_count32_json(&self.cumulative_total);
        put(&mut entries, "id", id_json);
        put(&mut entries, "total", total_json);
        put(&mut entries, "sub_tier", sub_tier_json);
        put(&mut entries, "cumulative_total", cumulative_total_json);
        proof {
            assert(member(entries@, "id"@) == Some(id_json));
            assert(member(entries@, "total"@) == Some(total_json));
            assert(member(entries@, "sub_tier"@) == Some(sub_tier_json));
            assert(member(entries@, "cumulative_total"@) == Some(cumulative_total_json));
        }
        Json::Object(entries)
    }
}

#[derive(Debug)]
pub struct GiftUpgradeNotice {
    pub gifter: Gifter,
}

impl FromJson for GiftUpgradeNotice {
    open spec fn parses(j: Json) -> bool {
        &&& Gifter::parses(j)
    }

    open spec fn parsed_as(j: Json, v: GiftUpgradeNotice) -> bool {
        &&& Gifter::parsed_as(j, v.gifter)
    }

    fn from_json(j: &Json) -> (r: Option<GiftUpgradeNotice>) {
        let gifter = Gifter::from_json(j);
        if gifter.is_some() {
            Some(GiftUpgradeNotice { gifter: gifter.unwrap() })
        } else {
            None
        }
    }
}

impl ToJson for GiftUpgradeNotice {
    fn to_json(&self) -> (r: Json) {
        let mut entries: Vec<(String, Json)> = Vec::new();
        proof {
            reveal_strlit("gifter_user_id");
            reveal_strlit("gifter_user_name");
            reveal_strlit("gifter_user_login");
            reveal_strlit("gifter_is_anonymous");
            assert("gifter_user_id"@.len() == 14);
            assert("gifter_user_name"@.len() == 16);
            assert("gifter_user_login"@.len() == 17);
            assert("gifter_is_anonymous"@.len() == 19);
        }
        let ghost own = entries@;
        proof {
        }
        let mut gifter_entries = self.gifter.write();
        let ghost gifter_json = Json::Object(gifter_entries);
        let ghost before_gifter = entries@;
        entries.append(&mut gifter_entries);
        proof {
            let written = Json::Object(entries);
            assert forall|k: Seq<char>| member(own, k) is Some implies member(entries@, k)
                == member(own, k) by {
                lemma_member_append(before_gifter, gifter_json->Object_0@, k);
            }
            assert forall|k: Seq<char>| Gifter::own_key(k) implies written.spec_get(k)
                == gifter_json.spec_get(k) by {
                lemma_member_append(before_gifter, gifter_json->Object_0@, k);
                assert(member(own, k) is None);
            }
            Gifter::lemma_own_keys(written, gifter_json, self.gifter);
        }
        Json::Object(entries)
    }
}

#[derive(Debug)]
pub struct PrimePaidUpgradeNotice {
    pub sub_tier: String,
}

impl FromJson for PrimePaidUpgradeNotice {
    open spec fn parses(j: Json) -> bool {
        &&& j.spec_text("sub_tier"@) is Some
    }

    open spec fn parsed_as(j: Json, v: PrimePaidUpgradeNotice) -> bool {
        &&& j.spec_text("sub_tier"@) == Some(v.sub_tier)
    }

    fn from_json(j: &Json) -> (r: Option<PrimePaidUpgradeNotice>) {
        let sub_tier = j.text("sub_tier");
        if sub_tier.is_some() {
            Some(PrimePaidUpgradeNotice { sub_tier: sub_tier.unwrap() })
        } else {
            None
        }
    }
}

impl ToJson for PrimePaidUpgradeNotice {
    fn to_json(&self) -> (r: Json) {
        let mut entries: Vec<(String, Json)> = Vec::new();
        proof {
            reveal_strlit("sub_tier");
            assert("sub_tier"@.len() == 8);
        }
        let sub_tier_json = Json::Text(self.sub_tier.clone());
        put(&mut entries, "sub_tier", sub_tier_json);
        proof {
            assert(member(entries@, "sub_tier"@) == Some(sub_tier_json));
        }
        Json::Object(entries)
    }
}

#[derive(Debug)]
pub struct RaidNotice {
    pub user: User,
    pub viewer_count: u32,
    pub profile_image_url: String,
}

impl FromJson for RaidNotice {
    open spec fn parses(j: Json) -> bool {
        &&& User::parses(j, "user_id"@, "user_login"@, "user_name"@)
        &&& j.spec_count32("viewer_count"@) is Some
        &&& j.spec_text("profile_image_url"@) is Some
    }

    open spec fn parsed_as(j: Json, v: RaidNotice) -> bool {
        &&& User::parsed_as(j, "user_id"@, "user_login"@, "user_name"@, v.user)
        &&& j.spec_count32("viewer_count"@) == Some(v.viewer_count)
        &&& j.spec_text("profile_image_url"@) == Some(v.profile_image_url)
    }

    fn from_json(j: &Json) -> (r: Option<RaidNotice>) {
        let user = User::from_json(j, "user_id", "user_login", "user_name");
        let viewer_count = j.count32("viewer_count");
        let profile_image_url = j.text("profile_image_url");
        if user.is_some() && viewer_count.is_some() && profile_image_url.is_some() {
            Some(
                RaidNotice {
                    user: user.unwrap(),
                    viewer_count: viewer_count.unwrap(),
                    profile_image_url: profile_image_url.unwrap(),
                },
            )
        } else {
            None
        }
    }
}

impl ToJson for RaidNotice {
    fn to_json(&self) -> (r: Json) {
        let mut entries: Vec<(String, Json)> = Vec::new();
        proof {
            reveal_strlit("user_id");
            reveal_strlit("user_login");
            reveal_strlit("user_name");
            reveal_strlit("viewer_count");
            reveal_strlit("profile_image_url");
            assert("user_id"@.len() == 7);
            assert("user_login"@.len() == 10);
            assert("user_name"@.len() == 9);
            assert("viewer_count"@.len() == 12);
            assert("profile_image_url"@.len() == 17);
        }
        let user_id_json = Json::Text(self.user.user_id.clone());
        let user_login_json = Json::Text(self.user.user_login.clone());
        let user_name_json = Json::Text(self.user.user_name.clone());
        let viewer_count_json = count_json(self.viewer_count as u64);
        let profile_image_url_json = Json::Text(self.profile_image_url.clone());
        put(&mut entries, "user_id", user_id_json);
        put(&mut entries, "user_login", user_login_json);
        put(&mut entries, "user_name", user_name_json);
        put(&mut entries, "viewer_count", viewer_count_json);
        put(&mut entries, "profile_image_url", profile_image_url_json);
        proof {
            assert(member(entries@, "user_id"@) == Some(user_id_json));
            assert(member(entries@, "user_login"@) == Some(user_login_json));
            assert(member(entries@, "user_name"@) == Some(user_name_json));
            assert(member(entries@, "viewer_count"@) == Some(viewer_count_json));
            assert(member(entries@, "profile_image_url"@) == Some(profile_image_url_json));
        }
        Json::Object(entries)
    }
}

/// The notice that a raid was called off. It says nothing more: it is an
/// object, and no member of it is read.
#[derive(Debug)]
pub struct UnraidNotice {}

impl FromJson for UnraidNotice {
    open spec fn parses(j: Json) -> bool {
        j is Object
    }

    open spec fn parsed_as(j: Json, v: UnraidNotice) -> bool {
        j is Object
    }

    fn from_json(j: &Json) -> (r: Option<UnraidNotice>) {
        match j {
            Json::Object(_) => Some(UnraidNotice {}),
            _ => None,
        }
    }
}

impl ToJson for UnraidNotice {
    /// Writes an object without members.
    fn to_json(&self) -> (r: Json)
        ensures
            r matches Json::Object(entries) && entries@.len() == 0,
    {
        let entries: Vec<(String, Json)> = Vec::new();
        Json::Object(entries)
    }
}

#[derive(Debug)]
pub struct AnnouncementNotice {
    pub color: String,
}

impl FromJson for AnnouncementNotice {
    open spec fn parses(j: Json) -> bool {
        &&& j.spec_text("color"@) is Some
    }

    open spec fn parsed_as(j: Json, v: AnnouncementNotice) -> bool {
        &&& j.spec_text("color"@) == Some(v.color)
    }

    fn from_json(j: &Json) -> (r: Option<AnnouncementNotice>) {
        let color = j.text("color");
        if color.is_some() {
            Some(AnnouncementNotice { color: color.unwrap() })
        } else {
            None
        }
    }
}

impl ToJson for AnnouncementNotice {
    fn to_json(&self) -> (r: Json) {
        let mut entries: Vec<(String, Json)> = Vec::new();
        proof {
            reveal_strlit("color");
            assert("color"@.len() == 5);
        }
        let color_json = Json::Text(self.color.clone());
        put(&mut entries, "color", color_json);
        proof {
            assert(member(entries@, "color"@) == Some(color_json));
        }
        Json::Object(entries)
    }
}

#[derive(Debug)]
pub struct BitsBadgeTierNotice {
    pub tier: u32,
}

impl FromJson for BitsBadgeTierNotice {
    open spec fn parses(j: Json) -> bool {
        &&& j.spec_count32("tier"@) is Some
    }

    open spec fn parsed_as(j: Json, v: BitsBadgeTierNotice) -> bool {
        &&& j.spec_count32("tier"@) == Some(v.tier)
    }

    fn from_json(j: &Json) -> (r: Option<BitsBadgeTierNotice>) {
        let tier = j.count32("tier");
        if tier.is_some() {
            Some(BitsBadgeTierNotice { tier: tier.unwrap() })
        } else {
            None
        }
    }
}

impl ToJson for BitsBadgeTierNotice {
    fn to_json(&self) -> (r: Json) {
        let mut entries: Vec<(String, Json)> = Vec::new();
        proof {
            reveal_strlit("tier");
            assert("tier"@.len() == 4);
        }
        let tier_json = count_json(self.tier as u64);
        put(&mut entries, "tier", tier_json);
        proof {
            assert(member(entries@, "tier"@) == Some(tier_json));
        }
        Json::Object(entries)
    }
}

#[derive(Debug)]
pub struct CharityDonationNotice {
    pub charity_name: String,
    pub amount: DonationAmount,
}

impl FromJson for CharityDonationNotice {
    open spec fn parses(j: Json) -> bool {
        &&& j.spec_text("charity_name"@) is Some
        &&& member_parses::<DonationAmount>(j, "amount"@)
    }

    open spec fn parsed_as(j: Json, v: CharityDonationNotice) -> bool {
        &&& j.spec_text("charity_name"@) == Some(v.charity_name)
        &&& member_parsed_as(j, "amount"@, v.amount)
    }

    fn from_json(j: &Json) -> (r: Option<CharityDonationNotice>) {
        let charity_name = j.text("charity_name");
        let amount = read_member::<DonationAmount>(j, "amount");
        if charity_name.is_some() && amount.is_some() {
            Some(
                CharityDonationNotice {
                    charity_name: charity_name.unwrap(),
                    amount: amount.unwrap(),
                },
            )
        } else {
            None
        }
    }
}

impl ToJson for CharityDonationNotice {
    fn to_json(&self) -> (r: Json) {
        let mut entries: Vec<(String, Json)> = Vec::new();
        proof {
            reveal_strlit("charity_name");
            reveal_strlit("amount");
            assert("charity_name"@.len() == 12);
            assert("amount"@.len() == 6);
        }
        let charity_name_json = Json::Text(self.charity_name.clone());
        let amount_json = self.amount.to_json();
        put(&mut entries, "charity_name", charity_name_json);
        put(&mut entries, "amount", amount_json);
        proof {
            assert(member(entries@, "charity_name"@) == Some(charity_name_json));
            assert(member(entries@, "amount"@) == Some(amount_json));
        }
        Json::Object(entries)
    }
}

/// Where a message came from, if it was sent in another channel of a shared
/// chat session.
#[derive(Debug)]
pub enum SharedMessage {
    Message { source_broadcaster: User, source_message_id: String, source_badges: Vec<Badge> },
    Absent,
}

impl SharedMessage {
    /// Whether `j` names the source in full: the channel, the message and the
    /// badges.
    pub open spec fn sourced(j: Json) -> bool {
        &&& User::parses(
            j,
            "source_broadcaster_user_id"@,
            "source_broadcaster_user_login"@,
            "source_broadcaster_user_name"@,
        )
        &&& j.spec_text("source_message_id"@) is Some
        &&& list_parses::<Badge>(j, "source_badges"@)
    }
}

impl FromJson for SharedMessage {
    /// Each of the five members may be missing or `null`; none may be of
    /// another type than its own.
    open spec fn parses(j: Json) -> bool {
        &&& j.spec_optional_text("source_broadcaster_user_id"@) is Some
        &&& j.spec_optional_text("source_broadcaster_user_name"@) is Some
        &&& j.spec_optional_text("source_broadcaster_user_login"@) is Some
        &&& j.spec_optional_text("source_message_id"@) is Some
        &&& optional_list_parses::<Badge>(j, "source_badges"@)
    }

    open spec fn parsed_as(j: Json, v: SharedMessage) -> bool {
        if SharedMessage::sourced(j) {
            v matches SharedMessage::Message { source_broadcaster, source_message_id, source_badges }
                && User::parsed_as(
                j,
                "source_broadcaster_user_id"@,
                "source_broadcaster_user_login"@,
                "source_broadcaster_user_name"@,
                source_broadcaster,
            ) && j.spec_text("source_message_id"@) == Some(source_message_id) && list_parsed_as(
                j,
                "source_badges"@,
                source_badges@,
            )
        } else {
            v is Absent
        }
    }

    fn from_json(j: &Json) -> (r: Option<SharedMessage>) {
        let user_id = j.optional_text("source_broadcaster_user_id");
        let user_name = j.optional_text("source_broadcaster_user_name");
        let user_login = j.optional_text("source_broadcaster_user_login");
        let message_id = j.optional_text("source_message_id");
        let badges = read_optional_list::<Badge>(j, "source_badges");
        if user_id.is_none() || user_name.is_none() || user_login.is_none() || message_id.is_none()
            || badges.is_none() {
            return None;
        }
        match (
            user_id.unwrap(),
            user_login.unwrap(),
            user_name.unwrap(),
            message_id.unwrap(),
            badges.unwrap(),
        ) {
            (
                Some(user_id),
                Some(user_login),
                Some(user_name),
                Some(source_message_id),
                Some(source_badges),
            ) => Some(
                SharedMessage::Message {
                    source_broadcaster: User { user_id, user_login, user_name },
                    source_message_id,
                    source_badges,
                },
            ),
            _ => Some(SharedMessage::Absent),
        }
    }
}

impl SharedMessage {
    /// Whether the type reads the member of this name.
    pub open spec fn own_key(k: Seq<char>) -> bool {
        k == "source_broadcaster_user_id"@ || k == "source_broadcaster_user_name"@ || k
            == "source_broadcaster_user_login"@ || k == "source_message_id"@ || k
            == "source_badges"@
    }

    /// What is read depends on the members of these names alone.
    pub proof fn lemma_own_keys(a: Json, b: Json, v: SharedMessage)
        requires
            forall|k: Seq<char>| Self::own_key(k) ==> a.spec_get(k) == b.spec_get(k),
        ensures
            Self::parses(a) == Self::parses(b),
            Self::parsed_as(a, v) == Self::parsed_as(b, v),
    {
        assert(Self::own_key("source_broadcaster_user_id"@));
        assert(Self::own_key("source_broadcaster_user_name"@));
        assert(Self::own_key("source_broadcaster_user_login"@));
        assert(Self::own_key("source_message_id"@));
        assert(Self::own_key("source_badges"@));
    }

    /// Writes the members. What is written is read back as the same value,
    /// and holds no member of another name.
    pub fn write(&self) -> (r: Vec<(String, Json)>)
        ensures
            Self::parses(Json::Object(r)),
            Self::parsed_as(Json::Object(r), *self),
            forall|k: Seq<char>| !Self::own_key(k) ==> member(r@, k) is None,
    {
        let mut entries: Vec<(String, Json)> = Vec::new();
        proof {
            reveal_strlit("source_broadcaster_user_id");
            reveal_strlit("source_broadcaster_user_name");
            reveal_strlit("source_broadcaster_user_login");
            reveal_strlit("source_message_id");
            reveal_strlit("source_badges");
            assert("source_broadcaster_user_id"@.len() == 26);
            assert("source_broadcaster_user_name"@.len() == 28);
            assert("source_broadcaster_user_login"@.len() == 29);
            assert("source_message_id"@.len() == 17);
            assert("source_badges"@.len() == 13);
        }
        match self {
            SharedMessage::Message { source_broadcaster, source_message_id, source_badges } => {
                let id_json = Json::Text(source_broadcaster.user_id.clone());
                let login_json = Json::Text(source_broadcaster.user_login.clone());
                let name_json = Json::Text(source_broadcaster.user_name.clone());
                let message_json = Json::Text(source_message_id.clone());
                let badges_json = Json::List(write_all(source_badges));
                put(&mut entries, "source_broadcaster_user_id", id_json);
                put(&mut entries, "source_broadcaster_user_login", login_json);
                put(&mut entries, "source_broadcaster_user_name", name_json);
                put(&mut entries, "source_message_id", message_json);
                put(&mut entries, "source_badges", badges_json);
                proof {
                    assert(member(entries@, "source_broadcaster_user_id"@) == Some(id_json));
                    assert(member(entries@, "source_broadcaster_user_login"@) == Some(login_json));
                    assert(member(entries@, "source_broadcaster_user_name"@) == Some(name_json));
                    assert(member(entries@, "source_message_id"@) == Some(message_json));
                    assert(member(entries@, "source_badges"@) == Some(badges_json));
                }
            },
            SharedMessage::Absent => {
                proof {
                    assert(member(entries@, "source_broadcaster_user_id"@) is None);
                    assert(member(entries@, "source_broadcaster_user_login"@) is None);
                    assert(member(entries@, "source_broadcaster_user_name"@) is None);
                    assert(member(entries@, "source_message_id"@) is None);
                    assert(member(entries@, "source_badges"@) is None);
                }
            },
        }
        entries
    }
}

impl ToJson for SharedMessage {
    fn to_json(&self) -> (r: Json) {
        Json::Object(self.write())
    }
}


/// Who gave a gift: a user, someone who did not want to be named, or nobody,
/// where nothing was given.
#[derive(Debug)]
pub enum Gifter {
    Absent,
    Anonymous,
    Gifter { gifter: User },
}

impl Gifter {
    /// Whether `j` names the giver in full and says that the giver is not
    /// anonymous.
    pub open spec fn named(j: Json) -> bool {
        &&& j.spec_optional_flag("gifter_is_anonymous"@) == Some(Some(false))
        &&& User::parses(j, "gifter_user_id"@, "gifter_user_login"@, "gifter_user_name"@)
    }
}

impl FromJson for Gifter {
    /// Each of the four members may be missing or `null`; none may be of
    /// another type than its own.
    open spec fn parses(j: Json) -> bool {
        &&& j.spec_optional_text("gifter_user_id"@) is Some
        &&& j.spec_optional_text("gifter_user_name"@) is Some
        &&& j.spec_optional_text("gifter_user_login"@) is Some
        &&& j.spec_optional_flag("gifter_is_anonymous"@) is Some
    }

    open spec fn parsed_as(j: Json, v: Gifter) -> bool {
        if j.spec_optional_flag("gifter_is_anonymous"@) == Some(Some(true)) {
            v is Anonymous
        } else if Gifter::named(j) {
            v matches Gifter::Gifter { gifter } && User::parsed_as(
                j,
                "gifter_user_id"@,
                "gifter_user_login"@,
                "gifter_user_name"@,
                gifter,
            )
        } else {
            v is Absent
        }
    }

    fn from_json(j: &Json) -> (r: Option<Gifter>) {
        let user_id = j.optional_text("gifter_user_id");
        let user_name = j.optional_text("gifter_user_name");
        let user_login = j.optional_text("gifter_user_login");
        let anonymous = j.optional_flag("gifter_is_anonymous");
        if user_id.is_none() || user_name.is_none() || user_login.is_none() || anonymous.is_none() {
            return None;
        }
        match anonymous.unwrap() {
            Some(true) => Some(Gifter::Anonymous),
            Some(false) => match (user_id.unwrap(), user_login.unwrap(), user_name.unwrap()) {
                (Some(user_id), Some(user_login), Some(user_name)) => Some(
                    Gifter::Gifter { gifter: User { user_id, user_login, user_name } },
                ),
                _ => Some(Gifter::Absent),
            },
            None => Some(Gifter::Absent),
        }
    }
}

impl Gifter {
    /// Whether the type reads the member of this name.
    pub open spec fn own_key(k: Seq<char>) -> bool {
        k == "gifter_user_id"@ || k == "gifter_user_name"@ || k == "gifter_user_login"@ || k
            == "gifter_is_anonymous"@
    }

    /// What is read depends on the members of these names alone.
    pub proof fn lemma_own_keys(a: Json, b: Json, v: Gifter)
        requires
            forall|k: Seq<char>| Self::own_key(k) ==> a.spec_get(k) == b.spec_get(k),
        ensures
            Self::parses(a) == Self::parses(b),
            Self::parsed_as(a, v) == Self::parsed_as(b, v),
    {
        assert(Self::own_key("gifter_user_id"@));
        assert(Self::own_key("gifter_user_name"@));
        assert(Self::own_key("gifter_user_login"@));
        assert(Self::own_key("gifter_is_anonymous"@));
    }

    /// Writes the members. What is written is read back as the same value,
    /// and holds no member of another name.
    pub fn write(&self) -> (r: Vec<(String, Json)>)
        ensures
            Self::parses(Json::Object(r)),
            Self::parsed_as(Json::Object(r), *self),
            forall|k: Seq<char>| !Self::own_key(k) ==> member(r@, k) is None,
    {
        let mut entries: Vec<(String, Json)> = Vec::new();
        proof {
            reveal_strlit("gifter_user_id");
            reveal_strlit("gifter_user_name");
            reveal_strlit("gifter_user_login");
            reveal_strlit("gifter_is_anonymous");
            assert("gifter_user_id"@.len() == 14);
            assert("gifter_user_name"@.len() == 16);
            assert("gifter_user_login"@.len() == 17);
            assert("gifter_is_anonymous"@.len() == 19);
        }
        match self {
            Gifter::Gifter { gifter } => {
                let flag = Json::Bool(false);
                let id_json = Json::Text(gifter.user_id.clone());
                let login_json = Json::Text(gifter.user_login.clone());
                let name_json = Json::Text(gifter.user_name.clone());
                put(&mut entries, "gifter_is_anonymous", flag);
                put(&mut entries, "gifter_user_id", id_json);
                put(&mut entries, "gifter_user_login", login_json);
                put(&mut entries, "gifter_user_name", name_json);
                proof {
                    assert(member(entries@, "gifter_is_anonymous"@) == Some(flag));
                    assert(member(entries@, "gifter_user_id"@) == Some(id_json));
                    assert(member(entries@, "gifter_user_login"@) == Some(login_json));
                    assert(member(entries@, "gifter_user_name"@) == Some(name_json));
                }
            },
            Gifter::Anonymous => {
                let flag = Json::Bool(true);
                put(&mut entries, "gifter_is_anonymous", flag);
                proof {
                    assert(member(entries@, "gifter_is_anonymous"@) == Some(flag));
                    assert(member(entries@, "gifter_user_id"@) is None);
                    assert(member(entries@, "gifter_user_login"@) is None);
                    assert(member(entries@, "gifter_user_name"@) is None);
                }
            },
            Gifter::Absent => {
                proof {
                    assert(member(entries@, "gifter_is_anonymous"@) is None);
                    assert(member(entries@, "gifter_user_id"@) is None);
                    assert(member(entries@, "gifter_user_login"@) is None);
                    assert(member(entries@, "gifter_user_name"@) is None);
                }
            },
        }
        entries
    }
}

impl ToJson for Gifter {
    fn to_json(&self) -> (r: Json) {
        Json::Object(self.write())
    }
}


} // verus!
