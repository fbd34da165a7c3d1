//! Events about a channel: updates, follows, cheers, raids, moderators, VIPs, shoutouts
//! and streams.

use vstd::prelude::*;
use crate::json::Json;
use crate::json::FromJson;
use crate::json::lemma_member_append;
use crate::json::ToJson;
use crate::json::put;
use crate::json::member;
use crate::json::write_all;
use crate::json::count_json;
use crate::json::read_member;
use crate::json::read_list;
use crate::json::member_parses;
use crate::json::member_parsed_as;
use crate::json::list_parses;
use crate::json::list_parsed_as;
use crate::json::same_text;
use crate::eventsub::events::User;

verus! {

/// An event of the category `channel.update`.
#[derive(Debug)]
pub struct ChannelUpdate {
    pub broadcaster: User,
    pub title: String,
    pub language: String,
    pub category_id: String,
    pub category_name: String,
    pub content_classification_labels: Vec<String>,
}

impl FromJson for ChannelUpdate {
    open spec fn parses(j: Json) -> bool {
        &&& User::parses(
            j,
            "broadcaster_user_id"@,
            "broadcaster_user_login"@,
            "broadcaster_user_name"@,
        )
        &&& j.spec_text("title"@) is Some
        &&& j.spec_text("language"@) is Some
        &&& j.spec_text("category_id"@) is Some
        &&& j.spec_text("category_name"@) is Some
        &&& list_parses::<String>(j, "content_classification_labels"@)
    }

    open spec fn parsed_as(j: Json, v: ChannelUpdate) -> bool {
        &&& User::parsed_as(
            j,
            "broadcaster_user_id"@,
            "broadcaster_user_login"@,
            "broadcaster_user_name"@,
            v.broadcaster,
        )
        &&& j.spec_text("title"@) == Some(v.title)
        &&& j.spec_text("language"@) == Some(v.language)
        &&& j.spec_text("category_id"@) == Some(v.category_id)
        &&& j.spec_text("category_name"@) == Some(v.category_name)
        &&& list_parsed_as(j, "content_classification_labels"@, v.content_classification_labels@)
    }

    fn from_json(j: &Json) -> (r: Option<ChannelUpdate>) {
        let broadcaster = User::from_json(
            j,
            "broadcaster_user_id",
            "broadcaster_user_login",
            "broadcaster_user_name",
        );
        let title = j.text("title");
        let language = j.text("language");
        let category_id = j.text("category_id");
        let category_name = j.text("category_name");
        let content_classification_labels = read_list::<String>(j, "content_classification_labels");
        if broadcaster.is_some() && title.is_some() && language.is_some() && category_id.is_some()
            && category_name.is_some() && content_classification_labels.is_some() {
            Some(
                ChannelUpdate {
                    broadcaster: broadcaster.unwrap(),
                    title: title.unwrap(),
                    language: language.unwrap(),
                    category_id: category_id.unwrap(),
                    category_name: category_name.unwrap(),
                    content_classification_labels: content_classification_labels.unwrap(),
                },
            )
        } else {
            None
        }
    }
}

impl ToJson for ChannelUpdate {
    fn to_json(&self) -> (r: Json) {
        let mut entries: Vec<(String, Json)> = Vec::new();
        proof {
            reveal_strlit("broadcaster_user_id");
            reveal_strlit("broadcaster_user_login");
            reveal_strlit("broadcaster_user_name");
            reveal_strlit("title");
            reveal_strlit("language");
            reveal_strlit("category_id");
            reveal_strlit("category_name");
            reveal_strlit("content_classification_labels");
            assert("broadcaster_user_id"@.len() == 19);
            assert("broadcaster_user_login"@.len() == 22);
            assert("broadcaster_user_name"@.len() == 21);
            assert("title"@.len() == 5);
            assert("language"@.len() == 8);
            assert("category_id"@.len() == 11);
            assert("category_name"@.len() == 13);
            assert("content_classification_labels"@.len() == 29);
        }
        let broadcaster_id_json = Json::Text(self.broadcaster.user_id.clone());
        let broadcaster_login_json = Json::Text(self.broadcaster.user_login.clone());
        let broadcaster_name_json = Json::Text(self.broadcaster.user_name.clone());
        let title_json = Json::Text(self.title.clone());
        let language_json = Json::Text(self.language.clone());
        let category_id_json = Json::Text(self.category_id.clone());
        let category_name_json = Json::Text(self.category_name.clone());
        let content_classification_labels_json = Json::List(
            write_all(&self.content_classification_labels),
        );
        put(&mut entries, "broadcaster_user_id", broadcaster_id_json);
        put(&mut entries, "broadcaster_user_login", broadcaster_login_json);
        put(&mut entries, "broadcaster_user_name", broadcaster_name_json);
        put(&mut entries, "title", title_json);
        put(&mut entries, "language", language_json);
        put(&mut entries, "category_id", category_id_json);
        put(&mut entries, "category_name", category_name_json);
        put(&mut entries, "content_classification_labels", content_classification_labels_json);
        proof {
            assert(member(entries@, "broadcaster_user_id"@) == Some(broadcaster_id_json));
            assert(member(entries@, "broadcaster_user_login"@) == Some(broadcaster_login_json));
            assert(member(entries@, "broadcaster_user_name"@) == Some(broadcaster_name_json));
            assert(member(entries@, "title"@) == Some(title_json));
            assert(member(entries@, "language"@) == Some(language_json));
            assert(member(entries@, "category_id"@) == Some(category_id_json));
            assert(member(entries@, "category_name"@) == Some(category_name_json));
            assert(member(entries@, "content_classification_labels"@)
                == Some(content_classification_labels_json));
        }
        Json::Object(entries)
    }
}

/// An event of the category `channel.follow`.
#[derive(Debug)]
pub struct Follow {
    pub broadcaster: User,
    pub user: User,
    pub followed_at: String,
}

impl FromJson for Follow {
    open spec fn parses(j: Json) -> bool {
        &&& User::parses(
            j,
            "broadcaster_user_id"@,
            "broadcaster_user_login"@,
            "broadcaster_user_name"@,
        )
        &&& User::parses(j, "user_id"@, "user_login"@, "user_name"@)
        &&& j.spec_text("followed_at"@) is Some
    }

    open spec fn parsed_as(j: Json, v: Follow) -> bool {
        &&& User::parsed_as(
            j,
            "broadcaster_user_id"@,
            "broadcaster_user_login"@,
            "broadcaster_user_name"@,
            v.broadcaster,
        )
        &&& User::parsed_as(j, "user_id"@, "user_login"@, "user_name"@, v.user)
        &&& j.spec_text("followed_at"@) == Some(v.followed_at)
    }

    fn from_json(j: &Json) -> (r: Option<Follow>) {
        let broadcaster = User::from_json(
            j,
            "broadcaster_user_id",
            "broadcaster_user_login",
            "broadcaster_user_name",
        );
        let user = User::from_json(j, "user_id", "user_login", "user_name");
        let followed_at = j.text("followed_at");
        if broadcaster.is_some() && user.is_some() && followed_at.is_some() {
            Some(
                Follow {
                    broadcaster: broadcaster.unwrap(),
                    user: user.unwrap(),
                    followed_at: followed_at.unwrap(),
                },
            )
        } else {
            None
        }
    }
}

impl ToJson for Follow {
    fn to_json(&self) -> (r: Json) {
        let mut entries: Vec<(String, Json)> = Vec::new();
        proof {
            reveal_strlit("broadcaster_user_id");
            reveal_strlit("broadcaster_user_login");
            reveal_strlit("broadcaster_user_name");
            reveal_strlit("user_id");
            reveal_strlit("user_login");
            reveal_strlit("user_name");
            reveal_strlit("followed_at");
            assert("broadcaster_user_id"@.len() == 19);
            assert("broadcaster_user_login"@.len() == 22);
            assert("broadcaster_user_name"@.len() == 21);
            assert("user_id"@.len() == 7);
            assert("user_login"@.len() == 10);
            assert("user_name"@.len() == 9);
            assert("followed_at"@.len() == 11);
        }
        let broadcaster_id_json = Json::Text(self.broadcaster.user_id.clone());
        let broadcaster_login_json = Json::Text(self.broadcaster.user_login.clone());
        let broadcaster_name_json = Json::Text(self.broadcaster.user_name.clone());
        let user_id_json = Json::Text(self.user.user_id.clone());
        let user_login_json = Json::Text(self.user.user_login.clone());
        let user_name_json = Json::Text(self.user.user_name.clone());
        let followed_at_json = Json::Text(self.followed_at.clone());
        put(&mut entries, "broadcaster_user_id", broadcaster_id_json);
        put(&mut entries, "broadcaster_user_login", broadcaster_login_json);
        put(&mut entries, "broadcaster_user_name", broadcaster_name_json);
        put(&mut entries, "user_id", user_id_json);
        put(&mut entries, "user_login", user_login_json);
        put(&mut entries, "user_name", user_name_json);
        put(&mut entries, "followed_at", followed_at_json);
        proof {
            assert(member(entries@, "broadcaster_user_id"@) == Some(broadcaster_id_json));
            assert(member(entries@, "broadcaster_user_login"@) == Some(broadcaster_login_json));
            assert(member(entries@, "broadcaster_user_name"@) == Some(broadcaster_name_json));
            assert(member(entries@, "user_id"@) == Some(user_id_json));
            assert(member(entries@, "user_login"@) == Some(user_login_json));
            assert(member(entries@, "user_name"@) == Some(user_name_json));
            assert(member(entries@, "followed_at"@) == Some(followed_at_json));
        }
        Json::Object(entries)
    }
}

/// An event of the category `channel.ad_break.begin`.
#[derive(Debug)]
pub struct AdBreakBegin {
    pub broadcaster: User,
    pub requester: User,
    pub duration_seconds: u64,
    pub started_at: String,
    pub is_automatic: bool,
}

impl FromJson for AdBreakBegin {
    open spec fn parses(j: Json) -> bool {
        &&& User::parses(
            j,
            "broadcaster_user_id"@,
            "broadcaster_user_login"@,
            "broadcaster_user_name"@,
        )
        &&& User::parses(j, "requester_user_id"@, "requester_user_login"@, "requester_user_name"@)
        &&& j.spec_count("duration_seconds"@) is Some
        &&& j.spec_text("started_at"@) is Some
        &&& j.spec_flag("is_automatic"@) is Some
    }

    open spec fn parsed_as(j: Json, v: AdBreakBegin) -> bool {
        &&& User::parsed_as(
            j,
            "broadcaster_user_id"@,
            "broadcaster_user_login"@,
            "broadcaster_user_name"@,
            v.broadcaster,
        )
        &&& User::parsed_as(
            j,
            "requester_user_id"@,
            "requester_user_login"@,
            "requester_user_name"@,
            v.requester,
        )
        &&& j.spec_count("duration_seconds"@) == Some(v.duration_seconds)
        &&& j.spec_text("started_at"@) == Some(v.started_at)
        &&& j.spec_flag("is_automatic"@) == Some(v.is_automatic)
    }

    fn from_json(j: &Json) -> (r: Option<AdBreakBegin>) {
        let broadcaster = User::from_json(
            j,
            "broadcaster_user_id",
            "broadcaster_user_login",
            "broadcaster_user_name",
        );
        let requester = User::from_json(
            j,
            "requester_user_id",
            "requester_user_login",
            "requester_user_name",
        );
        let duration_seconds = j.count("duration_seconds");
        let started_at = j.text("started_at");
        let is_automatic = j.flag("is_automatic");
        if broadcaster.is_some() && requester.is_some() && duration_seconds.is_some()
            && started_at.is_some() && is_automatic.is_some() {
            Some(
                AdBreakBegin {
                    broadcaster: broadcaster.unwrap(),
                    requester: requester.unwrap(),
                    duration_seconds: duration_seconds.unwrap(),
                    started_at: started_at.unwrap(),
                    is_automatic: is_automatic.unwrap(),
                },
            )
        } else {
            None
        }
    }
}

impl ToJson for AdBreakBegin {
    fn to_json(&self) -> (r: Json) {
        let mut entries: Vec<(String, Json)> = Vec::new();
        proof {
            reveal_strlit("broadcaster_user_id");
            reveal_strlit("broadcaster_user_login");
            reveal_strlit("broadcaster_user_name");
            reveal_strlit("requester_user_id");
            reveal_strlit("requester_user_login");
            reveal_strlit("requester_user_name");
            reveal_strlit("duration_seconds");
            reveal_strlit("started_at");
            reveal_strlit("is_automatic");
            assert("broadcaster_user_id"@.len() == 19);
            assert("broadcaster_user_login"@.len() == 22);
            assert("broadcaster_user_name"@.len() == 21);
            assert("requester_user_id"@.len() == 17);
            assert("requester_user_login"@.len() == 20);
            assert("requester_user_name"@.len() == 19);
            assert("duration_seconds"@.len() == 16);
            assert("started_at"@.len() == 10);
            assert("is_automatic"@.len() == 12);
            assert("broadcaster_user_id"@[0] != "requester_user_name"@[0]);
        }
        let broadcaster_id_json = Json::Text(self.broadcaster.user_id.clone());
        let broadcaster_login_json = Json::Text(self.broadcaster.user_login.clone());
        let broadcaster_name_json = Json::Text(self.broadcaster.user_name.clone());
        let requester_id_json = Json::Text(self.requester.user_id.clone());
        let requester_login_json = Json::Text(self.requester.user_login.clone());
        let requester_name_json = Json::Text(self.requester.user_name.clone());
        let duration_seconds_json = count_json(self.duration_seconds);
        let started_at_json = Json::Text(self.started_at.clone());
        let is_automatic_json = Json::Bool(self.is_automatic);
        put(&mut entries, "broadcaster_user_id", broadcaster_id_json);
        put(&mut entries, "broadcaster_user_login", broadcaster_login_json);
        put(&mut entries, "broadcaster_user_name", broadcaster_name_json);
        put(&mut entries, "requester_user_id", requester_id_json);
        put(&mut entries, "requester_user_login", requester_login_json);
        put(&mut entries, "requester_user_name", requester_name_json);
        put(&mut entries, "duration_seconds", duration_seconds_json);
        put(&mut entries, "started_at", started_at_json);
        put(&mut entries, "is_automatic", is_automatic_json);
        proof {
            assert(member(entries@, "broadcaster_user_id"@) == Some(broadcaster_id_json));
            assert(member(entries@, "broadcaster_user_login"@) == Some(broadcaster_login_json));
            assert(member(entries@, "broadcaster_user_name"@) == Some(broadcaster_name_json));
            assert(member(entries@, "requester_user_id"@) == Some(requester_id_json));
            assert(member(entries@, "requester_user_login"@) == Some(requester_login_json));
            assert(member(entries@, "requester_user_name"@) == Some(requester_name_json));
            assert(member(entries@, "duration_seconds"@) == Some(duration_seconds_json));
            assert(member(entries@, "started_at"@) == Some(started_at_json));
            assert(member(entries@, "is_automatic"@) == Some(is_automatic_json));
        }
        Json::Object(entries)
    }
}

/// An event of the category `channel.cheer`.
#[derive(Debug)]
pub struct Cheer {
    pub user: Cheerer,
    pub broadcaster: User,
    pub message: String,
    pub bits: u32,
}

impl FromJson for Cheer {
    open spec fn parses(j: Json) -> bool {
        &&& Cheerer::parses(j)
        &&& User::parses(
            j,
            "broadcaster_user_id"@,
            "broadcaster_user_login"@,
            "broadcaster_user_name"@,
        )
        &&& j.spec_text("message"@) is Some
        &&& j.spec_count32("bits"@) is Some
    }

    open spec fn parsed_as(j: Json, v: Cheer) -> bool {
        &&& Cheerer::parsed_as(j, v.user)
        &&& User::parsed_as(
            j,
            "broadcaster_user_id"@,
            "broadcaster_user_login"@,
            "broadcaster_user_name"@,
            v.broadcaster,
        )
        &&& j.spec_text("message"@) == Some(v.message)
        &&& j.spec_count32("bits"@) == Some(v.bits)
    }

    fn from_json(j: &Json) -> (r: Option<Cheer>) {
        let user = Cheerer::from_json(j);
        let broadcaster = User::from_json(
            j,
            "broadcaster_user_id",
            "broadcaster_user_login",
            "broadcaster_user_name",
        );
        let message = j.text("message");
        let bits = j.count32("bits");
        if user.is_some() && broadcaster.is_some() && message.is_some() && bits.is_some() {
            Some(
                Cheer {
                    user: user.unwrap(),
                    broadcaster: broadcaster.unwrap(),
                    message: message.unwrap(),
                    bits: bits.unwrap(),
                },
            )
        } else {
            None
        }
    }
}

impl ToJson for Cheer {
    fn to_json(&self) -> (r: Json) {
        let mut entries: Vec<(String, Json)> = Vec::new();
        proof {
            reveal_strlit("broadcaster_user_id");
            reveal_strlit("broadcaster_user_login");
            reveal_strlit("broadcaster_user_name");
            reveal_strlit("message");
            reveal_strlit("bits");
            reveal_strlit("user_id");
            reveal_strlit("user_name");
            reveal_strlit("user_login");
            reveal_strlit("is_anonymous");
            assert("broadcaster_user_id"@.len() == 19);
            assert("broadcaster_user_login"@.len() == 22);
            assert("broadcaster_user_name"@.len() == 21);
            assert("message"@.len() == 7);
            assert("bits"@.len() == 4);
            assert("user_id"@.len() == 7);
            assert("user_name"@.len() == 9);
            assert("user_login"@.len() == 10);
            assert("is_anonymous"@.len() == 12);
            assert("message"@[0] != "user_id"@[0]);
        }
        let broadcaster_id_json = Json::Text(self.broadcaster.user_id.clone());
        let broadcaster_login_json = Json::Text(self.broadcaster.user_login.clone());
        let broadcaster_name_json = Json::Text(self.broadcaster.user_name.clone());
        let message_json = Json::Text(self.message.clone());
        let bits_json = count_json(self.bits as u64);
        put(&mut entries, "broadcaster_user_id", broadcaster_id_json);
        put(&mut entries, "broadcaster_user_login", broadcaster_login_json);
        put(&mut entries, "broadcaster_user_name", broadcaster_name_json);
        put(&mut entries, "message", message_json);
        put(&mut entries, "bits", bits_json);
        let ghost own = entries@;
        proof {
            assert(member(own, "broadcaster_user_id"@) == Some(broadcaster_id_json));
            assert(member(own, "broadcaster_user_login"@) == Some(broadcaster_login_json));
            assert(member(own, "broadcaster_user_name"@) == Some(broadcaster_name_json));
            assert(member(own, "message"@) == Some(message_json));
            assert(member(own, "bits"@) == Some(bits_json));
        }
        let mut user_entries = self.user.write();
        let ghost user_json = Json::Object(user_entries);
        let ghost before_user = entries@;
        entries.append(&mut user_entries);
        proof {
            let written = Json::Object(entries);
            assert forall|k: Seq<char>| member(own, k) is Some implies member(entries@, k)
                == member(own, k) by {
                lemma_member_append(before_user, user_json->Object_0@, k);
            }
            assert forall|k: Seq<char>| Cheerer::own_key(k) implies written.spec_get(k)
                == user_json.spec_get(k) by {
                lemma_member_append(before_user, user_json->Object_0@, k);
                assert(member(own, k) is None);
            }
            Cheerer::lemma_own_keys(written, user_json, self.user);
            assert(member(entries@, "broadcaster_user_id"@) == Some(broadcaster_id_json));
            assert(member(entries@, "broadcaster_user_login"@) == Some(broadcaster_login_json));
            assert(member(entries@, "broadcaster_user_name"@) == Some(broadcaster_name_json));
            assert(member(entries@, "message"@) == Some(message_json));
            assert(member(entries@, "bits"@) == Some(bits_json));
        }
        Json::Object(entries)
    }
}

/// An event of the category `channel.raid`.
#[derive(Debug)]
pub struct Raid {
    pub from_broadcaster: User,
    pub to_broadcaster: User,
    pub viewers: u32,
}

impl FromJson for Raid {
    open spec fn parses(j: Json) -> bool {
        &&& User::parses(
            j,
            "from_broadcaster_user_id"@,
            "from_broadcaster_user_login"@,
            "from_broadcaster_user_name"@,
        )
        &&& User::parses(
            j,
            "to_broadcaster_user_id"@,
            "to_broadcaster_user_login"@,
            "to_broadcaster_user_name"@,
        )
        &&& j.spec_count32("viewers"@) is Some
    }

    open spec fn parsed_as(j: Json, v: Raid) -> bool {
        &&& User::parsed_as(
            j,
            "from_broadcaster_user_id"@,
            "from_broadcaster_user_login"@,
            "from_broadcaster_user_name"@,
            v.from_broadcaster,
        )
        &&& User::parsed_as(
            j,
            "to_broadcaster_user_id"@,
            "to_broadcaster_user_login"@,
            "to_broadcaster_user_name"@,
            v.to_broadcaster,
        )
        &&& j.spec_count32("viewers"@) == Some(v.viewers)
    }

    fn from_json(j: &Json) -> (r: Option<Raid>) {
        let from_broadcaster = User::from_json(
            j,
            "from_broadcaster_user_id",
            "from_broadcaster_user_login",
            "from_broadcaster_user_name",
        );
        let to_broadcaster = User::from_json(
            j,
            "to_broadcaster_user_id",
            "to_broadcaster_user_login",
            "to_broadcaster_user_name",
        );
        let viewers = j.count32("viewers");
        if from_broadcaster.is_some() && to_broadcaster.is_some() && viewers.is_some() {
            Some(
                Raid {
                    from_broadcaster: from_broadcaster.unwrap(),
                    to_broadcaster: to_broadcaster.unwrap(),
                    viewers: viewers.unwrap(),
                },
            )
        } else {
            None
        }
    }
}

impl ToJson for Raid {
    fn to_json(&self) -> (r: Json) {
        let mut entries: Vec<(String, Json)> = Vec::new();
        proof {
            reveal_strlit("from_broadcaster_user_id");
            reveal_strlit("from_broadcaster_user_login");
            reveal_strlit("from_broadcaster_user_name");
            reveal_strlit("to_broadcaster_user_id");
            reveal_strlit("to_broadcaster_user_login");
            reveal_strlit("to_broadcaster_user_name");
            reveal_strlit("viewers");
            assert("from_broadcaster_user_id"@.len() == 24);
            assert("from_broadcaster_user_login"@.len() == 27);
            assert("from_broadcaster_user_name"@.len() == 26);
            assert("to_broadcaster_user_id"@.len() == 22);
            assert("to_broadcaster_user_login"@.len() == 25);
            assert("to_broadcaster_user_name"@.len() == 24);
            assert("viewers"@.len() == 7);
            assert("from_broadcaster_user_id"@[0] != "to_broadcaster_user_name"@[0]);
        }
        let from_broadcaster_id_json = Json::Text(self.from_broadcaster.user_id.clone());
        let from_broadcaster_login_json = Json::Text(self.from_broadcaster.user_login.clone());
        let from_broadcaster_name_json = Json::Text(self.from_broadcaster.user_name.clone());
        let to_broadcaster_id_json = Json::Text(self.to_broadcaster.user_id.clone());
        let to_broadcaster_login_json = Json::Text(self.to_broadcaster.user_login.clone());
        let to_broadcaster_name_json = Json::Text(self.to_broadcaster.user_name.clone());
        let viewers_json = count_json(self.viewers as u64);
        put(&mut entries, "from_broadcaster_user_id", from_broadcaster_id_json);
        put(&mut entries, "from_broadcaster_user_login", from_broadcaster_login_json);
        put(&mut entries, "from_broadcaster_user_name", from_broadcaster_name_json);
        put(&mut entries, "to_broadcaster_user_id", to_broadcaster_id_json);
        put(&mut entries, "to_broadcaster_user_login", to_broadcaster_login_json);
        put(&mut entries, "to_broadcaster_user_name", to_broadcaster_name_json);
        put(&mut entries, "viewers", viewers_json);
        proof {
            assert(member(entries@, "from_broadcaster_user_id"@) == Some(from_broadcaster_id_json));
            assert(member(entries@, "from_broadcaster_user_login"@)
                == Some(from_broadcaster_login_json));
            assert(member(entries@, "from_broadcaster_user_name"@)
                == Some(from_broadcaster_name_json));
            assert(member(entries@, "to_broadcaster_user_id"@) == Some(to_broadcaster_id_json));
            assert(member(entries@, "to_broadcaster_user_login"@)
                == Some(to_broadcaster_login_json));
            assert(member(entries@, "to_broadcaster_user_name"@) == Some(to_broadcaster_name_json));
            assert(member(entries@, "viewers"@) == Some(viewers_json));
        }
        Json::Object(entries)
    }
}

/// An event of the category `channel.moderator.add`.
#[derive(Debug)]
pub struct ModeratorAdd {
    pub from_broadcaster: User,
    pub user: User,
}

impl FromJson for ModeratorAdd {
    open spec fn parses(j: Json) -> bool {
        &&& User::parses(
            j,
            "broadcaster_user_id"@,
            "broadcaster_user_login"@,
            "broadcaster_user_name"@,
        )
        &&& User::parses(j, "user_id"@, "user_login"@, "user_name"@)
    }

    open spec fn parsed_as(j: Json, v: ModeratorAdd) -> bool {
        &&& User::parsed_as(
            j,
            "broadcaster_user_id"@,
            "broadcaster_user_login"@,
            "broadcaster_user_name"@,
            v.from_broadcaster,
        )
        &&& User::parsed_as(j, "user_id"@, "user_login"@, "user_name"@, v.user)
    }

    fn from_json(j: &Json) -> (r: Option<ModeratorAdd>) {
        let from_broadcaster = User::from_json(
            j,
            "broadcaster_user_id",
            "broadcaster_user_login",
            "broadcaster_user_name",
        );
        let user = User::from_json(j, "user_id", "user_login", "user_name");
        if from_broadcaster.is_some() && user.is_some() {
            Some(ModeratorAdd { from_broadcaster: from_broadcaster.unwrap(), user: user.unwrap() })
        } else {
            None
        }
    }
}

impl ToJson for ModeratorAdd {
    fn to_json(&self) -> (r: Json) {
        let mut entries: Vec<(String, Json)> = Vec::new();
        proof {
            reveal_strlit("broadcaster_user_id");
            reveal_strlit("broadcaster_user_login");
            reveal_strlit("broadcaster_user_name");
            reveal_strlit("user_id");
            reveal_strlit("user_login");
            reveal_strlit("user_name");
            assert("broadcaster_user_id"@.len() == 19);
            assert("broadcaster_user_login"@.len() == 22);
            assert("broadcaster_user_name"@.len() == 21);
            assert("user_id"@.len() == 7);
            assert("user_login"@.len() == 10);
            assert("user_name"@.len() == 9);
        }
        let from_broadcaster_id_json = Json::Text(self.from_broadcaster.user_id.clone());
        let from_broadcaster_login_json = Json::Text(self.from_broadcaster.user_login.clone());
        let from_broadcaster_name_json = Json::Text(self.from_broadcaster.user_name.clone());
        let user_id_json = Json::Text(self.user.user_id.clone());
        let user_login_json = Json::Text(self.user.user_login.clone());
        let user_name_json = Json::Text(self.user.user_name.clone());
        put(&mut entries, "broadcaster_user_id", from_broadcaster_id_json);
        put(&mut entries, "broadcaster_user_login", from_broadcaster_login_json);
        put(&mut entries, "broadcaster_user_name", from_broadcaster_name_json);
        put(&mut entries, "user_id", user_id_json);
        put(&mut entries, "user_login", user_login_json);
        put(&mut entries, "user_name", user_name_json);
        proof {
            assert(member(entries@, "broadcaster_user_id"@) == Some(from_broadcaster_id_json));
            assert(member(entries@, "broadcaster_user_login"@)
                == Some(from_broadcaster_login_json));
            assert(member(entries@, "broadcaster_user_name"@) == Some(from_broadcaster_name_json));
            assert(member(entries@, "user_id"@) == Some(user_id_json));
            assert(member(entries@, "user_login"@) == Some(user_login_json));
            assert(member(entries@, "user_name"@) == Some(user_name_json));
        }
        Json::Object(entries)
    }
}

/// An event of the category `channel.moderator.remove`.
#[derive(Debug)]
pub struct ModeratorRemove {
    pub broadcaster: User,
    pub user: User,
}

impl FromJson for ModeratorRemove {
    open spec fn parses(j: Json) -> bool {
        &&& User::parses(
            j,
            "broadcaster_user_id"@,
            "broadcaster_user_login"@,
            "broadcaster_user_name"@,
        )
        &&& User::parses(j, "user_id"@, "user_login"@, "user_name"@)
    }

    open spec fn parsed_as(j: Json, v: ModeratorRemove) -> bool {
        &&& User::parsed_as(
            j,
            "broadcaster_user_id"@,
            "broadcaster_user_login"@,
            "broadcaster_user_name"@,
            v.broadcaster,
        )
        &&& User::parsed_as(j, "user_id"@, "user_login"@, "user_name"@, v.user)
    }

    fn from_json(j: &Json) -> (r: Option<ModeratorRemove>) {
        let broadcaster = User::from_json(
            j,
            "broadcaster_user_id",
            "broadcaster_user_login",
            "broadcaster_user_name",
        );
        let user = User::from_json(j, "user_id", "user_login", "user_name");
        if broadcaster.is_some() && user.is_some() {
            Some(ModeratorRemove { broadcaster: broadcaster.unwrap(), user: user.unwrap() })
        } else {
            None
        }
    }
}

impl ToJson for ModeratorRemove {
    fn to_json(&self) -> (r: Json) {
        let mut entries: Vec<(String, Json)> = Vec::new();
        proof {
            reveal_strlit("broadcaster_user_id");
            reveal_strlit("broadcaster_user_login");
            reveal_strlit("broadcaster_user_name");
            reveal_strlit("user_id");
            reveal_strlit("user_login");
            reveal_strlit("user_name");
            assert("broadcaster_user_id"@.len() == 19);
            assert("broadcaster_user_login"@.len() == 22);
            assert("broadcaster_user_name"@.len() == 21);
            assert("user_id"@.len() == 7);
            assert("user_login"@.len() == 10);
            assert("user_name"@.len() == 9);
        }
        let broadcaster_id_json = Json::Text(self.broadcaster.user_id.clone());
        let broadcaster_login_json = Json::Text(self.broadcaster.user_login.clone());
        let broadcaster_name_json = Json::Text(self.broadcaster.user_name.clone());
        let user_id_json = Json::Text(self.user.user_id.clone());
        let user_login_json = Json::Text(self.user.user_login.clone());
        let user_name_json = Json::Text(self.user.user_name.clone());
        put(&mut entries, "broadcaster_user_id", broadcaster_id_json);
        put(&mut entries, "broadcaster_user_login", broadcaster_login_json);
        put(&mut entries, "broadcaster_user_name", broadcaster_name_json);
        put(&mut entries, "user_id", user_id_json);
        put(&mut entries, "user_login", user_login_json);
        put(&mut entries, "user_name", user_name_json);
        proof {
            assert(member(entries@, "broadcaster_user_id"@) == Some(broadcaster_id_json));
            assert(member(entries@, "broadcaster_user_login"@) == Some(broadcaster_login_json));
            assert(member(entries@, "broadcaster_user_name"@) == Some(broadcaster_name_json));
            assert(member(entries@, "user_id"@) == Some(user_id_json));
            assert(member(entries@, "user_login"@) == Some(user_login_json));
            assert(member(entries@, "user_name"@) == Some(user_name_json));
        }
        Json::Object(entries)
    }
}

/// An event of the category `channel.vip.add`.
#[derive(Debug)]
pub struct VIPAdd {
    pub broadcaster: User,
    pub user: User,
}

impl FromJson for VIPAdd {
    open spec fn parses(j: Json) -> bool {
        &&& User::parses(
            j,
            "broadcaster_user_id"@,
            "broadcaster_user_login"@,
            "broadcaster_user_name"@,
        )
        &&& User::parses(j, "user_id"@, "user_login"@, "user_name"@)
    }

    open spec fn parsed_as(j: Json, v: VIPAdd) -> bool {
        &&& User::parsed_as(
            j,
            "broadcaster_user_id"@,
            "broadcaster_user_login"@,
            "broadcaster_user_name"@,
            v.broadcaster,
        )
        &&& User::parsed_as(j, "user_id"@, "user_login"@, "user_name"@, v.user)
    }

    fn from_json(j: &Json) -> (r: Option<VIPAdd>) {
        let broadcaster = User::from_json(
            j,
            "broadcaster_user_id",
            "broadcaster_user_login",
            "broadcaster_user_name",
        );
        let user = User::from_json(j, "user_id", "user_login", "user_name");
        if broadcaster.is_some() && user.is_some() {
            Some(VIPAdd { broadcaster: broadcaster.unwrap(), user: user.unwrap() })
        } else {
            None
        }
    }
}

impl ToJson for VIPAdd {
    fn to_json(&self) -> (r: Json) {
        let mut entries: Vec<(String, Json)> = Vec::new();
        proof {
            reveal_strlit("broadcaster_user_id");
            reveal_strlit("broadcaster_user_login");
            reveal_strlit("broadcaster_user_name");
            reveal_strlit("user_id");
            reveal_strlit("user_login");
            reveal_strlit("user_name");
            assert("broadcaster_user_id"@.len() == 19);
            assert("broadcaster_user_login"@.len() == 22);
            assert("broadcaster_user_name"@.len() == 21);
            assert("user_id"@.len() == 7);
            assert("user_login"@.len() == 10);
            assert("user_name"@.len() == 9);
        }
        let broadcaster_id_json = Json::Text(self.broadcaster.user_id.clone());
        let broadcaster_login_json = Json::Text(self.broadcaster.user_login.clone());
        let broadcaster_name_json = Json::Text(self.broadcaster.user_name.clone());
        let user_id_json = Json::Text(self.user.user_id.clone());
        let user_login_json = Json::Text(self.user.user_login.clone());
        let user_name_json = Json::Text(self.user.user_name.clone());
        put(&mut entries, "broadcaster_user_id", broadcaster_id_json);
        put(&mut entries, "broadcaster_user_login", broadcaster_login_json);
        put(&mut entries, "broadcaster_user_name", broadcaster_name_json);
        put(&mut entries, "user_id", user_id_json);
        put(&mut entries, "user_login", user_login_json);
        put(&mut entries, "user_name", user_name_json);
        proof {
            assert(member(entries@, "broadcaster_user_id"@) == Some(broadcaster_id_json));
            assert(member(entries@, "broadcaster_user_login"@) == Some(broadcaster_login_json));
            assert(member(entries@, "broadcaster_user_name"@) == Some(broadcaster_name_json));
            assert(member(entries@, "user_id"@) == Some(user_id_json));
            assert(member(entries@, "user_login"@) == Some(user_login_json));
            assert(member(entries@, "user_name"@) == Some(user_name_json));
        }
        Json::Object(entries)
    }
}

/// An event of the category `channel.vip.remove`.
#[derive(Debug)]
pub struct VIPRemove {
    pub broadcaster: User,
    pub user: User,
}

impl FromJson for VIPRemove {
    open spec fn parses(j: Json) -> bool {
        &&& User::parses(
            j,
            "broadcaster_user_id"@,
            "broadcaster_user_login"@,
            "broadcaster_user_name"@,
        )
        &&& User::parses(j, "user_id"@, "user_login"@, "user_name"@)
    }

    open spec fn parsed_as(j: Json, v: VIPRemove) -> bool {
        &&& User::parsed_as(
            j,
            "broadcaster_user_id"@,
            "broadcaster_user_login"@,
            "broadcaster_user_name"@,
            v.broadcaster,
        )
        &&& User::parsed_as(j, "user_id"@, "user_login"@, "user_name"@, v.user)
    }

    fn from_json(j: &Json) -> (r: Option<VIPRemove>) {
        let broadcaster = User::from_json(
            j,
            "broadcaster_user_id",
            "broadcaster_user_login",
            "broadcaster_user_name",
        );
        let user = User::from_json(j, "user_id", "user_login", "user_name");
        if broadcaster.is_some() && user.is_some() {
            Some(VIPRemove { broadcaster: broadcaster.unwrap(), user: user.unwrap() })
        } else {
            None
        }
    }
}

impl ToJson for VIPRemove {
    fn to_json(&self) -> (r: Json) {
        let mut entries: Vec<(String, Json)> = Vec::new();
        proof {
            reveal_strlit("broadcaster_user_id");
            reveal_strlit("broadcaster_user_login");
            reveal_strlit("broadcaster_user_name");
            reveal_strlit("user_id");
            reveal_strlit("user_login");
            reveal_strlit("user_name");
            assert("broadcaster_user_id"@.len() == 19);
            assert("broadcaster_user_login"@.len() == 22);
            assert("broadcaster_user_name"@.len() == 21);
            assert("user_id"@.len() == 7);
            assert("user_login"@.len() == 10);
            assert("user_name"@.len() == 9);
        }
        let broadcaster_id_json = Json::Text(self.broadcaster.user_id.clone());
        let broadcaster_login_json = Json::Text(self.broadcaster.user_login.clone());
        let broadcaster_name_json = Json::Text(self.broadcaster.user_name.clone());
        let user_id_json = Json::Text(self.user.user_id.clone());
        let user_login_json = Json::Text(self.user.user_login.clone());
        let user_name_json = Json::Text(self.user.user_name.clone());
        put(&mut entries, "broadcaster_user_id", broadcaster_id_json);
        put(&mut entries, "broadcaster_user_login", broadcaster_login_json);
        put(&mut entries, "broadcaster_user_name", broadcaster_name_json);
        put(&mut entries, "user_id", user_id_json);
        put(&mut entries, "user_login", user_login_json);
        put(&mut entries, "user_name", user_name_json);
        proof {
            assert(member(entries@, "broadcaster_user_id"@) == Some(broadcaster_id_json));
            assert(member(entries@, "broadcaster_user_login"@) == Some(broadcaster_login_json));
            assert(member(entries@, "broadcaster_user_name"@) == Some(broadcaster_name_json));
            assert(member(entries@, "user_id"@) == Some(user_id_json));
            assert(member(entries@, "user_login"@) == Some(user_login_json));
            assert(member(entries@, "user_name"@) == Some(user_name_json));
        }
        Json::Object(entries)
    }
}

/// An event of the category `channel.shoutout.create`.
#[derive(Debug)]
pub struct ShoutoutCreate {
    pub broadcaster: User,
    pub to_broadcaster: User,
    pub moderator: User,
    pub viewer_count: u64,
    pub started_at: String,
    pub cooldown_ends_at: String,
    pub target_cooldown_ends_at: String,
}

impl FromJson for ShoutoutCreate {
    open spec fn parses(j: Json) -> bool {
        &&& User::parses(
            j,
            "broadcaster_user_id"@,
            "broadcaster_user_login"@,
            "broadcaster_user_name"@,
        )
        &&& User::parses(
            j,
            "to_broadcaster_user_id"@,
            "to_broadcaster_user_login"@,
            "to_broadcaster_user_name"@,
        )
        &&& User::parses(j, "moderator_user_id"@, "moderator_user_login"@, "moderator_user_name"@)
        &&& j.spec_count("viewer_count"@) is Some
        &&& j.spec_text("started_at"@) is Some
        &&& j.spec_text("cooldown_ends_at"@) is Some
        &&& j.spec_text("target_cooldown_ends_at"@) is Some
    }

    open spec fn parsed_as(j: Json, v: ShoutoutCreate) -> bool {
        &&& User::parsed_as(
            j,
            "broadcaster_user_id"@,
            "broadcaster_user_login"@,
            "broadcaster_user_name"@,
            v.broadcaster,
        )
        &&& User::parsed_as(
            j,
            "to_broadcaster_user_id"@,
            "to_broadcaster_user_login"@,
            "to_broadcaster_user_name"@,
            v.to_broadcaster,
        )
        &&& User::parsed_as(
            j,
            "moderator_user_id"@,
            "moderator_user_login"@,
            "moderator_user_name"@,
            v.moderator,
        )
        &&& j.spec_count("viewer_count"@) == Some(v.viewer_count)
        &&& j.spec_text("started_at"@) == Some(v.started_at)
        &&& j.spec_text("cooldown_ends_at"@) == Some(v.cooldown_ends_at)
        &&& j.spec_text("target_cooldown_ends_at"@) == Some(v.target_cooldown_ends_at)
    }

    fn from_json(j: &Json) -> (r: Option<ShoutoutCreate>) {
        let broadcaster = User::from_json(
            j,
            "broadcaster_user_id",
            "broadcaster_user_login",
            "broadcaster_user_name",
        );
        let to_broadcaster = User::from_json(
            j,
            "to_broadcaster_user_id",
            "to_broadcaster_user_login",
            "to_broadcaster_user_name",
        );
        let moderator = User::from_json(
            j,
            "moderator_user_id",
            "moderator_user_login",
            "moderator_user_name",
        );
        let viewer_count = j.count("viewer_count");
        let started_at = j.text("started_at");
        let cooldown_ends_at = j.text("cooldown_ends_at");
        let target_cooldown_ends_at = j.text("target_cooldown_ends_at");
        if broadcaster.is_some() && to_broadcaster.is_some() && moderator.is_some()
            && viewer_count.is_some() && started_at.is_some() && cooldown_ends_at.is_some()
            && target_cooldown_ends_at.is_some() {
            Some(
                ShoutoutCreate {
                    broadcaster: broadcaster.unwrap(),
                    to_broadcaster: to_broadcaster.unwrap(),
                    moderator: moderator.unwrap(),
                    viewer_count: viewer_count.unwrap(),
                    started_at: started_at.unwrap(),
                    cooldown_ends_at: cooldown_ends_at.unwrap(),
                    target_cooldown_ends_at: target_cooldown_ends_at.unwrap(),
                },
            )
        } else {
            None
        }
    }
}

impl ToJson for ShoutoutCreate {
    fn to_json(&self) -> (r: Json) {
        let mut entries: Vec<(String, Json)> = Vec::new();
        proof {
            reveal_strlit("broadcaster_user_id");
            reveal_strlit("broadcaster_user_login");
            reveal_strlit("broadcaster_user_name");
            reveal_strlit("to_broadcaster_user_id");
            reveal_strlit("to_broadcaster_user_login");
            reveal_strlit("to_broadcaster_user_name");
            reveal_strlit("moderator_user_id");
            reveal_strlit("moderator_user_login");
            reveal_strlit("moderator_user_name");
            reveal_strlit("viewer_count");
            reveal_strlit("started_at");
            reveal_strlit("cooldown_ends_at");
            reveal_strlit("target_cooldown_ends_at");
            assert("broadcaster_user_id"@.len() == 19);
            assert("broadcaster_user_login"@.len() == 22);
            assert("broadcaster_user_name"@.len() == 21);
            assert("to_broadcaster_user_id"@.len() == 22);
            assert("to_broadcaster_user_login"@.len() == 25);
            assert("to_broadcaster_user_name"@.len() == 24);
            assert("moderator_user_id"@.len() == 17);
            assert("moderator_user_login"@.len() == 20);
            assert("moderator_user_name"@.len() == 19);
            assert("viewer_count"@.len() == 12);
            assert("started_at"@.len() == 10);
            assert("cooldown_ends_at"@.len() == 16);
            assert("target_cooldown_ends_at"@.len() == 23);
            assert("broadcaster_user_id"@[0] != "moderator_user_name"@[0]);
            assert("broadcaster_user_login"@[0] != "to_broadcaster_user_id"@[0]);
        }
        let broadcaster_id_json = Json::Text(self.broadcaster.user_id.clone());
        let broadcaster_login_json = Json::Text(self.broadcaster.user_login.clone());
        let broadcaster_name_json = Json::Text(self.broadcaster.user_name.clone());
        let to_broadcaster_id_json = Json::Text(self.to_broadcaster.user_id.clone());
        let to_broadcaster_login_json = Json::Text(self.to_broadcaster.user_login.clone());
        let to_broadcaster_name_json = Json::Text(self.to_broadcaster.user_name.clone());
        let moderator_id_json = Json::Text(self.moderator.user_id.clone());
        let moderator_login_json = Json::Text(self.moderator.user_login.clone());
        let moderator_name_json = Json::Text(self.moderator.user_name.clone());
        let viewer_count_json = count_json(self.viewer_count);
        let started_at_json = Json::Text(self.started_at.clone());
        let cooldown_ends_at_json = Json::Text(self.cooldown_ends_at.clone());
        let target_cooldown_ends_at_json = Json::Text(self.target_cooldown_ends_at.clone());
        put(&mut entries, "broadcaster_user_id", broadcaster_id_json);
        put(&mut entries, "broadcaster_user_login", broadcaster_login_json);
        put(&mut entries, "broadcaster_user_name", broadcaster_name_json);
        put(&mut entries, "to_broadcaster_user_id", to_broadcaster_id_json);
        put(&mut entries, "to_broadcaster_user_login", to_broadcaster_login_json);
        put(&mut entries, "to_broadcaster_user_name", to_broadcaster_name_json);
        put(&mut entries, "moderator_user_id", moderator_id_json);
        put(&mut entries, "moderator_user_login", moderator_login_json);
        put(&mut entries, "moderator_user_name", moderator_name_json);
        put(&mut entries, "viewer_count", viewer_count_json);
        put(&mut entries, "started_at", started_at_json);
        put(&mut entries, "cooldown_ends_at", cooldown_ends_at_json);
        put(&mut entries, "target_cooldown_ends_at", target_cooldown_ends_at_json);
        proof {
            assert(member(entries@, "broadcaster_user_id"@) == Some(broadcaster_id_json));
            assert(member(entries@, "broadcaster_user_login"@) == Some(broadcaster_login_json));
            assert(member(entries@, "broadcaster_user_name"@) == Some(broadcaster_name_json));
            assert(member(entries@, "to_broadcaster_user_id"@) == Some(to_broadcaster_id_json));
            assert(member(entries@, "to_broadcaster_user_login"@)
                == Some(to_broadcaster_login_json));
            assert(member(entries@, "to_broadcaster_user_name"@) == Some(to_broadcaster_name_json));
            assert(member(entries@, "moderator_user_id"@) == Some(moderator_id_json));
            assert(member(entries@, "moderator_user_login"@) == Some(moderator_login_json));
            assert(member(entries@, "moderator_user_name"@) == Some(moderator_name_json));
            assert(member(entries@, "viewer_count"@) == Some(viewer_count_json));
            assert(member(entries@, "started_at"@) == Some(started_at_json));
            assert(member(entries@, "cooldown_ends_at"@) == Some(cooldown_ends_at_json));
            assert(member(entries@, "target_cooldown_ends_at"@)
                == Some(target_cooldown_ends_at_json));
        }
        Json::Object(entries)
    }
}

/// An event of the category `channel.shoutout.receive`.
#[derive(Debug)]
pub struct ShoutoutReceived {
    pub broadcaster: User,
    pub from_broadcaster: User,
    pub viewer_count: u64,
    pub started_at: String,
}

impl FromJson for ShoutoutReceived {
    open spec fn parses(j: Json) -> bool {
        &&& User::parses(
            j,
            "broadcaster_user_id"@,
            "broadcaster_user_login"@,
            "broadcaster_user_name"@,
        )
        &&& User::parses(
            j,
            "from_broadcaster_user_id"@,
            "from_broadcaster_user_login"@,
            "from_broadcaster_user_name"@,
        )
        &&& j.spec_count("viewer_count"@) is Some
        &&& j.spec_text("started_at"@) is Some
    }

    open spec fn parsed_as(j: Json, v: ShoutoutReceived) -> bool {
        &&& User::parsed_as(
            j,
            "broadcaster_user_id"@,
            "broadcaster_user_login"@,
            "broadcaster_user_name"@,
            v.broadcaster,
        )
        &&& User::parsed_as(
            j,
            "from_broadcaster_user_id"@,
            "from_broadcaster_user_login"@,
            "from_broadcaster_user_name"@,
            v.from_broadcaster,
        )
        &&& j.spec_count("viewer_count"@) == Some(v.viewer_count)
        &&& j.spec_text("started_at"@) == Some(v.started_at)
    }

    fn from_json(j: &Json) -> (r: Option<ShoutoutReceived>) {
        let broadcaster = User::from_json(
            j,
            "broadcaster_user_id",
            "broadcaster_user_login",
            "broadcaster_user_name",
        );
        let from_broadcaster = User::from_json(
            j,
            "from_broadcaster_user_id",
            "from_broadcaster_user_login",
            "from_broadcaster_user_name",
        );
        let viewer_count = j.count("viewer_count");
        let started_at = j.text("started_at");
        if broadcaster.is_some() && from_broadcaster.is_some() && viewer_count.is_some()
            && started_at.is_some() {
            Some(
                ShoutoutReceived {
                    broadcaster: broadcaster.unwrap(),
                    from_broadcaster: from_broadcaster.unwrap(),
                    viewer_count: viewer_count.unwrap(),
                    started_at: started_at.unwrap(),
                },
            )
        } else {
            None
        }
    }
}

impl ToJson for ShoutoutReceived {
    fn to_json(&self) -> (r: Json) {
        let mut entries: Vec<(String, Json)> = Vec::new();
        proof {
            reveal_strlit("broadcaster_user_id");
            reveal_strlit("broadcaster_user_login");
            reveal_strlit("broadcaster_user_name");
            reveal_strlit("from_broadcaster_user_id");
            reveal_strlit("from_broadcaster_user_login");
            reveal_strlit("from_broadcaster_user_name");
            reveal_strlit("viewer_count");
            reveal_strlit("started_at");
            assert("broadcaster_user_id"@.len() == 19);
            assert("broadcaster_user_login"@.len() == 22);
            assert("broadcaster_user_name"@.len() == 21);
            assert("from_broadcaster_user_id"@.len() == 24);
            assert("from_broadcaster_user_login"@.len() == 27);
            assert("from_broadcaster_user_name"@.len() == 26);
            assert("viewer_count"@.len() == 12);
            assert("started_at"@.len() == 10);
        }
        let broadcaster_id_json = Json::Text(self.broadcaster.user_id.clone());
        let broadcaster_login_json = Json::Text(self.broadcaster.user_login.clone());
        let broadcaster_name_json = Json::Text(self.broadcaster.user_name.clone());
        let from_broadcaster_id_json = Json::Text(self.from_broadcaster.user_id.clone());
        let from_broadcaster_login_json = Json::Text(self.from_broadcaster.user_login.clone());
        let from_broadcaster_name_json = Json::Text(self.from_broadcaster.user_name.clone());
        let viewer_count_json = count_json(self.viewer_count);
        let started_at_json = Json::Text(self.started_at.clone());
        put(&mut entries, "broadcaster_user_id", broadcaster_id_json);
        put(&mut entries, "broadcaster_user_login", broadcaster_login_json);
        put(&mut entries, "broadcaster_user_name", broadcaster_name_json);
        put(&mut entries, "from_broadcaster_user_id", from_broadcaster_id_json);
        put(&mut entries, "from_broadcaster_user_login", from_broadcaster_login_json);
        put(&mut entries, "from_broadcaster_user_name", from_broadcaster_name_json);
        put(&mut entries, "viewer_count", viewer_count_json);
        put(&mut entries, "started_at", started_at_json);
        proof {
            assert(member(entries@, "broadcaster_user_id"@) == Some(broadcaster_id_json));
            assert(member(entries@, "broadcaster_user_login"@) == Some(broadcaster_login_json));
            assert(member(entries@, "broadcaster_user_name"@) == Some(broadcaster_name_json));
            assert(member(entries@, "from_broadcaster_user_id"@) == Some(from_broadcaster_id_json));
            assert(member(entries@, "from_broadcaster_user_login"@)
                == Some(from_broadcaster_login_json));
            assert(member(entries@, "from_broadcaster_user_name"@)
                == Some(from_broadcaster_name_json));
            assert(member(entries@, "viewer_count"@) == Some(viewer_count_json));
            assert(member(entries@, "started_at"@) == Some(started_at_json));
        }
        Json::Object(entries)
    }
}

/// An event of the category `stream.online`.
#[derive(Debug)]
pub struct StreamOnline {
    pub id: String,
    pub broadcaster: User,
    pub stream_type: StreamType,
    pub started_at: String,
}

impl FromJson for StreamOnline {
    open spec fn parses(j: Json) -> bool {
        &&& j.spec_text("id"@) is Some
        &&& User::parses(
            j,
            "broadcaster_user_id"@,
            "broadcaster_user_login"@,
            "broadcaster_user_name"@,
        )
        &&& member_parses::<StreamType>(j, "type"@)
        &&& j.spec_text("started_at"@) is Some
    }

    open spec fn parsed_as(j: Json, v: StreamOnline) -> bool {
        &&& j.spec_text("id"@) == Some(v.id)
        &&& User::parsed_as(
            j,
            "broadcaster_user_id"@,
            "broadcaster_user_login"@,
            "broadcaster_user_name"@,
            v.broadcaster,
        )
        &&& member_parsed_as(j, "type"@, v.stream_type)
        &&& j.spec_text("started_at"@) == Some(v.started_at)
    }

    fn from_json(j: &Json) -> (r: Option<StreamOnline>) {
        let id = j.text("id");
        let broadcaster = User::from_json(
            j,
            "broadcaster_user_id",
            "broadcaster_user_login",
            "broadcaster_user_name",
        );
        let stream_type = read_member::<StreamType>(j, "type");
        let started_at = j.text("started_at");
        if id.is_some() && broadcaster.is_some() && stream_type.is_some() && started_at.is_some() {
            Some(
                StreamOnline {
                    id: id.unwrap(),
                    broadcaster: broadcaster.unwrap(),
                    stream_type: stream_type.unwrap(),
                    started_at: started_at.unwrap(),
                },
            )
        } else {
            None
        }
    }
}

impl ToJson for StreamOnline {
    fn to_json(&self) -> (r: Json) {
        let mut entries: Vec<(String, Json)> = Vec::new();
        proof {
            reveal_strlit("id");
            reveal_strlit("broadcaster_user_id");
            reveal_strlit("broadcaster_user_login");
            reveal_strlit("broadcaster_user_name");
            reveal_strlit("type");
            reveal_strlit("started_at");
            assert("id"@.len() == 2);
            assert("broadcaster_user_id"@.len() == 19);
            assert("broadcaster_user_login"@.len() == 22);
            assert("broadcaster_user_name"@.len() == 21);
            assert("type"@.len() == 4);
            assert("started_at"@.len() == 10);
        }
        let id_json = Json::Text(self.id.clone());
        let broadcaster_id_json = Json::Text(self.broadcaster.user_id.clone());
        let broadcaster_login_json = Json::Text(self.broadcaster.user_login.clone());
        let broadcaster_name_json = Json::Text(self.broadcaster.user_name.clone());
        let stream_type_json = self.stream_type.to_json();
        let started_at_json = Json::Text(self.started_at.clone());
        put(&mut entries, "id", id_json);
        put(&mut entries, "broadcaster_user_id", broadcaster_id_json);
        put(&mut entries, "broadcaster_user_login", broadcaster_login_json);
        put(&mut entries, "broadcaster_user_name", broadcaster_name_json);
        put(&mut entries, "type", stream_type_json);
        put(&mut entries, "started_at", started_at_json);
        proof {
            assert(member(entries@, "id"@) == Some(id_json));
            assert(member(entries@, "broadcaster_user_id"@) == Some(broadcaster_id_json));
            assert(member(entries@, "broadcaster_user_login"@) == Some(broadcaster_login_json));
            assert(member(entries@, "broadcaster_user_name"@) == Some(broadcaster_name_json));
            assert(member(entries@, "type"@) == Some(stream_type_json));
            assert(member(entries@, "started_at"@) == Some(started_at_json));
        }
        Json::Object(entries)
    }
}

/// An event of the category `stream.offline`.
#[derive(Debug)]
pub struct StreamOffline {
    pub broadcaster: User,
}

impl FromJson for StreamOffline {
    open spec fn parses(j: Json) -> bool {
        &&& User::parses(
            j,
            "broadcaster_user_id"@,
            "broadcaster_user_login"@,
            "broadcaster_user_name"@,
        )
    }

    open spec fn parsed_as(j: Json, v: StreamOffline) -> bool {
        &&& User::parsed_as(
            j,
            "broadcaster_user_id"@,
            "broadcaster_user_login"@,
            "broadcaster_user_name"@,
            v.broadcaster,
        )
    }

    fn from_json(j: &Json) -> (r: Option<StreamOffline>) {
        let broadcaster = User::from_json(
            j,
            "broadcaster_user_id",
            "broadcaster_user_login",
            "broadcaster_user_name",
        );
        if broadcaster.is_some() {
            Some(StreamOffline { broadcaster: broadcaster.unwrap() })
        } else {
            None
        }
    }
}

impl ToJson for StreamOffline {
    fn to_json(&self) -> (r: Json) {
        let mut entries: Vec<(String, Json)> = Vec::new();
        proof {
            reveal_strlit("broadcaster_user_id");
            reveal_strlit("broadcaster_user_login");
            reveal_strlit("broadcaster_user_name");
            assert("broadcaster_user_id"@.len() == 19);
            assert("broadcaster_user_login"@.len() == 22);
            assert("broadcaster_user_name"@.len() == 21);
        }
        let broadcaster_id_json = Json::Text(self.broadcaster.user_id.clone());
        let broadcaster_login_json = Json::Text(self.broadcaster.user_login.clone());
        let broadcaster_name_json = Json::Text(self.broadcaster.user_name.clone());
        put(&mut entries, "broadcaster_user_id", broadcaster_id_json);
        put(&mut entries, "broadcaster_user_login", broadcaster_login_json);
        put(&mut entries, "broadcaster_user_name", broadcaster_name_json);
        proof {
            assert(member(entries@, "broadcaster_user_id"@) == Some(broadcaster_id_json));
            assert(member(entries@, "broadcaster_user_login"@) == Some(broadcaster_login_json));
            assert(member(entries@, "broadcaster_user_name"@) == Some(broadcaster_name_json));
        }
        Json::Object(entries)
    }
}

#[derive(Clone, Copy, Debug, PartialEq, Eq, Structural)]
pub enum StreamType {
    Live,
    Playlist,
    WatchPart,
    Premiere,
    Rerun,
}

impl StreamType {
    /// The value that a name stands for.
    pub open spec fn spec_named(name: Seq<char>) -> Option<StreamType> {
        if name == "live"@ {
            Some(StreamType::Live)
        } else if name == "playlist"@ {
            Some(StreamType::Playlist)
        } else if name == "watch_part"@ {
            Some(StreamType::WatchPart)
        } else if name == "premiere"@ {
            Some(StreamType::Premiere)
        } else if name == "rerun"@ {
            Some(StreamType::Rerun)
        } else {
            None
        }
    }

    /// The value that a name stands for.
    pub fn named(name: &str) -> (r: Option<StreamType>)
        ensures
            r == Self::spec_named(name@),
    {
        if same_text(name, "live") {
            Some(StreamType::Live)
        } else if same_text(name, "playlist") {
            Some(StreamType::Playlist)
        } else if same_text(name, "watch_part") {
            Some(StreamType::WatchPart)
        } else if same_text(name, "premiere") {
            Some(StreamType::Premiere)
        } else if same_text(name, "rerun") {
            Some(StreamType::Rerun)
        } else {
            None
        }
    }
}

impl FromJson for StreamType {
    open spec fn parses(j: Json) -> bool {
        j matches Json::Text(s) && Self::spec_named(s@) is Some
    }

    open spec fn parsed_as(j: Json, v: StreamType) -> bool {
        j matches Json::Text(s) && Self::spec_named(s@) == Some(v)
    }

    fn from_json(j: &Json) -> (r: Option<StreamType>) {
        match j {
            Json::Text(s) => Self::named(s.as_str()),
            _ => None,
        }
    }
}

impl StreamType {
    /// The name that stands for the value.
    pub fn name(&self) -> (r: &'static str)
        ensures
            Self::spec_named(r@) == Some(*self),
    {
        proof {
            reveal_strlit("live");
            reveal_strlit("playlist");
            reveal_strlit("watch_part");
            reveal_strlit("premiere");
            reveal_strlit("rerun");
            assert("live"@.len() == 4);
            assert("playlist"@.len() == 8);
            assert("watch_part"@.len() == 10);
            assert("premiere"@.len() == 8);
            assert("rerun"@.len() == 5);
            assert("playlist"@[1] != "premiere"@[1]);
        }
        match self {
            StreamType::Live => "live",
            StreamType::Playlist => "playlist",
            StreamType::WatchPart => "watch_part",
            StreamType::Premiere => "premiere",
            StreamType::Rerun => "rerun",
        }
    }
}

impl ToJson for StreamType {
    fn to_json(&self) -> (r: Json) {
        Json::Text(self.name().to_owned())
    }
}

/// Who cheered: a user, or someone who did not want to be named.
#[derive(Debug)]
pub enum Cheerer {
    Cheerer { user: User },
    Anonymous,
}

impl FromJson for Cheerer {
    /// The three strings of the user may each be missing or `null`;
    /// `is_anonymous` must be there. Where it is `false`, so must the three.
    open spec fn parses(j: Json) -> bool {
        &&& j.spec_optional_text("user_id"@) is Some
        &&& j.spec_optional_text("user_name"@) is Some
        &&& j.spec_optional_text("user_login"@) is Some
        &&& j.spec_plain_flag("is_anonymous"@) matches Some(anonymous) && (anonymous || (
            j.spec_optional_text("user_id"@) != Some(None::<String>) && j.spec_optional_text(
                "user_name"@,
            ) != Some(None::<String>) && j.spec_optional_text("user_login"@) != Some(
                None::<String>,
            )))
    }

    open spec fn parsed_as(j: Json, v: Cheerer) -> bool {
        if j.spec_plain_flag("is_anonymous"@) == Some(true) {
            v is Anonymous
        } else {
            v matches Cheerer::Cheerer { user } && User::parsed_as(
                j,
                "user_id"@,
                "user_login"@,
                "user_name"@,
                user,
            )
        }
    }

    fn from_json(j: &Json) -> (r: Option<Cheerer>) {
        let user_id = j.optional_text("user_id");
        let user_name = j.optional_text("user_name");
        let user_login = j.optional_text("user_login");
        let anonymous = j.plain_flag("is_anonymous");
        if user_id.is_none() || user_name.is_none() || user_login.is_none() || anonymous.is_none() {
            return None;
        }
        if anonymous.unwrap() {
            return Some(Cheerer::Anonymous);
        }
        match (user_id.unwrap(), user_login.unwrap(), user_name.unwrap()) {
            (Some(user_id), Some(user_login), Some(user_name)) => Some(
                Cheerer::Cheerer { user: User { user_id, user_login, user_name } },
            ),
            _ => None,
        }
    }
}

impl Cheerer {
    /// Whether the type reads the member of this name.
    pub open spec fn own_key(k: Seq<char>) -> bool {
        k == "user_id"@ || k == "user_name"@ || k == "user_login"@ || k == "is_anonymous"@
    }

    /// What is read depends on the members of these names alone.
    pub proof fn lemma_own_keys(a: Json, b: Json, v: Cheerer)
        requires
            forall|k: Seq<char>| Self::own_key(k) ==> a.spec_get(k) == b.spec_get(k),
        ensures
            Self::parses(a) == Self::parses(b),
            Self::parsed_as(a, v) == Self::parsed_as(b, v),
    {
        assert(Self::own_key("user_id"@));
        assert(Self::own_key("user_name"@));
        assert(Self::own_key("user_login"@));
        assert(Self::own_key("is_anonymous"@));
    }

    /// Writes the members. What is written is read back as the same value,
    /// and holds no member of another name.
    pub fn write(&self) -> (r: Vec<(String, Json)>)
        ensures
            Self::parses(Json::Object(r)),
            Self::parsed_as(Json::Object(r), *self),
            forall|k: Seq<char>| !Self::own_key(k) ==> member(r@, k) is None,
    {
        let mut entries: Vec<(String, Json)> = Vec::new();
        proof {
            reveal_strlit("user_id");
            reveal_strlit("user_name");
            reveal_strlit("user_login");
            reveal_strlit("is_anonymous");
            assert("user_id"@.len() == 7);
            assert("user_name"@.len() == 9);
            assert("user_login"@.len() == 10);
            assert("is_anonymous"@.len() == 12);
        }
        match self {
            Cheerer::Cheerer { user } => {
                let flag = Json::Bool(false);
                let id_json = Json::Text(user.user_id.clone());
                let login_json = Json::Text(user.user_login.clone());
                let name_json = Json::Text(user.user_name.clone());
                put(&mut entries, "is_anonymous", flag);
                put(&mut entries, "user_id", id_json);
                put(&mut entries, "user_login", login_json);
                put(&mut entries, "user_name", name_json);
                proof {
                    assert(member(entries@, "is_anonymous"@) == Some(flag));
                    assert(member(entries@, "user_id"@) == Some(id_json));
                    assert(member(entries@, "user_login"@) == Some(login_json));
                    assert(member(entries@, "user_name"@) == Some(name_json));
                }
            },
            Cheerer::Anonymous => {
                let flag = Json::Bool(true);
                put(&mut entries, "is_anonymous", flag);
                proof {
                    assert(member(entries@, "is_anonymous"@) == Some(flag));
                    assert(member(entries@, "user_id"@) is None);
                    assert(member(entries@, "user_login"@) is None);
                    assert(member(entries@, "user_name"@) is None);
                }
            },
        }
        entries
    }
}

impl ToJson for Cheerer {
    fn to_json(&self) -> (r: Json) {
        Json::Object(self.write())
    }
}


} // verus!
