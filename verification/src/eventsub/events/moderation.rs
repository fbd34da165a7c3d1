//! Events about moderation: bans, unban requests, moderator actions, suspicious users,
//! warnings and shield mode.

use vstd::prelude::*;
use crate::json::Json;
use crate::json::FromJson;
use crate::json::lemma_member_append;
use crate::json::ToJson;
use crate::json::put;
use crate::json::member;
use crate::json::write_all;
use crate::json::count_json;
use crate::json::optional_text_json;
use crate::json::read_member;
use crate::json::read_list;
use crate::json::read_optional_list;
use crate::json::member_parses;
use crate::json::member_parsed_as;
use crate::json::list_parses;
use crate::json::list_parsed_as;
use crate::json::optional_list_parses;
use crate::json::optional_list_parsed_as;
use crate::json::same_text;
use crate::eventsub::events::Message;
use crate::eventsub::events::channel::Raid;
use crate::eventsub::events::User;

verus! {

/// An event of the category `channel.ban`.
#[derive(Debug)]
pub struct Ban {
    pub user: User,
    pub broadcaster: User,
    pub moderator: User,
    pub reason: String,
    pub banned_at: String,
    pub ends_at: String,
    pub is_permanent: bool,
}

impl FromJson for Ban {
    open spec fn parses(j: Json) -> bool {
        &&& User::parses(j, "user_id"@, "user_login"@, "user_name"@)
        &&& User::parses(
            j,
            "broadcaster_user_id"@,
            "broadcaster_user_login"@,
            "broadcaster_user_name"@,
        )
        &&& User::parses(j, "moderator_user_id"@, "moderator_user_login"@, "moderator_user_name"@)
        &&& j.spec_text("reason"@) is Some
        &&& j.spec_text("banned_at"@) is Some
        &&& j.spec_text("ends_at"@) is Some
        &&& j.spec_flag("is_permanent"@) is Some
    }

    open spec fn parsed_as(j: Json, v: Ban) -> bool {
        &&& User::parsed_as(j, "user_id"@, "user_login"@, "user_name"@, v.user)
        &&& User::parsed_as(
            j,
            "broadcaster_user_id"@,
            "broadcaster_user_login"@,
            "broadcaster_user_name"@,
            v.broadcaster,
        )
        &&& User::parsed_as(
            j,
            "moderator_user_id"@,
            "moderator_user_login"@,
            "moderator_user_name"@,
            v.moderator,
        )
        &&& j.spec_text("reason"@) == Some(v.reason)
        &&& j.spec_text("banned_at"@) == Some(v.banned_at)
        &&& j.spec_text("ends_at"@) == Some(v.ends_at)
        &&& j.spec_flag("is_permanent"@) == Some(v.is_permanent)
    }

    fn from_json(j: &Json) -> (r: Option<Ban>) {
        let user = User::from_json(j, "user_id", "user_login", "user_name");
        let broadcaster = User::from_json(
            j,
            "broadcaster_user_id",
            "broadcaster_user_login",
            "broadcaster_user_name",
        );
        let moderator = User::from_json(
            j,
            "moderator_user_id",
            "moderator_user_login",
            "moderator_user_name",
        );
        let reason = j.text("reason");
        let banned_at = j.text("banned_at");
        let ends_at = j.text("ends_at");
        let is_permanent = j.flag("is_permanent");
        if user.is_some() && broadcaster.is_some() && moderator.is_some() && reason.is_some()
            && banned_at.is_some() && ends_at.is_some() && is_permanent.is_some() {
            Some(
                Ban {
                    user: user.unwrap(),
                    broadcaster: broadcaster.unwrap(),
                    moderator: moderator.unwrap(),
                    reason: reason.unwrap(),
                    banned_at: banned_at.unwrap(),
                    ends_at: ends_at.unwrap(),
                    is_permanent: is_permanent.unwrap(),
                },
            )
        } else {
            None
        }
    }
}

impl ToJson for Ban {
    fn to_json(&self) -> (r: Json) {
        let mut entries: Vec<(String, Json)> = Vec::new();
        proof {
            reveal_strlit("user_id");
            reveal_strlit("user_login");
            reveal_strlit("user_name");
            reveal_strlit("broadcaster_user_id");
            reveal_strlit("broadcaster_user_login");
            reveal_strlit("broadcaster_user_name");
            reveal_strlit("moderator_user_id");
            reveal_strlit("moderator_user_login");
            reveal_strlit("moderator_user_name");
            reveal_strlit("reason");
            reveal_strlit("banned_at");
            reveal_strlit("ends_at");
            reveal_strlit("is_permanent");
            assert("user_id"@.len() == 7);
            assert("user_login"@.len() == 10);
            assert("user_name"@.len() == 9);
            assert("broadcaster_user_id"@.len() == 19);
            assert("broadcaster_user_login"@.len() == 22);
            assert("broadcaster_user_name"@.len() == 21);
            assert("moderator_user_id"@.len() == 17);
            assert("moderator_user_login"@.len() == 20);
            assert("moderator_user_name"@.len() == 19);
            assert("reason"@.len() == 6);
            assert("banned_at"@.len() == 9);
            assert("ends_at"@.len() == 7);
            assert("is_permanent"@.len() == 12);
            assert("user_id"@[0] != "ends_at"@[0]);
            assert("user_name"@[0] != "banned_at"@[0]);
            assert("broadcaster_user_id"@[0] != "moderator_user_name"@[0]);
        }
        let user_id_json = Json::Text(self.user.user_id.clone());
        let user_login_json = Json::Text(self.user.user_login.clone());
        let user_name_json = Json::Text(self.user.user_name.clone());
        let broadcaster_id_json = Json::Text(self.broadcaster.user_id.clone());
        let broadcaster_login_json = Json::Text(self.broadcaster.user_login.clone());
        let broadcaster_name_json = Json::Text(self.broadcaster.user_name.clone());
        let moderator_id_json = Json::Text(self.moderator.user_id.clone());
        let moderator_login_json = Json::Text(self.moderator.user_login.clone());
        let moderator_name_json = Json::Text(self.moderator.user_name.clone());
        let reason_json = Json::Text(self.reason.clone());
        let banned_at_json = Json::Text(self.banned_at.clone());
        let ends_at_json = Json::Text(self.ends_at.clone());
        let is_permanent_json = Json::Bool(self.is_permanent);
        put(&mut entries, "user_id", user_id_json);
        put(&mut entries, "user_login", user_login_json);
        put(&mut entries, "user_name", user_name_json);
        put(&mut entries, "broadcaster_user_id", broadcaster_id_json);
        put(&mut entries, "broadcaster_user_login", broadcaster_login_json);
        put(&mut entries, "broadcaster_user_name", broadcaster_name_json);
        put(&mut entries, "moderator_user_id", moderator_id_json);
        put(&mut entries, "moderator_user_login", moderator_login_json);
        put(&mut entries, "moderator_user_name", moderator_name_json);
        put(&mut entries, "reason", reason_json);
        put(&mut entries, "banned_at", banned_at_json);
        put(&mut entries, "ends_at", ends_at_json);
        put(&mut entries, "is_permanent", is_permanent_json);
        proof {
            assert(member(entries@, "user_id"@) == Some(user_id_json));
            assert(member(entries@, "user_login"@) == Some(user_login_json));
            assert(member(entries@, "user_name"@) == Some(user_name_json));
            assert(member(entries@, "broadcaster_user_id"@) == Some(broadcaster_id_json));
            assert(member(entries@, "broadcaster_user_login"@) == Some(broadcaster_login_json));
            assert(member(entries@, "broadcaster_user_name"@) == Some(broadcaster_name_json));
            assert(member(entries@, "moderator_user_id"@) == Some(moderator_id_json));
            assert(member(entries@, "moderator_user_login"@) == Some(moderator_login_json));
            assert(member(entries@, "moderator_user_name"@) == Some(moderator_name_json));
            assert(member(entries@, "reason"@) == Some(reason_json));
            assert(member(entries@, "banned_at"@) == Some(banned_at_json));
            assert(member(entries@, "ends_at"@) == Some(ends_at_json));
            assert(member(entries@, "is_permanent"@) == Some(is_permanent_json));
        }
        Json::Object(entries)
    }
}

/// An event of the category `channel.unban`.
#[derive(Debug)]
pub struct Unban {
    pub user: User,
    pub broadcaster: User,
    pub moderator: User,
}

impl FromJson for Unban {
    open spec fn parses(j: Json) -> bool {
        &&& User::parses(j, "user_id"@, "user_login"@, "user_name"@)
        &&& User::parses(
            j,
            "broadcaster_user_id"@,
            "broadcaster_user_login"@,
            "broadcaster_user_name"@,
        )
        &&& User::parses(j, "moderator_user_id"@, "moderator_user_login"@, "moderator_user_name"@)
    }

    open spec fn parsed_as(j: Json, v: Unban) -> bool {
        &&& User::parsed_as(j, "user_id"@, "user_login"@, "user_name"@, v.user)
        &&& User::parsed_as(
            j,
            "broadcaster_user_id"@,
            "broadcaster_user_login"@,
            "broadcaster_user_name"@,
            v.broadcaster,
        )
        &&& User::parsed_as(
            j,
            "moderator_user_id"@,
            "moderator_user_login"@,
            "moderator_user_name"@,
            v.moderator,
        )
    }

    fn from_json(j: &Json) -> (r: Option<Unban>) {
        let user = User::from_json(j, "user_id", "user_login", "user_name");
        let broadcaster = User::from_json(
            j,
            "broadcaster_user_id",
            "broadcaster_user_login",
            "broadcaster_user_name",
        );
        let moderator = User::from_json(
            j,
            "moderator_user_id",
            "moderator_user_login",
            "moderator_user_name",
        );
        if user.is_some() && broadcaster.is_some() && moderator.is_some() {
            Some(
                Unban {
                    user: user.unwrap(),
                    broadcaster: broadcaster.unwrap(),
                    moderator: moderator.unwrap(),
                },
            )
        } else {
            None
        }
    }
}

impl ToJson for Unban {
    fn to_json(&self) -> (r: Json) {
        let mut entries: Vec<(String, Json)> = Vec::new();
        proof {
            reveal_strlit("user_id");
            reveal_strlit("user_login");
            reveal_strlit("user_name");
            reveal_strlit("broadcaster_user_id");
            reveal_strlit("broadcaster_user_login");
            reveal_strlit("broadcaster_user_name");
            reveal_strlit("moderator_user_id");
            reveal_strlit("moderator_user_login");
            reveal_strlit("moderator_user_name");
            assert("user_id"@.len() == 7);
            assert("user_login"@.len() == 10);
            assert("user_name"@.len() == 9);
            assert("broadcaster_user_id"@.len() == 19);
            assert("broadcaster_user_login"@.len() == 22);
            assert("broadcaster_user_name"@.len() == 21);
            assert("moderator_user_id"@.len() == 17);
            assert("moderator_user_login"@.len() == 20);
            assert("moderator_user_name"@.len() == 19);
            assert("broadcaster_user_id"@[0] != "moderator_user_name"@[0]);
        }
        let user_id_json = Json::Text(self.user.user_id.clone());
        let user_login_json = Json::Text(self.user.user_login.clone());
        let user_name_json = Json::Text(self.user.user_name.clone());
        let broadcaster_id_json = Json::Text(self.broadcaster.user_id.clone());
        let broadcaster_login_json = Json::Text(self.broadcaster.user_login.clone());
        let broadcaster_name_json = Json::Text(self.broadcaster.user_name.clone());
        let moderator_id_json = Json::Text(self.moderator.user_id.clone());
        let moderator_login_json = Json::Text(self.moderator.user_login.clone());
        let moderator_name_json = Json::Text(self.moderator.user_name.clone());
        put(&mut entries, "user_id", user_id_json);
        put(&mut entries, "user_login", user_login_json);
        put(&mut entries, "user_name", user_name_json);
        put(&mut entries, "broadcaster_user_id", broadcaster_id_json);
        put(&mut entries, "broadcaster_user_login", broadcaster_login_json);
        put(&mut entries, "broadcaster_user_name", broadcaster_name_json);
        put(&mut entries, "moderator_user_id", moderator_id_json);
        put(&mut entries, "moderator_user_login", moderator_login_json);
        put(&mut entries, "moderator_user_name", moderator_name_json);
        proof {
            assert(member(entries@, "user_id"@) == Some(user_id_json));
            assert(member(entries@, "user_login"@) == Some(user_login_json));
            assert(member(entries@, "user_name"@) == Some(user_name_json));
            assert(member(entries@, "broadcaster_user_id"@) == Some(broadcaster_id_json));
            assert(member(entries@, "broadcaster_user_login"@) == Some(broadcaster_login_json));
            assert(member(entries@, "broadcaster_user_name"@) == Some(broadcaster_name_json));
            assert(member(entries@, "moderator_user_id"@) == Some(moderator_id_json));
            assert(member(entries@, "moderator_user_login"@) == Some(moderator_login_json));
            assert(member(entries@, "moderator_user_name"@) == Some(moderator_name_json));
        }
        Json::Object(entries)
    }
}

/// An event of the category `channel.unban_request.create`.
#[derive(Debug)]
pub struct UnbanRequestCreate {
    pub id: String,
    pub broadcaster: User,
    pub user: User,
    pub text: String,
    pub created_at: String,
}

impl FromJson for UnbanRequestCreate {
    open spec fn parses(j: Json) -> bool {
        &&& j.spec_text("id"@) is Some
        &&& User::parses(
            j,
            "broadcaster_user_id"@,
            "broadcaster_user_login"@,
            "broadcaster_user_name"@,
        )
        &&& User::parses(j, "user_id"@, "user_login"@, "user_name"@)
        &&& j.spec_text("text"@) is Some
        &&& j.spec_text("created_at"@) is Some
    }

    open spec fn parsed_as(j: Json, v: UnbanRequestCreate) -> bool {
        &&& j.spec_text("id"@) == Some(v.id)
        &&& User::parsed_as(
            j,
            "broadcaster_user_id"@,
            "broadcaster_user_login"@,
            "broadcaster_user_name"@,
            v.broadcaster,
        )
        &&& User::parsed_as(j, "user_id"@, "user_login"@, "user_name"@, v.user)
        &&& j.spec_text("text"@) == Some(v.text)
        &&& j.spec_text("created_at"@) == Some(v.created_at)
    }

    fn from_json(j: &Json) -> (r: Option<UnbanRequestCreate>) {
        let id = j.text("id");
        let broadcaster = User::from_json(
            j,
            "broadcaster_user_id",
            "broadcaster_user_login",
            "broadcaster_user_name",
        );
        let user = User::from_json(j, "user_id", "user_login", "user_name");
        let text = j.text("text");
        let created_at = j.text("created_at");
        if id.is_some() && broadcaster.is_some() && user.is_some() && text.is_some()
            && created_at.is_some() {
            Some(
                UnbanRequestCreate {
                    id: id.unwrap(),
                    broadcaster: broadcaster.unwrap(),
                    user: user.unwrap(),
                    text: text.unwrap(),
                    created_at: created_at.unwrap(),
                },
            )
        } else {
            None
        }
    }
}

impl ToJson for UnbanRequestCreate {
    fn to_json(&self) -> (r: Json) {
        let mut entries: Vec<(String, Json)> = Vec::new();
        proof {
            reveal_strlit("id");
            reveal_strlit("broadcaster_user_id");
            reveal_strlit("broadcaster_user_login");
            reveal_strlit("broadcaster_user_name");
            reveal_strlit("user_id");
            reveal_strlit("user_login");
            reveal_strlit("user_name");
            reveal_strlit("text");
            reveal_strlit("created_at");
            assert("id"@.len() == 2);
            assert("broadcaster_user_id"@.len() == 19);
            assert("broadcaster_user_login"@.len() == 22);
            assert("broadcaster_user_name"@.len() == 21);
            assert("user_id"@.len() == 7);
            assert("user_login"@.len() == 10);
            assert("user_name"@.len() == 9);
            assert("text"@.len() == 4);
            assert("created_at"@.len() == 10);
            assert("user_login"@[0] != "created_at"@[0]);
        }
        let id_json = Json::Text(self.id.clone());
        let broadcaster_id_json = Json::Text(self.broadcaster.user_id.clone());
        let broadcaster_login_json = Json::Text(self.broadcaster.user_login.clone());
        let broadcaster_name_json = Json::Text(self.broadcaster.user_name.clone());
        let user_id_json = Json::Text(self.user.user_id.clone());
        let user_login_json = Json::Text(self.user.user_login.clone());
        let user_name_json = Json::Text(self.user.user_name.clone());
        let text_json = Json::Text(self.text.clone());
        let created_at_json = Json::Text(self.created_at.clone());
        put(&mut entries, "id", id_json);
        put(&mut entries, "broadcaster_user_id", broadcaster_id_json);
        put(&mut entries, "broadcaster_user_login", broadcaster_login_json);
        put(&mut entries, "broadcaster_user_name", broadcaster_name_json);
        put(&mut entries, "user_id", user_id_json);
        put(&mut entries, "user_login", user_login_json);
        put(&mut entries, "user_name", user_name_json);
        put(&mut entries, "text", text_json);
        put(&mut entries, "created_at", created_at_json);
        proof {
            assert(member(entries@, "id"@) == Some(id_json));
            assert(member(entries@, "broadcaster_user_id"@) == Some(broadcaster_id_json));
            assert(member(entries@, "broadcaster_user_login"@) == Some(broadcaster_login_json));
            assert(member(entries@, "broadcaster_user_name"@) == Some(broadcaster_name_json));
            assert(member(entries@, "user_id"@) == Some(user_id_json));
            assert(member(entries@, "user_login"@) == Some(user_login_json));
            assert(member(entries@, "user_name"@) == Some(user_name_json));
            assert(member(entries@, "text"@) == Some(text_json));
            assert(member(entries@, "created_at"@) == Some(created_at_json));
        }
        Json::Object(entries)
    }
}

/// An event of the category `channel.unban_request.resolve`.
#[derive(Debug)]
pub struct UnbanRequestResolve {
    pub id: String,
    pub broadcaster: User,
    pub moderator: Option<User>,
    pub user: User,
    pub resolution_text: Option<String>,
    pub status: UnbanStatus,
}

impl FromJson for UnbanRequestResolve {
    open spec fn parses(j: Json) -> bool {
        &&& j.spec_text("id"@) is Some
        &&& User::parses(
            j,
            "broadcaster_user_id"@,
            "broadcaster_user_login"@,
            "broadcaster_user_name"@,
        )
        &&& User::parses(j, "user_id"@, "user_login"@, "user_name"@)
        &&& j.spec_optional_text("resolution_text"@) is Some
        &&& member_parses::<UnbanStatus>(j, "status"@)
    }

    open spec fn parsed_as(j: Json, v: UnbanRequestResolve) -> bool {
        &&& j.spec_text("id"@) == Some(v.id)
        &&& User::parsed_as(
            j,
            "broadcaster_user_id"@,
            "broadcaster_user_login"@,
            "broadcaster_user_name"@,
            v.broadcaster,
        )
        &&& match v.moderator {
                    Some(user) => User::parsed_as(
                        j,
                        "moderator_user_id"@,
                        "moderator_user_login"@,
                        "moderator_user_name"@,
                        user,
                    ),
                    None => !User::parses(
                        j,
                        "moderator_user_id"@,
                        "moderator_user_login"@,
                        "moderator_user_name"@,
                    ),
                }
        &&& User::parsed_as(j, "user_id"@, "user_login"@, "user_name"@, v.user)
        &&& j.spec_optional_text("resolution_text"@) == Some(v.resolution_text)
        &&& member_parsed_as(j, "status"@, v.status)
    }

    fn from_json(j: &Json) -> (r: Option<UnbanRequestResolve>) {
        let id = j.text("id");
        let broadcaster = User::from_json(
            j,
            "broadcaster_user_id",
            "broadcaster_user_login",
            "broadcaster_user_name",
        );
        let moderator = User::from_json(
            j,
            "moderator_user_id",
            "moderator_user_login",
            "moderator_user_name",
        );
        let user = User::from_json(j, "user_id", "user_login", "user_name");
        let resolution_text = j.optional_text("resolution_text");
        let status = read_member::<UnbanStatus>(j, "status");
        if id.is_some() && broadcaster.is_some() && user.is_some() && resolution_text.is_some()
            && status.is_some() {
            Some(
                UnbanRequestResolve {
                    id: id.unwrap(),
                    broadcaster: broadcaster.unwrap(),
                    moderator: moderator,
                    user: user.unwrap(),
                    resolution_text: resolution_text.unwrap(),
                    status: status.unwrap(),
                },
            )
        } else {
            None
        }
    }
}

impl ToJson for UnbanRequestResolve {
    fn to_json(&self) -> (r: Json) {
        let mut entries: Vec<(String, Json)> = Vec::new();
        proof {
            reveal_strlit("id");
            reveal_strlit("broadcaster_user_id");
            reveal_strlit("broadcaster_user_login");
            reveal_strlit("broadcaster_user_name");
            reveal_strlit("moderator_user_id");
            reveal_strlit("moderator_user_login");
            reveal_strlit("moderator_user_name");
            reveal_strlit("user_id");
            reveal_strlit("user_login");
            reveal_strlit("user_name");
            reveal_strlit("resolution_text");
            reveal_strlit("status");
            assert("id"@.len() == 2);
            assert("broadcaster_user_id"@.len() == 19);
            assert("broadcaster_user_login"@.len() == 22);
            assert("broadcaster_user_name"@.len() == 21);
            assert("moderator_user_id"@.len() == 17);
            assert("moderator_user_login"@.len() == 20);
            assert("moderator_user_name"@.len() == 19);
            assert("user_id"@.len() == 7);
            assert("user_login"@.len() == 10);
            assert("user_name"@.len() == 9);
            assert("resolution_text"@.len() == 15);
            assert("status"@.len() == 6);
            assert("broadcaster_user_id"@[0] != "moderator_user_name"@[0]);
        }
        let id_json = Json::Text(self.id.clone());
        let broadcaster_id_json = Json::Text(self.broadcaster.user_id.clone());
        let broadcaster_login_json = Json::Text(self.broadcaster.user_login.clone());
        let broadcaster_name_json = Json::Text(self.broadcaster.user_name.clone());
        let user_id_json = Json::Text(self.user.user_id.clone());
        let user_login_json = Json::Text(self.user.user_login.clone());
        let user_name_json = Json::Text(self.user.user_name.clone());
        let resolution_text_json = optional_text_json(&self.resolution_text);
        let status_json = self.status.to_json();
        put(&mut entries, "id", id_json);
        put(&mut entries, "broadcaster_user_id", broadcaster_id_json);
        put(&mut entries, "broadcaster_user_login", broadcaster_login_json);
        put(&mut entries, "broadcaster_user_name", broadcaster_name_json);
        put(&mut entries, "user_id", user_id_json);
        put(&mut entries, "user_login", user_login_json);
        put(&mut entries, "user_name", user_name_json);
        put(&mut entries, "resolution_text", resolution_text_json);
        put(&mut entries, "status", status_json);
        match &self.moderator {
            Some(moderator) => {
                let moderator_id_json = Json::Text(moderator.user_id.clone());
                let moderator_login_json = Json::Text(moderator.user_login.clone());
                let moderator_name_json = Json::Text(moderator.user_name.clone());
                put(&mut entries, "moderator_user_id", moderator_id_json);
                put(&mut entries, "moderator_user_login", moderator_login_json);
                put(&mut entries, "moderator_user_name", moderator_name_json);
                proof {
                    assert(member(entries@, "moderator_user_id"@) == Some(moderator_id_json));
                    assert(member(entries@, "moderator_user_login"@) == Some(moderator_login_json));
                    assert(member(entries@, "moderator_user_name"@) == Some(moderator_name_json));
                }
            },
            None => {
                proof {
                    assert(member(entries@, "moderator_user_id"@) is None);
                }
            },
        }
        proof {
            assert(member(entries@, "id"@) == Some(id_json));
            assert(member(entries@, "broadcaster_user_id"@) == Some(broadcaster_id_json));
            assert(member(entries@, "broadcaster_user_login"@) == Some(broadcaster_login_json));
            assert(member(entries@, "broadcaster_user_name"@) == Some(broadcaster_name_json));
            assert(member(entries@, "user_id"@) == Some(user_id_json));
            assert(member(entries@, "user_login"@) == Some(user_login_json));
            assert(member(entries@, "user_name"@) == Some(user_name_json));
            assert(member(entries@, "resolution_text"@) == Some(resolution_text_json));
            assert(member(entries@, "status"@) == Some(status_json));
        }
        Json::Object(entries)
    }
}

/// An event of the category `channel.moderate`.
#[derive(Debug)]
pub struct Moderate {
    pub broadcaster: User,
    pub source_broadcaster: User,
    pub moderator: User,
    pub action: Action,
}

impl FromJson for Moderate {
    open spec fn parses(j: Json) -> bool {
        &&& User::parses(
            j,
            "broadcaster_user_id"@,
            "broadcaster_user_login"@,
            "broadcaster_user_name"@,
        )
        &&& User::parses(
            j,
            "source_broadcaster_user_id"@,
            "source_broadcaster_user_login"@,
            "source_broadcaster_user_name"@,
        )
        &&& User::parses(j, "moderator_user_id"@, "moderator_user_login"@, "moderator_user_name"@)
        &&& Action::parses(j)
    }

    open spec fn parsed_as(j: Json, v: Moderate) -> bool {
        &&& User::parsed_as(
            j,
            "broadcaster_user_id"@,
            "broadcaster_user_login"@,
            "broadcaster_user_name"@,
            v.broadcaster,
        )
        &&& User::parsed_as(
            j,
            "source_broadcaster_user_id"@,
            "source_broadcaster_user_login"@,
            "source_broadcaster_user_name"@,
            v.source_broadcaster,
        )
        &&& User::parsed_as(
            j,
            "moderator_user_id"@,
            "moderator_user_login"@,
            "moderator_user_name"@,
            v.moderator,
        )
        &&& Action::parsed_as(j, v.action)
    }

    fn from_json(j: &Json) -> (r: Option<Moderate>) {
        let broadcaster = User::from_json(
            j,
            "broadcaster_user_id",
            "broadcaster_user_login",
            "broadcaster_user_name",
        );
        let source_broadcaster = User::from_json(
            j,
            "source_broadcaster_user_id",
            "source_broadcaster_user_login",
            "source_broadcaster_user_name",
        );
        let moderator = User::from_json(
            j,
            "moderator_user_id",
            "moderator_user_login",
            "moderator_user_name",
        );
        let action = Action::from_json(j);
        if broadcaster.is_some() && source_broadcaster.is_some() && moderator.is_some()
            && action.is_some() {
            Some(
                Moderate {
                    broadcaster: broadcaster.unwrap(),
                    source_broadcaster: source_broadcaster.unwrap(),
                    moderator: moderator.unwrap(),
                    action: action.unwrap(),
                },
            )
        } else {
            None
        }
    }
}

impl ToJson for Moderate {
    fn to_json(&self) -> (r: Json) {
        let mut entries: Vec<(String, Json)> = Vec::new();
        proof {
            reveal_strlit("broadcaster_user_id");
            reveal_strlit("broadcaster_user_login");
            reveal_strlit("broadcaster_user_name");
            reveal_strlit("source_broadcaster_user_id");
            reveal_strlit("source_broadcaster_user_login");
            reveal_strlit("source_broadcaster_user_name");
            reveal_strlit("moderator_user_id");
            reveal_strlit("moderator_user_login");
            reveal_strlit("moderator_user_name");
            reveal_strlit("action");
            reveal_strlit("ban");
            reveal_strlit("unban");
            reveal_strlit("timeout");
            reveal_strlit("untimeout");
            reveal_strlit("followers");
            reveal_strlit("slow");
            reveal_strlit("vip");
            reveal_strlit("unvip");
            reveal_strlit("raid");
            reveal_strlit("unraid");
            reveal_strlit("mod");
            reveal_strlit("unmod");
            reveal_strlit("delete");
            reveal_strlit("warn");
            reveal_strlit("automod_terms");
            reveal_strlit("unban_request");
            reveal_strlit("shared_chat_ban");
            reveal_strlit("shared_chat_unban");
            reveal_strlit("shared_chat_timeout");
            reveal_strlit("shared_chat_untimeout");
            reveal_strlit("shared_chat_delete");
            assert("broadcaster_user_id"@.len() == 19);
            assert("broadcaster_user_login"@.len() == 22);
            assert("broadcaster_user_name"@.len() == 21);
            assert("source_broadcaster_user_id"@.len() == 26);
            assert("source_broadcaster_user_login"@.len() == 29);
            assert("source_broadcaster_user_name"@.len() == 28);
            assert("moderator_user_id"@.len() == 17);
            assert("moderator_user_login"@.len() == 20);
            assert("moderator_user_name"@.len() == 19);
            assert("action"@.len() == 6);
            assert("ban"@.len() == 3);
            assert("unban"@.len() == 5);
            assert("timeout"@.len() == 7);
            assert("untimeout"@.len() == 9);
            assert("followers"@.len() == 9);
            assert("slow"@.len() == 4);
            assert("vip"@.len() == 3);
            assert("unvip"@.len() == 5);
            assert("raid"@.len() == 4);
            assert("unraid"@.len() == 6);
            assert("mod"@.len() == 3);
            assert("unmod"@.len() == 5);
            assert("delete"@.len() == 6);
            assert("warn"@.len() == 4);
            assert("automod_terms"@.len() == 13);
            assert("unban_request"@.len() == 13);
            assert("shared_chat_ban"@.len() == 15);
            assert("shared_chat_unban"@.len() == 17);
            assert("shared_chat_timeout"@.len() == 19);
            assert("shared_chat_untimeout"@.len() == 21);
            assert("shared_chat_delete"@.len() == 18);
            assert("broadcaster_user_id"@[0] != "moderator_user_name"@[0]);
            assert("broadcaster_user_id"@[0] != "shared_chat_timeout"@[0]);
            assert("broadcaster_user_name"@[0] != "shared_chat_untimeout"@[0]);
            assert("moderator_user_id"@[0] != "shared_chat_unban"@[0]);
            assert("moderator_user_name"@[0] != "shared_chat_timeout"@[0]);
            assert("action"@[0] != "unraid"@[0]);
            assert("action"@[0] != "delete"@[0]);
            assert("ban"@[0] != "vip"@[0]);
            assert("ban"@[0] != "mod"@[0]);
            assert("unban"@[2] != "unvip"@[2]);
            assert("unban"@[2] != "unmod"@[2]);
            assert("untimeout"@[0] != "followers"@[0]);
            assert("slow"@[0] != "raid"@[0]);
            assert("slow"@[0] != "warn"@[0]);
            assert("vip"@[0] != "mod"@[0]);
            assert("unvip"@[2] != "unmod"@[2]);
            assert("raid"@[0] != "warn"@[0]);
            assert("unraid"@[0] != "delete"@[0]);
            assert("automod_terms"@[0] != "unban_request"@[0]);
        }
        let broadcaster_id_json = Json::Text(self.broadcaster.user_id.clone());
        let broadcaster_login_json = Json::Text(self.broadcaster.user_login.clone());
        let broadcaster_name_json = Json::Text(self.broadcaster.user_name.clone());
        let source_broadcaster_id_json = Json::Text(self.source_broadcaster.user_id.clone());
        let source_broadcaster_login_json = Json::Text(self.source_broadcaster.user_login.clone());
        let source_broadcaster_name_json = Json::Text(self.source_broadcaster.user_name.clone());
        let moderator_id_json = Json::Text(self.moderator.user_id.clone());
        let moderator_login_json = Json::Text(self.moderator.user_login.clone());
        let moderator_name_json = Json::Text(self.moderator.user_name.clone());
        put(&mut entries, "broadcaster_user_id", broadcaster_id_json);
        put(&mut entries, "broadcaster_user_login", broadcaster_login_json);
        put(&mut entries, "broadcaster_user_name", broadcaster_name_json);
        put(&mut entries, "source_broadcaster_user_id", source_broadcaster_id_json);
        put(&mut entries, "source_broadcaster_user_login", source_broadcaster_login_json);
        put(&mut entries, "source_broadcaster_user_name", source_broadcaster_name_json);
        put(&mut entries, "moderator_user_id", moderator_id_json);
        put(&mut entries, "moderator_user_login", moderator_login_json);
        put(&mut entries, "moderator_user_name", moderator_name_json);
        let ghost own = entries@;
        proof {
            assert(member(own, "broadcaster_user_id"@) == Some(broadcaster_id_json));
            assert(member(own, "broadcaster_user_login"@) == Some(broadcaster_login_json));
            assert(member(own, "broadcaster_user_name"@) == Some(broadcaster_name_json));
            assert(member(own, "source_broadcaster_user_id"@) == Some(source_broadcaster_id_json));
            assert(member(own, "source_broadcaster_user_login"@)
                == Some(source_broadcaster_login_json));
            assert(member(own, "source_broadcaster_user_name"@)
                == Some(source_broadcaster_name_json));
            assert(member(own, "moderator_user_id"@) == Some(moderator_id_json));
            assert(member(own, "moderator_user_login"@) == Some(moderator_login_json));
            assert(member(own, "moderator_user_name"@) == Some(moderator_name_json));
        }
        let mut action_entries = self.action.write();
        let ghost action_json = Json::Object(action_entries);
        let ghost before_action = entries@;
        entries.append(&mut action_entries);
        proof {
            let written = Json::Object(entries);
            assert forall|k: Seq<char>| member(own, k) is Some implies member(entries@, k)
                == member(own, k) by {
                lemma_member_append(before_action, action_json->Object_0@, k);
            }
            assert forall|k: Seq<char>| Action::own_key(k) implies written.spec_get(k)
                == action_json.spec_get(k) by {
                lemma_member_append(before_action, action_json->Object_0@, k);
                assert(member(own, k) is None);
            }
            Action::lemma_own_keys(written, action_json, self.action);
            assert(member(entries@, "broadcaster_user_id"@) == Some(broadcaster_id_json));
            assert(member(entries@, "broadcaster_user_login"@) == Some(broadcaster_login_json));
            assert(member(entries@, "broadcaster_user_name"@) == Some(broadcaster_name_json));
            assert(member(entries@, "source_broadcaster_user_id"@)
                == Some(source_broadcaster_id_json));
            assert(member(entries@, "source_broadcaster_user_login"@)
                == Some(source_broadcaster_login_json));
            assert(member(entries@, "source_broadcaster_user_name"@)
                == Some(source_broadcaster_name_json));
            assert(member(entries@, "moderator_user_id"@) == Some(moderator_id_json));
            assert(member(entries@, "moderator_user_login"@) == Some(moderator_login_json));
            assert(member(entries@, "moderator_user_name"@) == Some(moderator_name_json));
        }
        Json::Object(entries)
    }
}

/// An event of the category `channel.suspicious_user.message`.
#[derive(Debug)]
pub struct SuspiciousUserMessage {
    pub broadcaster: User,
    pub user: User,
    pub low_trust_status: TrustStatus,
    pub shared_ban_channel_ids: Vec<String>,
    pub types: Vec<SuspicionTypes>,
    pub ban_evasion_evaluation: EvasionEvaluation,
    pub message: Message,
}

impl FromJson for SuspiciousUserMessage {
    open spec fn parses(j: Json) -> bool {
        &&& User::parses(
            j,
            "broadcaster_user_id"@,
            "broadcaster_user_login"@,
            "broadcaster_user_name"@,
        )
        &&& User::parses(j, "user_id"@, "user_login"@, "user_name"@)
        &&& member_parses::<TrustStatus>(j, "low_trust_status"@)
        &&& list_parses::<String>(j, "shared_ban_channel_ids"@)
        &&& list_parses::<SuspicionTypes>(j, "types"@)
        &&& member_parses::<EvasionEvaluation>(j, "ban_evasion_evaluation"@)
        &&& member_parses::<Message>(j, "message"@)
    }

    open spec fn parsed_as(j: Json, v: SuspiciousUserMessage) -> bool {
        &&& User::parsed_as(
            j,
            "broadcaster_user_id"@,
            "broadcaster_user_login"@,
            "broadcaster_user_name"@,
            v.broadcaster,
        )
        &&& User::parsed_as(j, "user_id"@, "user_login"@, "user_name"@, v.user)
        &&& member_parsed_as(j, "low_trust_status"@, v.low_trust_status)
        &&& list_parsed_as(j, "shared_ban_channel_ids"@, v.shared_ban_channel_ids@)
        &&& list_parsed_as(j, "types"@, v.types@)
        &&& member_parsed_as(j, "ban_evasion_evaluation"@, v.ban_evasion_evaluation)
        &&& member_parsed_as(j, "message"@, v.message)
    }

    fn from_json(j: &Json) -> (r: Option<SuspiciousUserMessage>) {
        let broadcaster = User::from_json(
            j,
            "broadcaster_user_id",
            "broadcaster_user_login",
            "broadcaster_user_name",
        );
        let user = User::from_json(j, "user_id", "user_login", "user_name");
        let low_trust_status = read_member::<TrustStatus>(j, "low_trust_status");
        let shared_ban_channel_ids = read_list::<String>(j, "shared_ban_channel_ids");
        let types = read_list::<SuspicionTypes>(j, "types");
        let ban_evasion_evaluation = read_member::<EvasionEvaluation>(j, "ban_evasion_evaluation");
        let message = read_member::<Message>(j, "message");
        if broadcaster.is_some() && user.is_some() && low_trust_status.is_some()
            && shared_ban_channel_ids.is_some() && types.is_some()
            && ban_evasion_evaluation.is_some() && message.is_some() {
            Some(
                SuspiciousUserMessage {
                    broadcaster: broadcaster.unwrap(),
                    user: user.unwrap(),
                    low_trust_status: low_trust_status.unwrap(),
                    shared_ban_channel_ids: shared_ban_channel_ids.unwrap(),
                    types: types.unwrap(),
                    ban_evasion_evaluation: ban_evasion_evaluation.unwrap(),
                    message: message.unwrap(),
                },
            )
        } else {
            None
        }
    }
}

impl ToJson for SuspiciousUserMessage {
    fn to_json(&self) -> (r: Json) {
        let mut entries: Vec<(String, Json)> = Vec::new();
        proof {
            reveal_strlit("broadcaster_user_id");
            reveal_strlit("broadcaster_user_login");
            reveal_strlit("broadcaster_user_name");
            reveal_strlit("user_id");
            reveal_strlit("user_login");
            reveal_strlit("user_name");
            reveal_strlit("low_trust_status");
            reveal_strlit("shared_ban_channel_ids");
            reveal_strlit("types");
            reveal_strlit("ban_evasion_evaluation");
            reveal_strlit("message");
            assert("broadcaster_user_id"@.len() == 19);
            assert("broadcaster_user_login"@.len() == 22);
            assert("broadcaster_user_name"@.len() == 21);
            assert("user_id"@.len() == 7);
            assert("user_login"@.len() == 10);
            assert("user_name"@.len() == 9);
            assert("low_trust_status"@.len() == 16);
            assert("shared_ban_channel_ids"@.len() == 22);
            assert("types"@.len() == 5);
            assert("ban_evasion_evaluation"@.len() == 22);
            assert("message"@.len() == 7);
            assert("broadcaster_user_login"@[0] != "shared_ban_channel_ids"@[0]);
            assert("broadcaster_user_login"@[1] != "ban_evasion_evaluation"@[1]);
            assert("user_id"@[0] != "message"@[0]);
            assert("shared_ban_channel_ids"@[0] != "ban_evasion_evaluation"@[0]);
        }
        let broadcaster_id_json = Json::Text(self.broadcaster.user_id.clone());
        let broadcaster_login_json = Json::Text(self.broadcaster.user_login.clone());
        let broadcaster_name_json = Json::Text(self.broadcaster.user_name.clone());
        let user_id_json = Json::Text(self.user.user_id.clone());
        let user_login_json = Json::Text(self.user.user_login.clone());
        let user_name_json = Json::Text(self.user.user_name.clone());
        let low_trust_status_json = self.low_trust_status.to_json();
        let shared_ban_channel_ids_json = Json::List(write_all(&self.shared_ban_channel_ids));
        let types_json = Json::List(write_all(&self.types));
        let ban_evasion_evaluation_json = self.ban_evasion_evaluation.to_json();
        let message_json = self.message.to_json();
        put(&mut entries, "broadcaster_user_id", broadcaster_id_json);
        put(&mut entries, "broadcaster_user_login", broadcaster_login_json);
        put(&mut entries, "broadcaster_user_name", broadcaster_name_json);
        put(&mut entries, "user_id", user_id_json);
        put(&mut entries, "user_login", user_login_json);
        put(&mut entries, "user_name", user_name_json);
        put(&mut entries, "low_trust_status", low_trust_status_json);
        put(&mut entries, "shared_ban_channel_ids", shared_ban_channel_ids_json);
        put(&mut entries, "types", types_json);
        put(&mut entries, "ban_evasion_evaluation", ban_evasion_evaluation_json);
        put(&mut entries, "message", message_json);
        proof {
            assert(member(entries@, "broadcaster_user_id"@) == Some(broadcaster_id_json));
            assert(member(entries@, "broadcaster_user_login"@) == Some(broadcaster_login_json));
            assert(member(entries@, "broadcaster_user_name"@) == Some(broadcaster_name_json));
            assert(member(entries@, "user_id"@) == Some(user_id_json));
            assert(member(entries@, "user_login"@) == Some(user_login_json));
            assert(member(entries@, "user_name"@) == Some(user_name_json));
            assert(member(entries@, "low_trust_status"@) == Some(low_trust_status_json));
            assert(member(entries@, "shared_ban_channel_ids"@)
                == Some(shared_ban_channel_ids_json));
            assert(member(entries@, "types"@) == Some(types_json));
            assert(member(entries@, "ban_evasion_evaluation"@)
                == Some(ban_evasion_evaluation_json));
            assert(member(entries@, "message"@) == Some(message_json));
        }
        Json::Object(entries)
    }
}

/// An event of the category `channel.suspicious_user.update`.
#[derive(Debug)]
pub struct SuspiciousUserUpdate {
    pub broadcaster: User,
    pub moderator: User,
    pub user: User,
    pub low_trust_status: TrustStatus,
}

impl FromJson for SuspiciousUserUpdate {
    open spec fn parses(j: Json) -> bool {
        &&& User::parses(
            j,
            "broadcaster_user_id"@,
            "broadcaster_user_login"@,
            "broadcaster_user_name"@,
        )
        &&& User::parses(j, "moderator_user_id"@, "moderator_user_login"@, "moderator_user_name"@)
        &&& User::parses(j, "user_id"@, "user_login"@, "user_name"@)
        &&& member_parses::<TrustStatus>(j, "low_trust_status"@)
    }

    open spec fn parsed_as(j: Json, v: SuspiciousUserUpdate) -> bool {
        &&& User::parsed_as(
            j,
            "broadcaster_user_id"@,
            "broadcaster_user_login"@,
            "broadcaster_user_name"@,
            v.broadcaster,
        )
        &&& User::parsed_as(
            j,
            "moderator_user_id"@,
            "moderator_user_login"@,
            "moderator_user_name"@,
            v.moderator,
        )
        &&& User::parsed_as(j, "user_id"@, "user_login"@, "user_name"@, v.user)
        &&& member_parsed_as(j, "low_trust_status"@, v.low_trust_status)
    }

    fn from_json(j: &Json) -> (r: Option<SuspiciousUserUpdate>) {
        let broadcaster = User::from_json(
            j,
            "broadcaster_user_id",
            "broadcaster_user_login",
            "broadcaster_user_name",
        );
        let moderator = User::from_json(
            j,
            "moderator_user_id",
            "moderator_user_login",
            "moderator_user_name",
        );
        let user = User::from_json(j, "user_id", "user_login", "user_name");
        let low_trust_status = read_member::<TrustStatus>(j, "low_trust_status");
        if broadcaster.is_some() && moderator.is_some() && user.is_some()
            && low_trust_status.is_some() {
            Some(
                SuspiciousUserUpdate {
                    broadcaster: broadcaster.unwrap(),
                    moderator: moderator.unwrap(),
                    user: user.unwrap(),
                    low_trust_status: low_trust_status.unwrap(),
                },
            )
        } else {
            None
        }
    }
}

impl ToJson for SuspiciousUserUpdate {
    fn to_json(&self) -> (r: Json) {
        let mut entries: Vec<(String, Json)> = Vec::new();
        proof {
            reveal_strlit("broadcaster_user_id");
            reveal_strlit("broadcaster_user_login");
            reveal_strlit("broadcaster_user_name");
            reveal_strlit("moderator_user_id");
            reveal_strlit("moderator_user_login");
            reveal_strlit("moderator_user_name");
            reveal_strlit("user_id");
            reveal_strlit("user_login");
            reveal_strlit("user_name");
            reveal_strlit("low_trust_status");
            assert("broadcaster_user_id"@.len() == 19);
            assert("broadcaster_user_login"@.len() == 22);
            assert("broadcaster_user_name"@.len() == 21);
            assert("moderator_user_id"@.len() == 17);
            assert("moderator_user_login"@.len() == 20);
            assert("moderator_user_name"@.len() == 19);
            assert("user_id"@.len() == 7);
            assert("user_login"@.len() == 10);
            assert("user_name"@.len() == 9);
            assert("low_trust_status"@.len() == 16);
            assert("broadcaster_user_id"@[0] != "moderator_user_name"@[0]);
        }
        let broadcaster_id_json = Json::Text(self.broadcaster.user_id.clone());
        let broadcaster_login_json = Json::Text(self.broadcaster.user_login.clone());
        let broadcaster_name_json = Json::Text(self.broadcaster.user_name.clone());
        let moderator_id_json = Json::Text(self.moderator.user_id.clone());
        let moderator_login_json = Json::Text(self.moderator.user_login.clone());
        let moderator_name_json = Json::Text(self.moderator.user_name.clone());
        let user_id_json = Json::Text(self.user.user_id.clone());
        let user_login_json = Json::Text(self.user.user_login.clone());
        let user_name_json = Json::Text(self.user.user_name.clone());
        let low_trust_status_json = self.low_trust_status.to_json();
        put(&mut entries, "broadcaster_user_id", broadcaster_id_json);
        put(&mut entries, "broadcaster_user_login", broadcaster_login_json);
        put(&mut entries, "broadcaster_user_name", broadcaster_name_json);
        put(&mut entries, "moderator_user_id", moderator_id_json);
        put(&mut entries, "moderator_user_login", moderator_login_json);
        put(&mut entries, "moderator_user_name", moderator_name_json);
        put(&mut entries, "user_id", user_id_json);
        put(&mut entries, "user_login", user_login_json);
        put(&mut entries, "user_name", user_name_json);
        put(&mut entries, "low_trust_status", low_trust_status_json);
        proof {
            assert(member(entries@, "broadcaster_user_id"@) == Some(broadcaster_id_json));
            assert(member(entries@, "broadcaster_user_login"@) == Some(broadcaster_login_json));
            assert(member(entries@, "broadcaster_user_name"@) == Some(broadcaster_name_json));
            assert(member(entries@, "moderator_user_id"@) == Some(moderator_id_json));
            assert(member(entries@, "moderator_user_login"@) == Some(moderator_login_json));
            assert(member(entries@, "moderator_user_name"@) == Some(moderator_name_json));
            assert(member(entries@, "user_id"@) == Some(user_id_json));
            assert(member(entries@, "user_login"@) == Some(user_login_json));
            assert(member(entries@, "user_name"@) == Some(user_name_json));
            assert(member(entries@, "low_trust_status"@) == Some(low_trust_status_json));
        }
        Json::Object(entries)
    }
}

/// An event of the category `channel.warning.acknowledge`.
#[derive(Debug)]
pub struct WarningAcknowledge {
    pub broadcaster: User,
    pub user: User,
}

impl FromJson for WarningAcknowledge {
    open spec fn parses(j: Json) -> bool {
        &&& User::parses(
            j,
            "broadcaster_user_id"@,
            "broadcaster_user_login"@,
            "broadcaster_user_name"@,
        )
        &&& User::parses(j, "user_id"@, "user_login"@, "user_name"@)
    }

    open spec fn parsed_as(j: Json, v: WarningAcknowledge) -> bool {
        &&& User::parsed_as(
            j,
            "broadcaster_user_id"@,
            "broadcaster_user_login"@,
            "broadcaster_user_name"@,
            v.broadcaster,
        )
        &&& User::parsed_as(j, "user_id"@, "user_login"@, "user_name"@, v.user)
    }

    fn from_json(j: &Json) -> (r: Option<WarningAcknowledge>) {
        let broadcaster = User::from_json(
            j,
            "broadcaster_user_id",
            "broadcaster_user_login",
            "broadcaster_user_name",
        );
        let user = User::from_json(j, "user_id", "user_login", "user_name");
        if broadcaster.is_some() && user.is_some() {
            Some(WarningAcknowledge { broadcaster: broadcaster.unwrap(), user: user.unwrap() })
        } else {
            None
        }
    }
}

impl ToJson for WarningAcknowledge {
    fn to_json(&self) -> (r: Json) {
        let mut entries: Vec<(String, Json)> = Vec::new();
        proof {
            reveal_strlit("broadcaster_user_id");
            reveal_strlit("broadcaster_user_login");
            reveal_strlit("broadcaster_user_name");
            reveal_strlit("user_id");
            reveal_strlit("user_login");
            reveal_strlit("user_name");
            assert("broadcaster_user_id"@.len() == 19);
            assert("broadcaster_user_login"@.len() == 22);
            assert("broadcaster_user_name"@.len() == 21);
            assert("user_id"@.len() == 7);
            assert("user_login"@.len() == 10);
            assert("user_name"@.len() == 9);
        }
        let broadcaster_id_json = Json::Text(self.broadcaster.user_id.clone());
        let broadcaster_login_json = Json::Text(self.broadcaster.user_login.clone());
        let broadcaster_name_json = Json::Text(self.broadcaster.user_name.clone());
        let user_id_json = Json::Text(self.user.user_id.clone());
        let user_login_json = Json::Text(self.user.user_login.clone());
        let user_name_json = Json::Text(self.user.user_name.clone());
        put(&mut entries, "broadcaster_user_id", broadcaster_id_json);
        put(&mut entries, "broadcaster_user_login", broadcaster_login_json);
        put(&mut entries, "broadcaster_user_name", broadcaster_name_json);
        put(&mut entries, "user_id", user_id_json);
        put(&mut entries, "user_login", user_login_json);
        put(&mut entries, "user_name", user_name_json);
        proof {
            assert(member(entries@, "broadcaster_user_id"@) == Some(broadcaster_id_json));
            assert(member(entries@, "broadcaster_user_login"@) == Some(broadcaster_login_json));
            assert(member(entries@, "broadcaster_user_name"@) == Some(broadcaster_name_json));
            assert(member(entries@, "user_id"@) == Some(user_id_json));
            assert(member(entries@, "user_login"@) == Some(user_login_json));
            assert(member(entries@, "user_name"@) == Some(user_name_json));
        }
        Json::Object(entries)
    }
}

/// An event of the category `channel.warning.send`.
#[derive(Debug)]
pub struct WarningSend {
    pub broadcaster: User,
    pub moderator: User,
    pub user: User,
    pub reason: Option<String>,
    pub chat_rules_cited: Option<Vec<String>>,
}

impl FromJson for WarningSend {
    open spec fn parses(j: Json) -> bool {
        &&& User::parses(
            j,
            "broadcaster_user_id"@,
            "broadcaster_user_login"@,
            "broadcaster_user_name"@,
        )
        &&& User::parses(j, "moderator_user_id"@, "moderator_user_login"@, "moderator_user_name"@)
        &&& User::parses(j, "user_id"@, "user_login"@, "user_name"@)
        &&& j.spec_optional_text("reason"@) is Some
        &&& optional_list_parses::<String>(j, "chat_rules_cited"@)
    }

    open spec fn parsed_as(j: Json, v: WarningSend) -> bool {
        &&& User::parsed_as(
            j,
            "broadcaster_user_id"@,
            "broadcaster_user_login"@,
            "broadcaster_user_name"@,
            v.broadcaster,
        )
        &&& User::parsed_as(
            j,
            "moderator_user_id"@,
            "moderator_user_login"@,
            "moderator_user_name"@,
            v.moderator,
        )
        &&& User::parsed_as(j, "user_id"@, "user_login"@, "user_name"@, v.user)
        &&& j.spec_optional_text("reason"@) == Some(v.reason)
        &&& optional_list_parsed_as(j, "chat_rules_cited"@, v.chat_rules_cited)
    }

    fn from_json(j: &Json) -> (r: Option<WarningSend>) {
        let broadcaster = User::from_json(
            j,
            "broadcaster_user_id",
            "broadcaster_user_login",
            "broadcaster_user_name",
        );
        let moderator = User::from_json(
            j,
            "moderator_user_id",
            "moderator_user_login",
            "moderator_user_name",
        );
        let user = User::from_json(j, "user_id", "user_login", "user_name");
        let reason = j.optional_text("reason");
        let chat_rules_cited = read_optional_list::<String>(j, "chat_rules_cited");
        if broadcaster.is_some() && moderator.is_some() && user.is_some() && reason.is_some()
            && chat_rules_cited.is_some() {
            Some(
                WarningSend {
                    broadcaster: broadcaster.unwrap(),
                    moderator: moderator.unwrap(),
                    user: user.unwrap(),
                    reason: reason.unwrap(),
                    chat_rules_cited: chat_rules_cited.unwrap(),
                },
            )
        } else {
            None
        }
    }
}

impl ToJson for WarningSend {
    fn to_json(&self) -> (r: Json) {
        let mut entries: Vec<(String, Json)> = Vec::new();
        proof {
            reveal_strlit("broadcaster_user_id");
            reveal_strlit("broadcaster_user_login");
            reveal_strlit("broadcaster_user_name");
            reveal_strlit("moderator_user_id");
            reveal_strlit("moderator_user_login");
            reveal_strlit("moderator_user_name");
            reveal_strlit("user_id");
            reveal_strlit("user_login");
            reveal_strlit("user_name");
            reveal_strlit("reason");
            reveal_strlit("chat_rules_cited");
            assert("broadcaster_user_id"@.len() == 19);
            assert("broadcaster_user_login"@.len() == 22);
            assert("broadcaster_user_name"@.len() == 21);
            assert("moderator_user_id"@.len() == 17);
            assert("moderator_user_login"@.len() == 20);
            assert("moderator_user_name"@.len() == 19);
            assert("user_id"@.len() == 7);
            assert("user_login"@.len() == 10);
            assert("user_name"@.len() == 9);
            assert("reason"@.len() == 6);
            assert("chat_rules_cited"@.len() == 16);
            assert("broadcaster_user_id"@[0] != "moderator_user_name"@[0]);
        }
        let broadcaster_id_json = Json::Text(self.broadcaster.user_id.clone());
        let broadcaster_login_json = Json::Text(self.broadcaster.user_login.clone());
        let broadcaster_name_json = Json::Text(self.broadcaster.user_name.clone());
        let moderator_id_json = Json::Text(self.moderator.user_id.clone());
        let moderator_login_json = Json::Text(self.moderator.user_login.clone());
        let moderator_name_json = Json::Text(self.moderator.user_name.clone());
        let user_id_json = Json::Text(self.user.user_id.clone());
        let user_login_json = Json::Text(self.user.user_login.clone());
        let user_name_json = Json::Text(self.user.user_name.clone());
        let reason_json = optional_text_json(&self.reason);
        let chat_rules_cited_json = match &self.chat_rules_cited {
            Some(list) => Json::List(write_all(list)),
            None => Json::Null,
        };
        put(&mut entries, "broadcaster_user_id", broadcaster_id_json);
        put(&mut entries, "broadcaster_user_login", broadcaster_login_json);
        put(&mut entries, "broadcaster_user_name", broadcaster_name_json);
        put(&mut entries, "moderator_user_id", moderator_id_json);
        put(&mut entries, "moderator_user_login", moderator_login_json);
        put(&mut entries, "moderator_user_name", moderator_name_json);
        put(&mut entries, "user_id", user_id_json);
        put(&mut entries, "user_login", user_login_json);
        put(&mut entries, "user_name", user_name_json);
        put(&mut entries, "reason", reason_json);
        put(&mut entries, "chat_rules_cited", chat_rules_cited_json);
        proof {
            assert(member(entries@, "broadcaster_user_id"@) == Some(broadcaster_id_json));
            assert(member(entries@, "broadcaster_user_login"@) == Some(broadcaster_login_json));
            assert(member(entries@, "broadcaster_user_name"@) == Some(broadcaster_name_json));
            assert(member(entries@, "moderator_user_id"@) == Some(moderator_id_json));
            assert(member(entries@, "moderator_user_login"@) == Some(moderator_login_json));
            assert(member(entries@, "moderator_user_name"@) == Some(moderator_name_json));
            assert(member(entries@, "user_id"@) == Some(user_id_json));
            assert(member(entries@, "user_login"@) == Some(user_login_json));
            assert(member(entries@, "user_name"@) == Some(user_name_json));
            assert(member(entries@, "reason"@) == Some(reason_json));
            assert(member(entries@, "chat_rules_cited"@) == Some(chat_rules_cited_json));
        }
        Json::Object(entries)
    }
}

/// An event of the category `channel.shield_mode.begin`.
#[derive(Debug)]
pub struct ShieldModeBegin {
    pub broadcaster: User,
    pub moderator: User,
    pub started_at: String,
}

impl FromJson for ShieldModeBegin {
    open spec fn parses(j: Json) -> bool {
        &&& User::parses(
            j,
            "broadcaster_user_id"@,
            "broadcaster_user_login"@,
            "broadcaster_user_name"@,
        )
        &&& User::parses(j, "moderator_user_id"@, "moderator_user_login"@, "moderator_user_name"@)
        &&& j.spec_text("started_at"@) is Some
    }

    open spec fn parsed_as(j: Json, v: ShieldModeBegin) -> bool {
        &&& User::parsed_as(
            j,
            "broadcaster_user_id"@,
            "broadcaster_user_login"@,
            "broadcaster_user_name"@,
            v.broadcaster,
        )
        &&& User::parsed_as(
            j,
            "moderator_user_id"@,
            "moderator_user_login"@,
            "moderator_user_name"@,
            v.moderator,
        )
        &&& j.spec_text("started_at"@) == Some(v.started_at)
    }

    fn from_json(j: &Json) -> (r: Option<ShieldModeBegin>) {
        let broadcaster = User::from_json(
            j,
            "broadcaster_user_id",
            "broadcaster_user_login",
            "broadcaster_user_name",
        );
        let moderator = User::from_json(
            j,
            "moderator_user_id",
            "moderator_user_login",
            "moderator_user_name",
        );
        let started_at = j.text("started_at");
        if broadcaster.is_some() && moderator.is_some() && started_at.is_some() {
            Some(
                ShieldModeBegin {
                    broadcaster: broadcaster.unwrap(),
                    moderator: moderator.unwrap(),
                    started_at: started_at.unwrap(),
                },
            )
        } else {
            None
        }
    }
}

impl ToJson for ShieldModeBegin {
    fn to_json(&self) -> (r: Json) {
        let mut entries: Vec<(String, Json)> = Vec::new();
        proof {
            reveal_strlit("broadcaster_user_id");
            reveal_strlit("broadcaster_user_login");
            reveal_strlit("broadcaster_user_name");
            reveal_strlit("moderator_user_id");
            reveal_strlit("moderator_user_login");
            reveal_strlit("moderator_user_name");
            reveal_strlit("started_at");
            assert("broadcaster_user_id"@.len() == 19);
            assert("broadcaster_user_login"@.len() == 22);
            assert("broadcaster_user_name"@.len() == 21);
            assert("moderator_user_id"@.len() == 17);
            assert("moderator_user_login"@.len() == 20);
            assert("moderator_user_name"@.len() == 19);
            assert("started_at"@.len() == 10);
            assert("broadcaster_user_id"@[0] != "moderator_user_name"@[0]);
        }
        let broadcaster_id_json = Json::Text(self.broadcaster.user_id.clone());
        let broadcaster_login_json = Json::Text(self.broadcaster.user_login.clone());
        let broadcaster_name_json = Json::Text(self.broadcaster.user_name.clone());
        let moderator_id_json = Json::Text(self.moderator.user_id.clone());
        let moderator_login_json = Json::Text(self.moderator.user_login.clone());
        let moderator_name_json = Json::Text(self.moderator.user_name.clone());
        let started_at_json = Json::Text(self.started_at.clone());
        put(&mut entries, "broadcaster_user_id", broadcaster_id_json);
        put(&mut entries, "broadcaster_user_login", broadcaster_login_json);
        put(&mut entries, "broadcaster_user_name", broadcaster_name_json);
        put(&mut entries, "moderator_user_id", moderator_id_json);
        put(&mut entries, "moderator_user_login", moderator_login_json);
        put(&mut entries, "moderator_user_name", moderator_name_json);
        put(&mut entries, "started_at", started_at_json);
        proof {
            assert(member(entries@, "broadcaster_user_id"@) == Some(broadcaster_id_json));
            assert(member(entries@, "broadcaster_user_login"@) == Some(broadcaster_login_json));
            assert(member(entries@, "broadcaster_user_name"@) == Some(broadcaster_name_json));
            assert(member(entries@, "moderator_user_id"@) == Some(moderator_id_json));
            assert(member(entries@, "moderator_user_login"@) == Some(moderator_login_json));
            assert(member(entries@, "moderator_user_name"@) == Some(moderator_name_json));
            assert(member(entries@, "started_at"@) == Some(started_at_json));
        }
        Json::Object(entries)
    }
}

/// An event of the category `channel.shield_mode.end`.
#[derive(Debug)]
pub struct ShieldModeEnd {
    pub broadcaster: User,
    pub moderator: User,
    pub ended_at: String,
}

impl FromJson for ShieldModeEnd {
    open spec fn parses(j: Json) -> bool {
        &&& User::parses(
            j,
            "broadcaster_user_id"@,
            "broadcaster_user_login"@,
            "broadcaster_user_name"@,
        )
        &&& User::parses(j, "moderator_user_id"@, "moderator_user_login"@, "moderator_user_name"@)
        &&& j.spec_text("ended_at"@) is Some
    }

    open spec fn parsed_as(j: Json, v: ShieldModeEnd) -> bool {
        &&& User::parsed_as(
            j,
            "broadcaster_user_id"@,
            "broadcaster_user_login"@,
            "broadcaster_user_name"@,
            v.broadcaster,
        )
        &&& User::parsed_as(
            j,
            "moderator_user_id"@,
            "moderator_user_login"@,
            "moderator_user_name"@,
            v.moderator,
        )
        &&& j.spec_text("ended_at"@) == Some(v.ended_at)
    }

    fn from_json(j: &Json) -> (r: Option<ShieldModeEnd>) {
        let broadcaster = User::from_json(
            j,
            "broadcaster_user_id",
            "broadcaster_user_login",
            "broadcaster_user_name",
        );
        let moderator = User::from_json(
            j,
            "moderator_user_id",
            "moderator_user_login",
            "moderator_user_name",
        );
        let ended_at = j.text("ended_at");
        if broadcaster.is_some() && moderator.is_some() && ended_at.is_some() {
            Some(
                ShieldModeEnd {
                    broadcaster: broadcaster.unwrap(),
                    moderator: moderator.unwrap(),
                    ended_at: ended_at.unwrap(),
                },
            )
        } else {
            None
        }
    }
}

impl ToJson for ShieldModeEnd {
    fn to_json(&self) -> (r: Json) {
        let mut entries: Vec<(String, Json)> = Vec::new();
        proof {
            reveal_strlit("broadcaster_user_id");
            reveal_strlit("broadcaster_user_login");
            reveal_strlit("broadcaster_user_name");
            reveal_strlit("moderator_user_id");
            reveal_strlit("moderator_user_login");
            reveal_strlit("moderator_user_name");
            reveal_strlit("ended_at");
            assert("broadcaster_user_id"@.len() == 19);
            assert("broadcaster_user_login"@.len() == 22);
            assert("broadcaster_user_name"@.len() == 21);
            assert("moderator_user_id"@.len() == 17);
            assert("moderator_user_login"@.len() == 20);
            assert("moderator_user_name"@.len() == 19);
            assert("ended_at"@.len() == 8);
            assert("broadcaster_user_id"@[0] != "moderator_user_name"@[0]);
        }
        let broadcaster_id_json = Json::Text(self.broadcaster.user_id.clone());
        let broadcaster_login_json = Json::Text(self.broadcaster.user_login.clone());
        let broadcaster_name_json = Json::Text(self.broadcaster.user_name.clone());
        let moderator_id_json = Json::Text(self.moderator.user_id.clone());
        let moderator_login_json = Json::Text(self.moderator.user_login.clone());
        let moderator_name_json = Json::Text(self.moderator.user_name.clone());
        let ended_at_json = Json::Text(self.ended_at.clone());
        put(&mut entries, "broadcaster_user_id", broadcaster_id_json);
        put(&mut entries, "broadcaster_user_login", broadcaster_login_json);
        put(&mut entries, "broadcaster_user_name", broadcaster_name_json);
        put(&mut entries, "moderator_user_id", moderator_id_json);
        put(&mut entries, "moderator_user_login", moderator_login_json);
        put(&mut entries, "moderator_user_name", moderator_name_json);
        put(&mut entries, "ended_at", ended_at_json);
        proof {
            assert(member(entries@, "broadcaster_user_id"@) == Some(broadcaster_id_json));
            assert(member(entries@, "broadcaster_user_login"@) == Some(broadcaster_login_json));
            assert(member(entries@, "broadcaster_user_name"@) == Some(broadcaster_name_json));
            assert(member(entries@, "moderator_user_id"@) == Some(moderator_id_json));
            assert(member(entries@, "moderator_user_login"@) == Some(moderator_login_json));
            assert(member(entries@, "moderator_user_name"@) == Some(moderator_name_json));
            assert(member(entries@, "ended_at"@) == Some(ended_at_json));
        }
        Json::Object(entries)
    }
}

#[derive(Clone, Copy, Debug, PartialEq, Eq, Structural)]
pub enum UnbanStatus {
    Approved,
    Canceled,
    Denied,
}

impl UnbanStatus {
    /// The value that a name stands for.
    pub open spec fn spec_named(name: Seq<char>) -> Option<UnbanStatus> {
        if name == "approved"@ {
            Some(UnbanStatus::Approved)
        } else if name == "canceled"@ {
            Some(UnbanStatus::Canceled)
        } else if name == "denied"@ {
            Some(UnbanStatus::Denied)
        } else {
            None
        }
    }

    /// The value that a name stands for.
    pub fn named(name: &str) -> (r: Option<UnbanStatus>)
        ensures
            r == Self::spec_named(name@),
    {
        if same_text(name, "approved") {
            Some(UnbanStatus::Approved)
        } else if same_text(name, "canceled") {
            Some(UnbanStatus::Canceled)
        } else if same_text(name, "denied") {
            Some(UnbanStatus::Denied)
        } else {
            None
        }
    }
}

impl FromJson for UnbanStatus {
    open spec fn parses(j: Json) -> bool {
        j matches Json::Text(s) && Self::spec_named(s@) is Some
    }

    open spec fn parsed_as(j: Json, v: UnbanStatus) -> bool {
        j matches Json::Text(s) && Self::spec_named(s@) == Some(v)
    }

    fn from_json(j: &Json) -> (r: Option<UnbanStatus>) {
        match j {
            Json::Text(s) => Self::named(s.as_str()),
            _ => None,
        }
    }
}

impl UnbanStatus {
    /// The name that stands for the value.
    pub fn name(&self) -> (r: &'static str)
        ensures
            Self::spec_named(r@) == Some(*self),
    {
        proof {
            reveal_strlit("approved");
            reveal_strlit("canceled");
            reveal_strlit("denied");
            assert("approved"@.len() == 8);
            assert("canceled"@.len() == 8);
            assert("denied"@.len() == 6);
            assert("approved"@[0] != "canceled"@[0]);
        }
        match self {
            UnbanStatus::Approved => "approved",
            UnbanStatus::Canceled => "canceled",
            UnbanStatus::Denied => "denied",
        }
    }
}

impl ToJson for UnbanStatus {
    fn to_json(&self) -> (r: Json) {
        Json::Text(self.name().to_owned())
    }
}

/// Told apart by the member `action`.
#[derive(Debug)]
pub enum Action {
    Ban { ban: BanAction },
    Unban { unban: BanAction },
    Timeout { timeout: TimeoutAction },
    Untimeout { untimeout: UntimeoutAction },
    Clear,
    Emoteonly,
    EmoteonlyOff,
    Followers { followers: FollowersAction },
    FollowersOff,
    Uniquechat,
    UniquechatOff,
    Slow { slow: SlowAction },
    SlowOff,
    Subscribers,
    SubscribersOff,
    Vip { vip: VipAction },
    Unvip { unvip: VipAction },
    Raid { raid: RaidAction },
    Unraid { unraid: UnraidAction },
    Mod { new_mod: ModAction },
    Unmod { unmod: ModAction },
    Delete { delete: DeleteAction },
    Warn { warn: WarnAction },
    AddBlockedTerm { automod_terms: TermAction },
    AddPermittedTerm { automod_terms: TermAction },
    RemoveBlockedTerm { automod_terms: TermAction },
    RemovePermittedTerm { automod_terms: TermAction },
    ApproveUnbanRequest { unban_request: UnbanRequestAction },
    DenyUnbanRequest { unban_request: UnbanRequestAction },
    SharedChatBan { shared_chat_ban: BanAction },
    SharedChatUnban { shared_chat_unban: BanAction },
    SharedChatTimeout { shared_chat_timeout: TimeoutAction },
    SharedChatUntimeout { shared_chat_untimeout: UntimeoutAction },
    SharedChatDelete { shared_chat_delete: DeleteAction },
}

impl FromJson for Action {
    open spec fn parses(j: Json) -> bool {
        match j.spec_text("action"@) {
            Some(tag) => if tag@ == "ban"@ {
                member_parses::<BanAction>(j, "ban"@)
            } else if tag@ == "unban"@ {
                member_parses::<BanAction>(j, "unban"@)
            } else if tag@ == "timeout"@ {
                member_parses::<TimeoutAction>(j, "timeout"@)
            } else if tag@ == "untimeout"@ {
                member_parses::<UntimeoutAction>(j, "untimeout"@)
            } else if tag@ == "clear"@ {
                true
            } else if tag@ == "emoteonly"@ {
                true
            } else if tag@ == "emoteonly_off"@ {
                true
            } else if tag@ == "followers"@ {
                member_parses::<FollowersAction>(j, "followers"@)
            } else if tag@ == "followers_off"@ {
                true
            } else if tag@ == "uniquechat"@ {
                true
            } else if tag@ == "uniquechat_off"@ {
                true
            } else if tag@ == "slow"@ {
                member_parses::<SlowAction>(j, "slow"@)
            } else if tag@ == "slow_off"@ {
                true
            } else if tag@ == "subscribers"@ {
                true
            } else if tag@ == "subscribers_off"@ {
                true
            } else if tag@ == "vip"@ {
                member_parses::<VipAction>(j, "vip"@)
            } else if tag@ == "unvip"@ {
                member_parses::<VipAction>(j, "unvip"@)
            } else if tag@ == "raid"@ {
                member_parses::<RaidAction>(j, "raid"@)
            } else if tag@ == "unraid"@ {
                member_parses::<UnraidAction>(j, "unraid"@)
            } else if tag@ == "mod"@ {
                member_parses::<ModAction>(j, "mod"@)
            } else if tag@ == "unmod"@ {
                member_parses::<ModAction>(j, "unmod"@)
            } else if tag@ == "delete"@ {
                member_parses::<DeleteAction>(j, "delete"@)
            } else if tag@ == "warn"@ {
                member_parses::<WarnAction>(j, "warn"@)
            } else if tag@ == "add_blocked_term"@ {
                member_parses::<TermAction>(j, "automod_terms"@)
            } else if tag@ == "add_permitted_term"@ {
                member_parses::<TermAction>(j, "automod_terms"@)
            } else if tag@ == "remove_blocked_term"@ {
                member_parses::<TermAction>(j, "automod_terms"@)
            } else if tag@ == "remove_permitted_term"@ {
                member_parses::<TermAction>(j, "automod_terms"@)
            } else if tag@ == "approve_unban_request"@ {
                member_parses::<UnbanRequestAction>(j, "unban_request"@)
            } else if tag@ == "deny_unban_request"@ {
                member_parses::<UnbanRequestAction>(j, "unban_request"@)
            } else if tag@ == "shared_chat_ban"@ {
                member_parses::<BanAction>(j, "shared_chat_ban"@)
            } else if tag@ == "shared_chat_unban"@ {
                member_parses::<BanAction>(j, "shared_chat_unban"@)
            } else if tag@ == "shared_chat_timeout"@ {
                member_parses::<TimeoutAction>(j, "shared_chat_timeout"@)
            } else if tag@ == "shared_chat_untimeout"@ {
                member_parses::<UntimeoutAction>(j, "shared_chat_untimeout"@)
            } else if tag@ == "shared_chat_delete"@ {
                member_parses::<DeleteAction>(j, "shared_chat_delete"@)
            } else {
                false
            },
            None => false,
        }
    }

    open spec fn parsed_as(j: Json, v: Action) -> bool {
        match j.spec_text("action"@) {
            Some(tag) => if tag@ == "ban"@ {
                v matches Action::Ban { ban } && member_parsed_as(j, "ban"@, ban)
            } else if tag@ == "unban"@ {
                v matches Action::Unban { unban } && member_parsed_as(j, "unban"@, unban)
            } else if tag@ == "timeout"@ {
                v matches Action::Timeout { timeout } && member_parsed_as(j, "timeout"@, timeout)
            } else if tag@ == "untimeout"@ {
                v matches Action::Untimeout { untimeout }
                    && member_parsed_as(j, "untimeout"@, untimeout)
            } else if tag@ == "clear"@ {
                v is Clear
            } else if tag@ == "emoteonly"@ {
                v is Emoteonly
            } else if tag@ == "emoteonly_off"@ {
                v is EmoteonlyOff
            } else if tag@ == "followers"@ {
                v matches Action::Followers { followers }
                    && member_parsed_as(j, "followers"@, followers)
            } else if tag@ == "followers_off"@ {
                v is FollowersOff
            } else if tag@ == "uniquechat"@ {
                v is Uniquechat
            } else if tag@ == "uniquechat_off"@ {
                v is UniquechatOff
            } else if tag@ == "slow"@ {
                v matches Action::Slow { slow } && member_parsed_as(j, "slow"@, slow)
            } else if tag@ == "slow_off"@ {
                v is SlowOff
            } else if tag@ == "subscribers"@ {
                v is Subscribers
            } else if tag@ == "subscribers_off"@ {
                v is SubscribersOff
            } else if tag@ == "vip"@ {
                v matches Action::Vip { vip } && member_parsed_as(j, "vip"@, vip)
            } else if tag@ == "unvip"@ {
                v matches Action::Unvip { unvip } && member_parsed_as(j, "unvip"@, unvip)
            } else if tag@ == "raid"@ {
                v matches Action::Raid { raid } && member_parsed_as(j, "raid"@, raid)
            } else if tag@ == "unraid"@ {
                v matches Action::Unraid { unraid } && member_parsed_as(j, "unraid"@, unraid)
            } else if tag@ == "mod"@ {
                v matches Action::Mod { new_mod } && member_parsed_as(j, "mod"@, new_mod)
            } else if tag@ == "unmod"@ {
                v matches Action::Unmod { unmod } && member_parsed_as(j, "unmod"@, unmod)
            } else if tag@ == "delete"@ {
                v matches Action::Delete { delete } && member_parsed_as(j, "delete"@, delete)
            } else if tag@ == "warn"@ {
                v matches Action::Warn { warn } && member_parsed_as(j, "warn"@, warn)
            } else if tag@ == "add_blocked_term"@ {
                v matches Action::AddBlockedTerm { automod_terms }
                    && member_parsed_as(j, "automod_terms"@, automod_terms)
            } else if tag@ == "add_permitted_term"@ {
                v matches Action::AddPermittedTerm { automod_terms }
                    && member_parsed_as(j, "automod_terms"@, automod_terms)
            } else if tag@ == "remove_blocked_term"@ {
                v matches Action::RemoveBlockedTerm { automod_terms }
                    && member_parsed_as(j, "automod_terms"@, automod_terms)
            } else if tag@ == "remove_permitted_term"@ {
                v matches Action::RemovePermittedTerm { automod_terms }
                    && member_parsed_as(j, "automod_terms"@, automod_terms)
            } else if tag@ == "approve_unban_request"@ {
                v matches Action::ApproveUnbanRequest { unban_request }
                    && member_parsed_as(j, "unban_request"@, unban_request)
            } else if tag@ == "deny_unban_request"@ {
                v matches Action::DenyUnbanRequest { unban_request }
                    && member_parsed_as(j, "unban_request"@, unban_request)
            } else if tag@ == "shared_chat_ban"@ {
                v matches Action::SharedChatBan { shared_chat_ban }
                    && member_parsed_as(j, "shared_chat_ban"@, shared_chat_ban)
            } else if tag@ == "shared_chat_unban"@ {
                v matches Action::SharedChatUnban { shared_chat_unban }
                    && member_parsed_as(j, "shared_chat_unban"@, shared_chat_unban)
            } else if tag@ == "shared_chat_timeout"@ {
                v matches Action::SharedChatTimeout { shared_chat_timeout }
                    && member_parsed_as(j, "shared_chat_timeout"@, shared_chat_timeout)
            } else if tag@ == "shared_chat_untimeout"@ {
                v matches Action::SharedChatUntimeout { shared_chat_untimeout }
                    && member_parsed_as(j, "shared_chat_untimeout"@, shared_chat_untimeout)
            } else if tag@ == "shared_chat_delete"@ {
                v matches Action::SharedChatDelete { shared_chat_delete }
                    && member_parsed_as(j, "shared_chat_delete"@, shared_chat_delete)
            } else {
                false
            },
            None => false,
        }
    }

    fn from_json(j: &Json) -> (r: Option<Action>) {
        match j.text("action") {
            Some(tag) => if same_text(tag.as_str(), "ban") {
                let ban = read_member::<BanAction>(j, "ban");
                if ban.is_some() {
                    Some(Action::Ban { ban: ban.unwrap() })
                } else {
                    None
                }
            } else if same_text(tag.as_str(), "unban") {
                let unban = read_member::<BanAction>(j, "unban");
                if unban.is_some() {
                    Some(Action::Unban { unban: unban.unwrap() })
                } else {
                    None
                }
            } else if same_text(tag.as_str(), "timeout") {
                let timeout = read_member::<TimeoutAction>(j, "timeout");
                if timeout.is_some() {
                    Some(Action::Timeout { timeout: timeout.unwrap() })
                } else {
                    None
                }
            } else if same_text(tag.as_str(), "untimeout") {
                let untimeout = read_member::<UntimeoutAction>(j, "untimeout");
                if untimeout.is_some() {
                    Some(Action::Untimeout { untimeout: untimeout.unwrap() })
                } else {
                    None
                }
            } else if same_text(tag.as_str(), "clear") {
                Some(Action::Clear)
            } else if same_text(tag.as_str(), "emoteonly") {
                Some(Action::Emoteonly)
            } else if same_text(tag.as_str(), "emoteonly_off") {
                Some(Action::EmoteonlyOff)
            } else if same_text(tag.as_str(), "followers") {
                let followers = read_member::<FollowersAction>(j, "followers");
                if followers.is_some() {
                    Some(Action::Followers { followers: followers.unwrap() })
                } else {
                    None
                }
            } else if same_text(tag.as_str(), "followers_off") {
                Some(Action::FollowersOff)
            } else if same_text(tag.as_str(), "uniquechat") {
                Some(Action::Uniquechat)
            } else if same_text(tag.as_str(), "uniquechat_off") {
                Some(Action::UniquechatOff)
            } else if same_text(tag.as_str(), "slow") {
                let slow = read_member::<SlowAction>(j, "slow");
                if slow.is_some() {
                    Some(Action::Slow { slow: slow.unwrap() })
                } else {
                    None
                }
            } else if same_text(tag.as_str(), "slow_off") {
                Some(Action::SlowOff)
            } else if same_text(tag.as_str(), "subscribers") {
                Some(Action::Subscribers)
            } else if same_text(tag.as_str(), "subscribers_off") {
                Some(Action::SubscribersOff)
            } else if same_text(tag.as_str(), "vip") {
                let vip = read_member::<VipAction>(j, "vip");
                if vip.is_some() {
                    Some(Action::Vip { vip: vip.unwrap() })
                } else {
                    None
                }
            } else if same_text(tag.as_str(), "unvip") {
                let unvip = read_member::<VipAction>(j, "unvip");
                if unvip.is_some() {
                    Some(Action::Unvip { unvip: unvip.unwrap() })
                } else {
                    None
                }
            } else if same_text(tag.as_str(), "raid") {
                let raid = read_member::<RaidAction>(j, "raid");
                if raid.is_some() {
                    Some(Action::Raid { raid: raid.unwrap() })
                } else {
                    None
                }
            } else if same_text(tag.as_str(), "unraid") {
                let unraid = read_member::<UnraidAction>(j, "unraid");
                if unraid.is_some() {
                    Some(Action::Unraid { unraid: unraid.unwrap() })
                } else {
                    None
                }
            } else if same_text(tag.as_str(), "mod") {
                let new_mod = read_member::<ModAction>(j, "mod");
                if new_mod.is_some() {
                    Some(Action::Mod { new_mod: new_mod.unwrap() })
                } else {
                    None
                }
            } else if same_text(tag.as_str(), "unmod") {
                let unmod = read_member::<ModAction>(j, "unmod");
                if unmod.is_some() {
                    Some(Action::Unmod { unmod: unmod.unwrap() })
                } else {
                    None
                }
            } else if same_text(tag.as_str(), "delete") {
                let delete = read_member::<DeleteAction>(j, "delete");
                if delete.is_some() {
                    Some(Action::Delete { delete: delete.unwrap() })
                } else {
                    None
                }
            } else if same_text(tag.as_str(), "warn") {
                let warn = read_member::<WarnAction>(j, "warn");
                if warn.is_some() {
                    Some(Action::Warn { warn: warn.unwrap() })
                } else {
                    None
                }
            } else if same_text(tag.as_str(), "add_blocked_term") {
                let automod_terms = read_member::<TermAction>(j, "automod_terms");
                if automod_terms.is_some() {
                    Some(Action::AddBlockedTerm { automod_terms: automod_terms.unwrap() })
                } else {
                    None
                }
            } else if same_text(tag.as_str(), "add_permitted_term") {
                let automod_terms = read_member::<TermAction>(j, "automod_terms");
                if automod_terms.is_some() {
                    Some(Action::AddPermittedTerm { automod_terms: automod_terms.unwrap() })
                } else {
                    None
                }
            } else if same_text(tag.as_str(), "remove_blocked_term") {
                let automod_terms = read_member::<TermAction>(j, "automod_terms");
                if automod_terms.is_some() {
                    Some(Action::RemoveBlockedTerm { automod_terms: automod_terms.unwrap() })
                } else {
                    None
                }
            } else if same_text(tag.as_str(), "remove_permitted_term") {
                let automod_terms = read_member::<TermAction>(j, "automod_terms");
                if automod_terms.is_some() {
                    Some(Action::RemovePermittedTerm { automod_terms: automod_terms.unwrap() })
                } else {
                    None
                }
            } else if same_text(tag.as_str(), "approve_unban_request") {
                let unban_request = read_member::<UnbanRequestAction>(j, "unban_request");
                if unban_request.is_some() {
                    Some(Action::ApproveUnbanRequest { unban_request: unban_request.unwrap() })
                } else {
                    None
                }
            } else if same_text(tag.as_str(), "deny_unban_request") {
                let unban_request = read_member::<UnbanRequestAction>(j, "unban_request");
                if unban_request.is_some() {
                    Some(Action::DenyUnbanRequest { unban_request: unban_request.unwrap() })
                } else {
                    None
                }
            } else if same_text(tag.as_str(), "shared_chat_ban") {
                let shared_chat_ban = read_member::<BanAction>(j, "shared_chat_ban");
                if shared_chat_ban.is_some() {
                    Some(Action::SharedChatBan { shared_chat_ban: shared_chat_ban.unwrap() })
                } else {
                    None
                }
            } else if same_text(tag.as_str(), "shared_chat_unban") {
                let shared_chat_unban = read_member::<BanAction>(j, "shared_chat_unban");
                if shared_chat_unban.is_some() {
                    Some(Action::SharedChatUnban { shared_chat_unban: shared_chat_unban.unwrap() })
                } else {
                    None
                }
            } else if same_text(tag.as_str(), "shared_chat_timeout") {
                let shared_chat_timeout = read_member::<TimeoutAction>(j, "shared_chat_timeout");
                if shared_chat_timeout.is_some() {
                    Some(
                        Action::SharedChatTimeout {
                            shared_chat_timeout: shared_chat_timeout.unwrap(),
                        },
                    )
                } else {
                    None
                }
            } else if same_text(tag.as_str(), "shared_chat_untimeout") {
                let shared_chat_untimeout = read_member::<UntimeoutAction>(
                    j,
                    "shared_chat_untimeout",
                );
                if shared_chat_untimeout.is_some() {
                    Some(
                        Action::SharedChatUntimeout {
                            shared_chat_untimeout: shared_chat_untimeout.unwrap(),
                        },
                    )
                } else {
                    None
                }
            } else if same_text(tag.as_str(), "shared_chat_delete") {
                let shared_chat_delete = read_member::<DeleteAction>(j, "shared_chat_delete");
                if shared_chat_delete.is_some() {
                    Some(
                        Action::SharedChatDelete {
                            shared_chat_delete: shared_chat_delete.unwrap(),
                        },
                    )
                } else {
                    None
                }
            } else {
                None
            },
            None => None,
        }
    }
}

impl Action {
    /// Whether the type reads the member of this name.
    pub open spec fn own_key(k: Seq<char>) -> bool {
        k == "action"@
            || k == "ban"@
            || k == "unban"@
            || k == "timeout"@
            || k == "untimeout"@
            || k == "followers"@
            || k == "slow"@
            || k == "vip"@
            || k == "unvip"@
            || k == "raid"@
            || k == "unraid"@
            || k == "mod"@
            || k == "unmod"@
            || k == "delete"@
            || k == "warn"@
            || k == "automod_terms"@
            || k == "unban_request"@
            || k == "shared_chat_ban"@
            || k == "shared_chat_unban"@
            || k == "shared_chat_timeout"@
            || k == "shared_chat_untimeout"@
            || k == "shared_chat_delete"@
    }

    /// What is read depends on the members of these names alone.
    pub proof fn lemma_own_keys(a: Json, b: Json, v: Action)
        requires
            forall|k: Seq<char>| Self::own_key(k) ==> a.spec_get(k) == b.spec_get(k),
        ensures
            Self::parses(a) == Self::parses(b),
            Self::parsed_as(a, v) == Self::parsed_as(b, v),
    {
        assert(Self::own_key("action"@));
        assert(Self::own_key("ban"@));
        assert(Self::own_key("unban"@));
        assert(Self::own_key("timeout"@));
        assert(Self::own_key("untimeout"@));
        assert(Self::own_key("followers"@));
        assert(Self::own_key("slow"@));
        assert(Self::own_key("vip"@));
        assert(Self::own_key("unvip"@));
        assert(Self::own_key("raid"@));
        assert(Self::own_key("unraid"@));
        assert(Self::own_key("mod"@));
        assert(Self::own_key("unmod"@));
        assert(Self::own_key("delete"@));
        assert(Self::own_key("warn"@));
        assert(Self::own_key("automod_terms"@));
        assert(Self::own_key("unban_request"@));
        assert(Self::own_key("shared_chat_ban"@));
        assert(Self::own_key("shared_chat_unban"@));
        assert(Self::own_key("shared_chat_timeout"@));
        assert(Self::own_key("shared_chat_untimeout"@));
        assert(Self::own_key("shared_chat_delete"@));
    }

    /// Writes the members. What is written is read back as the same value,
    /// and holds no member of another name.
    pub fn write(&self) -> (r: Vec<(String, Json)>)
        ensures
            Self::parses(Json::Object(r)),
            Self::parsed_as(Json::Object(r), *self),
            forall|k: Seq<char>| !Self::own_key(k) ==> member(r@, k) is None,
    {
        let mut entries: Vec<(String, Json)> = Vec::new();
        proof {
            reveal_strlit("ban");
            reveal_strlit("unban");
            reveal_strlit("timeout");
            reveal_strlit("untimeout");
            reveal_strlit("clear");
            reveal_strlit("emoteonly");
            reveal_strlit("emoteonly_off");
            reveal_strlit("followers");
            reveal_strlit("followers_off");
            reveal_strlit("uniquechat");
            reveal_strlit("uniquechat_off");
            reveal_strlit("slow");
            reveal_strlit("slow_off");
            reveal_strlit("subscribers");
            reveal_strlit("subscribers_off");
            reveal_strlit("vip");
            reveal_strlit("unvip");
            reveal_strlit("raid");
            reveal_strlit("unraid");
            reveal_strlit("mod");
            reveal_strlit("unmod");
            reveal_strlit("delete");
            reveal_strlit("warn");
            reveal_strlit("add_blocked_term");
            reveal_strlit("add_permitted_term");
            reveal_strlit("remove_blocked_term");
            reveal_strlit("remove_permitted_term");
            reveal_strlit("approve_unban_request");
            reveal_strlit("deny_unban_request");
            reveal_strlit("shared_chat_ban");
            reveal_strlit("shared_chat_unban");
            reveal_strlit("shared_chat_timeout");
            reveal_strlit("shared_chat_untimeout");
            reveal_strlit("shared_chat_delete");
            assert("ban"@.len() == 3);
            assert("unban"@.len() == 5);
            assert("timeout"@.len() == 7);
            assert("untimeout"@.len() == 9);
            assert("clear"@.len() == 5);
            assert("emoteonly"@.len() == 9);
            assert("emoteonly_off"@.len() == 13);
            assert("followers"@.len() == 9);
            assert("followers_off"@.len() == 13);
            assert("uniquechat"@.len() == 10);
            assert("uniquechat_off"@.len() == 14);
            assert("slow"@.len() == 4);
            assert("slow_off"@.len() == 8);
            assert("subscribers"@.len() == 11);
            assert("subscribers_off"@.len() == 15);
            assert("vip"@.len() == 3);
            assert("unvip"@.len() == 5);
            assert("raid"@.len() == 4);
            assert("unraid"@.len() == 6);
            assert("mod"@.len() == 3);
            assert("unmod"@.len() == 5);
            assert("delete"@.len() == 6);
            assert("warn"@.len() == 4);
            assert("add_blocked_term"@.len() == 16);
            assert("add_permitted_term"@.len() == 18);
            assert("remove_blocked_term"@.len() == 19);
            assert("remove_permitted_term"@.len() == 21);
            assert("approve_unban_request"@.len() == 21);
            assert("deny_unban_request"@.len() == 18);
            assert("shared_chat_ban"@.len() == 15);
            assert("shared_chat_unban"@.len() == 17);
            assert("shared_chat_timeout"@.len() == 19);
            assert("shared_chat_untimeout"@.len() == 21);
            assert("shared_chat_delete"@.len() == 18);
            assert("ban"@[0] != "vip"@[0]);
            assert("ban"@[0] != "mod"@[0]);
            assert("unban"@[0] != "clear"@[0]);
            assert("unban"@[2] != "unvip"@[2]);
            assert("unban"@[2] != "unmod"@[2]);
            assert("untimeout"@[0] != "emoteonly"@[0]);
            assert("untimeout"@[0] != "followers"@[0]);
            assert("clear"@[0] != "unvip"@[0]);
            assert("clear"@[0] != "unmod"@[0]);
            assert("emoteonly"@[0] != "followers"@[0]);
            assert("emoteonly_off"@[0] != "followers_off"@[0]);
            assert("slow"@[0] != "raid"@[0]);
            assert("slow"@[0] != "warn"@[0]);
            assert("subscribers_off"@[1] != "shared_chat_ban"@[1]);
            assert("vip"@[0] != "mod"@[0]);
            assert("unvip"@[2] != "unmod"@[2]);
            assert("raid"@[0] != "warn"@[0]);
            assert("unraid"@[0] != "delete"@[0]);
            assert("add_permitted_term"@[0] != "deny_unban_request"@[0]);
            assert("add_permitted_term"@[0] != "shared_chat_delete"@[0]);
            assert("remove_blocked_term"@[0] != "shared_chat_timeout"@[0]);
            assert("remove_permitted_term"@[0] != "approve_unban_request"@[0]);
            assert("remove_permitted_term"@[0] != "shared_chat_untimeout"@[0]);
            assert("approve_unban_request"@[0] != "shared_chat_untimeout"@[0]);
            assert("deny_unban_request"@[0] != "shared_chat_delete"@[0]);
            reveal_strlit("action");
            reveal_strlit("ban");
            reveal_strlit("unban");
            reveal_strlit("timeout");
            reveal_strlit("untimeout");
            reveal_strlit("followers");
            reveal_strlit("slow");
            reveal_strlit("vip");
            reveal_strlit("unvip");
            reveal_strlit("raid");
            reveal_strlit("unraid");
            reveal_strlit("mod");
            reveal_strlit("unmod");
            reveal_strlit("delete");
            reveal_strlit("warn");
            reveal_strlit("automod_terms");
            reveal_strlit("unban_request");
            reveal_strlit("shared_chat_ban");
            reveal_strlit("shared_chat_unban");
            reveal_strlit("shared_chat_timeout");
            reveal_strlit("shared_chat_untimeout");
            reveal_strlit("shared_chat_delete");
            assert("action"@.len() == 6);
            assert("ban"@.len() == 3);
            assert("unban"@.len() == 5);
            assert("timeout"@.len() == 7);
            assert("untimeout"@.len() == 9);
            assert("followers"@.len() == 9);
            assert("slow"@.len() == 4);
            assert("vip"@.len() == 3);
            assert("unvip"@.len() == 5);
            assert("raid"@.len() == 4);
            assert("unraid"@.len() == 6);
            assert("mod"@.len() == 3);
            assert("unmod"@.len() == 5);
            assert("delete"@.len() == 6);
            assert("warn"@.len() == 4);
            assert("automod_terms"@.len() == 13);
            assert("unban_request"@.len() == 13);
            assert("shared_chat_ban"@.len() == 15);
            assert("shared_chat_unban"@.len() == 17);
            assert("shared_chat_timeout"@.len() == 19);
            assert("shared_chat_untimeout"@.len() == 21);
            assert("shared_chat_delete"@.len() == 18);
            assert("action"@[0] != "unraid"@[0]);
            assert("action"@[0] != "delete"@[0]);
            assert("ban"@[0] != "vip"@[0]);
            assert("ban"@[0] != "mod"@[0]);
            assert("unban"@[2] != "unvip"@[2]);
            assert("unban"@[2] != "unmod"@[2]);
            assert("untimeout"@[0] != "followers"@[0]);
            assert("slow"@[0] != "raid"@[0]);
            assert("slow"@[0] != "warn"@[0]);
            assert("vip"@[0] != "mod"@[0]);
            assert("unvip"@[2] != "unmod"@[2]);
            assert("raid"@[0] != "warn"@[0]);
            assert("unraid"@[0] != "delete"@[0]);
            assert("automod_terms"@[0] != "unban_request"@[0]);
        }
        match self {
            Action::Ban { ban } => {
                let tag = Json::Text("ban".to_owned());
                let ban_json = ban.to_json();
                put(&mut entries, "action", tag);
                put(&mut entries, "ban", ban_json);
                proof {
                    assert(member(entries@, "action"@) == Some(tag));
                    assert(member(entries@, "ban"@) == Some(ban_json));
                }
            },
            Action::Unban { unban } => {
                let tag = Json::Text("unban".to_owned());
                let unban_json = unban.to_json();
                put(&mut entries, "action", tag);
                put(&mut entries, "unban", unban_json);
                proof {
                    assert(member(entries@, "action"@) == Some(tag));
                    assert(member(entries@, "unban"@) == Some(unban_json));
                }
            },
            Action::Timeout { timeout } => {
                let tag = Json::Text("timeout".to_owned());
                let timeout_json = timeout.to_json();
                put(&mut entries, "action", tag);
                put(&mut entries, "timeout", timeout_json);
                proof {
                    assert(member(entries@, "action"@) == Some(tag));
                    assert(member(entries@, "timeout"@) == Some(timeout_json));
                }
            },
            Action::Untimeout { untimeout } => {
                let tag = Json::Text("untimeout".to_owned());
                let untimeout_json = untimeout.to_json();
                put(&mut entries, "action", tag);
                put(&mut entries, "untimeout", untimeout_json);
                proof {
                    assert(member(entries@, "action"@) == Some(tag));
                    assert(member(entries@, "untimeout"@) == Some(untimeout_json));
                }
            },
            Action::Clear => {
                let tag = Json::Text("clear".to_owned());
                put(&mut entries, "action", tag);
                proof {
                    assert(member(entries@, "action"@) == Some(tag));
                }
            },
            Action::Emoteonly => {
                let tag = Json::Text("emoteonly".to_owned());
                put(&mut entries, "action", tag);
                proof {
                    assert(member(entries@, "action"@) == Some(tag));
                }
            },
            Action::EmoteonlyOff => {
                let tag = Json::Text("emoteonly_off".to_owned());
                put(&mut entries, "action", tag);
                proof {
                    assert(member(entries@, "action"@) == Some(tag));
                }
            },
            Action::Followers { followers } => {
                let tag = Json::Text("followers".to_owned());
                let followers_json = followers.to_json();
                put(&mut entries, "action", tag);
                put(&mut entries, "followers", followers_json);
                proof {
                    assert(member(entries@, "action"@) == Some(tag));
                    assert(member(entries@, "followers"@) == Some(followers_json));
                }
            },
            Action::FollowersOff => {
                let tag = Json::Text("followers_off".to_owned());
                put(&mut entries, "action", tag);
                proof {
                    assert(member(entries@, "action"@) == Some(tag));
                }
            },
            Action::Uniquechat => {
                let tag = Json::Text("uniquechat".to_owned());
                put(&mut entries, "action", tag);
                proof {
                    assert(member(entries@, "action"@) == Some(tag));
                }
            },
            Action::UniquechatOff => {
                let tag = Json::Text("uniquechat_off".to_owned());
                put(&mut entries, "action", tag);
                proof {
                    assert(member(entries@, "action"@) == Some(tag));
                }
            },
            Action::Slow { slow } => {
                let tag = Json::Text("slow".to_owned());
                let slow_json = slow.to_json();
                put(&mut entries, "action", tag);
                put(&mut entries, "slow", slow_json);
                proof {
                    assert(member(entries@, "action"@) == Some(tag));
                    assert(member(entries@, "slow"@) == Some(slow_json));
                }
            },
            Action::SlowOff => {
                let tag = Json::Text("slow_off".to_owned());
                put(&mut entries, "action", tag);
                proof {
                    assert(member(entries@, "action"@) == Some(tag));
                }
            },
            Action::Subscribers => {
                let tag = Json::Text("subscribers".to_owned());
                put(&mut entries, "action", tag);
                proof {
                    assert(member(entries@, "action"@) == Some(tag));
                }
            },
            Action::SubscribersOff => {
                let tag = Json::Text("subscribers_off".to_owned());
                put(&mut entries, "action", tag);
                proof {
                    assert(member(entries@, "action"@) == Some(tag));
                }
            },
            Action::Vip { vip } => {
                let tag = Json::Text("vip".to_owned());
                let vip_json = vip.to_json();
                put(&mut entries, "action", tag);
                put(&mut entries, "vip", vip_json);
                proof {
                    assert(member(entries@, "action"@) == Some(tag));
                    assert(member(entries@, "vip"@) == Some(vip_json));
                }
            },
            Action::Unvip { unvip } => {
                let tag = Json::Text("unvip".to_owned());
                let unvip_json = unvip.to_json();
                put(&mut entries, "action", tag);
                put(&mut entries, "unvip", unvip_json);
                proof {
                    assert(member(entries@, "action"@) == Some(tag));
                    assert(member(entries@, "unvip"@) == Some(unvip_json));
                }
            },
            Action::Raid { raid } => {
                let tag = Json::Text("raid".to_owned());
                let raid_json = raid.to_json();
                put(&mut entries, "action", tag);
                put(&mut entries, "raid", raid_json);
                proof {
                    assert(member(entries@, "action"@) == Some(tag));
                    assert(member(entries@, "raid"@) == Some(raid_json));
                }
            },
            Action::Unraid { unraid } => {
                let tag = Json::Text("unraid".to_owned());
                let unraid_json = unraid.to_json();
                put(&mut entries, "action", tag);
                put(&mut entries, "unraid", unraid_json);
                proof {
                    assert(member(entries@, "action"@) == Some(tag));
                    assert(member(entries@, "unraid"@) == Some(unraid_json));
                }
            },
            Action::Mod { new_mod } => {
                let tag = Json::Text("mod".to_owned());
                let new_mod_json = new_mod.to_json();
                put(&mut entries, "action", tag);
                put(&mut entries, "mod", new_mod_json);
                proof {
                    assert(member(entries@, "action"@) == Some(tag));
                    assert(member(entries@, "mod"@) == Some(new_mod_json));
                }
            },
            Action::Unmod { unmod } => {
                let tag = Json::Text("unmod".to_owned());
                let unmod_json = unmod.to_json();
                put(&mut entries, "action", tag);
                put(&mut entries, "unmod", unmod_json);
                proof {
                    assert(member(entries@, "action"@) == Some(tag));
                    assert(member(entries@, "unmod"@) == Some(unmod_json));
                }
            },
            Action::Delete { delete } => {
                let tag = Json::Text("delete".to_owned());
                let delete_json = delete.to_json();
                put(&mut entries, "action", tag);
                put(&mut entries, "delete", delete_json);
                proof {
                    assert(member(entries@, "action"@) == Some(tag));
                    assert(member(entries@, "delete"@) == Some(delete_json));
                }
            },
            Action::Warn { warn } => {
                let tag = Json::Text("warn".to_owned());
                let warn_json = warn.to_json();
                put(&mut entries, "action", tag);
                put(&mut entries, "warn", warn_json);
                proof {
                    assert(member(entries@, "action"@) == Some(tag));
                    assert(member(entries@, "warn"@) == Some(warn_json));
                }
            },
            Action::AddBlockedTerm { automod_terms } => {
                let tag = Json::Text("add_blocked_term".to_owned());
                let automod_terms_json = automod_terms.to_json();
                put(&mut entries, "action", tag);
                put(&mut entries, "automod_terms", automod_terms_json);
                proof {
                    assert(member(entries@, "action"@) == Some(tag));
                    assert(member(entries@, "automod_terms"@) == Some(automod_terms_json));
                }
            },
            Action::AddPermittedTerm { automod_terms } => {
                let tag = Json::Text("add_permitted_term".to_owned());
                let automod_terms_json = automod_terms.to_json();
                put(&mut entries, "action", tag);
                put(&mut entries, "automod_terms", automod_terms_json);
                proof {
                    assert(member(entries@, "action"@) == Some(tag));
                    assert(member(entries@, "automod_terms"@) == Some(automod_terms_json));
                }
            },
            Action::RemoveBlockedTerm { automod_terms } => {
                let tag = Json::Text("remove_blocked_term".to_owned());
                let automod_terms_json = automod_terms.to_json();
                put(&mut entries, "action", tag);
                put(&mut entries, "automod_terms", automod_terms_json);
                proof {
                    assert(member(entries@, "action"@) == Some(tag));
                    assert(member(entries@, "automod_terms"@) == Some(automod_terms_json));
                }
            },
            Action::RemovePermittedTerm { automod_terms } => {
                let tag = Json::Text("remove_permitted_term".to_owned());
                let automod_terms_json = automod_terms.to_json();
                put(&mut entries, "action", tag);
                put(&mut entries, "automod_terms", automod_terms_json);
                proof {
                    assert(member(entries@, "action"@) == Some(tag));
                    assert(member(entries@, "automod_terms"@) == Some(automod_terms_json));
                }
            },
            Action::ApproveUnbanRequest { unban_request } => {
                let tag = Json::Text("approve_unban_request".to_owned());
                let unban_request_json = unban_request.to_json();
                put(&mut entries, "action", tag);
                put(&mut entries, "unban_request", unban_request_json);
                proof {
                    assert(member(entries@, "action"@) == Some(tag));
                    assert(member(entries@, "unban_request"@) == Some(unban_request_json));
                }
            },
            Action::DenyUnbanRequest { unban_request } => {
                let tag = Json::Text("deny_unban_request".to_owned());
                let unban_request_json = unban_request.to_json();
                put(&mut entries, "action", tag);
                put(&mut entries, "unban_request", unban_request_json);
                proof {
                    assert(member(entries@, "action"@) == Some(tag));
                    assert(member(entries@, "unban_request"@) == Some(unban_request_json));
                }
            },
            Action::SharedChatBan { shared_chat_ban } => {
                let tag = Json::Text("shared_chat_ban".to_owned());
                let shared_chat_ban_json = shared_chat_ban.to_json();
                put(&mut entries, "action", tag);
                put(&mut entries, "shared_chat_ban", shared_chat_ban_json);
                proof {
                    assert(member(entries@, "action"@) == Some(tag));
                    assert(member(entries@, "shared_chat_ban"@) == Some(shared_chat_ban_json));
                }
            },
            Action::SharedChatUnban { shared_chat_unban } => {
                let tag = Json::Text("shared_chat_unban".to_owned());
                let shared_chat_unban_json = shared_chat_unban.to_json();
                put(&mut entries, "action", tag);
                put(&mut entries, "shared_chat_unban", shared_chat_unban_json);
                proof {
                    assert(member(entries@, "action"@) == Some(tag));
                    assert(member(entries@, "shared_chat_unban"@) == Some(shared_chat_unban_json));
                }
            },
            Action::SharedChatTimeout { shared_chat_timeout } => {
                let tag = Json::Text("shared_chat_timeout".to_owned());
                let shared_chat_timeout_json = shared_chat_timeout.to_json();
                put(&mut entries, "action", tag);
                put(&mut entries, "shared_chat_timeout", shared_chat_timeout_json);
                proof {
                    assert(member(entries@, "action"@) == Some(tag));
                    assert(member(entries@, "shared_chat_timeout"@)
                        == Some(shared_chat_timeout_json));
                }
            },
            Action::SharedChatUntimeout { shared_chat_untimeout } => {
                let tag = Json::Text("shared_chat_untimeout".to_owned());
                let shared_chat_untimeout_json = shared_chat_untimeout.to_json();
                put(&mut entries, "action", tag);
                put(&mut entries, "shared_chat_untimeout", shared_chat_untimeout_json);
                proof {
                    assert(member(entries@, "action"@) == Some(tag));
                    assert(member(entries@, "shared_chat_untimeout"@)
                        == Some(shared_chat_untimeout_json));
                }
            },
            Action::SharedChatDelete { shared_chat_delete } => {
                let tag = Json::Text("shared_chat_delete".to_owned());
                let shared_chat_delete_json = shared_chat_delete.to_json();
                put(&mut entries, "action", tag);
                put(&mut entries, "shared_chat_delete", shared_chat_delete_json);
                proof {
                    assert(member(entries@, "action"@) == Some(tag));
                    assert(member(entries@, "shared_chat_delete"@)
                        == Some(shared_chat_delete_json));
                }
            },
        }
        entries
    }
}

impl ToJson for Action {
    fn to_json(&self) -> (r: Json) {
        Json::Object(self.write())
    }
}

#[derive(Debug)]
pub struct BanAction {
    pub user: User,
    pub reason: Option<String>,
}

impl FromJson for BanAction {
    open spec fn parses(j: Json) -> bool {
        &&& User::parses(j, "user_id"@, "user_login"@, "user_name"@)
        &&& j.spec_optional_text("reason"@) is Some
    }

    open spec fn parsed_as(j: Json, v: BanAction) -> bool {
        &&& User::parsed_as(j, "user_id"@, "user_login"@, "user_name"@, v.user)
        &&& j.spec_optional_text("reason"@) == Some(v.reason)
    }

    fn from_json(j: &Json) -> (r: Option<BanAction>) {
        let user = User::from_json(j, "user_id", "user_login", "user_name");
        let reason = j.optional_text("reason");
        if user.is_some() && reason.is_some() {
            Some(BanAction { user: user.unwrap(), reason: reason.unwrap() })
        } else {
            None
        }
    }
}

impl ToJson for BanAction {
    fn to_json(&self) -> (r: Json) {
        let mut entries: Vec<(String, Json)> = Vec::new();
        proof {
            reveal_strlit("user_id");
            reveal_strlit("user_login");
            reveal_strlit("user_name");
            reveal_strlit("reason");
            assert("user_id"@.len() == 7);
            assert("user_login"@.len() == 10);
            assert("user_name"@.len() == 9);
            assert("reason"@.len() == 6);
        }
        let user_id_json = Json::Text(self.user.user_id.clone());
        let user_login_json = Json::Text(self.user.user_login.clone());
        let user_name_json = Json::Text(self.user.user_name.clone());
        let reason_json = optional_text_json(&self.reason);
        put(&mut entries, "user_id", user_id_json);
        put(&mut entries, "user_login", user_login_json);
        put(&mut entries, "user_name", user_name_json);
        put(&mut entries, "reason", reason_json);
        proof {
            assert(member(entries@, "user_id"@) == Some(user_id_json));
            assert(member(entries@, "user_login"@) == Some(user_login_json));
            assert(member(entries@, "user_name"@) == Some(user_name_json));
            assert(member(entries@, "reason"@) == Some(reason_json));
        }
        Json::Object(entries)
    }
}

#[derive(Debug)]
pub struct TimeoutAction {
    pub user: User,
    pub reason: Option<String>,
    pub expires_at: String,
}

impl FromJson for TimeoutAction {
    open spec fn parses(j: Json) -> bool {
        &&& User::parses(j, "user_id"@, "user_login"@, "user_name"@)
        &&& j.spec_optional_text("reason"@) is Some
        &&& j.spec_text("expires_at"@) is Some
    }

    open spec fn parsed_as(j: Json, v: TimeoutAction) -> bool {
        &&& User::parsed_as(j, "user_id"@, "user_login"@, "user_name"@, v.user)
        &&& j.spec_optional_text("reason"@) == Some(v.reason)
        &&& j.spec_text("expires_at"@) == Some(v.expires_at)
    }

    fn from_json(j: &Json) -> (r: Option<TimeoutAction>) {
        let user = User::from_json(j, "user_id", "user_login", "user_name");
        let reason = j.optional_text("reason");
        let expires_at = j.text("expires_at");
        if user.is_some() && reason.is_some() && expires_at.is_some() {
            Some(
                TimeoutAction {
                    user: user.unwrap(),
                    reason: reason.unwrap(),
                    expires_at: expires_at.unwrap(),
                },
            )
        } else {
            None
        }
    }
}

impl ToJson for TimeoutAction {
    fn to_json(&self) -> (r: Json) {
        let mut entries: Vec<(String, Json)> = Vec::new();
        proof {
            reveal_strlit("user_id");
            reveal_strlit("user_login");
            reveal_strlit("user_name");
            reveal_strlit("reason");
            reveal_strlit("expires_at");
            assert("user_id"@.len() == 7);
            assert("user_login"@.len() == 10);
            assert("user_name"@.len() == 9);
            assert("reason"@.len() == 6);
            assert("expires_at"@.len() == 10);
            assert("user_login"@[0] != "expires_at"@[0]);
        }
        let user_id_json = Json::Text(self.user.user_id.clone());
        let user_login_json = Json::Text(self.user.user_login.clone());
        let user_name_json = Json::Text(self.user.user_name.clone());
        let reason_json = optional_text_json(&self.reason);
        let expires_at_json = Json::Text(self.expires_at.clone());
        put(&mut entries, "user_id", user_id_json);
        put(&mut entries, "user_login", user_login_json);
        put(&mut entries, "user_name", user_name_json);
        put(&mut entries, "reason", reason_json);
        put(&mut entries, "expires_at", expires_at_json);
        proof {
            assert(member(entries@, "user_id"@) == Some(user_id_json));
            assert(member(entries@, "user_login"@) == Some(user_login_json));
            assert(member(entries@, "user_name"@) == Some(user_name_json));
            assert(member(entries@, "reason"@) == Some(reason_json));
            assert(member(entries@, "expires_at"@) == Some(expires_at_json));
        }
        Json::Object(entries)
    }
}

#[derive(Debug)]
pub struct UntimeoutAction {
    pub user: User,
}

impl FromJson for UntimeoutAction {
    open spec fn parses(j: Json) -> bool {
        &&& User::parses(j, "user_id"@, "user_login"@, "user_name"@)
    }

    open spec fn parsed_as(j: Json, v: UntimeoutAction) -> bool {
        &&& User::parsed_as(j, "user_id"@, "user_login"@, "user_name"@, v.user)
    }

    fn from_json(j: &Json) -> (r: Option<UntimeoutAction>) {
        let user = User::from_json(j, "user_id", "user_login", "user_name");
        if user.is_some() {
            Some(UntimeoutAction { user: user.unwrap() })
        } else {
            None
        }
    }
}

impl ToJson for UntimeoutAction {
    fn to_json(&self) -> (r: Json) {
        let mut entries: Vec<(String, Json)> = Vec::new();
        proof {
            reveal_strlit("user_id");
            reveal_strlit("user_login");
            reveal_strlit("user_name");
            assert("user_id"@.len() == 7);
            assert("user_login"@.len() == 10);
            assert("user_name"@.len() == 9);
        }
        let user_id_json = Json::Text(self.user.user_id.clone());
        let user_login_json = Json::Text(self.user.user_login.clone());
        let user_name_json = Json::Text(self.user.user_name.clone());
        put(&mut entries, "user_id", user_id_json);
        put(&mut entries, "user_login", user_login_json);
        put(&mut entries, "user_name", user_name_json);
        proof {
            assert(member(entries@, "user_id"@) == Some(user_id_json));
            assert(member(entries@, "user_login"@) == Some(user_login_json));
            assert(member(entries@, "user_name"@) == Some(user_name_json));
        }
        Json::Object(entries)
    }
}

#[derive(Debug)]
pub struct FollowersAction {
    pub follow_duration_minutes: u64,
}

impl FromJson for FollowersAction {
    open spec fn parses(j: Json) -> bool {
        &&& j.spec_count("follow_duration_minutes"@) is Some
    }

    open spec fn parsed_as(j: Json, v: FollowersAction) -> bool {
        &&& j.spec_count("follow_duration_minutes"@) == Some(v.follow_duration_minutes)
    }

    fn from_json(j: &Json) -> (r: Option<FollowersAction>) {
        let follow_duration_minutes = j.count("follow_duration_minutes");
        if follow_duration_minutes.is_some() {
            Some(FollowersAction { follow_duration_minutes: follow_duration_minutes.unwrap() })
        } else {
            None
        }
    }
}

impl ToJson for FollowersAction {
    fn to_json(&self) -> (r: Json) {
        let mut entries: Vec<(String, Json)> = Vec::new();
        proof {
            reveal_strlit("follow_duration_minutes");
            assert("follow_duration_minutes"@.len() == 23);
        }
        let follow_duration_minutes_json = count_json(self.follow_duration_minutes);
        put(&mut entries, "follow_duration_minutes", follow_duration_minutes_json);
        proof {
            assert(member(entries@, "follow_duration_minutes"@)
                == Some(follow_duration_minutes_json));
        }
        Json::Object(entries)
    }
}

#[derive(Debug)]
pub struct SlowAction {
    pub wait_time_seconds: u64,
}

impl FromJson for SlowAction {
    open spec fn parses(j: Json) -> bool {
        &&& j.spec_count("wait_time_seconds"@) is Some
    }

    open spec fn parsed_as(j: Json, v: SlowAction) -> bool {
        &&& j.spec_count("wait_time_seconds"@) == Some(v.wait_time_seconds)
    }

    fn from_json(j: &Json) -> (r: Option<SlowAction>) {
        let wait_time_seconds = j.count("wait_time_seconds");
        if wait_time_seconds.is_some() {
            Some(SlowAction { wait_time_seconds: wait_time_seconds.unwrap() })
        } else {
            None
        }
    }
}

impl ToJson for SlowAction {
    fn to_json(&self) -> (r: Json) {
        let mut entries: Vec<(String, Json)> = Vec::new();
        proof {
            reveal_strlit("wait_time_seconds");
            assert("wait_time_seconds"@.len() == 17);
        }
        let wait_time_seconds_json = count_json(self.wait_time_seconds);
        put(&mut entries, "wait_time_seconds", wait_time_seconds_json);
        proof {
            assert(member(entries@, "wait_time_seconds"@) == Some(wait_time_seconds_json));
        }
        Json::Object(entries)
    }
}

#[derive(Debug)]
pub struct VipAction {
    pub user: User,
}

impl FromJson for VipAction {
    open spec fn parses(j: Json) -> bool {
        &&& User::parses(j, "user_id"@, "user_login"@, "user_name"@)
    }

    open spec fn parsed_as(j: Json, v: VipAction) -> bool {
        &&& User::parsed_as(j, "user_id"@, "user_login"@, "user_name"@, v.user)
    }

    fn from_json(j: &Json) -> (r: Option<VipAction>) {
        let user = User::from_json(j, "user_id", "user_login", "user_name");
        if user.is_some() {
            Some(VipAction { user: user.unwrap() })
        } else {
            None
        }
    }
}

impl ToJson for VipAction {
    fn to_json(&self) -> (r: Json) {
        let mut entries: Vec<(String, Json)> = Vec::new();
        proof {
            reveal_strlit("user_id");
            reveal_strlit("user_login");
            reveal_strlit("user_name");
            assert("user_id"@.len() == 7);
            assert("user_login"@.len() == 10);
            assert("user_name"@.len() == 9);
        }
        let user_id_json = Json::Text(self.user.user_id.clone());
        let user_login_json = Json::Text(self.user.user_login.clone());
        let user_name_json = Json::Text(self.user.user_name.clone());
        put(&mut entries, "user_id", user_id_json);
        put(&mut entries, "user_login", user_login_json);
        put(&mut entries, "user_name", user_name_json);
        proof {
            assert(member(entries@, "user_id"@) == Some(user_id_json));
            assert(member(entries@, "user_login"@) == Some(user_login_json));
            assert(member(entries@, "user_name"@) == Some(user_name_json));
        }
        Json::Object(entries)
    }
}

#[derive(Debug)]
pub struct RaidAction {
    pub user: User,
    pub viewer_count: u64,
}

impl FromJson for RaidAction {
    open spec fn parses(j: Json) -> bool {
        &&& User::parses(j, "user_id"@, "user_login"@, "user_name"@)
        &&& j.spec_count("viewer_count"@) is Some
    }

    open spec fn parsed_as(j: Json, v: RaidAction) -> bool {
        &&& User::parsed_as(j, "user_id"@, "user_login"@, "user_name"@, v.user)
        &&& j.spec_count("viewer_count"@) == Some(v.viewer_count)
    }

    fn from_json(j: &Json) -> (r: Option<RaidAction>) {
        let user = User::from_json(j, "user_id", "user_login", "user_name");
        let viewer_count = j.count("viewer_count");
        if user.is_some() && viewer_count.is_some() {
            Some(RaidAction { user: user.unwrap(), viewer_count: viewer_count.unwrap() })
        } else {
            None
        }
    }
}

impl ToJson for RaidAction {
    fn to_json(&self) -> (r: Json) {
        let mut entries: Vec<(String, Json)> = Vec::new();
        proof {
            reveal_strlit("user_id");
            reveal_strlit("user_login");
            reveal_strlit("user_name");
            reveal_strlit("viewer_count");
            assert("user_id"@.len() == 7);
            assert("user_login"@.len() == 10);
            assert("user_name"@.len() == 9);
            assert("viewer_count"@.len() == 12);
        }
        let user_id_json = Json::Text(self.user.user_id.clone());
        let user_login_json = Json::Text(self.user.user_login.clone());
        let user_name_json = Json::Text(self.user.user_name.clone());
        let viewer_count_json = count_json(self.viewer_count);
        put(&mut entries, "user_id", user_id_json);
        put(&mut entries, "user_login", user_login_json);
        put(&mut entries, "user_name", user_name_json);
        put(&mut entries, "viewer_count", viewer_count_json);
        proof {
            assert(member(entries@, "user_id"@) == Some(user_id_json));
            assert(member(entries@, "user_login"@) == Some(user_login_json));
            assert(member(entries@, "user_name"@) == Some(user_name_json));
            assert(member(entries@, "viewer_count"@) == Some(viewer_count_json));
        }
        Json::Object(entries)
    }
}

#[derive(Debug)]
pub struct UnraidAction {
    pub user: User,
}

impl FromJson for UnraidAction {
    open spec fn parses(j: Json) -> bool {
        &&& User::parses(j, "user_id"@, "user_login"@, "user_name"@)
    }

    open spec fn parsed_as(j: Json, v: UnraidAction) -> bool {
        &&& User::parsed_as(j, "user_id"@, "user_login"@, "user_name"@, v.user)
    }

    fn from_json(j: &Json) -> (r: Option<UnraidAction>) {
        let user = User::from_json(j, "user_id", "user_login", "user_name");
        if user.is_some() {
            Some(UnraidAction { user: user.unwrap() })
        } else {
            None
        }
    }
}

impl ToJson for UnraidAction {
    fn to_json(&self) -> (r: Json) {
        let mut entries: Vec<(String, Json)> = Vec::new();
        proof {
            reveal_strlit("user_id");
            reveal_strlit("user_login");
            reveal_strlit("user_name");
            assert("user_id"@.len() == 7);
            assert("user_login"@.len() == 10);
            assert("user_name"@.len() == 9);
        }
        let user_id_json = Json::Text(self.user.user_id.clone());
        let user_login_json = Json::Text(self.user.user_login.clone());
        let user_name_json = Json::Text(self.user.user_name.clone());
        put(&mut entries, "user_id", user_id_json);
        put(&mut entries, "user_login", user_login_json);
        put(&mut entries, "user_name", user_name_json);
        proof {
            assert(member(entries@, "user_id"@) == Some(user_id_json));
            assert(member(entries@, "user_login"@) == Some(user_login_json));
            assert(member(entries@, "user_name"@) == Some(user_name_json));
        }
        Json::Object(entries)
    }
}

#[derive(Debug)]
pub struct ModAction {
    pub user: User,
}

impl FromJson for ModAction {
    open spec fn parses(j: Json) -> bool {
        &&& User::parses(j, "user_id"@, "user_login"@, "user_name"@)
    }

    open spec fn parsed_as(j: Json, v: ModAction) -> bool {
        &&& User::parsed_as(j, "user_id"@, "user_login"@, "user_name"@, v.user)
    }

    fn from_json(j: &Json) -> (r: Option<ModAction>) {
        let user = User::from_json(j, "user_id", "user_login", "user_name");
        if user.is_some() {
            Some(ModAction { user: user.unwrap() })
        } else {
            None
        }
    }
}

impl ToJson for ModAction {
    fn to_json(&self) -> (r: Json) {
        let mut entries: Vec<(String, Json)> = Vec::new();
        proof {
            reveal_strlit("user_id");
            reveal_strlit("user_login");
            reveal_strlit("user_name");
            assert("user_id"@.len() == 7);
            assert("user_login"@.len() == 10);
            assert("user_name"@.len() == 9);
        }
        let user_id_json = Json::Text(self.user.user_id.clone());
        let user_login_json = Json::Text(self.user.user_login.clone());
        let user_name_json = Json::Text(self.user.user_name.clone());
        put(&mut entries, "user_id", user_id_json);
        put(&mut entries, "user_login", user_login_json);
        put(&mut entries, "user_name", user_name_json);
        proof {
            assert(member(entries@, "user_id"@) == Some(user_id_json));
            assert(member(entries@, "user_login"@) == Some(user_login_json));
            assert(member(entries@, "user_name"@) == Some(user_name_json));
        }
        Json::Object(entries)
    }
}

#[derive(Debug)]
pub struct DeleteAction {
    pub user: User,
    pub message_id: String,
    pub message_body: String,
}

impl FromJson for DeleteAction {
    open spec fn parses(j: Json) -> bool {
        &&& User::parses(j, "user_id"@, "user_login"@, "user_name"@)
        &&& j.spec_text("message_id"@) is Some
        &&& j.spec_text("message_body"@) is Some
    }

    open spec fn parsed_as(j: Json, v: DeleteAction) -> bool {
        &&& User::parsed_as(j, "user_id"@, "user_login"@, "user_name"@, v.user)
        &&& j.spec_text("message_id"@) == Some(v.message_id)
        &&& j.spec_text("message_body"@) == Some(v.message_body)
    }

    fn from_json(j: &Json) -> (r: Option<DeleteAction>) {
        let user = User::from_json(j, "user_id", "user_login", "user_name");
        let message_id = j.text("message_id");
        let message_body = j.text("message_body");
        if user.is_some() && message_id.is_some() && message_body.is_some() {
            Some(
                DeleteAction {
                    user: user.unwrap(),
                    message_id: message_id.unwrap(),
                    message_body: message_body.unwrap(),
                },
            )
        } else {
            None
        }
    }
}

impl ToJson for DeleteAction {
    fn to_json(&self) -> (r: Json) {
        let mut entries: Vec<(String, Json)> = Vec::new();
        proof {
            reveal_strlit("user_id");
            reveal_strlit("user_login");
            reveal_strlit("user_name");
            reveal_strlit("message_id");
            reveal_strlit("message_body");
            assert("user_id"@.len() == 7);
            assert("user_login"@.len() == 10);
            assert("user_name"@.len() == 9);
            assert("message_id"@.len() == 10);
            assert("message_body"@.len() == 12);
            assert("user_login"@[0] != "message_id"@[0]);
        }
        let user_id_json = Json::Text(self.user.user_id.clone());
        let user_login_json = Json::Text(self.user.user_login.clone());
        let user_name_json = Json::Text(self.user.user_name.clone());
        let message_id_json = Json::Text(self.message_id.clone());
        let message_body_json = Json::Text(self.message_body.clone());
        put(&mut entries, "user_id", user_id_json);
        put(&mut entries, "user_login", user_login_json);
        put(&mut entries, "user_name", user_name_json);
        put(&mut entries, "message_id", message_id_json);
        put(&mut entries, "message_body", message_body_json);
        proof {
            assert(member(entries@, "user_id"@) == Some(user_id_json));
            assert(member(entries@, "user_login"@) == Some(user_login_json));
            assert(member(entries@, "user_name"@) == Some(user_name_json));
            assert(member(entries@, "message_id"@) == Some(message_id_json));
            assert(member(entries@, "message_body"@) == Some(message_body_json));
        }
        Json::Object(entries)
    }
}

#[derive(Debug)]
pub struct WarnAction {
    pub user: User,
    pub reason: Option<String>,
    pub chat_rules_cited: Option<Vec<String>>,
}

impl FromJson for WarnAction {
    open spec fn parses(j: Json) -> bool {
        &&& User::parses(j, "user_id"@, "user_login"@, "user_name"@)
        &&& j.spec_optional_text("reason"@) is Some
        &&& optional_list_parses::<String>(j, "chat_rules_cited"@)
    }

    open spec fn parsed_as(j: Json, v: WarnAction) -> bool {
        &&& User::parsed_as(j, "user_id"@, "user_login"@, "user_name"@, v.user)
        &&& j.spec_optional_text("reason"@) == Some(v.reason)
        &&& optional_list_parsed_as(j, "chat_rules_cited"@, v.chat_rules_cited)
    }

    fn from_json(j: &Json) -> (r: Option<WarnAction>) {
        let user = User::from_json(j, "user_id", "user_login", "user_name");
        let reason = j.optional_text("reason");
        let chat_rules_cited = read_optional_list::<String>(j, "chat_rules_cited");
        if user.is_some() && reason.is_some() && chat_rules_cited.is_some() {
            Some(
                WarnAction {
                    user: user.unwrap(),
                    reason: reason.unwrap(),
                    chat_rules_cited: chat_rules_cited.unwrap(),
                },
            )
        } else {
            None
        }
    }
}

impl ToJson for WarnAction {
    fn to_json(&self) -> (r: Json) {
        let mut entries: Vec<(String, Json)> = Vec::new();
        proof {
            reveal_strlit("user_id");
            reveal_strlit("user_login");
            reveal_strlit("user_name");
            reveal_strlit("reason");
            reveal_strlit("chat_rules_cited");
            assert("user_id"@.len() == 7);
            assert("user_login"@.len() == 10);
            assert("user_name"@.len() == 9);
            assert("reason"@.len() == 6);
            assert("chat_rules_cited"@.len() == 16);
        }
        let user_id_json = Json::Text(self.user.user_id.clone());
        let user_login_json = Json::Text(self.user.user_login.clone());
        let user_name_json = Json::Text(self.user.user_name.clone());
        let reason_json = optional_text_json(&self.reason);
        let chat_rules_cited_json = match &self.chat_rules_cited {
            Some(list) => Json::List(write_all(list)),
            None => Json::Null,
        };
        put(&mut entries, "user_id", user_id_json);
        put(&mut entries, "user_login", user_login_json);
        put(&mut entries, "user_name", user_name_json);
        put(&mut entries, "reason", reason_json);
        put(&mut entries, "chat_rules_cited", chat_rules_cited_json);
        proof {
            assert(member(entries@, "user_id"@) == Some(user_id_json));
            assert(member(entries@, "user_login"@) == Some(user_login_json));
            assert(member(entries@, "user_name"@) == Some(user_name_json));
            assert(member(entries@, "reason"@) == Some(reason_json));
            assert(member(entries@, "chat_rules_cited"@) == Some(chat_rules_cited_json));
        }
        Json::Object(entries)
    }
}

#[derive(Debug)]
pub struct TermAction {
    pub terms: Vec<String>,
    pub from_automod: bool,
}

impl FromJson for TermAction {
    open spec fn parses(j: Json) -> bool {
        &&& list_parses::<String>(j, "terms"@)
        &&& j.spec_flag("from_automod"@) is Some
    }

    open spec fn parsed_as(j: Json, v: TermAction) -> bool {
        &&& list_parsed_as(j, "terms"@, v.terms@)
        &&& j.spec_flag("from_automod"@) == Some(v.from_automod)
    }

    fn from_json(j: &Json) -> (r: Option<TermAction>) {
        let terms = read_list::<String>(j, "terms");
        let from_automod = j.flag("from_automod");
        if terms.is_some() && from_automod.is_some() {
            Some(TermAction { terms: terms.unwrap(), from_automod: from_automod.unwrap() })
        } else {
            None
        }
    }
}

impl ToJson for TermAction {
    fn to_json(&self) -> (r: Json) {
        let mut entries: Vec<(String, Json)> = Vec::new();
        proof {
            reveal_strlit("terms");
            reveal_strlit("from_automod");
            assert("terms"@.len() == 5);
            assert("from_automod"@.len() == 12);
        }
        let terms_json = Json::List(write_all(&self.terms));
        let from_automod_json = Json::Bool(self.from_automod);
        put(&mut entries, "terms", terms_json);
        put(&mut entries, "from_automod", from_automod_json);
        proof {
            assert(member(entries@, "terms"@) == Some(terms_json));
            assert(member(entries@, "from_automod"@) == Some(from_automod_json));
        }
        Json::Object(entries)
    }
}

#[derive(Debug)]
pub struct UnbanRequestAction {
    pub user: User,
    pub moderator_message: String,
}

impl FromJson for UnbanRequestAction {
    open spec fn parses(j: Json) -> bool {
        &&& User::parses(j, "user_id"@, "user_login"@, "user_name"@)
        &&& j.spec_text("moderator_message"@) is Some
    }

    open spec fn parsed_as(j: Json, v: UnbanRequestAction) -> bool {
        &&& User::parsed_as(j, "user_id"@, "user_login"@, "user_name"@, v.user)
        &&& j.spec_text("moderator_message"@) == Some(v.moderator_message)
    }

    fn from_json(j: &Json) -> (r: Option<UnbanRequestAction>) {
        let user = User::from_json(j, "user_id", "user_login", "user_name");
        let moderator_message = j.text("moderator_message");
        if user.is_some() && moderator_message.is_some() {
            Some(
                UnbanRequestAction {
                    user: user.unwrap(),
                    moderator_message: moderator_message.unwrap(),
                },
            )
        } else {
            None
        }
    }
}

impl ToJson for UnbanRequestAction {
    fn to_json(&self) -> (r: Json) {
        let mut entries: Vec<(String, Json)> = Vec::new();
        proof {
            reveal_strlit("user_id");
            reveal_strlit("user_login");
            reveal_strlit("user_name");
            reveal_strlit("moderator_message");
            assert("user_id"@.len() == 7);
            assert("user_login"@.len() == 10);
            assert("user_name"@.len() == 9);
            assert("moderator_message"@.len() == 17);
        }
        let user_id_json = Json::Text(self.user.user_id.clone());
        let user_login_json = Json::Text(self.user.user_login.clone());
        let user_name_json = Json::Text(self.user.user_name.clone());
        let moderator_message_json = Json::Text(self.moderator_message.clone());
        put(&mut entries, "user_id", user_id_json);
        put(&mut entries, "user_login", user_login_json);
        put(&mut entries, "user_name", user_name_json);
        put(&mut entries, "moderator_message", moderator_message_json);
        proof {
            assert(member(entries@, "user_id"@) == Some(user_id_json));
            assert(member(entries@, "user_login"@) == Some(user_login_json));
            assert(member(entries@, "user_name"@) == Some(user_name_json));
            assert(member(entries@, "moderator_message"@) == Some(moderator_message_json));
        }
        Json::Object(entries)
    }
}

#[derive(Clone, Copy, Debug, PartialEq, Eq, Structural)]
pub enum TrustStatus {
    Absent,
    ActiveMonitoring,
    Restricted,
}

impl TrustStatus {
    /// The value that a name stands for.
    pub open spec fn spec_named(name: Seq<char>) -> Option<TrustStatus> {
        if name == "none"@ {
            Some(TrustStatus::Absent)
        } else if name == "active_monitoring"@ {
            Some(TrustStatus::ActiveMonitoring)
        } else if name == "restricted"@ {
            Some(TrustStatus::Restricted)
        } else {
            None
        }
    }

    /// The value that a name stands for.
    pub fn named(name: &str) -> (r: Option<TrustStatus>)
        ensures
            r == Self::spec_named(name@),
    {
        if same_text(name, "none") {
            Some(TrustStatus::Absent)
        } else if same_text(name, "active_monitoring") {
            Some(TrustStatus::ActiveMonitoring)
        } else if same_text(name, "restricted") {
            Some(TrustStatus::Restricted)
        } else {
            None
        }
    }
}

impl FromJson for TrustStatus {
    open spec fn parses(j: Json) -> bool {
        j matches Json::Text(s) && Self::spec_named(s@) is Some
    }

    open spec fn parsed_as(j: Json, v: TrustStatus) -> bool {
        j matches Json::Text(s) && Self::spec_named(s@) == Some(v)
    }

    fn from_json(j: &Json) -> (r: Option<TrustStatus>) {
        match j {
            Json::Text(s) => Self::named(s.as_str()),
            _ => None,
        }
    }
}

impl TrustStatus {
    /// The name that stands for the value.
    pub fn name(&self) -> (r: &'static str)
        ensures
            Self::spec_named(r@) == Some(*self),
    {
        proof {
            reveal_strlit("none");
            reveal_strlit("active_monitoring");
            reveal_strlit("restricted");
            assert("none"@.len() == 4);
            assert("active_monitoring"@.len() == 17);
            assert("restricted"@.len() == 10);
        }
        match self {
            TrustStatus::Absent => "none",
            TrustStatus::ActiveMonitoring => "active_monitoring",
            TrustStatus::Restricted => "restricted",
        }
    }
}

impl ToJson for TrustStatus {
    fn to_json(&self) -> (r: Json) {
        Json::Text(self.name().to_owned())
    }
}

#[derive(Clone, Copy, Debug, PartialEq, Eq, Structural)]
pub enum SuspicionTypes {
    Manual,
    BanEvader,
    SharedChannelBan,
}

impl SuspicionTypes {
    /// The value that a name stands for.
    pub open spec fn spec_named(name: Seq<char>) -> Option<SuspicionTypes> {
        if name == "manual"@ {
            Some(SuspicionTypes::Manual)
        } else if name == "ban_evader"@ {
            Some(SuspicionTypes::BanEvader)
        } else if name == "shared_channel_ban"@ {
            Some(SuspicionTypes::SharedChannelBan)
        } else {
            None
        }
    }

    /// The value that a name stands for.
    pub fn named(name: &str) -> (r: Option<SuspicionTypes>)
        ensures
            r == Self::spec_named(name@),
    {
        if same_text(name, "manual") {
            Some(SuspicionTypes::Manual)
        } else if same_text(name, "ban_evader") {
            Some(SuspicionTypes::BanEvader)
        } else if same_text(name, "shared_channel_ban") {
            Some(SuspicionTypes::SharedChannelBan)
        } else {
            None
        }
    }
}

impl FromJson for SuspicionTypes {
    open spec fn parses(j: Json) -> bool {
        j matches Json::Text(s) && Self::spec_named(s@) is Some
    }

    open spec fn parsed_as(j: Json, v: SuspicionTypes) -> bool {
        j matches Json::Text(s) && Self::spec_named(s@) == Some(v)
    }

    fn from_json(j: &Json) -> (r: Option<SuspicionTypes>) {
        match j {
            Json::Text(s) => Self::named(s.as_str()),
            _ => None,
        }
    }
}

impl SuspicionTypes {
    /// The name that stands for the value.
    pub fn name(&self) -> (r: &'static str)
        ensures
            Self::spec_named(r@) == Some(*self),
    {
        proof {
            reveal_strlit("manual");
            reveal_strlit("ban_evader");
            reveal_strlit("shared_channel_ban");
            assert("manual"@.len() == 6);
            assert("ban_evader"@.len() == 10);
            assert("shared_channel_ban"@.len() == 18);
        }
        match self {
            SuspicionTypes::Manual => "manual",
            SuspicionTypes::BanEvader => "ban_evader",
            SuspicionTypes::SharedChannelBan => "shared_channel_ban",
        }
    }
}

impl ToJson for SuspicionTypes {
    fn to_json(&self) -> (r: Json) {
        Json::Text(self.name().to_owned())
    }
}

#[derive(Clone, Copy, Debug, PartialEq, Eq, Structural)]
pub enum EvasionEvaluation {
    Unknown,
    Possible,
    Likely,
}

impl EvasionEvaluation {
    /// The value that a name stands for.
    pub open spec fn spec_named(name: Seq<char>) -> Option<EvasionEvaluation> {
        if name == "unknown"@ {
            Some(EvasionEvaluation::Unknown)
        } else if name == "possible"@ {
            Some(EvasionEvaluation::Possible)
        } else if name == "likely"@ {
            Some(EvasionEvaluation::Likely)
        } else {
            None
        }
    }

    /// The value that a name stands for.
    pub fn named(name: &str) -> (r: Option<EvasionEvaluation>)
        ensures
            r == Self::spec_named(name@),
    {
        if same_text(name, "unknown") {
            Some(EvasionEvaluation::Unknown)
        } else if same_text(name, "possible") {
            Some(EvasionEvaluation::Possible)
        } else if same_text(name, "likely") {
            Some(EvasionEvaluation::Likely)
        } else {
            None
        }
    }
}

impl FromJson for EvasionEvaluation {
    open spec fn parses(j: Json) -> bool {
        j matches Json::Text(s) && Self::spec_named(s@) is Some
    }

    open spec fn parsed_as(j: Json, v: EvasionEvaluation) -> bool {
        j matches Json::Text(s) && Self::spec_named(s@) == Some(v)
    }

    fn from_json(j: &Json) -> (r: Option<EvasionEvaluation>) {
        match j {
            Json::Text(s) => Self::named(s.as_str()),
            _ => None,
        }
    }
}

impl EvasionEvaluation {
    /// The name that stands for the value.
    pub fn name(&self) -> (r: &'static str)
        ensures
            Self::spec_named(r@) == Some(*self),
    {
        proof {
            reveal_strlit("unknown");
            reveal_strlit("possible");
            reveal_strlit("likely");
            assert("unknown"@.len() == 7);
            assert("possible"@.len() == 8);
            assert("likely"@.len() == 6);
        }
        match self {
            EvasionEvaluation::Unknown => "unknown",
            EvasionEvaluation::Possible => "possible",
            EvasionEvaluation::Likely => "likely",
        }
    }
}

impl ToJson for EvasionEvaluation {
    fn to_json(&self) -> (r: Json) {
        Json::Text(self.name().to_owned())
    }
}

} // verus!
