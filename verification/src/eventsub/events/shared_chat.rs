//! Events about chat sessions that channels share.

use vstd::prelude::*;
use crate::json::Json;
use crate::json::FromJson;
use crate::json::ToJson;
use crate::json::put;
use crate::json::member;
use crate::json::write_all;
use crate::json::read_list;
use crate::json::list_parses;
use crate::json::list_parsed_as;
use crate::eventsub::events::User;

verus! {

/// An event of the category `channel.shared_chat.begin`.
#[derive(Debug)]
pub struct SharedChatSessionBegin {
    pub session_id: String,
    pub broadcaster: User,
    pub host_broadcaster: User,
    pub participants: Vec<Participant>,
}

impl FromJson for SharedChatSessionBegin {
    open spec fn parses(j: Json) -> bool {
        &&& j.spec_text("session_id"@) is Some
        &&& User::parses(
            j,
            "broadcaster_user_id"@,
            "broadcaster_user_login"@,
            "broadcaster_user_name"@,
        )
        &&& User::parses(
            j,
            "host_broadcaster_user_id"@,
            "host_broadcaster_user_login"@,
            "host_broadcaster_user_name"@,
        )
        &&& list_parses::<Participant>(j, "participants"@)
    }

    open spec fn parsed_as(j: Json, v: SharedChatSessionBegin) -> bool {
        &&& j.spec_text("session_id"@) == Some(v.session_id)
        &&& User::parsed_as(
            j,
            "broadcaster_user_id"@,
            "broadcaster_user_login"@,
            "broadcaster_user_name"@,
            v.broadcaster,
        )
        &&& User::parsed_as(
            j,
            "host_broadcaster_user_id"@,
            "host_broadcaster_user_login"@,
            "host_broadcaster_user_name"@,
            v.host_broadcaster,
        )
        &&& list_parsed_as(j, "participants"@, v.participants@)
    }

    fn from_json(j: &Json) -> (r: Option<SharedChatSessionBegin>) {
        let session_id = j.text("session_id");
        let broadcaster = User::from_json(
            j,
            "broadcaster_user_id",
            "broadcaster_user_login",
            "broadcaster_user_name",
        );
        let host_broadcaster = User::from_json(
            j,
            "host_broadcaster_user_id",
            "host_broadcaster_user_login",
            "host_broadcaster_user_name",
        );
        let participants = read_list::<Participant>(j, "participants");
        if session_id.is_some() && broadcaster.is_some() && host_broadcaster.is_some()
            && participants.is_some() {
            Some(
                SharedChatSessionBegin {
                    session_id: session_id.unwrap(),
                    broadcaster: broadcaster.unwrap(),
                    host_broadcaster: host_broadcaster.unwrap(),
                    participants: participants.unwrap(),
                },
            )
        } else {
            None
        }
    }
}

impl ToJson for SharedChatSessionBegin {
    fn to_json(&self) -> (r: Json) {
        let mut entries: Vec<(String, Json)> = Vec::new();
        proof {
            reveal_strlit("session_id");
            reveal_strlit("broadcaster_user_id");
            reveal_strlit("broadcaster_user_login");
            reveal_strlit("broadcaster_user_name");
            reveal_strlit("host_broadcaster_user_id");
            reveal_strlit("host_broadcaster_user_login");
            reveal_strlit("host_broadcaster_user_name");
            reveal_strlit("participants");
            assert("session_id"@.len() == 10);
            assert("broadcaster_user_id"@.len() == 19);
            assert("broadcaster_user_login"@.len() == 22);
            assert("broadcaster_user_name"@.len() == 21);
            assert("host_broadcaster_user_id"@.len() == 24);
            assert("host_broadcaster_user_login"@.len() == 27);
            assert("host_broadcaster_user_name"@.len() == 26);
            assert("participants"@.len() == 12);
        }
        let session_id_json = Json::Text(self.session_id.clone());
        let broadcaster_id_json = Json::Text(self.broadcaster.user_id.clone());
        let broadcaster_login_json = Json::Text(self.broadcaster.user_login.clone());
        let broadcaster_name_json = Json::Text(self.broadcaster.user_name.clone());
        let host_broadcaster_id_json = Json::Text(self.host_broadcaster.user_id.clone());
        let host_broadcaster_login_json = Json::Text(self.host_broadcaster.user_login.clone());
        let host_broadcaster_name_json = Json::Text(self.host_broadcaster.user_name.clone());
        let participants_json = Json::List(write_all(&self.participants));
        put(&mut entries, "session_id", session_id_json);
        put(&mut entries, "broadcaster_user_id", broadcaster_id_json);
        put(&mut entries, "broadcaster_user_login", broadcaster_login_json);
        put(&mut entries, "broadcaster_user_name", broadcaster_name_json);
        put(&mut entries, "host_broadcaster_user_id", host_broadcaster_id_json);
        put(&mut entries, "host_broadcaster_user_login", host_broadcaster_login_json);
        put(&mut entries, "host_broadcaster_user_name", host_broadcaster_name_json);
        put(&mut entries, "participants", participants_json);
        proof {
            assert(member(entries@, "session_id"@) == Some(session_id_json));
            assert(member(entries@, "broadcaster_user_id"@) == Some(broadcaster_id_json));
            assert(member(entries@, "broadcaster_user_login"@) == Some(broadcaster_login_json));
            assert(member(entries@, "broadcaster_user_name"@) == Some(broadcaster_name_json));
            assert(member(entries@, "host_broadcaster_user_id"@) == Some(host_broadcaster_id_json));
            assert(member(entries@, "host_broadcaster_user_login"@)
                == Some(host_broadcaster_login_json));
            assert(member(entries@, "host_broadcaster_user_name"@)
                == Some(host_broadcaster_name_json));
            assert(member(entries@, "participants"@) == Some(participants_json));
        }
        Json::Object(entries)
    }
}

/// An event of the category `channel.shared_chat.update`.
#[derive(Debug)]
pub struct SharedChatSessionUpdate {
    pub session_id: String,
    pub broadcaster: User,
    pub host_broadcaster: User,
    pub participants: Vec<Participant>,
}

impl FromJson for SharedChatSessionUpdate {
    open spec fn parses(j: Json) -> bool {
        &&& j.spec_text("session_id"@) is Some
        &&& User::parses(
            j,
            "broadcaster_user_id"@,
            "broadcaster_user_login"@,
            "broadcaster_user_name"@,
        )
        &&& User::parses(
            j,
            "host_broadcaster_user_id"@,
            "host_broadcaster_user_login"@,
            "host_broadcaster_user_name"@,
        )
        &&& list_parses::<Participant>(j, "participants"@)
    }

    open spec fn parsed_as(j: Json, v: SharedChatSessionUpdate) -> bool {
        &&& j.spec_text("session_id"@) == Some(v.session_id)
        &&& User::parsed_as(
            j,
            "broadcaster_user_id"@,
            "broadcaster_user_login"@,
            "broadcaster_user_name"@,
            v.broadcaster,
        )
        &&& User::parsed_as(
            j,
            "host_broadcaster_user_id"@,
            "host_broadcaster_user_login"@,
            "host_broadcaster_user_name"@,
            v.host_broadcaster,
        )
        &&& list_parsed_as(j, "participants"@, v.participants@)
    }

    fn from_json(j: &Json) -> (r: Option<SharedChatSessionUpdate>) {
        let session_id = j.text("session_id");
        let broadcaster = User::from_json(
            j,
            "broadcaster_user_id",
            "broadcaster_user_login",
            "broadcaster_user_name",
        );
        let host_broadcaster = User::from_json(
            j,
            "host_broadcaster_user_id",
            "host_broadcaster_user_login",
            "host_broadcaster_user_name",
        );
        let participants = read_list::<Participant>(j, "participants");
        if session_id.is_some() && broadcaster.is_some() && host_broadcaster.is_some()
            && participants.is_some() {
            Some(
                SharedChatSessionUpdate {
                    session_id: session_id.unwrap(),
                    broadcaster: broadcaster.unwrap(),
                    host_broadcaster: host_broadcaster.unwrap(),
                    participants: participants.unwrap(),
                },
            )
        } else {
            None
        }
    }
}

impl ToJson for SharedChatSessionUpdate {
    fn to_json(&self) -> (r: Json) {
        let mut entries: Vec<(String, Json)> = Vec::new();
        proof {
            reveal_strlit("session_id");
            reveal_strlit("broadcaster_user_id");
            reveal_strlit("broadcaster_user_login");
            reveal_strlit("broadcaster_user_name");
            reveal_strlit("host_broadcaster_user_id");
            reveal_strlit("host_broadcaster_user_login");
            reveal_strlit("host_broadcaster_user_name");
            reveal_strlit("participants");
            assert("session_id"@.len() == 10);
            assert("broadcaster_user_id"@.len() == 19);
            assert("broadcaster_user_login"@.len() == 22);
            assert("broadcaster_user_name"@.len() == 21);
            assert("host_broadcaster_user_id"@.len() == 24);
            assert("host_broadcaster_user_login"@.len() == 27);
            assert("host_broadcaster_user_name"@.len() == 26);
            assert("participants"@.len() == 12);
        }
        let session_id_json = Json::Text(self.session_id.clone());
        let broadcaster_id_json = Json::Text(self.broadcaster.user_id.clone());
        let broadcaster_login_json = Json::Text(self.broadcaster.user_login.clone());
        let broadcaster_name_json = Json::Text(self.broadcaster.user_name.clone());
        let host_broadcaster_id_json = Json::Text(self.host_broadcaster.user_id.clone());
        let host_broadcaster_login_json = Json::Text(self.host_broadcaster.user_login.clone());
        let host_broadcaster_name_json = Json::Text(self.host_broadcaster.user_name.clone());
        let participants_json = Json::List(write_all(&self.participants));
        put(&mut entries, "session_id", session_id_json);
        put(&mut entries, "broadcaster_user_id", broadcaster_id_json);
        put(&mut entries, "broadcaster_user_login", broadcaster_login_json);
        put(&mut entries, "broadcaster_user_name", broadcaster_name_json);
        put(&mut entries, "host_broadcaster_user_id", host_broadcaster_id_json);
        put(&mut entries, "host_broadcaster_user_login", host_broadcaster_login_json);
        put(&mut entries, "host_broadcaster_user_name", host_broadcaster_name_json);
        put(&mut entries, "participants", participants_json);
        proof {
            assert(member(entries@, "session_id"@) == Some(session_id_json));
            assert(member(entries@, "broadcaster_user_id"@) == Some(broadcaster_id_json));
            assert(member(entries@, "broadcaster_user_login"@) == Some(broadcaster_login_json));
            assert(member(entries@, "broadcaster_user_name"@) == Some(broadcaster_name_json));
            assert(member(entries@, "host_broadcaster_user_id"@) == Some(host_broadcaster_id_json));
            assert(member(entries@, "host_broadcaster_user_login"@)
                == Some(host_broadcaster_login_json));
            assert(member(entries@, "host_broadcaster_user_name"@)
                == Some(host_broadcaster_name_json));
            assert(member(entries@, "participants"@) == Some(participants_json));
        }
        Json::Object(entries)
    }
}

/// An event of the category `channel.shared_chat.end`.
#[derive(Debug)]
pub struct SharedChatSessionEnd {
    pub session_id: String,
    pub broadcaster: User,
    pub host_broadcaster: User,
}

impl FromJson for SharedChatSessionEnd {
    open spec fn parses(j: Json) -> bool {
        &&& j.spec_text("session_id"@) is Some
        &&& User::parses(
            j,
            "broadcaster_user_id"@,
            "broadcaster_user_login"@,
            "broadcaster_user_name"@,
        )
        &&& User::parses(
            j,
            "host_broadcaster_user_id"@,
            "host_broadcaster_user_login"@,
            "host_broadcaster_user_name"@,
        )
    }

    open spec fn parsed_as(j: Json, v: SharedChatSessionEnd) -> bool {
        &&& j.spec_text("session_id"@) == Some(v.session_id)
        &&& User::parsed_as(
            j,
            "broadcaster_user_id"@,
            "broadcaster_user_login"@,
            "broadcaster_user_name"@,
            v.broadcaster,
        )
        &&& User::parsed_as(
            j,
            "host_broadcaster_user_id"@,
            "host_broadcaster_user_login"@,
            "host_broadcaster_user_name"@,
            v.host_broadcaster,
        )
    }

    fn from_json(j: &Json) -> (r: Option<SharedChatSessionEnd>) {
        let session_id = j.text("session_id");
        let broadcaster = User::from_json(
            j,
            "broadcaster_user_id",
            "broadcaster_user_login",
            "broadcaster_user_name",
        );
        let host_broadcaster = User::from_json(
            j,
            "host_broadcaster_user_id",
            "host_broadcaster_user_login",
            "host_broadcaster_user_name",
        );
        if session_id.is_some() && broadcaster.is_some() && host_broadcaster.is_some() {
            Some(
                SharedChatSessionEnd {
                    session_id: session_id.unwrap(),
                    broadcaster: broadcaster.unwrap(),
                    host_broadcaster: host_broadcaster.unwrap(),
                },
            )
        } else {
            None
        }
    }
}

impl ToJson for SharedChatSessionEnd {
    fn to_json(&self) -> (r: Json) {
        let mut entries: Vec<(String, Json)> = Vec::new();
        proof {
            reveal_strlit("session_id");
            reveal_strlit("broadcaster_user_id");
            reveal_strlit("broadcaster_user_login");
            reveal_strlit("broadcaster_user_name");
            reveal_strlit("host_broadcaster_user_id");
            reveal_strlit("host_broadcaster_user_login");
            reveal_strlit("host_broadcaster_user_name");
            assert("session_id"@.len() == 10);
            assert("broadcaster_user_id"@.len() == 19);
            assert("broadcaster_user_login"@.len() == 22);
            assert("broadcaster_user_name"@.len() == 21);
            assert("host_broadcaster_user_id"@.len() == 24);
            assert("host_broadcaster_user_login"@.len() == 27);
            assert("host_broadcaster_user_name"@.len() == 26);
        }
        let session_id_json = Json::Text(self.session_id.clone());
        let broadcaster_id_json = Json::Text(self.broadcaster.user_id.clone());
        let broadcaster_login_json = Json::Text(self.broadcaster.user_login.clone());
        let broadcaster_name_json = Json::Text(self.broadcaster.user_name.clone());
        let host_broadcaster_id_json = Json::Text(self.host_broadcaster.user_id.clone());
        let host_broadcaster_login_json = Json::Text(self.host_broadcaster.user_login.clone());
        let host_broadcaster_name_json = Json::Text(self.host_broadcaster.user_name.clone());
        put(&mut entries, "session_id", session_id_json);
        put(&mut entries, "broadcaster_user_id", broadcaster_id_json);
        put(&mut entries, "broadcaster_user_login", broadcaster_login_json);
        put(&mut entries, "broadcaster_user_name", broadcaster_name_json);
        put(&mut entries, "host_broadcaster_user_id", host_broadcaster_id_json);
        put(&mut entries, "host_broadcaster_user_login", host_broadcaster_login_json);
        put(&mut entries, "host_broadcaster_user_name", host_broadcaster_name_json);
        proof {
            assert(member(entries@, "session_id"@) == Some(session_id_json));
            assert(member(entries@, "broadcaster_user_id"@) == Some(broadcaster_id_json));
            assert(member(entries@, "broadcaster_user_login"@) == Some(broadcaster_login_json));
            assert(member(entries@, "broadcaster_user_name"@) == Some(broadcaster_name_json));
            assert(member(entries@, "host_broadcaster_user_id"@) == Some(host_broadcaster_id_json));
            assert(member(entries@, "host_broadcaster_user_login"@)
                == Some(host_broadcaster_login_json));
            assert(member(entries@, "host_broadcaster_user_name"@)
                == Some(host_broadcaster_name_json));
        }
        Json::Object(entries)
    }
}

#[derive(Debug)]
pub struct Participant {
    pub broadcaster_user_id: String,
    pub broadcaster_user_name: String,
    pub broadcaster_user_login: String,
}

impl FromJson for Participant {
    open spec fn parses(j: Json) -> bool {
        &&& j.spec_text("broadcaster_user_id"@) is Some
        &&& j.spec_text("broadcaster_user_name"@) is Some
        &&& j.spec_text("broadcaster_user_login"@) is Some
    }

    open spec fn parsed_as(j: Json, v: Participant) -> bool {
        &&& j.spec_text("broadcaster_user_id"@) == Some(v.broadcaster_user_id)
        &&& j.spec_text("broadcaster_user_name"@) == Some(v.broadcaster_user_name)
        &&& j.spec_text("broadcaster_user_login"@) == Some(v.broadcaster_user_login)
    }

    fn from_json(j: &Json) -> (r: Option<Participant>) {
        let broadcaster_user_id = j.text("broadcaster_user_id");
        let broadcaster_user_name = j.text("broadcaster_user_name");
        let broadcaster_user_login = j.text("broadcaster_user_login");
        if broadcaster_user_id.is_some() && broadcaster_user_name.is_some()
            && broadcaster_user_login.is_some() {
            Some(
                Participant {
                    broadcaster_user_id: broadcaster_user_id.unwrap(),
                    broadcaster_user_name: broadcaster_user_name.unwrap(),
                    broadcaster_user_login: broadcaster_user_login.unwrap(),
                },
            )
        } else {
            None
        }
    }
}

impl ToJson for Participant {
    fn to_json(&self) -> (r: Json) {
        let mut entries: Vec<(String, Json)> = Vec::new();
        proof {
            reveal_strlit("broadcaster_user_id");
            reveal_strlit("broadcaster_user_name");
            reveal_strlit("broadcaster_user_login");
            assert("broadcaster_user_id"@.len() == 19);
            assert("broadcaster_user_name"@.len() == 21);
            assert("broadcaster_user_login"@.len() == 22);
        }
        let broadcaster_user_id_json = Json::Text(self.broadcaster_user_id.clone());
        let broadcaster_user_name_json = Json::Text(self.broadcaster_user_name.clone());
        let broadcaster_user_login_json = Json::Text(self.broadcaster_user_login.clone());
        put(&mut entries, "broadcaster_user_id", broadcaster_user_id_json);
        put(&mut entries, "broadcaster_user_name", broadcaster_user_name_json);
        put(&mut entries, "broadcaster_user_login", broadcaster_user_login_json);
        proof {
            assert(member(entries@, "broadcaster_user_id"@) == Some(broadcaster_user_id_json));
            assert(member(entries@, "broadcaster_user_name"@) == Some(broadcaster_user_name_json));
            assert(member(entries@, "broadcaster_user_login"@)
                == Some(broadcaster_user_login_json));
        }
        Json::Object(entries)
    }
}

} // verus!
