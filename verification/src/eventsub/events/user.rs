//! Events about a user: updates and whispers.

use vstd::prelude::*;
use crate::json::Json;
use crate::json::FromJson;
use crate::json::ToJson;
use crate::json::put;
use crate::json::member;
use crate::json::read_member;
use crate::json::member_parses;
use crate::json::member_parsed_as;
use crate::eventsub::events::User;

verus! {

/// An event of the category `user.update`.
#[derive(Debug)]
pub struct UserUpdate {
    pub user: User,
    pub email: String,
    pub email_verified: bool,
    pub description: String,
}

impl FromJson for UserUpdate {
    open spec fn parses(j: Json) -> bool {
        &&& User::parses(j, "user_id"@, "user_login"@, "user_name"@)
        &&& j.spec_text("email"@) is Some
        &&& j.spec_flag("email_verified"@) is Some
        &&& j.spec_text("description"@) is Some
    }

    open spec fn parsed_as(j: Json, v: UserUpdate) -> bool {
        &&& User::parsed_as(j, "user_id"@, "user_login"@, "user_name"@, v.user)
        &&& j.spec_text("email"@) == Some(v.email)
        &&& j.spec_flag("email_verified"@) == Some(v.email_verified)
        &&& j.spec_text("description"@) == Some(v.description)
    }

    fn from_json(j: &Json) -> (r: Option<UserUpdate>) {
        let user = User::from_json(j, "user_id", "user_login", "user_name");
        let email = j.text("email");
        let email_verified = j.flag("email_verified");
        let description = j.text("description");
        if user.is_some() && email.is_some() && email_verified.is_some() && description.is_some() {
            Some(
                UserUpdate {
                    user: user.unwrap(),
                    email: email.unwrap(),
                    email_verified: email_verified.unwrap(),
                    description: description.unwrap(),
                },
            )
        } else {
            None
        }
    }
}

impl ToJson for UserUpdate {
    fn to_json(&self) -> (r: Json) {
        let mut entries: Vec<(String, Json)> = Vec::new();
        proof {
            reveal_strlit("user_id");
            reveal_strlit("user_login");
            reveal_strlit("user_name");
            reveal_strlit("email");
            reveal_strlit("email_verified");
            reveal_strlit("description");
            assert("user_id"@.len() == 7);
            assert("user_login"@.len() == 10);
            assert("user_name"@.len() == 9);
            assert("email"@.len() == 5);
            assert("email_verified"@.len() == 14);
            assert("description"@.len() == 11);
        }
        let user_id_json = Json::Text(self.user.user_id.clone());
        let user_login_json = Json::Text(self.user.user_login.clone());
        let user_name_json = Json::Text(self.user.user_name.clone());
        let email_json = Json::Text(self.email.clone());
        let email_verified_json = Json::Bool(self.email_verified);
        let description_json = Json::Text(self.description.clone());
        put(&mut entries, "user_id", user_id_json);
        put(&mut entries, "user_login", user_login_json);
        put(&mut entries, "user_name", user_name_json);
        put(&mut entries, "email", email_json);
        put(&mut entries, "email_verified", email_verified_json);
        put(&mut entries, "description", description_json);
        proof {
            assert(member(entries@, "user_id"@) == Some(user_id_json));
            assert(member(entries@, "user_login"@) == Some(user_login_json));
            assert(member(entries@, "user_name"@) == Some(user_name_json));
            assert(member(entries@, "email"@) == Some(email_json));
            assert(member(entries@, "email_verified"@) == Some(email_verified_json));
            assert(member(entries@, "description"@) == Some(description_json));
        }
        Json::Object(entries)
    }
}

/// An event of the category `user.whisper.message`.
#[derive(Debug)]
pub struct WhisperReceived {
    pub from_user: User,
    pub to_user: User,
    pub whisper_id: String,
    pub whisper: Whisper,
}

impl FromJson for WhisperReceived {
    open spec fn parses(j: Json) -> bool {
        &&& User::parses(j, "from_user_id"@, "from_user_login"@, "from_user_name"@)
        &&& User::parses(j, "to_user_id"@, "to_user_login"@, "to_user_name"@)
        &&& j.spec_text("whisper_id"@) is Some
        &&& member_parses::<Whisper>(j, "whisper"@)
    }

    open spec fn parsed_as(j: Json, v: WhisperReceived) -> bool {
        &&& User::parsed_as(j, "from_user_id"@, "from_user_login"@, "from_user_name"@, v.from_user)
        &&& User::parsed_as(j, "to_user_id"@, "to_user_login"@, "to_user_name"@, v.to_user)
        &&& j.spec_text("whisper_id"@) == Some(v.whisper_id)
        &&& member_parsed_as(j, "whisper"@, v.whisper)
    }

    fn from_json(j: &Json) -> (r: Option<WhisperReceived>) {
        let from_user = User::from_json(j, "from_user_id", "from_user_login", "from_user_name");
        let to_user = User::from_json(j, "to_user_id", "to_user_login", "to_user_name");
        let whisper_id = j.text("whisper_id");
        let whisper = read_member::<Whisper>(j, "whisper");
        if from_user.is_some() && to_user.is_some() && whisper_id.is_some() && whisper.is_some() {
            Some(
                WhisperReceived {
                    from_user: from_user.unwrap(),
                    to_user: to_user.unwrap(),
                    whisper_id: whisper_id.unwrap(),
                    whisper: whisper.unwrap(),
                },
            )
        } else {
            None
        }
    }
}

impl ToJson for WhisperReceived {
    fn to_json(&self) -> (r: Json) {
        let mut entries: Vec<(String, Json)> = Vec::new();
        proof {
            reveal_strlit("from_user_id");
            reveal_strlit("from_user_login");
            reveal_strlit("from_user_name");
            reveal_strlit("to_user_id");
            reveal_strlit("to_user_login");
            reveal_strlit("to_user_name");
            reveal_strlit("whisper_id");
            reveal_strlit("whisper");
            assert("from_user_id"@.len() == 12);
            assert("from_user_login"@.len() == 15);
            assert("from_user_name"@.len() == 14);
            assert("to_user_id"@.len() == 10);
            assert("to_user_login"@.len() == 13);
            assert("to_user_name"@.len() == 12);
            assert("whisper_id"@.len() == 10);
            assert("whisper"@.len() == 7);
            assert("from_user_id"@[0] != "to_user_name"@[0]);
            assert("to_user_id"@[0] != "whisper_id"@[0]);
        }
        let from_user_id_json = Json::Text(self.from_user.user_id.clone());
        let from_user_login_json = Json::Text(self.from_user.user_login.clone());
        let from_user_name_json = Json::Text(self.from_user.user_name.clone());
        let to_user_id_json = Json::Text(self.to_user.user_id.clone());
        let to_user_login_json = Json::Text(self.to_user.user_login.clone());
        let to_user_name_json = Json::Text(self.to_user.user_name.clone());
        let whisper_id_json = Json::Text(self.whisper_id.clone());
        let whisper_json = self.whisper.to_json();
        put(&mut entries, "from_user_id", from_user_id_json);
        put(&mut entries, "from_user_login", from_user_login_json);
        put(&mut entries, "from_user_name", from_user_name_json);
        put(&mut entries, "to_user_id", to_user_id_json);
        put(&mut entries, "to_user_login", to_user_login_json);
        put(&mut entries, "to_user_name", to_user_name_json);
        put(&mut entries, "whisper_id", whisper_id_json);
        put(&mut entries, "whisper", whisper_json);
        proof {
            assert(member(entries@, "from_user_id"@) == Some(from_user_id_json));
            assert(member(entries@, "from_user_login"@) == Some(from_user_login_json));
            assert(member(entries@, "from_user_name"@) == Some(from_user_name_json));
            assert(member(entries@, "to_user_id"@) == Some(to_user_id_json));
            assert(member(entries@, "to_user_login"@) == Some(to_user_login_json));
            assert(member(entries@, "to_user_name"@) == Some(to_user_name_json));
            assert(member(entries@, "whisper_id"@) == Some(whisper_id_json));
            assert(member(entries@, "whisper"@) == Some(whisper_json));
        }
        Json::Object(entries)
    }
}

#[derive(Debug)]
pub struct Whisper {
    pub text: String,
}

impl FromJson for Whisper {
    open spec fn parses(j: Json) -> bool {
        &&& j.spec_text("text"@) is Some
    }

    open spec fn parsed_as(j: Json, v: Whisper) -> bool {
        &&& j.spec_text("text"@) == Some(v.text)
    }

    fn from_json(j: &Json) -> (r: Option<Whisper>) {
        let text = j.text("text");
        if text.is_some() {
            Some(Whisper { text: text.unwrap() })
        } else {
            None
        }
    }
}

impl ToJson for Whisper {
    fn to_json(&self) -> (r: Json) {
        let mut entries: Vec<(String, Json)> = Vec::new();
        proof {
            reveal_strlit("text");
            assert("text"@.len() == 4);
        }
        let text_json = Json::Text(self.text.clone());
        put(&mut entries, "text", text_json);
        proof {
            assert(member(entries@, "text"@) == Some(text_json));
        }
        Json::Object(entries)
    }
}

} // verus!
