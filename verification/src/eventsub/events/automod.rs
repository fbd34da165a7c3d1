//! Events about messages that were held for review, and about the settings of that
//! review.

use vstd::prelude::*;
use crate::json::Json;
use crate::json::FromJson;
use crate::json::lemma_member_append;
use crate::json::ToJson;
use crate::json::put;
use crate::json::member;
use crate::json::write_all;
use crate::json::count_json;
use crate::json::optional_count32_json;
use crate::json::read_member;
use crate::json::read_list;
use crate::json::member_parses;
use crate::json::member_parsed_as;
use crate::json::list_parses;
use crate::json::list_parsed_as;
use crate::json::same_text;
use crate::eventsub::events::Message;
use crate::eventsub::events::User;

verus! {

/// An event of the category `automod.message.hold`.
#[derive(Debug)]
pub struct AutomodMessageHold {
    pub broadcaster: User,
    pub user: User,
    pub message_id: String,
    pub message: Message,
    pub hold_reason: HoldReason,
    pub held_at: String,
}

impl FromJson for AutomodMessageHold {
    open spec fn parses(j: Json) -> bool {
        &&& User::parses(
            j,
            "broadcaster_user_id"@,
            "broadcaster_user_login"@,
            "broadcaster_user_name"@,
        )
        &&& User::parses(j, "user_id"@, "user_login"@, "user_name"@)
        &&& j.spec_text("message_id"@) is Some
        &&& member_parses::<Message>(j, "message"@)
        &&& HoldReason::parses(j)
        &&& j.spec_text("held_at"@) is Some
    }

    open spec fn parsed_as(j: Json, v: AutomodMessageHold) -> bool {
        &&& User::parsed_as(
            j,
            "broadcaster_user_id"@,
            "broadcaster_user_login"@,
            "broadcaster_user_name"@,
            v.broadcaster,
        )
        &&& User::parsed_as(j, "user_id"@, "user_login"@, "user_name"@, v.user)
        &&& j.spec_text("message_id"@) == Some(v.message_id)
        &&& member_parsed_as(j, "message"@, v.message)
        &&& HoldReason::parsed_as(j, v.hold_reason)
        &&& j.spec_text("held_at"@) == Some(v.held_at)
    }

    fn from_json(j: &Json) -> (r: Option<AutomodMessageHold>) {
        let broadcaster = User::from_json(
            j,
            "broadcaster_user_id",
            "broadcaster_user_login",
            "broadcaster_user_name",
        );
        let user = User::from_json(j, "user_id", "user_login", "user_name");
        let message_id = j.text("message_id");
        let message = read_member::<Message>(j, "message");
        let hold_reason = HoldReason::from_json(j);
        let held_at = j.text("held_at");
        if broadcaster.is_some() && user.is_some() && message_id.is_some() && message.is_some()
            && hold_reason.is_some() && held_at.is_some() {
            Some(
                AutomodMessageHold {
                    broadcaster: broadcaster.unwrap(),
                    user: user.unwrap(),
                    message_id: message_id.unwrap(),
                    message: message.unwrap(),
                    hold_reason: hold_reason.unwrap(),
                    held_at: held_at.unwrap(),
                },
            )
        } else {
            None
        }
    }
}

impl ToJson for AutomodMessageHold {
    fn to_json(&self) -> (r: Json) {
        let mut entries: Vec<(String, Json)> = Vec::new();
        proof {
            reveal_strlit("broadcaster_user_id");
            reveal_strlit("broadcaster_user_login");
            reveal_strlit("broadcaster_user_name");
            reveal_strlit("user_id");
            reveal_strlit("user_login");
            reveal_strlit("user_name");
            reveal_strlit("message_id");
            reveal_strlit("message");
            reveal_strlit("held_at");
            reveal_strlit("reason");
            reveal_strlit("automod");
            reveal_strlit("blocked_term");
            assert("broadcaster_user_id"@.len() == 19);
            assert("broadcaster_user_login"@.len() == 22);
            assert("broadcaster_user_name"@.len() == 21);
            assert("user_id"@.len() == 7);
            assert("user_login"@.len() == 10);
            assert("user_name"@.len() == 9);
            assert("message_id"@.len() == 10);
            assert("message"@.len() == 7);
            assert("held_at"@.len() == 7);
            assert("reason"@.len() == 6);
            assert("automod"@.len() == 7);
            assert("blocked_term"@.len() == 12);
            assert("user_id"@[0] != "message"@[0]);
            assert("user_id"@[0] != "held_at"@[0]);
            assert("user_id"@[0] != "automod"@[0]);
            assert("user_login"@[0] != "message_id"@[0]);
            assert("message"@[0] != "held_at"@[0]);
            assert("message"@[0] != "automod"@[0]);
            assert("held_at"@[0] != "automod"@[0]);
        }
        let broadcaster_id_json = Json::Text(self.broadcaster.user_id.clone());
        let broadcaster_login_json = Json::Text(self.broadcaster.user_login.clone());
        let broadcaster_name_json = Json::Text(self.broadcaster.user_name.clone());
        let user_id_json = Json::Text(self.user.user_id.clone());
        let user_login_json = Json::Text(self.user.user_login.clone());
        let user_name_json = Json::Text(self.user.user_name.clone());
        let message_id_json = Json::Text(self.message_id.clone());
        let message_json = self.message.to_json();
        let held_at_json = Json::Text(self.held_at.clone());
        put(&mut entries, "broadcaster_user_id", broadcaster_id_json);
        put(&mut entries, "broadcaster_user_login", broadcaster_login_json);
        put(&mut entries, "broadcaster_user_name", broadcaster_name_json);
        put(&mut entries, "user_id", user_id_json);
        put(&mut entries, "user_login", user_login_json);
        put(&mut entries, "user_name", user_name_json);
        put(&mut entries, "message_id", message_id_json);
        put(&mut entries, "message", message_json);
        put(&mut entries, "held_at", held_at_json);
        let ghost own = entries@;
        proof {
            assert(member(own, "broadcaster_user_id"@) == Some(broadcaster_id_json));
            assert(member(own, "broadcaster_user_login"@) == Some(broadcaster_login_json));
            assert(member(own, "broadcaster_user_name"@) == Some(broadcaster_name_json));
            assert(member(own, "user_id"@) == Some(user_id_json));
            assert(member(own, "user_login"@) == Some(user_login_json));
            assert(member(own, "user_name"@) == Some(user_name_json));
            assert(member(own, "message_id"@) == Some(message_id_json));
            assert(member(own, "message"@) == Some(message_json));
            assert(member(own, "held_at"@) == Some(held_at_json));
        }
        let mut hold_reason_entries = self.hold_reason.write();
        let ghost hold_reason_json = Json::Object(hold_reason_entries);
        let ghost before_hold_reason = entries@;
        entries.append(&mut hold_reason_entries);
        proof {
            let written = Json::Object(entries);
            assert forall|k: Seq<char>| member(own, k) is Some implies member(entries@, k)
                == member(own, k) by {
                lemma_member_append(before_hold_reason, hold_reason_json->Object_0@, k);
            }
            assert forall|k: Seq<char>| HoldReason::own_key(k) implies written.spec_get(k)
                == hold_reason_json.spec_get(k) by {
                lemma_member_append(before_hold_reason, hold_reason_json->Object_0@, k);
                assert(member(own, k) is None);
            }
            HoldReason::lemma_own_keys(written, hold_reason_json, self.hold_reason);
            assert(member(entries@, "broadcaster_user_id"@) == Some(broadcaster_id_json));
            assert(member(entries@, "broadcaster_user_login"@) == Some(broadcaster_login_json));
            assert(member(entries@, "broadcaster_user_name"@) == Some(broadcaster_name_json));
            assert(member(entries@, "user_id"@) == Some(user_id_json));
            assert(member(entries@, "user_login"@) == Some(user_login_json));
            assert(member(entries@, "user_name"@) == Some(user_name_json));
            assert(member(entries@, "message_id"@) == Some(message_id_json));
            assert(member(entries@, "message"@) == Some(message_json));
            assert(member(entries@, "held_at"@) == Some(held_at_json));
        }
        Json::Object(entries)
    }
}

/// An event of the category `automod.message.update`.
#[derive(Debug)]
pub struct AutomodMessageUpdate {
    pub broadcaster: User,
    pub user: User,
    pub moderator: User,
    pub message_id: String,
    pub message: Message,
    pub hold_reason: HoldReason,
    pub status: UpdateStatus,
    pub held_at: String,
}

impl FromJson for AutomodMessageUpdate {
    open spec fn parses(j: Json) -> bool {
        &&& User::parses(
            j,
            "broadcaster_user_id"@,
            "broadcaster_user_login"@,
            "broadcaster_user_name"@,
        )
        &&& User::parses(j, "user_id"@, "user_login"@, "user_name"@)
        &&& User::parses(j, "moderator_user_id"@, "moderator_user_login"@, "moderator_user_name"@)
        &&& j.spec_text("message_id"@) is Some
        &&& member_parses::<Message>(j, "message"@)
        &&& HoldReason::parses(j)
        &&& member_parses::<UpdateStatus>(j, "status"@)
        &&& j.spec_text("held_at"@) is Some
    }

    open spec fn parsed_as(j: Json, v: AutomodMessageUpdate) -> bool {
        &&& User::parsed_as(
            j,
            "broadcaster_user_id"@,
            "broadcaster_user_login"@,
            "broadcaster_user_name"@,
            v.broadcaster,
        )
        &&& User::parsed_as(j, "user_id"@, "user_login"@, "user_name"@, v.user)
        &&& User::parsed_as(
            j,
            "moderator_user_id"@,
            "moderator_user_login"@,
            "moderator_user_name"@,
            v.moderator,
        )
        &&& j.spec_text("message_id"@) == Some(v.message_id)
        &&& member_parsed_as(j, "message"@, v.message)
        &&& HoldReason::parsed_as(j, v.hold_reason)
        &&& member_parsed_as(j, "status"@, v.status)
        &&& j.spec_text("held_at"@) == Some(v.held_at)
    }

    fn from_json(j: &Json) -> (r: Option<AutomodMessageUpdate>) {
        let broadcaster = User::from_json(
            j,
            "broadcaster_user_id",
            "broadcaster_user_login",
            "broadcaster_user_name",
        );
        let user = User::from_json(j, "user_id", "user_login", "user_name");
        let moderator = User::from_json(
            j,
            "moderator_user_id",
            "moderator_user_login",
            "moderator_user_name",
        );
        let message_id = j.text("message_id");
        let message = read_member::<Message>(j, "message");
        let hold_reason = HoldReason::from_json(j);
        let status = read_member::<UpdateStatus>(j, "status");
        let held_at = j.text("held_at");
        if broadcaster.is_some() && user.is_some() && moderator.is_some() && message_id.is_some()
            && message.is_some() && hold_reason.is_some() && status.is_some() && held_at.is_some() {
            Some(
                AutomodMessageUpdate {
                    broadcaster: broadcaster.unwrap(),
                    user: user.unwrap(),
                    moderator: moderator.unwrap(),
                    message_id: message_id.unwrap(),
                    message: message.unwrap(),
                    hold_reason: hold_reason.unwrap(),
                    status: status.unwrap(),
                    held_at: held_at.unwrap(),
                },
            )
        } else {
            None
        }
    }
}

impl ToJson for AutomodMessageUpdate {
    fn to_json(&self) -> (r: Json) {
        let mut entries: Vec<(String, Json)> = Vec::new();
        proof {
            reveal_strlit("broadcaster_user_id");
            reveal_strlit("broadcaster_user_login");
            reveal_strlit("broadcaster_user_name");
            reveal_strlit("user_id");
            reveal_strlit("user_login");
            reveal_strlit("user_name");
            reveal_strlit("moderator_user_id");
            reveal_strlit("moderator_user_login");
            reveal_strlit("moderator_user_name");
            reveal_strlit("message_id");
            reveal_strlit("message");
            reveal_strlit("status");
            reveal_strlit("held_at");
            reveal_strlit("reason");
            reveal_strlit("automod");
            reveal_strlit("blocked_term");
            assert("broadcaster_user_id"@.len() == 19);
            assert("broadcaster_user_login"@.len() == 22);
            assert("broadcaster_user_name"@.len() == 21);
            assert("user_id"@.len() == 7);
            assert("user_login"@.len() == 10);
            assert("user_name"@.len() == 9);
            assert("moderator_user_id"@.len() == 17);
            assert("moderator_user_login"@.len() == 20);
            assert("moderator_user_name"@.len() == 19);
            assert("message_id"@.len() == 10);
            assert("message"@.len() == 7);
            assert("status"@.len() == 6);
            assert("held_at"@.len() == 7);
            assert("reason"@.len() == 6);
            assert("automod"@.len() == 7);
            assert("blocked_term"@.len() == 12);
            assert("broadcaster_user_id"@[0] != "moderator_user_name"@[0]);
            assert("user_id"@[0] != "message"@[0]);
            assert("user_id"@[0] != "held_at"@[0]);
            assert("user_id"@[0] != "automod"@[0]);
            assert("user_login"@[0] != "message_id"@[0]);
            assert("message"@[0] != "held_at"@[0]);
            assert("message"@[0] != "automod"@[0]);
            assert("status"@[0] != "reason"@[0]);
            assert("held_at"@[0] != "automod"@[0]);
        }
        let broadcaster_id_json = Json::Text(self.broadcaster.user_id.clone());
        let broadcaster_login_json = Json::Text(self.broadcaster.user_login.clone());
        let broadcaster_name_json = Json::Text(self.broadcaster.user_name.clone());
        let user_id_json = Json::Text(self.user.user_id.clone());
        let user_login_json = Json::Text(self.user.user_login.clone());
        let user_name_json = Json::Text(self.user.user_name.clone());
        let moderator_id_json = Json::Text(self.moderator.user_id.clone());
        let moderator_login_json = Json::Text(self.moderator.user_login.clone());
        let moderator_name_json = Json::Text(self.moderator.user_name.clone());
        let message_id_json = Json::Text(self.message_id.clone());
        let message_json = self.message.to_json();
        let status_json = self.status.to_json();
        let held_at_json = Json::Text(self.held_at.clone());
        put(&mut entries, "broadcaster_user_id", broadcaster_id_json);
        put(&mut entries, "broadcaster_user_login", broadcaster_login_json);
        put(&mut entries, "broadcaster_user_name", broadcaster_name_json);
        put(&mut entries, "user_id", user_id_json);
        put(&mut entries, "user_login", user_login_json);
        put(&mut entries, "user_name", user_name_json);
        put(&mut entries, "moderator_user_id", moderator_id_json);
        put(&mut entries, "moderator_user_login", moderator_login_json);
        put(&mut entries, "moderator_user_name", moderator_name_json);
        put(&mut entries, "message_id", message_id_json);
        put(&mut entries, "message", message_json);
        put(&mut entries, "status", status_json);
        put(&mut entries, "held_at", held_at_json);
        let ghost own = entries@;
        proof {
            assert(member(own, "broadcaster_user_id"@) == Some(broadcaster_id_json));
            assert(member(own, "broadcaster_user_login"@) == Some(broadcaster_login_json));
            assert(member(own, "broadcaster_user_name"@) == Some(broadcaster_name_json));
            assert(member(own, "user_id"@) == Some(user_id_json));
            assert(member(own, "user_login"@) == Some(user_login_json));
            assert(member(own, "user_name"@) == Some(user_name_json));
            assert(member(own, "moderator_user_id"@) == Some(moderator_id_json));
            assert(member(own, "moderator_user_login"@) == Some(moderator_login_json));
            assert(member(own, "moderator_user_name"@) == Some(moderator_name_json));
            assert(member(own, "message_id"@) == Some(message_id_json));
            assert(member(own, "message"@) == Some(message_json));
            assert(member(own, "status"@) == Some(status_json));
            assert(member(own, "held_at"@) == Some(held_at_json));
        }
        let mut hold_reason_entries = self.hold_reason.write();
        let ghost hold_reason_json = Json::Object(hold_reason_entries);
        let ghost before_hold_reason = entries@;
        entries.append(&mut hold_reason_entries);
        proof {
            let written = Json::Object(entries);
            assert forall|k: Seq<char>| member(own, k) is Some implies member(entries@, k)
                == member(own, k) by {
                lemma_member_append(before_hold_reason, hold_reason_json->Object_0@, k);
            }
            assert forall|k: Seq<char>| HoldReason::own_key(k) implies written.spec_get(k)
                == hold_reason_json.spec_get(k) by {
                lemma_member_append(before_hold_reason, hold_reason_json->Object_0@, k);
                assert(member(own, k) is None);
            }
            HoldReason::lemma_own_keys(written, hold_reason_json, self.hold_reason);
            assert(member(entries@, "broadcaster_user_id"@) == Some(broadcaster_id_json));
            assert(member(entries@, "broadcaster_user_login"@) == Some(broadcaster_login_json));
            assert(member(entries@, "broadcaster_user_name"@) == Some(broadcaster_name_json));
            assert(member(entries@, "user_id"@) == Some(user_id_json));
            assert(member(entries@, "user_login"@) == Some(user_login_json));
            assert(member(entries@, "user_name"@) == Some(user_name_json));
            assert(member(entries@, "moderator_user_id"@) == Some(moderator_id_json));
            assert(member(entries@, "moderator_user_login"@) == Some(moderator_login_json));
            assert(member(entries@, "moderator_user_name"@) == Some(moderator_name_json));
            assert(member(entries@, "message_id"@) == Some(message_id_json));
            assert(member(entries@, "message"@) == Some(message_json));
            assert(member(entries@, "status"@) == Some(status_json));
            assert(member(entries@, "held_at"@) == Some(held_at_json));
        }
        Json::Object(entries)
    }
}

/// An event of the category `automod.settings.update`.
#[derive(Debug)]
pub struct AutomodSettingsUpdate {
    pub broadcaster: User,
    pub moderator: User,
    pub bullying: u32,
    pub overall_level: Option<u32>,
    pub disability: u32,
    pub race_ethnicity_or_religion: u32,
    pub misogyny: u32,
    pub sexuality_sex_or_gender: u32,
    pub aggression: u32,
    pub sex_based_terms: u32,
    pub swearing: u32,
}

impl FromJson for AutomodSettingsUpdate {
    open spec fn parses(j: Json) -> bool {
        &&& User::parses(
            j,
            "broadcaster_user_id"@,
            "broadcaster_user_login"@,
            "broadcaster_user_name"@,
        )
        &&& User::parses(j, "moderator_user_id"@, "moderator_user_login"@, "moderator_user_name"@)
        &&& j.spec_count32("bullying"@) is Some
        &&& j.spec_optional_count32("overall_level"@) is Some
        &&& j.spec_count32("disability"@) is Some
        &&& j.spec_count32("race_ethnicity_or_religion"@) is Some
        &&& j.spec_count32("misogyny"@) is Some
        &&& j.spec_count32("sexuality_sex_or_gender"@) is Some
        &&& j.spec_count32("aggression"@) is Some
        &&& j.spec_count32("sex_based_terms"@) is Some
        &&& j.spec_count32("swearing"@) is Some
    }

    open spec fn parsed_as(j: Json, v: AutomodSettingsUpdate) -> bool {
        &&& User::parsed_as(
            j,
            "broadcaster_user_id"@,
            "broadcaster_user_login"@,
            "broadcaster_user_name"@,
            v.broadcaster,
        )
        &&& User::parsed_as(
            j,
            "moderator_user_id"@,
            "moderator_user_login"@,
            "moderator_user_name"@,
            v.moderator,
        )
        &&& j.spec_count32("bullying"@) == Some(v.bullying)
        &&& j.spec_optional_count32("overall_level"@) == Some(v.overall_level)
        &&& j.spec_count32("disability"@) == Some(v.disability)
        &&& j.spec_count32("race_ethnicity_or_religion"@) == Some(v.race_ethnicity_or_religion)
        &&& j.spec_count32("misogyny"@) == Some(v.misogyny)
        &&& j.spec_count32("sexuality_sex_or_gender"@) == Some(v.sexuality_sex_or_gender)
        &&& j.spec_count32("aggression"@) == Some(v.aggression)
        &&& j.spec_count32("sex_based_terms"@) == Some(v.sex_based_terms)
        &&& j.spec_count32("swearing"@) == Some(v.swearing)
    }

    fn from_json(j: &Json) -> (r: Option<AutomodSettingsUpdate>) {
        let broadcaster = User::from_json(
            j,
            "broadcaster_user_id",
            "broadcaster_user_login",
            "broadcaster_user_name",
        );
        let moderator = User::from_json(
            j,
            "moderator_user_id",
            "moderator_user_login",
            "moderator_user_name",
        );
        let bullying = j.count32("bullying");
        let overall_level = j.optional_count32("overall_level");
        let disability = j.count32("disability");
        let race_ethnicity_or_religion = j.count32("race_ethnicity_or_religion");
        let misogyny = j.count32("misogyny");
        let sexuality_sex_or_gender = j.count32("sexuality_sex_or_gender");
        let aggression = j.count32("aggression");
        let sex_based_terms = j.count32("sex_based_terms");
        let swearing = j.count32("swearing");
        if broadcaster.is_some() && moderator.is_some() && bullying.is_some()
            && overall_level.is_some() && disability.is_some()
            && race_ethnicity_or_religion.is_some() && misogyny.is_some()
            && sexuality_sex_or_gender.is_some() && aggression.is_some()
            && sex_based_terms.is_some() && swearing.is_some() {
            Some(
                AutomodSettingsUpdate {
                    broadcaster: broadcaster.unwrap(),
                    moderator: moderator.unwrap(),
                    bullying: bullying.unwrap(),
                    overall_level: overall_level.unwrap(),
                    disability: disability.unwrap(),
                    race_ethnicity_or_religion: race_ethnicity_or_religion.unwrap(),
                    misogyny: misogyny.unwrap(),
                    sexuality_sex_or_gender: sexuality_sex_or_gender.unwrap(),
                    aggression: aggression.unwrap(),
                    sex_based_terms: sex_based_terms.unwrap(),
                    swearing: swearing.unwrap(),
                },
            )
        } else {
            None
        }
    }
}

impl ToJson for AutomodSettingsUpdate {
    fn to_json(&self) -> (r: Json) {
        let mut entries: Vec<(String, Json)> = Vec::new();
        proof {
            reveal_strlit("broadcaster_user_id");
            reveal_strlit("broadcaster_user_login");
            reveal_strlit("broadcaster_user_name");
            reveal_strlit("moderator_user_id");
            reveal_strlit("moderator_user_login");
            reveal_strlit("moderator_user_name");
            reveal_strlit("bullying");
            reveal_strlit("overall_level");
            reveal_strlit("disability");
            reveal_strlit("race_ethnicity_or_religion");
            reveal_strlit("misogyny");
            reveal_strlit("sexuality_sex_or_gender");
            reveal_strlit("aggression");
            reveal_strlit("sex_based_terms");
            reveal_strlit("swearing");
            assert("broadcaster_user_id"@.len() == 19);
            assert("broadcaster_user_login"@.len() == 22);
            assert("broadcaster_user_name"@.len() == 21);
            assert("moderator_user_id"@.len() == 17);
            assert("moderator_user_login"@.len() == 20);
            assert("moderator_user_name"@.len() == 19);
            assert("bullying"@.len() == 8);
            assert("overall_level"@.len() == 13);
            assert("disability"@.len() == 10);
            assert("race_ethnicity_or_religion"@.len() == 26);
            assert("misogyny"@.len() == 8);
            assert("sexuality_sex_or_gender"@.len() == 23);
            assert("aggression"@.len() == 10);
            assert("sex_based_terms"@.len() == 15);
            assert("swearing"@.len() == 8);
            assert("broadcaster_user_id"@[0] != "moderator_user_name"@[0]);
            assert("bullying"@[0] != "misogyny"@[0]);
            assert("bullying"@[0] != "swearing"@[0]);
            assert("disability"@[0] != "aggression"@[0]);
            assert("misogyny"@[0] != "swearing"@[0]);
        }
        let broadcaster_id_json = Json::Text(self.broadcaster.user_id.clone());
        let broadcaster_login_json = Json::Text(self.broadcaster.user_login.clone());
        let broadcaster_name_json = Json::Text(self.broadcaster.user_name.clone());
        let moderator_id_json = Json::Text(self.moderator.user_id.clone());
        let moderator_login_json = Json::Text(self.moderator.user_login.clone());
        let moderator_name_json = Json::Text(self.moderator.user_name.clone());
        let bullying_json = count_json(self.bullying as u64);
        let overall_level_json = optional_count32_json(&self.overall_level);
        let disability_json = count_json(self.disability as u64);
        let race_ethnicity_or_religion_json = count_json(self.race_ethnicity_or_religion as u64);
        let misogyny_json = count_json(self.misogyny as u64);
        let sexuality_sex_or_gender_json = count_json(self.sexuality_sex_or_gender as u64);
        let aggression_json = count_json(self.aggression as u64);
        let sex_based_terms_json = count_json(self.sex_based_terms as u64);
        let swearing_json = count_json(self.swearing as u64);
        put(&mut entries, "broadcaster_user_id", broadcaster_id_json);
        put(&mut entries, "broadcaster_user_login", broadcaster_login_json);
        put(&mut entries, "broadcaster_user_name", broadcaster_name_json);
        put(&mut entries, "moderator_user_id", moderator_id_json);
        put(&mut entries, "moderator_user_login", moderator_login_json);
        put(&mut entries, "moderator_user_name", moderator_name_json);
        put(&mut entries, "bullying", bullying_json);
        put(&mut entries, "overall_level", overall_level_json);
        put(&mut entries, "disability", disability_json);
        put(&mut entries, "race_ethnicity_or_religion", race_ethnicity_or_religion_json);
        put(&mut entries, "misogyny", misogyny_json);
        put(&mut entries, "sexuality_sex_or_gender", sexuality_sex_or_gender_json);
        put(&mut entries, "aggression", aggression_json);
        put(&mut entries, "sex_based_terms", sex_based_terms_json);
        put(&mut entries, "swearing", swearing_json);
        proof {
            assert(member(entries@, "broadcaster_user_id"@) == Some(broadcaster_id_json));
            assert(member(entries@, "broadcaster_user_login"@) == Some(broadcaster_login_json));
            assert(member(entries@, "broadcaster_user_name"@) == Some(broadcaster_name_json));
            assert(member(entries@, "moderator_user_id"@) == Some(moderator_id_json));
            assert(member(entries@, "moderator_user_login"@) == Some(moderator_login_json));
            assert(member(entries@, "moderator_user_name"@) == Some(moderator_name_json));
            assert(member(entries@, "bullying"@) == Some(bullying_json));
            assert(member(entries@, "overall_level"@) == Some(overall_level_json));
            assert(member(entries@, "disability"@) == Some(disability_json));
            assert(member(entries@, "race_ethnicity_or_religion"@)
                == Some(race_ethnicity_or_religion_json));
            assert(member(entries@, "misogyny"@) == Some(misogyny_json));
            assert(member(entries@, "sexuality_sex_or_gender"@)
                == Some(sexuality_sex_or_gender_json));
            assert(member(entries@, "aggression"@) == Some(aggression_json));
            assert(member(entries@, "sex_based_terms"@) == Some(sex_based_terms_json));
            assert(member(entries@, "swearing"@) == Some(swearing_json));
        }
        Json::Object(entries)
    }
}

/// An event of the category `automod.terms.update`.
#[derive(Debug)]
pub struct AutomodTermsUpdate {
    pub broadcaster: User,
    pub moderator: User,
    pub action: TermsAction,
    pub from_automod: bool,
    pub terms: Vec<String>,
}

impl FromJson for AutomodTermsUpdate {
    open spec fn parses(j: Json) -> bool {
        &&& User::parses(
            j,
            "broadcaster_user_id"@,
            "broadcaster_user_login"@,
            "broadcaster_user_name"@,
        )
        &&& User::parses(j, "moderator_user_id"@, "moderator_user_login"@, "moderator_user_name"@)
        &&& member_parses::<TermsAction>(j, "action"@)
        &&& j.spec_flag("from_automod"@) is Some
        &&& list_parses::<String>(j, "terms"@)
    }

    open spec fn parsed_as(j: Json, v: AutomodTermsUpdate) -> bool {
        &&& User::parsed_as(
            j,
            "broadcaster_user_id"@,
            "broadcaster_user_login"@,
            "broadcaster_user_name"@,
            v.broadcaster,
        )
        &&& User::parsed_as(
            j,
            "moderator_user_id"@,
            "moderator_user_login"@,
            "moderator_user_name"@,
            v.moderator,
        )
        &&& member_parsed_as(j, "action"@, v.action)
        &&& j.spec_flag("from_automod"@) == Some(v.from_automod)
        &&& list_parsed_as(j, "terms"@, v.terms@)
    }

    fn from_json(j: &Json) -> (r: Option<AutomodTermsUpdate>) {
        let broadcaster = User::from_json(
            j,
            "broadcaster_user_id",
            "broadcaster_user_login",
            "broadcaster_user_name",
        );
        let moderator = User::from_json(
            j,
            "moderator_user_id",
            "moderator_user_login",
            "moderator_user_name",
        );
        let action = read_member::<TermsAction>(j, "action");
        let from_automod = j.flag("from_automod");
        let terms = read_list::<String>(j, "terms");
        if broadcaster.is_some() && moderator.is_some() && action.is_some()
            && from_automod.is_some() && terms.is_some() {
            Some(
                AutomodTermsUpdate {
                    broadcaster: broadcaster.unwrap(),
                    moderator: moderator.unwrap(),
                    action: action.unwrap(),
                    from_automod: from_automod.unwrap(),
                    terms: terms.unwrap(),
                },
            )
        } else {
            None
        }
    }
}

impl ToJson for AutomodTermsUpdate {
    fn to_json(&self) -> (r: Json) {
        let mut entries: Vec<(String, Json)> = Vec::new();
        proof {
            reveal_strlit("broadcaster_user_id");
            reveal_strlit("broadcaster_user_login");
            reveal_strlit("broadcaster_user_name");
            reveal_strlit("moderator_user_id");
            reveal_strlit("moderator_user_login");
            reveal_strlit("moderator_user_name");
            reveal_strlit("action");
            reveal_strlit("from_automod");
            reveal_strlit("terms");
            assert("broadcaster_user_id"@.len() == 19);
            assert("broadcaster_user_login"@.len() == 22);
            assert("broadcaster_user_name"@.len() == 21);
            assert("moderator_user_id"@.len() == 17);
            assert("moderator_user_login"@.len() == 20);
            assert("moderator_user_name"@.len() == 19);
            assert("action"@.len() == 6);
            assert("from_automod"@.len() == 12);
            assert("terms"@.len() == 5);
            assert("broadcaster_user_id"@[0] != "moderator_user_name"@[0]);
        }
        let broadcaster_id_json = Json::Text(self.broadcaster.user_id.clone());
        let broadcaster_login_json = Json::Text(self.broadcaster.user_login.clone());
        let broadcaster_name_json = Json::Text(self.broadcaster.user_name.clone());
        let moderator_id_json = Json::Text(self.moderator.user_id.clone());
        let moderator_login_json = Json::Text(self.moderator.user_login.clone());
        let moderator_name_json = Json::Text(self.moderator.user_name.clone());
        let action_json = self.action.to_json();
        let from_automod_json = Json::Bool(self.from_automod);
        let terms_json = Json::List(write_all(&self.terms));
        put(&mut entries, "broadcaster_user_id", broadcaster_id_json);
        put(&mut entries, "broadcaster_user_login", broadcaster_login_json);
        put(&mut entries, "broadcaster_user_name", broadcaster_name_json);
        put(&mut entries, "moderator_user_id", moderator_id_json);
        put(&mut entries, "moderator_user_login", moderator_login_json);
        put(&mut entries, "moderator_user_name", moderator_name_json);
        put(&mut entries, "action", action_json);
        put(&mut entries, "from_automod", from_automod_json);
        put(&mut entries, "terms", terms_json);
        proof {
            assert(member(entries@, "broadcaster_user_id"@) == Some(broadcaster_id_json));
            assert(member(entries@, "broadcaster_user_login"@) == Some(broadcaster_login_json));
            assert(member(entries@, "broadcaster_user_name"@) == Some(broadcaster_name_json));
            assert(member(entries@, "moderator_user_id"@) == Some(moderator_id_json));
            assert(member(entries@, "moderator_user_login"@) == Some(moderator_login_json));
            assert(member(entries@, "moderator_user_name"@) == Some(moderator_name_json));
            assert(member(entries@, "action"@) == Some(action_json));
            assert(member(entries@, "from_automod"@) == Some(from_automod_json));
            assert(member(entries@, "terms"@) == Some(terms_json));
        }
        Json::Object(entries)
    }
}

/// Told apart by the member `reason`.
#[derive(Debug)]
pub enum HoldReason {
    Automod { automod: ReasonAutomod },
    BlockedTerm { blocked_term: ReasonBlockedTerm },
}

impl FromJson for HoldReason {
    open spec fn parses(j: Json) -> bool {
        match j.spec_text("reason"@) {
            Some(tag) => if tag@ == "automod"@ {
                member_parses::<ReasonAutomod>(j, "automod"@)
            } else if tag@ == "blocked_term"@ {
                member_parses::<ReasonBlockedTerm>(j, "blocked_term"@)
            } else {
                false
            },
            None => false,
        }
    }

    open spec fn parsed_as(j: Json, v: HoldReason) -> bool {
        match j.spec_text("reason"@) {
            Some(tag) => if tag@ == "automod"@ {
                v matches HoldReason::Automod { automod }
                    && member_parsed_as(j, "automod"@, automod)
            } else if tag@ == "blocked_term"@ {
                v matches HoldReason::BlockedTerm { blocked_term }
                    && member_parsed_as(j, "blocked_term"@, blocked_term)
            } else {
                false
            },
            None => false,
        }
    }

    fn from_json(j: &Json) -> (r: Option<HoldReason>) {
        match j.text("reason") {
            Some(tag) => if same_text(tag.as_str(), "automod") {
                let automod = read_member::<ReasonAutomod>(j, "automod");
                if automod.is_some() {
                    Some(HoldReason::Automod { automod: automod.unwrap() })
                } else {
                    None
                }
            } else if same_text(tag.as_str(), "blocked_term") {
                let blocked_term = read_member::<ReasonBlockedTerm>(j, "blocked_term");
                if blocked_term.is_some() {
                    Some(HoldReason::BlockedTerm { blocked_term: blocked_term.unwrap() })
                } else {
                    None
                }
            } else {
                None
            },
            None => None,
        }
    }
}

impl HoldReason {
    /// Whether the type reads the member of this name.
    pub open spec fn own_key(k: Seq<char>) -> bool {
        k == "reason"@
            || k == "automod"@
            || k == "blocked_term"@
    }

    /// What is read depends on the members of these names alone.
    pub proof fn lemma_own_keys(a: Json, b: Json, v: HoldReason)
        requires
            forall|k: Seq<char>| Self::own_key(k) ==> a.spec_get(k) == b.spec_get(k),
        ensures
            Self::parses(a) == Self::parses(b),
            Self::parsed_as(a, v) == Self::parsed_as(b, v),
    {
        assert(Self::own_key("reason"@));
        assert(Self::own_key("automod"@));
        assert(Self::own_key("blocked_term"@));
    }

    /// Writes the members. What is written is read back as the same value,
    /// and holds no member of another name.
    pub fn write(&self) -> (r: Vec<(String, Json)>)
        ensures
            Self::parses(Json::Object(r)),
            Self::parsed_as(Json::Object(r), *self),
            forall|k: Seq<char>| !Self::own_key(k) ==> member(r@, k) is None,
    {
        let mut entries: Vec<(String, Json)> = Vec::new();
        proof {
            reveal_strlit("automod");
            reveal_strlit("blocked_term");
            assert("automod"@.len() == 7);
            assert("blocked_term"@.len() == 12);
            reveal_strlit("reason");
            reveal_strlit("automod");
            reveal_strlit("blocked_term");
            assert("reason"@.len() == 6);
            assert("automod"@.len() == 7);
            assert("blocked_term"@.len() == 12);
        }
        match self {
            HoldReason::Automod { automod } => {
                let tag = Json::Text("automod".to_owned());
                let automod_json = automod.to_json();
                put(&mut entries, "reason", tag);
                put(&mut entries, "automod", automod_json);
                proof {
                    assert(member(entries@, "reason"@) == Some(tag));
                    assert(member(entries@, "automod"@) == Some(automod_json));
                }
            },
            HoldReason::BlockedTerm { blocked_term } => {
                let tag = Json::Text("blocked_term".to_owned());
                let blocked_term_json = blocked_term.to_json();
                put(&mut entries, "reason", tag);
                put(&mut entries, "blocked_term", blocked_term_json);
                proof {
                    assert(member(entries@, "reason"@) == Some(tag));
                    assert(member(entries@, "blocked_term"@) == Some(blocked_term_json));
                }
            },
        }
        entries
    }
}

impl ToJson for HoldReason {
    fn to_json(&self) -> (r: Json) {
        Json::Object(self.write())
    }
}

#[derive(Debug)]
pub struct ReasonAutomod {
    pub category: String,
    pub level: u32,
    pub boundaries: Vec<Boundary>,
}

impl FromJson for ReasonAutomod {
    open spec fn parses(j: Json) -> bool {
        &&& j.spec_text("category"@) is Some
        &&& j.spec_count32("level"@) is Some
        &&& list_parses::<Boundary>(j, "boundaries"@)
    }

    open spec fn parsed_as(j: Json, v: ReasonAutomod) -> bool {
        &&& j.spec_text("category"@) == Some(v.category)
        &&& j.spec_count32("level"@) == Some(v.level)
        &&& list_parsed_as(j, "boundaries"@, v.boundaries@)
    }

    fn from_json(j: &Json) -> (r: Option<ReasonAutomod>) {
        let category = j.text("category");
        let level = j.count32("level");
        let boundaries = read_list::<Boundary>(j, "boundaries");
        if category.is_some() && level.is_some() && boundaries.is_some() {
            Some(
                ReasonAutomod {
                    category: category.unwrap(),
                    level: level.unwrap(),
                    boundaries: boundaries.unwrap(),
                },
            )
        } else {
            None
        }
    }
}

impl ToJson for ReasonAutomod {
    fn to_json(&self) -> (r: Json) {
        let mut entries: Vec<(String, Json)> = Vec::new();
        proof {
            reveal_strlit("category");
            reveal_strlit("level");
            reveal_strlit("boundaries");
            assert("category"@.len() == 8);
            assert("level"@.len() == 5);
            assert("boundaries"@.len() == 10);
        }
        let category_json = Json::Text(self.category.clone());
        let level_json = count_json(self.level as u64);
        let boundaries_json = Json::List(write_all(&self.boundaries));
        put(&mut entries, "category", category_json);
        put(&mut entries, "level", level_json);
        put(&mut entries, "boundaries", boundaries_json);
        proof {
            assert(member(entries@, "category"@) == Some(category_json));
            assert(member(entries@, "level"@) == Some(level_json));
            assert(member(entries@, "boundaries"@) == Some(boundaries_json));
        }
        Json::Object(entries)
    }
}

#[derive(Debug)]
pub struct ReasonBlockedTerm {
    pub terms_found: Vec<Term>,
}

impl FromJson for ReasonBlockedTerm {
    open spec fn parses(j: Json) -> bool {
        &&& list_parses::<Term>(j, "terms_found"@)
    }

    open spec fn parsed_as(j: Json, v: ReasonBlockedTerm) -> bool {
        &&& list_parsed_as(j, "terms_found"@, v.terms_found@)
    }

    fn from_json(j: &Json) -> (r: Option<ReasonBlockedTerm>) {
        let terms_found = read_list::<Term>(j, "terms_found");
        if terms_found.is_some() {
            Some(ReasonBlockedTerm { terms_found: terms_found.unwrap() })
        } else {
            None
        }
    }
}

impl ToJson for ReasonBlockedTerm {
    fn to_json(&self) -> (r: Json) {
        let mut entries: Vec<(String, Json)> = Vec::new();
        proof {
            reveal_strlit("terms_found");
            assert("terms_found"@.len() == 11);
        }
        let terms_found_json = Json::List(write_all(&self.terms_found));
        put(&mut entries, "terms_found", terms_found_json);
        proof {
            assert(member(entries@, "terms_found"@) == Some(terms_found_json));
        }
        Json::Object(entries)
    }
}

#[derive(Debug)]
pub struct Term {
    pub term_id: String,
    pub boundary: Boundary,
    pub owner_broadcaster: User,
}

impl FromJson for Term {
    open spec fn parses(j: Json) -> bool {
        &&& j.spec_text("term_id"@) is Some
        &&& member_parses::<Boundary>(j, "boundary"@)
        &&& User::parses(
            j,
            "owner_broadcaster_user_id"@,
            "owner_broadcaster_user_login"@,
            "owner_broadcaster_user_name"@,
        )
    }

    open spec fn parsed_as(j: Json, v: Term) -> bool {
        &&& j.spec_text("term_id"@) == Some(v.term_id)
        &&& member_parsed_as(j, "boundary"@, v.boundary)
        &&& User::parsed_as(
            j,
            "owner_broadcaster_user_id"@,
            "owner_broadcaster_user_login"@,
            "owner_broadcaster_user_name"@,
            v.owner_broadcaster,
        )
    }

    fn from_json(j: &Json) -> (r: Option<Term>) {
        let term_id = j.text("term_id");
        let boundary = read_member::<Boundary>(j, "boundary");
        let owner_broadcaster = User::from_json(
            j,
            "owner_broadcaster_user_id",
            "owner_broadcaster_user_login",
            "owner_broadcaster_user_name",
        );
        if term_id.is_some() && boundary.is_some() && owner_broadcaster.is_some() {
            Some(
                Term {
                    term_id: term_id.unwrap(),
                    boundary: boundary.unwrap(),
                    owner_broadcaster: owner_broadcaster.unwrap(),
                },
            )
        } else {
            None
        }
    }
}

impl ToJson for Term {
    fn to_json(&self) -> (r: Json) {
        let mut entries: Vec<(String, Json)> = Vec::new();
        proof {
            reveal_strlit("term_id");
            reveal_strlit("boundary");
            reveal_strlit("owner_broadcaster_user_id");
            reveal_strlit("owner_broadcaster_user_login");
            reveal_strlit("owner_broadcaster_user_name");
            assert("term_id"@.len() == 7);
            assert("boundary"@.len() == 8);
            assert("owner_broadcaster_user_id"@.len() == 25);
            assert("owner_broadcaster_user_login"@.len() == 28);
            assert("owner_broadcaster_user_name"@.len() == 27);
        }
        let term_id_json = Json::Text(self.term_id.clone());
        let boundary_json = self.boundary.to_json();
        let owner_broadcaster_id_json = Json::Text(self.owner_broadcaster.user_id.clone());
        let owner_broadcaster_login_json = Json::Text(self.owner_broadcaster.user_login.clone());
        let owner_broadcaster_name_json = Json::Text(self.owner_broadcaster.user_name.clone());
        put(&mut entries, "term_id", term_id_json);
        put(&mut entries, "boundary", boundary_json);
        put(&mut entries, "owner_broadcaster_user_id", owner_broadcaster_id_json);
        put(&mut entries, "owner_broadcaster_user_login", owner_broadcaster_login_json);
        put(&mut entries, "owner_broadcaster_user_name", owner_broadcaster_name_json);
        proof {
            assert(member(entries@, "term_id"@) == Some(term_id_json));
            assert(member(entries@, "boundary"@) == Some(boundary_json));
            assert(member(entries@, "owner_broadcaster_user_id"@)
                == Some(owner_broadcaster_id_json));
            assert(member(entries@, "owner_broadcaster_user_login"@)
                == Some(owner_broadcaster_login_json));
            assert(member(entries@, "owner_broadcaster_user_name"@)
                == Some(owner_broadcaster_name_json));
        }
        Json::Object(entries)
    }
}

#[derive(Debug)]
pub struct Boundary {
    pub start_pos: u32,
    pub end_pos: u32,
}

impl FromJson for Boundary {
    open spec fn parses(j: Json) -> bool {
        &&& j.spec_count32("start_pos"@) is Some
        &&& j.spec_count32("end_pos"@) is Some
    }

    open spec fn parsed_as(j: Json, v: Boundary) -> bool {
        &&& j.spec_count32("start_pos"@) == Some(v.start_pos)
        &&& j.spec_count32("end_pos"@) == Some(v.end_pos)
    }

    fn from_json(j: &Json) -> (r: Option<Boundary>) {
        let start_pos = j.count32("start_pos");
        let end_pos = j.count32("end_pos");
        if start_pos.is_some() && end_pos.is_some() {
            Some(Boundary { start_pos: start_pos.unwrap(), end_pos: end_pos.unwrap() })
        } else {
            None
        }
    }
}

impl ToJson for Boundary {
    fn to_json(&self) -> (r: Json) {
        let mut entries: Vec<(String, Json)> = Vec::new();
        proof {
            reveal_strlit("start_pos");
            reveal_strlit("end_pos");
            assert("start_pos"@.len() == 9);
            assert("end_pos"@.len() == 7);
        }
        let start_pos_json = count_json(self.start_pos as u64);
        let end_pos_json = count_json(self.end_pos as u64);
        put(&mut entries, "start_pos", start_pos_json);
        put(&mut entries, "end_pos", end_pos_json);
        proof {
            assert(member(entries@, "start_pos"@) == Some(start_pos_json));
            assert(member(entries@, "end_pos"@) == Some(end_pos_json));
        }
        Json::Object(entries)
    }
}

#[derive(Clone, Copy, Debug, PartialEq, Eq, Structural)]
pub enum UpdateStatus {
    Approved,
    Denied,
    Expired,
    Invalid,
}

impl UpdateStatus {
    /// The value that a name stands for.
    pub open spec fn spec_named(name: Seq<char>) -> Option<UpdateStatus> {
        if name == "approved"@ {
            Some(UpdateStatus::Approved)
        } else if name == "denied"@ {
            Some(UpdateStatus::Denied)
        } else if name == "expired"@ {
            Some(UpdateStatus::Expired)
        } else if name == "invalid"@ {
            Some(UpdateStatus::Invalid)
        } else {
            None
        }
    }

    /// The value that a name stands for.
    pub fn named(name: &str) -> (r: Option<UpdateStatus>)
        ensures
            r == Self::spec_named(name@),
    {
        if same_text(name, "approved") {
            Some(UpdateStatus::Approved)
        } else if same_text(name, "denied") {
            Some(UpdateStatus::Denied)
        } else if same_text(name, "expired") {
            Some(UpdateStatus::Expired)
        } else if same_text(name, "invalid") {
            Some(UpdateStatus::Invalid)
        } else {
            None
        }
    }
}

impl FromJson for UpdateStatus {
    open spec fn parses(j: Json) -> bool {
        j matches Json::Text(s) && Self::spec_named(s@) is Some
    }

    open spec fn parsed_as(j: Json, v: UpdateStatus) -> bool {
        j matches Json::Text(s) && Self::spec_named(s@) == Some(v)
    }

    fn from_json(j: &Json) -> (r: Option<UpdateStatus>) {
        match j {
            Json::Text(s) => Self::named(s.as_str()),
            _ => None,
        }
    }
}

impl UpdateStatus {
    /// The name that stands for the value.
    pub fn name(&self) -> (r: &'static str)
        ensures
            Self::spec_named(r@) == Some(*self),
    {
        proof {
            reveal_strlit("approved");
            reveal_strlit("denied");
            reveal_strlit("expired");
            reveal_strlit("invalid");
            assert("approved"@.len() == 8);
            assert("denied"@.len() == 6);
            assert("expired"@.len() == 7);
            assert("invalid"@.len() == 7);
            assert("expired"@[0] != "invalid"@[0]);
        }
        match self {
            UpdateStatus::Approved => "approved",
            UpdateStatus::Denied => "denied",
            UpdateStatus::Expired => "expired",
            UpdateStatus::Invalid => "invalid",
        }
    }
}

impl ToJson for UpdateStatus {
    fn to_json(&self) -> (r: Json) {
        Json::Text(self.name().to_owned())
    }
}

#[derive(Clone, Copy, Debug, PartialEq, Eq, Structural)]
pub enum TermsAction {
    AddPermitted,
    RemovePermitted,
    AddBlocked,
    RemoveBlocked,
}

impl TermsAction {
    /// The value that a name stands for.
    pub open spec fn spec_named(name: Seq<char>) -> Option<TermsAction> {
        if name == "add_permitted"@ {
            Some(TermsAction::AddPermitted)
        } else if name == "remove_permitted"@ {
            Some(TermsAction::RemovePermitted)
        } else if name == "add_blocked"@ {
            Some(TermsAction::AddBlocked)
        } else if name == "remove_blocked"@ {
            Some(TermsAction::RemoveBlocked)
        } else {
            None
        }
    }

    /// The value that a name stands for.
    pub fn named(name: &str) -> (r: Option<TermsAction>)
        ensures
            r == Self::spec_named(name@),
    {
        if same_text(name, "add_permitted") {
            Some(TermsAction::AddPermitted)
        } else if same_text(name, "remove_permitted") {
            Some(TermsAction::RemovePermitted)
        } else if same_text(name, "add_blocked") {
            Some(TermsAction::AddBlocked)
        } else if same_text(name, "remove_blocked") {
            Some(TermsAction::RemoveBlocked)
        } else {
            None
        }
    }
}

impl FromJson for TermsAction {
    open spec fn parses(j: Json) -> bool {
        j matches Json::Text(s) && Self::spec_named(s@) is Some
    }

    open spec fn parsed_as(j: Json, v: TermsAction) -> bool {
        j matches Json::Text(s) && Self::spec_named(s@) == Some(v)
    }

    fn from_json(j: &Json) -> (r: Option<TermsAction>) {
        match j {
            Json::Text(s) => Self::named(s.as_str()),
            _ => None,
        }
    }
}

impl TermsAction {
    /// The name that stands for the value.
    pub fn name(&self) -> (r: &'static str)
        ensures
            Self::spec_named(r@) == Some(*self),
    {
        proof {
            reveal_strlit("add_permitted");
            reveal_strlit("remove_permitted");
            reveal_strlit("add_blocked");
            reveal_strlit("remove_blocked");
            assert("add_permitted"@.len() == 13);
            assert("remove_permitted"@.len() == 16);
            assert("add_blocked"@.len() == 11);
            assert("remove_blocked"@.len() == 14);
        }
        match self {
            TermsAction::AddPermitted => "add_permitted",
            TermsAction::RemovePermitted => "remove_permitted",
            TermsAction::AddBlocked => "add_blocked",
            TermsAction::RemoveBlocked => "remove_blocked",
        }
    }
}

impl ToJson for TermsAction {
    fn to_json(&self) -> (r: Json) {
        Json::Text(self.name().to_owned())
    }
}

} // verus!
