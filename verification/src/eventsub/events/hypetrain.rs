//! Events about hype trains.

use vstd::prelude::*;
use crate::json::Json;
use crate::json::FromJson;
use crate::json::ToJson;
use crate::json::put;
use crate::json::member;
use crate::json::write_all;
use crate::json::count_json;
use crate::json::read_member;
use crate::json::read_list;
use crate::json::member_parses;
use crate::json::member_parsed_as;
use crate::json::list_parses;
use crate::json::list_parsed_as;
use crate::json::same_text;
use crate::eventsub::events::User;

verus! {

/// An event of the category `channel.hype_train.begin`.
#[derive(Debug)]
pub struct HypeTrainBegin {
    pub id: String,
    pub broadcaster: User,
    pub total: u64,
    pub progress: u64,
    pub goal: u64,
    pub top_contributions: Vec<Contribution>,
    pub last_contribution: Contribution,
    pub level: u64,
    pub started_at: String,
    pub expires_at: String,
    pub is_golden_kappa_train: bool,
}

impl FromJson for HypeTrainBegin {
    open spec fn parses(j: Json) -> bool {
        &&& j.spec_text("id"@) is Some
        &&& User::parses(
            j,
            "broadcaster_user_id"@,
            "broadcaster_user_login"@,
            "broadcaster_user_name"@,
        )
        &&& j.spec_count("total"@) is Some
        &&& j.spec_count("progress"@) is Some
        &&& j.spec_count("goal"@) is Some
        &&& list_parses::<Contribution>(j, "top_contributions"@)
        &&& member_parses::<Contribution>(j, "last_contribution"@)
        &&& j.spec_count("level"@) is Some
        &&& j.spec_text("started_at"@) is Some
        &&& j.spec_text("expires_at"@) is Some
        &&& j.spec_flag("is_golden_kappa_train"@) is Some
    }

    open spec fn parsed_as(j: Json, v: HypeTrainBegin) -> bool {
        &&& j.spec_text("id"@) == Some(v.id)
        &&& User::parsed_as(
            j,
            "broadcaster_user_id"@,
            "broadcaster_user_login"@,
            "broadcaster_user_name"@,
            v.broadcaster,
        )
        &&& j.spec_count("total"@) == Some(v.total)
        &&& j.spec_count("progress"@) == Some(v.progress)
        &&& j.spec_count("goal"@) == Some(v.goal)
        &&& list_parsed_as(j, "top_contributions"@, v.top_contributions@)
        &&& member_parsed_as(j, "last_contribution"@, v.last_contribution)
        &&& j.spec_count("level"@) == Some(v.level)
        &&& j.spec_text("started_at"@) == Some(v.started_at)
        &&& j.spec_text("expires_at"@) == Some(v.expires_at)
        &&& j.spec_flag("is_golden_kappa_train"@) == Some(v.is_golden_kappa_train)
    }

    fn from_json(j: &Json) -> (r: Option<HypeTrainBegin>) {
        let id = j.text("id");
        let broadcaster = User::from_json(
            j,
            "broadcaster_user_id",
            "broadcaster_user_login",
            "broadcaster_user_name",
        );
        let total = j.count("total");
        let progress = j.count("progress");
        let goal = j.count("goal");
        let top_contributions = read_list::<Contribution>(j, "top_contributions");
        let last_contribution = read_member::<Contribution>(j, "last_contribution");
        let level = j.count("level");
        let started_at = j.text("started_at");
        let expires_at = j.text("expires_at");
        let is_golden_kappa_train = j.flag("is_golden_kappa_train");
        if id.is_some() && broadcaster.is_some() && total.is_some() && progress.is_some()
            && goal.is_some() && top_contributions.is_some() && last_contribution.is_some()
            && level.is_some() && started_at.is_some() && expires_at.is_some()
            && is_golden_kappa_train.is_some() {
            Some(
                HypeTrainBegin {
                    id: id.unwrap(),
                    broadcaster: broadcaster.unwrap(),
                    total: total.unwrap(),
                    progress: progress.unwrap(),
                    goal: goal.unwrap(),
                    top_contributions: top_contributions.unwrap(),
                    last_contribution: last_contribution.unwrap(),
                    level: level.unwrap(),
                    started_at: started_at.unwrap(),
                    expires_at: expires_at.unwrap(),
                    is_golden_kappa_train: is_golden_kappa_train.unwrap(),
                },
            )
        } else {
            None
        }
    }
}

impl ToJson for HypeTrainBegin {
    fn to_json(&self) -> (r: Json) {
        let mut entries: Vec<(String, Json)> = Vec::new();
        proof {
            reveal_strlit("id");
            reveal_strlit("broadcaster_user_id");
            reveal_strlit("broadcaster_user_login");
            reveal_strlit("broadcaster_user_name");
            reveal_strlit("total");
            reveal_strlit("progress");
            reveal_strlit("goal");
            reveal_strlit("top_contributions");
            reveal_strlit("last_contribution");
            reveal_strlit("level");
            reveal_strlit("started_at");
            reveal_strlit("expires_at");
            reveal_strlit("is_golden_kappa_train");
            assert("id"@.len() == 2);
            assert("broadcaster_user_id"@.len() == 19);
            assert("broadcaster_user_login"@.len() == 22);
            assert("broadcaster_user_name"@.len() == 21);
            assert("total"@.len() == 5);
            assert("progress"@.len() == 8);
            assert("goal"@.len() == 4);
            assert("top_contributions"@.len() == 17);
            assert("last_contribution"@.len() == 17);
            assert("level"@.len() == 5);
            assert("started_at"@.len() == 10);
            assert("expires_at"@.len() == 10);
            assert("is_golden_kappa_train"@.len() == 21);
            assert("broadcaster_user_name"@[0] != "is_golden_kappa_train"@[0]);
            assert("total"@[0] != "level"@[0]);
            assert("top_contributions"@[0] != "last_contribution"@[0]);
            assert("started_at"@[0] != "expires_at"@[0]);
        }
        let id_json = Json::Text(self.id.clone());
        let broadcaster_id_json = Json::Text(self.broadcaster.user_id.clone());
        let broadcaster_login_json = Json::Text(self.broadcaster.user_login.clone());
        let broadcaster_name_json = Json::Text(self.broadcaster.user_name.clone());
        let total_json = count_json(self.total);
        let progress_json = count_json(self.progress);
        let goal_json = count_json(self.goal);
        let top_contributions_json = Json::List(write_all(&self.top_contributions));
        let last_contribution_json = self.last_contribution.to_json();
        let level_json = count_json(self.level);
        let started_at_json = Json::Text(self.started_at.clone());
        let expires_at_json = Json::Text(self.expires_at.clone());
        let is_golden_kappa_train_json = Json::Bool(self.is_golden_kappa_train);
        put(&mut entries, "id", id_json);
        put(&mut entries, "broadcaster_user_id", broadcaster_id_json);
        put(&mut entries, "broadcaster_user_login", broadcaster_login_json);
        put(&mut entries, "broadcaster_user_name", broadcaster_name_json);
        put(&mut entries, "total", total_json);
        put(&mut entries, "progress", progress_json);
        put(&mut entries, "goal", goal_json);
        put(&mut entries, "top_contributions", top_contributions_json);
        put(&mut entries, "last_contribution", last_contribution_json);
        put(&mut entries, "level", level_json);
        put(&mut entries, "started_at", started_at_json);
        put(&mut entries, "expires_at", expires_at_json);
        put(&mut entries, "is_golden_kappa_train", is_golden_kappa_train_json);
        proof {
            assert(member(entries@, "id"@) == Some(id_json));
            assert(member(entries@, "broadcaster_user_id"@) == Some(broadcaster_id_json));
            assert(member(entries@, "broadcaster_user_login"@) == Some(broadcaster_login_json));
            assert(member(entries@, "broadcaster_user_name"@) == Some(broadcaster_name_json));
            assert(member(entries@, "total"@) == Some(total_json));
            assert(member(entries@, "progress"@) == Some(progress_json));
            assert(member(entries@, "goal"@) == Some(goal_json));
            assert(member(entries@, "top_contributions"@) == Some(top_contributions_json));
            assert(member(entries@, "last_contribution"@) == Some(last_contribution_json));
            assert(member(entries@, "level"@) == Some(level_json));
            assert(member(entries@, "started_at"@) == Some(started_at_json));
            assert(member(entries@, "expires_at"@) == Some(expires_at_json));
            assert(member(entries@, "is_golden_kappa_train"@) == Some(is_golden_kappa_train_json));
        }
        Json::Object(entries)
    }
}

/// An event of the category `channel.hype_train.progress`.
#[derive(Debug)]
pub struct HypeTrainProgress {
    pub id: String,
    pub broadcaster: User,
    pub total: u64,
    pub progress: u64,
    pub goal: u64,
    pub top_contributions: Vec<Contribution>,
    pub last_contribution: Contribution,
    pub level: u64,
    pub started_at: String,
    pub expires_at: String,
    pub is_golden_kappa_train: bool,
}

impl FromJson for HypeTrainProgress {
    open spec fn parses(j: Json) -> bool {
        &&& j.spec_text("id"@) is Some
        &&& User::parses(
            j,
            "broadcaster_user_id"@,
            "broadcaster_user_login"@,
            "broadcaster_user_name"@,
        )
        &&& j.spec_count("total"@) is Some
        &&& j.spec_count("progress"@) is Some
        &&& j.spec_count("goal"@) is Some
        &&& list_parses::<Contribution>(j, "top_contributions"@)
        &&& member_parses::<Contribution>(j, "last_contribution"@)
        &&& j.spec_count("level"@) is Some
        &&& j.spec_text("started_at"@) is Some
        &&& j.spec_text("expires_at"@) is Some
        &&& j.spec_flag("is_golden_kappa_train"@) is Some
    }

    open spec fn parsed_as(j: Json, v: HypeTrainProgress) -> bool {
        &&& j.spec_text("id"@) == Some(v.id)
        &&& User::parsed_as(
            j,
            "broadcaster_user_id"@,
            "broadcaster_user_login"@,
            "broadcaster_user_name"@,
            v.broadcaster,
        )
        &&& j.spec_count("total"@) == Some(v.total)
        &&& j.spec_count("progress"@) == Some(v.progress)
        &&& j.spec_count("goal"@) == Some(v.goal)
        &&& list_parsed_as(j, "top_contributions"@, v.top_contributions@)
        &&& member_parsed_as(j, "last_contribution"@, v.last_contribution)
        &&& j.spec_count("level"@) == Some(v.level)
        &&& j.spec_text("started_at"@) == Some(v.started_at)
        &&& j.spec_text("expires_at"@) == Some(v.expires_at)
        &&& j.spec_flag("is_golden_kappa_train"@) == Some(v.is_golden_kappa_train)
    }

    fn from_json(j: &Json) -> (r: Option<HypeTrainProgress>) {
        let id = j.text("id");
        let broadcaster = User::from_json(
            j,
            "broadcaster_user_id",
            "broadcaster_user_login",
            "broadcaster_user_name",
        );
        let total = j.count("total");
        let progress = j.count("progress");
        let goal = j.count("goal");
        let top_contributions = read_list::<Contribution>(j, "top_contributions");
        let last_contribution = read_member::<Contribution>(j, "last_contribution");
        let level = j.count("level");
        let started_at = j.text("started_at");
        let expires_at = j.text("expires_at");
        let is_golden_kappa_train = j.flag("is_golden_kappa_train");
        if id.is_some() && broadcaster.is_some() && total.is_some() && progress.is_some()
            && goal.is_some() && top_contributions.is_some() && last_contribution.is_some()
            && level.is_some() && started_at.is_some() && expires_at.is_some()
            && is_golden_kappa_train.is_some() {
            Some(
                HypeTrainProgress {
                    id: id.unwrap(),
                    broadcaster: broadcaster.unwrap(),
                    total: total.unwrap(),
                    progress: progress.unwrap(),
                    goal: goal.unwrap(),
                    top_contributions: top_contributions.unwrap(),
                    last_contribution: last_contribution.unwrap(),
                    level: level.unwrap(),
                    started_at: started_at.unwrap(),
                    expires_at: expires_at.unwrap(),
                    is_golden_kappa_train: is_golden_kappa_train.unwrap(),
                },
            )
        } else {
            None
        }
    }
}

impl ToJson for HypeTrainProgress {
    fn to_json(&self) -> (r: Json) {
        let mut entries: Vec<(String, Json)> = Vec::new();
        proof {
            reveal_strlit("id");
            reveal_strlit("broadcaster_user_id");
            reveal_strlit("broadcaster_user_login");
            reveal_strlit("broadcaster_user_name");
            reveal_strlit("total");
            reveal_strlit("progress");
            reveal_strlit("goal");
            reveal_strlit("top_contributions");
            reveal_strlit("last_contribution");
            reveal_strlit("level");
            reveal_strlit("started_at");
            reveal_strlit("expires_at");
            reveal_strlit("is_golden_kappa_train");
            assert("id"@.len() == 2);
            assert("broadcaster_user_id"@.len() == 19);
            assert("broadcaster_user_login"@.len() == 22);
            assert("broadcaster_user_name"@.len() == 21);
            assert("total"@.len() == 5);
            assert("progress"@.len() == 8);
            assert("goal"@.len() == 4);
            assert("top_contributions"@.len() == 17);
            assert("last_contribution"@.len() == 17);
            assert("level"@.len() == 5);
            assert("started_at"@.len() == 10);
            assert("expires_at"@.len() == 10);
            assert("is_golden_kappa_train"@.len() == 21);
            assert("broadcaster_user_name"@[0] != "is_golden_kappa_train"@[0]);
            assert("total"@[0] != "level"@[0]);
            assert("top_contributions"@[0] != "last_contribution"@[0]);
            assert("started_at"@[0] != "expires_at"@[0]);
        }
        let id_json = Json::Text(self.id.clone());
        let broadcaster_id_json = Json::Text(self.broadcaster.user_id.clone());
        let broadcaster_login_json = Json::Text(self.broadcaster.user_login.clone());
        let broadcaster_name_json = Json::Text(self.broadcaster.user_name.clone());
        let total_json = count_json(self.total);
        let progress_json = count_json(self.progress);
        let goal_json = count_json(self.goal);
        let top_contributions_json = Json::List(write_all(&self.top_contributions));
        let last_contribution_json = self.last_contribution.to_json();
        let level_json = count_json(self.level);
        let started_at_json = Json::Text(self.started_at.clone());
        let expires_at_json = Json::Text(self.expires_at.clone());
        let is_golden_kappa_train_json = Json::Bool(self.is_golden_kappa_train);
        put(&mut entries, "id", id_json);
        put(&mut entries, "broadcaster_user_id", broadcaster_id_json);
        put(&mut entries, "broadcaster_user_login", broadcaster_login_json);
        put(&mut entries, "broadcaster_user_name", broadcaster_name_json);
        put(&mut entries, "total", total_json);
        put(&mut entries, "progress", progress_json);
        put(&mut entries, "goal", goal_json);
        put(&mut entries, "top_contributions", top_contributions_json);
        put(&mut entries, "last_contribution", last_contribution_json);
        put(&mut entries, "level", level_json);
        put(&mut entries, "started_at", started_at_json);
        put(&mut entries, "expires_at", expires_at_json);
        put(&mut entries, "is_golden_kappa_train", is_golden_kappa_train_json);
        proof {
            assert(member(entries@, "id"@) == Some(id_json));
            assert(member(entries@, "broadcaster_user_id"@) == Some(broadcaster_id_json));
            assert(member(entries@, "broadcaster_user_login"@) == Some(broadcaster_login_json));
            assert(member(entries@, "broadcaster_user_name"@) == Some(broadcaster_name_json));
            assert(member(entries@, "total"@) == Some(total_json));
            assert(member(entries@, "progress"@) == Some(progress_json));
            assert(member(entries@, "goal"@) == Some(goal_json));
            assert(member(entries@, "top_contributions"@) == Some(top_contributions_json));
            assert(member(entries@, "last_contribution"@) == Some(last_contribution_json));
            assert(member(entries@, "level"@) == Some(level_json));
            assert(member(entries@, "started_at"@) == Some(started_at_json));
            assert(member(entries@, "expires_at"@) == Some(expires_at_json));
            assert(member(entries@, "is_golden_kappa_train"@) == Some(is_golden_kappa_train_json));
        }
        Json::Object(entries)
    }
}

/// An event of the category `channel.hype_train.end`.
#[derive(Debug)]
pub struct HypeTrainEnd {
    pub id: String,
    pub broadcaster: User,
    pub total: u64,
    pub top_contributions: Vec<Contribution>,
    pub level: u64,
    pub started_at: String,
    pub ended_at: String,
    pub cooldown_ends_at: String,
    pub is_golden_kappa_train: bool,
}

impl FromJson for HypeTrainEnd {
    open spec fn parses(j: Json) -> bool {
        &&& j.spec_text("id"@) is Some
        &&& User::parses(
            j,
            "broadcaster_user_id"@,
            "broadcaster_user_login"@,
            "broadcaster_user_name"@,
        )
        &&& j.spec_count("total"@) is Some
        &&& list_parses::<Contribution>(j, "top_contributions"@)
        &&& j.spec_plain_count("level"@) is Some
        &&& j.spec_text("started_at"@) is Some
        &&& j.spec_text("ended_at"@) is Some
        &&& j.spec_text("cooldown_ends_at"@) is Some
        &&& j.spec_flag("is_golden_kappa_train"@) is Some
    }

    open spec fn parsed_as(j: Json, v: HypeTrainEnd) -> bool {
        &&& j.spec_text("id"@) == Some(v.id)
        &&& User::parsed_as(
            j,
            "broadcaster_user_id"@,
            "broadcaster_user_login"@,
            "broadcaster_user_name"@,
            v.broadcaster,
        )
        &&& j.spec_count("total"@) == Some(v.total)
        &&& list_parsed_as(j, "top_contributions"@, v.top_contributions@)
        &&& j.spec_plain_count("level"@) == Some(v.level)
        &&& j.spec_text("started_at"@) == Some(v.started_at)
        &&& j.spec_text("ended_at"@) == Some(v.ended_at)
        &&& j.spec_text("cooldown_ends_at"@) == Some(v.cooldown_ends_at)
        &&& j.spec_flag("is_golden_kappa_train"@) == Some(v.is_golden_kappa_train)
    }

    fn from_json(j: &Json) -> (r: Option<HypeTrainEnd>) {
        let id = j.text("id");
        let broadcaster = User::from_json(
            j,
            "broadcaster_user_id",
            "broadcaster_user_login",
            "broadcaster_user_name",
        );
        let total = j.count("total");
        let top_contributions = read_list::<Contribution>(j, "top_contributions");
        let level = j.plain_count("level");
        let started_at = j.text("started_at");
        let ended_at = j.text("ended_at");
        let cooldown_ends_at = j.text("cooldown_ends_at");
        let is_golden_kappa_train = j.flag("is_golden_kappa_train");
        if id.is_some() && broadcaster.is_some() && total.is_some() && top_contributions.is_some()
            && level.is_some() && started_at.is_some() && ended_at.is_some()
            && cooldown_ends_at.is_some() && is_golden_kappa_train.is_some() {
            Some(
                HypeTrainEnd {
                    id: id.unwrap(),
                    broadcaster: broadcaster.unwrap(),
                    total: total.unwrap(),
                    top_contributions: top_contributions.unwrap(),
                    level: level.unwrap(),
                    started_at: started_at.unwrap(),
                    ended_at: ended_at.unwrap(),
                    cooldown_ends_at: cooldown_ends_at.unwrap(),
                    is_golden_kappa_train: is_golden_kappa_train.unwrap(),
                },
            )
        } else {
            None
        }
    }
}

impl ToJson for HypeTrainEnd {
    fn to_json(&self) -> (r: Json) {
        let mut entries: Vec<(String, Json)> = Vec::new();
        proof {
            reveal_strlit("id");
            reveal_strlit("broadcaster_user_id");
            reveal_strlit("broadcaster_user_login");
            reveal_strlit("broadcaster_user_name");
            reveal_strlit("total");
            reveal_strlit("top_contributions");
            reveal_strlit("level");
            reveal_strlit("started_at");
            reveal_strlit("ended_at");
            reveal_strlit("cooldown_ends_at");
            reveal_strlit("is_golden_kappa_train");
            assert("id"@.len() == 2);
            assert("broadcaster_user_id"@.len() == 19);
            assert("broadcaster_user_login"@.len() == 22);
            assert("broadcaster_user_name"@.len() == 21);
            assert("total"@.len() == 5);
            assert("top_contributions"@.len() == 17);
            assert("level"@.len() == 5);
            assert("started_at"@.len() == 10);
            assert("ended_at"@.len() == 8);
            assert("cooldown_ends_at"@.len() == 16);
            assert("is_golden_kappa_train"@.len() == 21);
            assert("broadcaster_user_name"@[0] != "is_golden_kappa_train"@[0]);
            assert("total"@[0] != "level"@[0]);
        }
        let id_json = Json::Text(self.id.clone());
        let broadcaster_id_json = Json::Text(self.broadcaster.user_id.clone());
        let broadcaster_login_json = Json::Text(self.broadcaster.user_login.clone());
        let broadcaster_name_json = Json::Text(self.broadcaster.user_name.clone());
        let total_json = count_json(self.total);
        let top_contributions_json = Json::List(write_all(&self.top_contributions));
        let level_json = count_json(self.level);
        let started_at_json = Json::Text(self.started_at.clone());
        let ended_at_json = Json::Text(self.ended_at.clone());
        let cooldown_ends_at_json = Json::Text(self.cooldown_ends_at.clone());
        let is_golden_kappa_train_json = Json::Bool(self.is_golden_kappa_train);
        put(&mut entries, "id", id_json);
        put(&mut entries, "broadcaster_user_id", broadcaster_id_json);
        put(&mut entries, "broadcaster_user_login", broadcaster_login_json);
        put(&mut entries, "broadcaster_user_name", broadcaster_name_json);
        put(&mut entries, "total", total_json);
        put(&mut entries, "top_contributions", top_contributions_json);
        put(&mut entries, "level", level_json);
        put(&mut entries, "started_at", started_at_json);
        put(&mut entries, "ended_at", ended_at_json);
        put(&mut entries, "cooldown_ends_at", cooldown_ends_at_json);
        put(&mut entries, "is_golden_kappa_train", is_golden_kappa_train_json);
        proof {
            assert(member(entries@, "id"@) == Some(id_json));
            assert(member(entries@, "broadcaster_user_id"@) == Some(broadcaster_id_json));
            assert(member(entries@, "broadcaster_user_login"@) == Some(broadcaster_login_json));
            assert(member(entries@, "broadcaster_user_name"@) == Some(broadcaster_name_json));
            assert(member(entries@, "total"@) == Some(total_json));
            assert(member(entries@, "top_contributions"@) == Some(top_contributions_json));
            assert(member(entries@, "level"@) == Some(level_json));
            assert(member(entries@, "started_at"@) == Some(started_at_json));
            assert(member(entries@, "ended_at"@) == Some(ended_at_json));
            assert(member(entries@, "cooldown_ends_at"@) == Some(cooldown_ends_at_json));
            assert(member(entries@, "is_golden_kappa_train"@) == Some(is_golden_kappa_train_json));
        }
        Json::Object(entries)
    }
}

#[derive(Debug)]
pub struct Contribution {
    pub user: User,
    pub contribution_type: ContributionType,
    pub total: u64,
}

impl FromJson for Contribution {
    open spec fn parses(j: Json) -> bool {
        &&& User::parses(j, "user_id"@, "user_login"@, "user_name"@)
        &&& member_parses::<ContributionType>(j, "type"@)
        &&& j.spec_count("total"@) is Some
    }

    open spec fn parsed_as(j: Json, v: Contribution) -> bool {
        &&& User::parsed_as(j, "user_id"@, "user_login"@, "user_name"@, v.user)
        &&& member_parsed_as(j, "type"@, v.contribution_type)
        &&& j.spec_count("total"@) == Some(v.total)
    }

    fn from_json(j: &Json) -> (r: Option<Contribution>) {
        let user = User::from_json(j, "user_id", "user_login", "user_name");
        let contribution_type = read_member::<ContributionType>(j, "type");
        let total = j.count("total");
        if user.is_some() && contribution_type.is_some() && total.is_some() {
            Some(
                Contribution {
                    user: user.unwrap(),
                    contribution_type: contribution_type.unwrap(),
                    total: total.unwrap(),
                },
            )
        } else {
            None
        }
    }
}

impl ToJson for Contribution {
    fn to_json(&self) -> (r: Json) {
        let mut entries: Vec<(String, Json)> = Vec::new();
        proof {
            reveal_strlit("user_id");
            reveal_strlit("user_login");
            reveal_strlit("user_name");
            reveal_strlit("type");
            reveal_strlit("total");
            assert("user_id"@.len() == 7);
            assert("user_login"@.len() == 10);
            assert("user_name"@.len() == 9);
            assert("type"@.len() == 4);
            assert("total"@.len() == 5);
        }
        let user_id_json = Json::Text(self.user.user_id.clone());
        let user_login_json = Json::Text(self.user.user_login.clone());
        let user_name_json = Json::Text(self.user.user_name.clone());
        let contribution_type_json = self.contribution_type.to_json();
        let total_json = count_json(self.total);
        put(&mut entries, "user_id", user_id_json);
        put(&mut entries, "user_login", user_login_json);
        put(&mut entries, "user_name", user_name_json);
        put(&mut entries, "type", contribution_type_json);
        put(&mut entries, "total", total_json);
        proof {
            assert(member(entries@, "user_id"@) == Some(user_id_json));
            assert(member(entries@, "user_login"@) == Some(user_login_json));
            assert(member(entries@, "user_name"@) == Some(user_name_json));
            assert(member(entries@, "type"@) == Some(contribution_type_json));
            assert(member(entries@, "total"@) == Some(total_json));
        }
        Json::Object(entries)
    }
}

#[derive(Clone, Copy, Debug, PartialEq, Eq, Structural)]
pub enum ContributionType {
    Bits,
    Subscription,
    Other,
}

impl ContributionType {
    /// The value that a name stands for.
    pub open spec fn spec_named(name: Seq<char>) -> Option<ContributionType> {
        if name == "bits"@ {
            Some(ContributionType::Bits)
        } else if name == "subscription"@ {
            Some(ContributionType::Subscription)
        } else if name == "other"@ {
            Some(ContributionType::Other)
        } else {
            None
        }
    }

    /// The value that a name stands for.
    pub fn named(name: &str) -> (r: Option<ContributionType>)
        ensures
            r == Self::spec_named(name@),
    {
        if same_text(name, "bits") {
            Some(ContributionType::Bits)
        } else if same_text(name, "subscription") {
            Some(ContributionType::Subscription)
        } else if same_text(name, "other") {
            Some(ContributionType::Other)
        } else {
            None
        }
    }
}

impl FromJson for ContributionType {
    open spec fn parses(j: Json) -> bool {
        j matches Json::Text(s) && Self::spec_named(s@) is Some
    }

    open spec fn parsed_as(j: Json, v: ContributionType) -> bool {
        j matches Json::Text(s) && Self::spec_named(s@) == Some(v)
    }

    fn from_json(j: &Json) -> (r: Option<ContributionType>) {
        match j {
            Json::Text(s) => Self::named(s.as_str()),
            _ => None,
        }
    }
}

impl ContributionType {
    /// The name that stands for the value.
    pub fn name(&self) -> (r: &'static str)
        ensures
            Self::spec_named(r@) == Some(*self),
    {
        proof {
            reveal_strlit("bits");
            reveal_strlit("subscription");
            reveal_strlit("other");
            assert("bits"@.len() == 4);
            assert("subscription"@.len() == 12);
            assert("other"@.len() == 5);
        }
        match self {
            ContributionType::Bits => "bits",
            ContributionType::Subscription => "subscription",
            ContributionType::Other => "other",
        }
    }
}

impl ToJson for ContributionType {
    fn to_json(&self) -> (r: Json) {
        Json::Text(self.name().to_owned())
    }
}

} // verus!
