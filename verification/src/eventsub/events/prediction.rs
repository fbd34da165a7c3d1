//! Events about predictions.

use vstd::prelude::*;
use crate::json::Json;
use crate::json::FromJson;
use crate::json::ToJson;
use crate::json::put;
use crate::json::member;
use crate::json::write_all;
use crate::json::count_json;
use crate::json::optional_count_json;
use crate::json::read_member;
use crate::json::read_list;
use crate::json::member_parses;
use crate::json::member_parsed_as;
use crate::json::list_parses;
use crate::json::list_parsed_as;
use crate::json::same_text;
use crate::eventsub::events::User;

verus! {

/// An event of the category `channel.prediction.begin`.
#[derive(Debug)]
pub struct PredictionBegin {
    pub id: String,
    pub broadcaster: User,
    pub title: String,
    pub outcomes: Vec<OutcomeInfo>,
    pub started_at: String,
    pub locks_at: String,
}

impl FromJson for PredictionBegin {
    open spec fn parses(j: Json) -> bool {
        &&& j.spec_text("id"@) is Some
        &&& User::parses(
            j,
            "broadcaster_user_id"@,
            "broadcaster_user_login"@,
            "broadcaster_user_name"@,
        )
        &&& j.spec_text("title"@) is Some
        &&& list_parses::<OutcomeInfo>(j, "outcomes"@)
        &&& j.spec_text("started_at"@) is Some
        &&& j.spec_text("locks_at"@) is Some
    }

    open spec fn parsed_as(j: Json, v: PredictionBegin) -> bool {
        &&& j.spec_text("id"@) == Some(v.id)
        &&& User::parsed_as(
            j,
            "broadcaster_user_id"@,
            "broadcaster_user_login"@,
            "broadcaster_user_name"@,
            v.broadcaster,
        )
        &&& j.spec_text("title"@) == Some(v.title)
        &&& list_parsed_as(j, "outcomes"@, v.outcomes@)
        &&& j.spec_text("started_at"@) == Some(v.started_at)
        &&& j.spec_text("locks_at"@) == Some(v.locks_at)
    }

    fn from_json(j: &Json) -> (r: Option<PredictionBegin>) {
        let id = j.text("id");
        let broadcaster = User::from_json(
            j,
            "broadcaster_user_id",
            "broadcaster_user_login",
            "broadcaster_user_name",
        );
        let title = j.text("title");
        let outcomes = read_list::<OutcomeInfo>(j, "outcomes");
        let started_at = j.text("started_at");
        let locks_at = j.text("locks_at");
        if id.is_some() && broadcaster.is_some() && title.is_some() && outcomes.is_some()
            && started_at.is_some() && locks_at.is_some() {
            Some(
                PredictionBegin {
                    id: id.unwrap(),
                    broadcaster: broadcaster.unwrap(),
                    title: title.unwrap(),
                    outcomes: outcomes.unwrap(),
                    started_at: started_at.unwrap(),
                    locks_at: locks_at.unwrap(),
                },
            )
        } else {
            None
        }
    }
}

impl ToJson for PredictionBegin {
    fn to_json(&self) -> (r: Json) {
        let mut entries: Vec<(String, Json)> = Vec::new();
        proof {
            reveal_strlit("id");
            reveal_strlit("broadcaster_user_id");
            reveal_strlit("broadcaster_user_login");
            reveal_strlit("broadcaster_user_name");
            reveal_strlit("title");
            reveal_strlit("outcomes");
            reveal_strlit("started_at");
            reveal_strlit("locks_at");
            assert("id"@.len() == 2);
            assert("broadcaster_user_id"@.len() == 19);
            assert("broadcaster_user_login"@.len() == 22);
            assert("broadcaster_user_name"@.len() == 21);
            assert("title"@.len() == 5);
            assert("outcomes"@.len() == 8);
            assert("started_at"@.len() == 10);
            assert("locks_at"@.len() == 8);
            assert("outcomes"@[0] != "locks_at"@[0]);
        }
        let id_json = Json::Text(self.id.clone());
        let broadcaster_id_json = Json::Text(self.broadcaster.user_id.clone());
        let broadcaster_login_json = Json::Text(self.broadcaster.user_login.clone());
        let broadcaster_name_json = Json::Text(self.broadcaster.user_name.clone());
        let title_json = Json::Text(self.title.clone());
        let outcomes_json = Json::List(write_all(&self.outcomes));
        let started_at_json = Json::Text(self.started_at.clone());
        let locks_at_json = Json::Text(self.locks_at.clone());
        put(&mut entries, "id", id_json);
        put(&mut entries, "broadcaster_user_id", broadcaster_id_json);
        put(&mut entries, "broadcaster_user_login", broadcaster_login_json);
        put(&mut entries, "broadcaster_user_name", broadcaster_name_json);
        put(&mut entries, "title", title_json);
        put(&mut entries, "outcomes", outcomes_json);
        put(&mut entries, "started_at", started_at_json);
        put(&mut entries, "locks_at", locks_at_json);
        proof {
            assert(member(entries@, "id"@) == Some(id_json));
            assert(member(entries@, "broadcaster_user_id"@) == Some(broadcaster_id_json));
            assert(member(entries@, "broadcaster_user_login"@) == Some(broadcaster_login_json));
            assert(member(entries@, "broadcaster_user_name"@) == Some(broadcaster_name_json));
            assert(member(entries@, "title"@) == Some(title_json));
            assert(member(entries@, "outcomes"@) == Some(outcomes_json));
            assert(member(entries@, "started_at"@) == Some(started_at_json));
            assert(member(entries@, "locks_at"@) == Some(locks_at_json));
        }
        Json::Object(entries)
    }
}

/// An event of the category `channel.prediction.progress`.
#[derive(Debug)]
pub struct PredictionProgress {
    pub id: String,
    pub broadcaster: User,
    pub title: String,
    pub outcomes: Vec<Outcome>,
    pub started_at: String,
    pub locks_at: String,
}

impl FromJson for PredictionProgress {
    open spec fn parses(j: Json) -> bool {
        &&& j.spec_text("id"@) is Some
        &&& User::parses(
            j,
            "broadcaster_user_id"@,
            "broadcaster_user_login"@,
            "broadcaster_user_name"@,
        )
        &&& j.spec_text("title"@) is Some
        &&& list_parses::<Outcome>(j, "outcomes"@)
        &&& j.spec_text("started_at"@) is Some
        &&& j.spec_text("locks_at"@) is Some
    }

    open spec fn parsed_as(j: Json, v: PredictionProgress) -> bool {
        &&& j.spec_text("id"@) == Some(v.id)
        &&& User::parsed_as(
            j,
            "broadcaster_user_id"@,
            "broadcaster_user_login"@,
            "broadcaster_user_name"@,
            v.broadcaster,
        )
        &&& j.spec_text("title"@) == Some(v.title)
        &&& list_parsed_as(j, "outcomes"@, v.outcomes@)
        &&& j.spec_text("started_at"@) == Some(v.started_at)
        &&& j.spec_text("locks_at"@) == Some(v.locks_at)
    }

    fn from_json(j: &Json) -> (r: Option<PredictionProgress>) {
        let id = j.text("id");
        let broadcaster = User::from_json(
            j,
            "broadcaster_user_id",
            "broadcaster_user_login",
            "broadcaster_user_name",
        );
        let title = j.text("title");
        let outcomes = read_list::<Outcome>(j, "outcomes");
        let started_at = j.text("started_at");
        let locks_at = j.text("locks_at");
        if id.is_some() && broadcaster.is_some() && title.is_some() && outcomes.is_some()
            && started_at.is_some() && locks_at.is_some() {
            Some(
                PredictionProgress {
                    id: id.unwrap(),
                    broadcaster: broadcaster.unwrap(),
                    title: title.unwrap(),
                    outcomes: outcomes.unwrap(),
                    started_at: started_at.unwrap(),
                    locks_at: locks_at.unwrap(),
                },
            )
        } else {
            None
        }
    }
}

impl ToJson for PredictionProgress {
    fn to_json(&self) -> (r: Json) {
        let mut entries: Vec<(String, Json)> = Vec::new();
        proof {
            reveal_strlit("id");
            reveal_strlit("broadcaster_user_id");
            reveal_strlit("broadcaster_user_login");
            reveal_strlit("broadcaster_user_name");
            reveal_strlit("title");
            reveal_strlit("outcomes");
            reveal_strlit("started_at");
            reveal_strlit("locks_at");
            assert("id"@.len() == 2);
            assert("broadcaster_user_id"@.len() == 19);
            assert("broadcaster_user_login"@.len() == 22);
            assert("broadcaster_user_name"@.len() == 21);
            assert("title"@.len() == 5);
            assert("outcomes"@.len() == 8);
            assert("started_at"@.len() == 10);
            assert("locks_at"@.len() == 8);
            assert("outcomes"@[0] != "locks_at"@[0]);
        }
        let id_json = Json::Text(self.id.clone());
        let broadcaster_id_json = Json::Text(self.broadcaster.user_id.clone());
        let broadcaster_login_json = Json::Text(self.broadcaster.user_login.clone());
        let broadcaster_name_json = Json::Text(self.broadcaster.user_name.clone());
        let title_json = Json::Text(self.title.clone());
        let outcomes_json = Json::List(write_all(&self.outcomes));
        let started_at_json = Json::Text(self.started_at.clone());
        let locks_at_json = Json::Text(self.locks_at.clone());
        put(&mut entries, "id", id_json);
        put(&mut entries, "broadcaster_user_id", broadcaster_id_json);
        put(&mut entries, "broadcaster_user_login", broadcaster_login_json);
        put(&mut entries, "broadcaster_user_name", broadcaster_name_json);
        put(&mut entries, "title", title_json);
        put(&mut entries, "outcomes", outcomes_json);
        put(&mut entries, "started_at", started_at_json);
        put(&mut entries, "locks_at", locks_at_json);
        proof {
            assert(member(entries@, "id"@) == Some(id_json));
            assert(member(entries@, "broadcaster_user_id"@) == Some(broadcaster_id_json));
            assert(member(entries@, "broadcaster_user_login"@) == Some(broadcaster_login_json));
            assert(member(entries@, "broadcaster_user_name"@) == Some(broadcaster_name_json));
            assert(member(entries@, "title"@) == Some(title_json));
            assert(member(entries@, "outcomes"@) == Some(outcomes_json));
            assert(member(entries@, "started_at"@) == Some(started_at_json));
            assert(member(entries@, "locks_at"@) == Some(locks_at_json));
        }
        Json::Object(entries)
    }
}

/// An event of the category `channel.prediction.lock`.
#[derive(Debug)]
pub struct PredictionLock {
    pub id: String,
    pub broadcaster: User,
    pub title: String,
    pub outcomes: Vec<Outcome>,
    pub started_at: String,
    pub locked_at: String,
}

impl FromJson for PredictionLock {
    open spec fn parses(j: Json) -> bool {
        &&& j.spec_text("id"@) is Some
        &&& User::parses(
            j,
            "broadcaster_user_id"@,
            "broadcaster_user_login"@,
            "broadcaster_user_name"@,
        )
        &&& j.spec_text("title"@) is Some
        &&& list_parses::<Outcome>(j, "outcomes"@)
        &&& j.spec_text("started_at"@) is Some
        &&& j.spec_text("locked_at"@) is Some
    }

    open spec fn parsed_as(j: Json, v: PredictionLock) -> bool {
        &&& j.spec_text("id"@) == Some(v.id)
        &&& User::parsed_as(
            j,
            "broadcaster_user_id"@,
            "broadcaster_user_login"@,
            "broadcaster_user_name"@,
            v.broadcaster,
        )
        &&& j.spec_text("title"@) == Some(v.title)
        &&& list_parsed_as(j, "outcomes"@, v.outcomes@)
        &&& j.spec_text("started_at"@) == Some(v.started_at)
        &&& j.spec_text("locked_at"@) == Some(v.locked_at)
    }

    fn from_json(j: &Json) -> (r: Option<PredictionLock>) {
        let id = j.text("id");
        let broadcaster = User::from_json(
            j,
            "broadcaster_user_id",
            "broadcaster_user_login",
            "broadcaster_user_name",
        );
        let title = j.text("title");
        let outcomes = read_list::<Outcome>(j, "outcomes");
        let started_at = j.text("started_at");
        let locked_at = j.text("locked_at");
        if id.is_some() && broadcaster.is_some() && title.is_some() && outcomes.is_some()
            && started_at.is_some() && locked_at.is_some() {
            Some(
                PredictionLock {
                    id: id.unwrap(),
                    broadcaster: broadcaster.unwrap(),
                    title: title.unwrap(),
                    outcomes: outcomes.unwrap(),
                    started_at: started_at.unwrap(),
                    locked_at: locked_at.unwrap(),
                },
            )
        } else {
            None
        }
    }
}

impl ToJson for PredictionLock {
    fn to_json(&self) -> (r: Json) {
        let mut entries: Vec<(String, Json)> = Vec::new();
        proof {
            reveal_strlit("id");
            reveal_strlit("broadcaster_user_id");
            reveal_strlit("broadcaster_user_login");
            reveal_strlit("broadcaster_user_name");
            reveal_strlit("title");
            reveal_strlit("outcomes");
            reveal_strlit("started_at");
            reveal_strlit("locked_at");
            assert("id"@.len() == 2);
            assert("broadcaster_user_id"@.len() == 19);
            assert("broadcaster_user_login"@.len() == 22);
            assert("broadcaster_user_name"@.len() == 21);
            assert("title"@.len() == 5);
            assert("outcomes"@.len() == 8);
            assert("started_at"@.len() == 10);
            assert("locked_at"@.len() == 9);
        }
        let id_json = Json::Text(self.id.clone());
        let broadcaster_id_json = Json::Text(self.broadcaster.user_id.clone());
        let broadcaster_login_json = Json::Text(self.broadcaster.user_login.clone());
        let broadcaster_name_json = Json::Text(self.broadcaster.user_name.clone());
        let title_json = Json::Text(self.title.clone());
        let outcomes_json = Json::List(write_all(&self.outcomes));
        let started_at_json = Json::Text(self.started_at.clone());
        let locked_at_json = Json::Text(self.locked_at.clone());
        put(&mut entries, "id", id_json);
        put(&mut entries, "broadcaster_user_id", broadcaster_id_json);
        put(&mut entries, "broadcaster_user_login", broadcaster_login_json);
        put(&mut entries, "broadcaster_user_name", broadcaster_name_json);
        put(&mut entries, "title", title_json);
        put(&mut entries, "outcomes", outcomes_json);
        put(&mut entries, "started_at", started_at_json);
        put(&mut entries, "locked_at", locked_at_json);
        proof {
            assert(member(entries@, "id"@) == Some(id_json));
            assert(member(entries@, "broadcaster_user_id"@) == Some(broadcaster_id_json));
            assert(member(entries@, "broadcaster_user_login"@) == Some(broadcaster_login_json));
            assert(member(entries@, "broadcaster_user_name"@) == Some(broadcaster_name_json));
            assert(member(entries@, "title"@) == Some(title_json));
            assert(member(entries@, "outcomes"@) == Some(outcomes_json));
            assert(member(entries@, "started_at"@) == Some(started_at_json));
            assert(member(entries@, "locked_at"@) == Some(locked_at_json));
        }
        Json::Object(entries)
    }
}

/// An event of the category `channel.prediction.end`.
#[derive(Debug)]
pub struct PredictionEnd {
    pub id: String,
    pub broadcaster: User,
    pub title: String,
    pub winning_outcome_id: u64,
    pub outcomes: Vec<Outcome>,
    pub status: PredictionStatus,
    pub started_at: String,
    pub ended_at: String,
}

impl FromJson for PredictionEnd {
    open spec fn parses(j: Json) -> bool {
        &&& j.spec_text("id"@) is Some
        &&& User::parses(
            j,
            "broadcaster_user_id"@,
            "broadcaster_user_login"@,
            "broadcaster_user_name"@,
        )
        &&& j.spec_text("title"@) is Some
        &&& j.spec_count_or_zero("winning_outcome_id"@) is Some
        &&& list_parses::<Outcome>(j, "outcomes"@)
        &&& member_parses::<PredictionStatus>(j, "status"@)
        &&& j.spec_text("started_at"@) is Some
        &&& j.spec_text("ended_at"@) is Some
    }

    open spec fn parsed_as(j: Json, v: PredictionEnd) -> bool {
        &&& j.spec_text("id"@) == Some(v.id)
        &&& User::parsed_as(
            j,
            "broadcaster_user_id"@,
            "broadcaster_user_login"@,
            "broadcaster_user_name"@,
            v.broadcaster,
        )
        &&& j.spec_text("title"@) == Some(v.title)
        &&& j.spec_count_or_zero("winning_outcome_id"@) == Some(v.winning_outcome_id)
        &&& list_parsed_as(j, "outcomes"@, v.outcomes@)
        &&& member_parsed_as(j, "status"@, v.status)
        &&& j.spec_text("started_at"@) == Some(v.started_at)
        &&& j.spec_text("ended_at"@) == Some(v.ended_at)
    }

    fn from_json(j: &Json) -> (r: Option<PredictionEnd>) {
        let id = j.text("id");
        let broadcaster = User::from_json(
            j,
            "broadcaster_user_id",
            "broadcaster_user_login",
            "broadcaster_user_name",
        );
        let title = j.text("title");
        let winning_outcome_id = j.count_or_zero("winning_outcome_id");
        let outcomes = read_list::<Outcome>(j, "outcomes");
        let status = read_member::<PredictionStatus>(j, "status");
        let started_at = j.text("started_at");
        let ended_at = j.text("ended_at");
        if id.is_some() && broadcaster.is_some() && title.is_some()
            && winning_outcome_id.is_some() && outcomes.is_some() && status.is_some()
            && started_at.is_some() && ended_at.is_some() {
            Some(
                PredictionEnd {
                    id: id.unwrap(),
                    broadcaster: broadcaster.unwrap(),
                    title: title.unwrap(),
                    winning_outcome_id: winning_outcome_id.unwrap(),
                    outcomes: outcomes.unwrap(),
                    status: status.unwrap(),
                    started_at: started_at.unwrap(),
                    ended_at: ended_at.unwrap(),
                },
            )
        } else {
            None
        }
    }
}

impl ToJson for PredictionEnd {
    fn to_json(&self) -> (r: Json) {
        let mut entries: Vec<(String, Json)> = Vec::new();
        proof {
            reveal_strlit("id");
            reveal_strlit("broadcaster_user_id");
            reveal_strlit("broadcaster_user_login");
            reveal_strlit("broadcaster_user_name");
            reveal_strlit("title");
            reveal_strlit("winning_outcome_id");
            reveal_strlit("outcomes");
            reveal_strlit("status");
            reveal_strlit("started_at");
            reveal_strlit("ended_at");
            assert("id"@.len() == 2);
            assert("broadcaster_user_id"@.len() == 19);
            assert("broadcaster_user_login"@.len() == 22);
            assert("broadcaster_user_name"@.len() == 21);
            assert("title"@.len() == 5);
            assert("winning_outcome_id"@.len() == 18);
            assert("outcomes"@.len() == 8);
            assert("status"@.len() == 6);
            assert("started_at"@.len() == 10);
            assert("ended_at"@.len() == 8);
            assert("outcomes"@[0] != "ended_at"@[0]);
        }
        let id_json = Json::Text(self.id.clone());
        let broadcaster_id_json = Json::Text(self.broadcaster.user_id.clone());
        let broadcaster_login_json = Json::Text(self.broadcaster.user_login.clone());
        let broadcaster_name_json = Json::Text(self.broadcaster.user_name.clone());
        let title_json = Json::Text(self.title.clone());
        let winning_outcome_id_json = count_json(self.winning_outcome_id);
        let outcomes_json = Json::List(write_all(&self.outcomes));
        let status_json = self.status.to_json();
        let started_at_json = Json::Text(self.started_at.clone());
        let ended_at_json = Json::Text(self.ended_at.clone());
        put(&mut entries, "id", id_json);
        put(&mut entries, "broadcaster_user_id", broadcaster_id_json);
        put(&mut entries, "broadcaster_user_login", broadcaster_login_json);
        put(&mut entries, "broadcaster_user_name", broadcaster_name_json);
        put(&mut entries, "title", title_json);
        put(&mut entries, "winning_outcome_id", winning_outcome_id_json);
        put(&mut entries, "outcomes", outcomes_json);
        put(&mut entries, "status", status_json);
        put(&mut entries, "started_at", started_at_json);
        put(&mut entries, "ended_at", ended_at_json);
        proof {
            assert(member(entries@, "id"@) == Some(id_json));
            assert(member(entries@, "broadcaster_user_id"@) == Some(broadcaster_id_json));
            assert(member(entries@, "broadcaster_user_login"@) == Some(broadcaster_login_json));
            assert(member(entries@, "broadcaster_user_name"@) == Some(broadcaster_name_json));
            assert(member(entries@, "title"@) == Some(title_json));
            assert(member(entries@, "winning_outcome_id"@) == Some(winning_outcome_id_json));
            assert(member(entries@, "outcomes"@) == Some(outcomes_json));
            assert(member(entries@, "status"@) == Some(status_json));
            assert(member(entries@, "started_at"@) == Some(started_at_json));
            assert(member(entries@, "ended_at"@) == Some(ended_at_json));
        }
        Json::Object(entries)
    }
}

#[derive(Debug)]
pub struct OutcomeInfo {
    pub id: String,
    pub title: String,
    pub color: String,
}

impl FromJson for OutcomeInfo {
    open spec fn parses(j: Json) -> bool {
        &&& j.spec_text("id"@) is Some
        &&& j.spec_text("title"@) is Some
        &&& j.spec_text("color"@) is Some
    }

    open spec fn parsed_as(j: Json, v: OutcomeInfo) -> bool {
        &&& j.spec_text("id"@) == Some(v.id)
        &&& j.spec_text("title"@) == Some(v.title)
        &&& j.spec_text("color"@) == Some(v.color)
    }

    fn from_json(j: &Json) -> (r: Option<OutcomeInfo>) {
        let id = j.text("id");
        let title = j.text("title");
        let color = j.text("color");
        if id.is_some() && title.is_some() && color.is_some() {
            Some(OutcomeInfo { id: id.unwrap(), title: title.unwrap(), color: color.unwrap() })
        } else {
            None
        }
    }
}

impl ToJson for OutcomeInfo {
    fn to_json(&self) -> (r: Json) {
        let mut entries: Vec<(String, Json)> = Vec::new();
        proof {
            reveal_strlit("id");
            reveal_strlit("title");
            reveal_strlit("color");
            assert("id"@.len() == 2);
            assert("title"@.len() == 5);
            assert("color"@.len() == 5);
            assert("title"@[0] != "color"@[0]);
        }
        let id_json = Json::Text(self.id.clone());
        let title_json = Json::Text(self.title.clone());
        let color_json = Json::Text(self.color.clone());
        put(&mut entries, "id", id_json);
        put(&mut entries, "title", title_json);
        put(&mut entries, "color", color_json);
        proof {
            assert(member(entries@, "id"@) == Some(id_json));
            assert(member(entries@, "title"@) == Some(title_json));
            assert(member(entries@, "color"@) == Some(color_json));
        }
        Json::Object(entries)
    }
}

#[derive(Debug)]
pub struct Outcome {
    pub id: String,
    pub title: String,
    pub color: String,
    pub users: u64,
    pub channel_points: u64,
    pub top_predictors: Vec<Predictor>,
}

impl FromJson for Outcome {
    open spec fn parses(j: Json) -> bool {
        &&& j.spec_text("id"@) is Some
        &&& j.spec_text("title"@) is Some
        &&& j.spec_text("color"@) is Some
        &&& j.spec_count_or_zero("users"@) is Some
        &&& j.spec_count_or_zero("channel_points"@) is Some
        &&& list_parses::<Predictor>(j, "top_predictors"@)
    }

    open spec fn parsed_as(j: Json, v: Outcome) -> bool {
        &&& j.spec_text("id"@) == Some(v.id)
        &&& j.spec_text("title"@) == Some(v.title)
        &&& j.spec_text("color"@) == Some(v.color)
        &&& j.spec_count_or_zero("users"@) == Some(v.users)
        &&& j.spec_count_or_zero("channel_points"@) == Some(v.channel_points)
        &&& list_parsed_as(j, "top_predictors"@, v.top_predictors@)
    }

    fn from_json(j: &Json) -> (r: Option<Outcome>) {
        let id = j.text("id");
        let title = j.text("title");
        let color = j.text("color");
        let users = j.count_or_zero("users");
        let channel_points = j.count_or_zero("channel_points");
        let top_predictors = read_list::<Predictor>(j, "top_predictors");
        if id.is_some() && title.is_some() && color.is_some() && users.is_some()
            && channel_points.is_some() && top_predictors.is_some() {
            Some(
                Outcome {
                    id: id.unwrap(),
                    title: title.unwrap(),
                    color: color.unwrap(),
                    users: users.unwrap(),
                    channel_points: channel_points.unwrap(),
                    top_predictors: top_predictors.unwrap(),
                },
            )
        } else {
            None
        }
    }
}

impl ToJson for Outcome {
    fn to_json(&self) -> (r: Json) {
        let mut entries: Vec<(String, Json)> = Vec::new();
        proof {
            reveal_strlit("id");
            reveal_strlit("title");
            reveal_strlit("color");
            reveal_strlit("users");
            reveal_strlit("channel_points");
            reveal_strlit("top_predictors");
            assert("id"@.len() == 2);
            assert("title"@.len() == 5);
            assert("color"@.len() == 5);
            assert("users"@.len() == 5);
            assert("channel_points"@.len() == 14);
            assert("top_predictors"@.len() == 14);
            assert("title"@[0] != "color"@[0]);
            assert("title"@[0] != "users"@[0]);
            assert("color"@[0] != "users"@[0]);
            assert("channel_points"@[0] != "top_predictors"@[0]);
        }
        let id_json = Json::Text(self.id.clone());
        let title_json = Json::Text(self.title.clone());
        let color_json = Json::Text(self.color.clone());
        let users_json = count_json(self.users);
        let channel_points_json = count_json(self.channel_points);
        let top_predictors_json = Json::List(write_all(&self.top_predictors));
        put(&mut entries, "id", id_json);
        put(&mut entries, "title", title_json);
        put(&mut entries, "color", color_json);
        put(&mut entries, "users", users_json);
        put(&mut entries, "channel_points", channel_points_json);
        put(&mut entries, "top_predictors", top_predictors_json);
        proof {
            assert(member(entries@, "id"@) == Some(id_json));
            assert(member(entries@, "title"@) == Some(title_json));
            assert(member(entries@, "color"@) == Some(color_json));
            assert(member(entries@, "users"@) == Some(users_json));
            assert(member(entries@, "channel_points"@) == Some(channel_points_json));
            assert(member(entries@, "top_predictors"@) == Some(top_predictors_json));
        }
        Json::Object(entries)
    }
}

#[derive(Debug)]
pub struct Predictor {
    pub user: User,
    pub channel_points_won: Option<u64>,
    pub channel_points_used: u64,
}

impl FromJson for Predictor {
    open spec fn parses(j: Json) -> bool {
        &&& User::parses(j, "user_id"@, "user_login"@, "user_name"@)
        &&& j.spec_optional_count("channel_points_won"@) is Some
        &&& j.spec_count("channel_points_used"@) is Some
    }

    open spec fn parsed_as(j: Json, v: Predictor) -> bool {
        &&& User::parsed_as(j, "user_id"@, "user_login"@, "user_name"@, v.user)
        &&& j.spec_optional_count("channel_points_won"@) == Some(v.channel_points_won)
        &&& j.spec_count("channel_points_used"@) == Some(v.channel_points_used)
    }

    fn from_json(j: &Json) -> (r: Option<Predictor>) {
        let user = User::from_json(j, "user_id", "user_login", "user_name");
        let channel_points_won = j.optional_count("channel_points_won");
        let channel_points_used = j.count("channel_points_used");
        if user.is_some() && channel_points_won.is_some() && channel_points_used.is_some() {
            Some(
                Predictor {
                    user: user.unwrap(),
                    channel_points_won: channel_points_won.unwrap(),
                    channel_points_used: channel_points_used.unwrap(),
                },
            )
        } else {
            None
        }
    }
}

impl ToJson for Predictor {
    fn to_json(&self) -> (r: Json) {
        let mut entries: Vec<(String, Json)> = Vec::new();
        proof {
            reveal_strlit("user_id");
            reveal_strlit("user_login");
            reveal_strlit("user_name");
            reveal_strlit("channel_points_won");
            reveal_strlit("channel_points_used");
            assert("user_id"@.len() == 7);
            assert("user_login"@.len() == 10);
            assert("user_name"@.len() == 9);
            assert("channel_points_won"@.len() == 18);
            assert("channel_points_used"@.len() == 19);
        }
        let user_id_json = Json::Text(self.user.user_id.clone());
        let user_login_json = Json::Text(self.user.user_login.clone());
        let user_name_json = Json::Text(self.user.user_name.clone());
        let channel_points_won_json = optional_count_json(&self.channel_points_won);
        let channel_points_used_json = count_json(self.channel_points_used);
        put(&mut entries, "user_id", user_id_json);
        put(&mut entries, "user_login", user_login_json);
        put(&mut entries, "user_name", user_name_json);
        put(&mut entries, "channel_points_won", channel_points_won_json);
        put(&mut entries, "channel_points_used", channel_points_used_json);
        proof {
            assert(member(entries@, "user_id"@) == Some(user_id_json));
            assert(member(entries@, "user_login"@) == Some(user_login_json));
            assert(member(entries@, "user_name"@) == Some(user_name_json));
            assert(member(entries@, "channel_points_won"@) == Some(channel_points_won_json));
            assert(member(entries@, "channel_points_used"@) == Some(channel_points_used_json));
        }
        Json::Object(entries)
    }
}

#[derive(Clone, Copy, Debug, PartialEq, Eq, Structural)]
pub enum PredictionStatus {
    Resolved,
    Canceled,
}

impl PredictionStatus {
    /// The value that a name stands for.
    pub open spec fn spec_named(name: Seq<char>) -> Option<PredictionStatus> {
        if name == "resolved"@ {
            Some(PredictionStatus::Resolved)
        } else if name == "canceled"@ {
            Some(PredictionStatus::Canceled)
        } else {
            None
        }
    }

    /// The value that a name stands for.
    pub fn named(name: &str) -> (r: Option<PredictionStatus>)
        ensures
            r == Self::spec_named(name@),
    {
        if same_text(name, "resolved") {
            Some(PredictionStatus::Resolved)
        } else if same_text(name, "canceled") {
            Some(PredictionStatus::Canceled)
        } else {
            None
        }
    }
}

impl FromJson for PredictionStatus {
    open spec fn parses(j: Json) -> bool {
        j matches Json::Text(s) && Self::spec_named(s@) is Some
    }

    open spec fn parsed_as(j: Json, v: PredictionStatus) -> bool {
        j matches Json::Text(s) && Self::spec_named(s@) == Some(v)
    }

    fn from_json(j: &Json) -> (r: Option<PredictionStatus>) {
        match j {
            Json::Text(s) => Self::named(s.as_str()),
            _ => None,
        }
    }
}

impl PredictionStatus {
    /// The name that stands for the value.
    pub fn name(&self) -> (r: &'static str)
        ensures
            Self::spec_named(r@) == Some(*self),
    {
        proof {
            reveal_strlit("resolved");
            reveal_strlit("canceled");
            assert("resolved"@.len() == 8);
            assert("canceled"@.len() == 8);
            assert("resolved"@[0] != "canceled"@[0]);
        }
        match self {
            PredictionStatus::Resolved => "resolved",
            PredictionStatus::Canceled => "canceled",
        }
    }
}

impl ToJson for PredictionStatus {
    fn to_json(&self) -> (r: Json) {
        Json::Text(self.name().to_owned())
    }
}

} // verus!
