//! Events about the goals of a channel.

use vstd::prelude::*;
use crate::json::Json;
use crate::json::FromJson;
use crate::json::ToJson;
use crate::json::put;
use crate::json::member;
use crate::json::count_json;
use crate::json::read_member;
use crate::json::member_parses;
use crate::json::member_parsed_as;
use crate::json::same_text;
use crate::eventsub::events::channel::Follow;
use crate::eventsub::events::User;

verus! {

/// An event of the category `channel.goal.begin`.
#[derive(Debug)]
pub struct GoalBegin {
    pub id: String,
    pub broadcaster: User,
    pub goal_type: GoalType,
    pub description: String,
    pub current_amount: u64,
    pub target_amount: u64,
    pub started_at: String,
}

impl FromJson for GoalBegin {
    open spec fn parses(j: Json) -> bool {
        &&& j.spec_text("id"@) is Some
        &&& User::parses(
            j,
            "broadcaster_user_id"@,
            "broadcaster_user_login"@,
            "broadcaster_user_name"@,
        )
        &&& member_parses::<GoalType>(j, "type"@)
        &&& j.spec_text("description"@) is Some
        &&& j.spec_count("current_amount"@) is Some
        &&& j.spec_count("target_amount"@) is Some
        &&& j.spec_text("started_at"@) is Some
    }

    open spec fn parsed_as(j: Json, v: GoalBegin) -> bool {
        &&& j.spec_text("id"@) == Some(v.id)
        &&& User::parsed_as(
            j,
            "broadcaster_user_id"@,
            "broadcaster_user_login"@,
            "broadcaster_user_name"@,
            v.broadcaster,
        )
        &&& member_parsed_as(j, "type"@, v.goal_type)
        &&& j.spec_text("description"@) == Some(v.description)
        &&& j.spec_count("current_amount"@) == Some(v.current_amount)
        &&& j.spec_count("target_amount"@) == Some(v.target_amount)
        &&& j.spec_text("started_at"@) == Some(v.started_at)
    }

    fn from_json(j: &Json) -> (r: Option<GoalBegin>) {
        let id = j.text("id");
        let broadcaster = User::from_json(
            j,
            "broadcaster_user_id",
            "broadcaster_user_login",
            "broadcaster_user_name",
        );
        let goal_type = read_member::<GoalType>(j, "type");
        let description = j.text("description");
        let current_amount = j.count("current_amount");
        let target_amount = j.count("target_amount");
        let started_at = j.text("started_at");
        if id.is_some() && broadcaster.is_some() && goal_type.is_some() && description.is_some()
            && current_amount.is_some() && target_amount.is_some() && started_at.is_some() {
            Some(
                GoalBegin {
                    id: id.unwrap(),
                    broadcaster: broadcaster.unwrap(),
                    goal_type: goal_type.unwrap(),
                    description: description.unwrap(),
                    current_amount: current_amount.unwrap(),
                    target_amount: target_amount.unwrap(),
                    started_at: started_at.unwrap(),
                },
            )
        } else {
            None
        }
    }
}

impl ToJson for GoalBegin {
    fn to_json(&self) -> (r: Json) {
        let mut entries: Vec<(String, Json)> = Vec::new();
        proof {
            reveal_strlit("id");
            reveal_strlit("broadcaster_user_id");
            reveal_strlit("broadcaster_user_login");
            reveal_strlit("broadcaster_user_name");
            reveal_strlit("type");
            reveal_strlit("description");
            reveal_strlit("current_amount");
            reveal_strlit("target_amount");
            reveal_strlit("started_at");
            assert("id"@.len() == 2);
            assert("broadcaster_user_id"@.len() == 19);
            assert("broadcaster_user_login"@.len() == 22);
            assert("broadcaster_user_name"@.len() == 21);
            assert("type"@.len() == 4);
            assert("description"@.len() == 11);
            assert("current_amount"@.len() == 14);
            assert("target_amount"@.len() == 13);
            assert("started_at"@.len() == 10);
        }
        let id_json = Json::Text(self.id.clone());
        let broadcaster_id_json = Json::Text(self.broadcaster.user_id.clone());
        let broadcaster_login_json = Json::Text(self.broadcaster.user_login.clone());
        let broadcaster_name_json = Json::Text(self.broadcaster.user_name.clone());
        let goal_type_json = self.goal_type.to_json();
        let description_json = Json::Text(self.description.clone());
        let current_amount_json = count_json(self.current_amount);
        let target_amount_json = count_json(self.target_amount);
        let started_at_json = Json::Text(self.started_at.clone());
        put(&mut entries, "id", id_json);
        put(&mut entries, "broadcaster_user_id", broadcaster_id_json);
        put(&mut entries, "broadcaster_user_login", broadcaster_login_json);
        put(&mut entries, "broadcaster_user_name", broadcaster_name_json);
        put(&mut entries, "type", goal_type_json);
        put(&mut entries, "description", description_json);
        put(&mut entries, "current_amount", current_amount_json);
        put(&mut entries, "target_amount", target_amount_json);
        put(&mut entries, "started_at", started_at_json);
        proof {
            assert(member(entries@, "id"@) == Some(id_json));
            assert(member(entries@, "broadcaster_user_id"@) == Some(broadcaster_id_json));
            assert(member(entries@, "broadcaster_user_login"@) == Some(broadcaster_login_json));
            assert(member(entries@, "broadcaster_user_name"@) == Some(broadcaster_name_json));
            assert(member(entries@, "type"@) == Some(goal_type_json));
            assert(member(entries@, "description"@) == Some(description_json));
            assert(member(entries@, "current_amount"@) == Some(current_amount_json));
            assert(member(entries@, "target_amount"@) == Some(target_amount_json));
            assert(member(entries@, "started_at"@) == Some(started_at_json));
        }
        Json::Object(entries)
    }
}

/// An event of the category `channel.goal.progress`.
#[derive(Debug)]
pub struct GoalProgress {
    pub id: String,
    pub broadcaster: User,
    pub goal_type: GoalType,
    pub description: String,
    pub current_amount: u64,
    pub target_amount: u64,
    pub started_at: String,
}

impl FromJson for GoalProgress {
    open spec fn parses(j: Json) -> bool {
        &&& j.spec_text("id"@) is Some
        &&& User::parses(
            j,
            "broadcaster_user_id"@,
            "broadcaster_user_login"@,
            "broadcaster_user_name"@,
        )
        &&& member_parses::<GoalType>(j, "type"@)
        &&& j.spec_text("description"@) is Some
        &&& j.spec_count("current_amount"@) is Some
        &&& j.spec_count("target_amount"@) is Some
        &&& j.spec_text("started_at"@) is Some
    }

    open spec fn parsed_as(j: Json, v: GoalProgress) -> bool {
        &&& j.spec_text("id"@) == Some(v.id)
        &&& User::parsed_as(
            j,
            "broadcaster_user_id"@,
            "broadcaster_user_login"@,
            "broadcaster_user_name"@,
            v.broadcaster,
        )
        &&& member_parsed_as(j, "type"@, v.goal_type)
        &&& j.spec_text("description"@) == Some(v.description)
        &&& j.spec_count("current_amount"@) == Some(v.current_amount)
        &&& j.spec_count("target_amount"@) == Some(v.target_amount)
        &&& j.spec_text("started_at"@) == Some(v.started_at)
    }

    fn from_json(j: &Json) -> (r: Option<GoalProgress>) {
        let id = j.text("id");
        let broadcaster = User::from_json(
            j,
            "broadcaster_user_id",
            "broadcaster_user_login",
            "broadcaster_user_name",
        );
        let goal_type = read_member::<GoalType>(j, "type");
        let description = j.text("description");
        let current_amount = j.count("current_amount");
        let target_amount = j.count("target_amount");
        let started_at = j.text("started_at");
        if id.is_some() && broadcaster.is_some() && goal_type.is_some() && description.is_some()
            && current_amount.is_some() && target_amount.is_some() && started_at.is_some() {
            Some(
                GoalProgress {
                    id: id.unwrap(),
                    broadcaster: broadcaster.unwrap(),
                    goal_type: goal_type.unwrap(),
                    description: description.unwrap(),
                    current_amount: current_amount.unwrap(),
                    target_amount: target_amount.unwrap(),
                    started_at: started_at.unwrap(),
                },
            )
        } else {
            None
        }
    }
}

impl ToJson for GoalProgress {
    fn to_json(&self) -> (r: Json) {
        let mut entries: Vec<(String, Json)> = Vec::new();
        proof {
            reveal_strlit("id");
            reveal_strlit("broadcaster_user_id");
            reveal_strlit("broadcaster_user_login");
            reveal_strlit("broadcaster_user_name");
            reveal_strlit("type");
            reveal_strlit("description");
            reveal_strlit("current_amount");
            reveal_strlit("target_amount");
            reveal_strlit("started_at");
            assert("id"@.len() == 2);
            assert("broadcaster_user_id"@.len() == 19);
            assert("broadcaster_user_login"@.len() == 22);
            assert("broadcaster_user_name"@.len() == 21);
            assert("type"@.len() == 4);
            assert("description"@.len() == 11);
            assert("current_amount"@.len() == 14);
            assert("target_amount"@.len() == 13);
            assert("started_at"@.len() == 10);
        }
        let id_json = Json::Text(self.id.clone());
        let broadcaster_id_json = Json::Text(self.broadcaster.user_id.clone());
        let broadcaster_login_json = Json::Text(self.broadcaster.user_login.clone());
        let broadcaster_name_json = Json::Text(self.broadcaster.user_name.clone());
        let goal_type_json = self.goal_type.to_json();
        let description_json = Json::Text(self.description.clone());
        let current_amount_json = count_json(self.current_amount);
        let target_amount_json = count_json(self.target_amount);
        let started_at_json = Json::Text(self.started_at.clone());
        put(&mut entries, "id", id_json);
        put(&mut entries, "broadcaster_user_id", broadcaster_id_json);
        put(&mut entries, "broadcaster_user_login", broadcaster_login_json);
        put(&mut entries, "broadcaster_user_name", broadcaster_name_json);
        put(&mut entries, "type", goal_type_json);
        put(&mut entries, "description", description_json);
        put(&mut entries, "current_amount", current_amount_json);
        put(&mut entries, "target_amount", target_amount_json);
        put(&mut entries, "started_at", started_at_json);
        proof {
            assert(member(entries@, "id"@) == Some(id_json));
            assert(member(entries@, "broadcaster_user_id"@) == Some(broadcaster_id_json));
            assert(member(entries@, "broadcaster_user_login"@) == Some(broadcaster_login_json));
            assert(member(entries@, "broadcaster_user_name"@) == Some(broadcaster_name_json));
            assert(member(entries@, "type"@) == Some(goal_type_json));
            assert(member(entries@, "description"@) == Some(description_json));
            assert(member(entries@, "current_amount"@) == Some(current_amount_json));
            assert(member(entries@, "target_amount"@) == Some(target_amount_json));
            assert(member(entries@, "started_at"@) == Some(started_at_json));
        }
        Json::Object(entries)
    }
}

/// An event of the category `channel.goal.end`.
#[derive(Debug)]
pub struct GoalEnd {
    pub id: String,
    pub broadcaster: User,
    pub goal_type: GoalType,
    pub description: String,
    pub is_achieved: bool,
    pub current_amount: u64,
    pub target_amount: u64,
    pub started_at: String,
    pub ended_at: String,
}

impl FromJson for GoalEnd {
    open spec fn parses(j: Json) -> bool {
        &&& j.spec_text("id"@) is Some
        &&& User::parses(
            j,
            "broadcaster_user_id"@,
            "broadcaster_user_login"@,
            "broadcaster_user_name"@,
        )
        &&& member_parses::<GoalType>(j, "type"@)
        &&& j.spec_text("description"@) is Some
        &&& j.spec_flag("is_achieved"@) is Some
        &&& j.spec_count("current_amount"@) is Some
        &&& j.spec_count("target_amount"@) is Some
        &&& j.spec_text("started_at"@) is Some
        &&& j.spec_text("ended_at"@) is Some
    }

    open spec fn parsed_as(j: Json, v: GoalEnd) -> bool {
        &&& j.spec_text("id"@) == Some(v.id)
        &&& User::parsed_as(
            j,
            "broadcaster_user_id"@,
            "broadcaster_user_login"@,
            "broadcaster_user_name"@,
            v.broadcaster,
        )
        &&& member_parsed_as(j, "type"@, v.goal_type)
        &&& j.spec_text("description"@) == Some(v.description)
        &&& j.spec_flag("is_achieved"@) == Some(v.is_achieved)
        &&& j.spec_count("current_amount"@) == Some(v.current_amount)
        &&& j.spec_count("target_amount"@) == Some(v.target_amount)
        &&& j.spec_text("started_at"@) == Some(v.started_at)
        &&& j.spec_text("ended_at"@) == Some(v.ended_at)
    }

    fn from_json(j: &Json) -> (r: Option<GoalEnd>) {
        let id = j.text("id");
        let broadcaster = User::from_json(
            j,
            "broadcaster_user_id",
            "broadcaster_user_login",
            "broadcaster_user_name",
        );
        let goal_type = read_member::<GoalType>(j, "type");
        let description = j.text("description");
        let is_achieved = j.flag("is_achieved");
        let current_amount = j.count("current_amount");
        let target_amount = j.count("target_amount");
        let started_at = j.text("started_at");
        let ended_at = j.text("ended_at");
        if id.is_some() && broadcaster.is_some() && goal_type.is_some() && description.is_some()
            && is_achieved.is_some() && current_amount.is_some() && target_amount.is_some()
            && started_at.is_some() && ended_at.is_some() {
            Some(
                GoalEnd {
                    id: id.unwrap(),
                    broadcaster: broadcaster.unwrap(),
                    goal_type: goal_type.unwrap(),
                    description: description.unwrap(),
                    is_achieved: is_achieved.unwrap(),
                    current_amount: current_amount.unwrap(),
                    target_amount: target_amount.unwrap(),
                    started_at: started_at.unwrap(),
                    ended_at: ended_at.unwrap(),
                },
            )
        } else {
            None
        }
    }
}

impl ToJson for GoalEnd {
    fn to_json(&self) -> (r: Json) {
        let mut entries: Vec<(String, Json)> = Vec::new();
        proof {
            reveal_strlit("id");
            reveal_strlit("broadcaster_user_id");
            reveal_strlit("broadcaster_user_login");
            reveal_strlit("broadcaster_user_name");
            reveal_strlit("type");
            reveal_strlit("description");
            reveal_strlit("is_achieved");
            reveal_strlit("current_amount");
            reveal_strlit("target_amount");
            reveal_strlit("started_at");
            reveal_strlit("ended_at");
            assert("id"@.len() == 2);
            assert("broadcaster_user_id"@.len() == 19);
            assert("broadcaster_user_login"@.len() == 22);
            assert("broadcaster_user_name"@.len() == 21);
            assert("type"@.len() == 4);
            assert("description"@.len() == 11);
            assert("is_achieved"@.len() == 11);
            assert("current_amount"@.len() == 14);
            assert("target_amount"@.len() == 13);
            assert("started_at"@.len() == 10);
            assert("ended_at"@.len() == 8);
            assert("description"@[0] != "is_achieved"@[0]);
        }
        let id_json = Json::Text(self.id.clone());
        let broadcaster_id_json = Json::Text(self.broadcaster.user_id.clone());
        let broadcaster_login_json = Json::Text(self.broadcaster.user_login.clone());
        let broadcaster_name_json = Json::Text(self.broadcaster.user_name.clone());
        let goal_type_json = self.goal_type.to_json();
        let description_json = Json::Text(self.description.clone());
        let is_achieved_json = Json::Bool(self.is_achieved);
        let current_amount_json = count_json(self.current_amount);
        let target_amount_json = count_json(self.target_amount);
        let started_at_json = Json::Text(self.started_at.clone());
        let ended_at_json = Json::Text(self.ended_at.clone());
        put(&mut entries, "id", id_json);
        put(&mut entries, "broadcaster_user_id", broadcaster_id_json);
        put(&mut entries, "broadcaster_user_login", broadcaster_login_json);
        put(&mut entries, "broadcaster_user_name", broadcaster_name_json);
        put(&mut entries, "type", goal_type_json);
        put(&mut entries, "description", description_json);
        put(&mut entries, "is_achieved", is_achieved_json);
        put(&mut entries, "current_amount", current_amount_json);
        put(&mut entries, "target_amount", target_amount_json);
        put(&mut entries, "started_at", started_at_json);
        put(&mut entries, "ended_at", ended_at_json);
        proof {
            assert(member(entries@, "id"@) == Some(id_json));
            assert(member(entries@, "broadcaster_user_id"@) == Some(broadcaster_id_json));
            assert(member(entries@, "broadcaster_user_login"@) == Some(broadcaster_login_json));
            assert(member(entries@, "broadcaster_user_name"@) == Some(broadcaster_name_json));
            assert(member(entries@, "type"@) == Some(goal_type_json));
            assert(member(entries@, "description"@) == Some(description_json));
            assert(member(entries@, "is_achieved"@) == Some(is_achieved_json));
            assert(member(entries@, "current_amount"@) == Some(current_amount_json));
            assert(member(entries@, "target_amount"@) == Some(target_amount_json));
            assert(member(entries@, "started_at"@) == Some(started_at_json));
            assert(member(entries@, "ended_at"@) == Some(ended_at_json));
        }
        Json::Object(entries)
    }
}

#[derive(Clone, Copy, Debug, PartialEq, Eq, Structural)]
pub enum GoalType {
    Follow,
    Subscription,
    SubscriptionCount,
    NewSubscription,
    NewSubscriptionCount,
    NewBit,
    NewCheerer,
}

impl GoalType {
    /// The value that a name stands for.
    pub open spec fn spec_named(name: Seq<char>) -> Option<GoalType> {
        if name == "follow"@ {
            Some(GoalType::Follow)
        } else if name == "subscription"@ {
            Some(GoalType::Subscription)
        } else if name == "subscription_count"@ {
            Some(GoalType::SubscriptionCount)
        } else if name == "new_subscription"@ {
            Some(GoalType::NewSubscription)
        } else if name == "new_subscription_count"@ {
            Some(GoalType::NewSubscriptionCount)
        } else if name == "new_bit"@ {
            Some(GoalType::NewBit)
        } else if name == "new_cheerer"@ {
            Some(GoalType::NewCheerer)
        } else {
            None
        }
    }

    /// The value that a name stands for.
    pub fn named(name: &str) -> (r: Option<GoalType>)
        ensures
            r == Self::spec_named(name@),
    {
        if same_text(name, "follow") {
            Some(GoalType::Follow)
        } else if same_text(name, "subscription") {
            Some(GoalType::Subscription)
        } else if same_text(name, "subscription_count") {
            Some(GoalType::SubscriptionCount)
        } else if same_text(name, "new_subscription") {
            Some(GoalType::NewSubscription)
        } else if same_text(name, "new_subscription_count") {
            Some(GoalType::NewSubscriptionCount)
        } else if same_text(name, "new_bit") {
            Some(GoalType::NewBit)
        } else if same_text(name, "new_cheerer") {
            Some(GoalType::NewCheerer)
        } else {
            None
        }
    }
}

impl FromJson for GoalType {
    open spec fn parses(j: Json) -> bool {
        j matches Json::Text(s) && Self::spec_named(s@) is Some
    }

    open spec fn parsed_as(j: Json, v: GoalType) -> bool {
        j matches Json::Text(s) && Self::spec_named(s@) == Some(v)
    }

    fn from_json(j: &Json) -> (r: Option<GoalType>) {
        match j {
            Json::Text(s) => Self::named(s.as_str()),
            _ => None,
        }
    }
}

impl GoalType {
    /// The name that stands for the value.
    pub fn name(&self) -> (r: &'static str)
        ensures
            Self::spec_named(r@) == Some(*self),
    {
        proof {
            reveal_strlit("follow");
            reveal_strlit("subscription");
            reveal_strlit("subscription_count");
            reveal_strlit("new_subscription");
            reveal_strlit("new_subscription_count");
            reveal_strlit("new_bit");
            reveal_strlit("new_cheerer");
            assert("follow"@.len() == 6);
            assert("subscription"@.len() == 12);
            assert("subscription_count"@.len() == 18);
            assert("new_subscription"@.len() == 16);
            assert("new_subscription_count"@.len() == 22);
            assert("new_bit"@.len() == 7);
            assert("new_cheerer"@.len() == 11);
        }
        match self {
            GoalType::Follow => "follow",
            GoalType::Subscription => "subscription",
            GoalType::SubscriptionCount => "subscription_count",
            GoalType::NewSubscription => "new_subscription",
            GoalType::NewSubscriptionCount => "new_subscription_count",
            GoalType::NewBit => "new_bit",
            GoalType::NewCheerer => "new_cheerer",
        }
    }
}

impl ToJson for GoalType {
    fn to_json(&self) -> (r: Json) {
        Json::Text(self.name().to_owned())
    }
}

} // verus!
