//! Events about subscriptions to a channel.

use vstd::prelude::*;
use crate::json::Json;
use crate::json::FromJson;
use crate::json::ToJson;
use crate::json::put;
use crate::json::member;
use crate::json::count_json;
use crate::json::optional_count32_json;
use crate::json::read_member;
use crate::json::member_parses;
use crate::json::member_parsed_as;
use crate::eventsub::events::MessageSimple;
use crate::eventsub::events::User;

verus! {

/// An event of the category `channel.subscribe`.
#[derive(Debug)]
pub struct Subscribe {
    pub user: User,
    pub broadcaster: User,
    pub tier: String,
    pub is_gift: bool,
}

impl FromJson for Subscribe {
    open spec fn parses(j: Json) -> bool {
        &&& User::parses(j, "user_id"@, "user_login"@, "user_name"@)
        &&& User::parses(
            j,
            "broadcaster_user_id"@,
            "broadcaster_user_login"@,
            "broadcaster_user_name"@,
        )
        &&& j.spec_text("tier"@) is Some
        &&& j.spec_flag("is_gift"@) is Some
    }

    open spec fn parsed_as(j: Json, v: Subscribe) -> bool {
        &&& User::parsed_as(j, "user_id"@, "user_login"@, "user_name"@, v.user)
        &&& User::parsed_as(
            j,
            "broadcaster_user_id"@,
            "broadcaster_user_login"@,
            "broadcaster_user_name"@,
            v.broadcaster,
        )
        &&& j.spec_text("tier"@) == Some(v.tier)
        &&& j.spec_flag("is_gift"@) == Some(v.is_gift)
    }

    fn from_json(j: &Json) -> (r: Option<Subscribe>) {
        let user = User::from_json(j, "user_id", "user_login", "user_name");
        let broadcaster = User::from_json(
            j,
            "broadcaster_user_id",
            "broadcaster_user_login",
            "broadcaster_user_name",
        );
        let tier = j.text("tier");
        let is_gift = j.flag("is_gift");
        if user.is_some() && broadcaster.is_some() && tier.is_some() && is_gift.is_some() {
            Some(
                Subscribe {
                    user: user.unwrap(),
                    broadcaster: broadcaster.unwrap(),
                    tier: tier.unwrap(),
                    is_gift: is_gift.unwrap(),
                },
            )
        } else {
            None
        }
    }
}

impl ToJson for Subscribe {
    fn to_json(&self) -> (r: Json) {
        let mut entries: Vec<(String, Json)> = Vec::new();
        proof {
            reveal_strlit("user_id");
            reveal_strlit("user_login");
            reveal_strlit("user_name");
            reveal_strlit("broadcaster_user_id");
            reveal_strlit("broadcaster_user_login");
            reveal_strlit("broadcaster_user_name");
            reveal_strlit("tier");
            reveal_strlit("is_gift");
            assert("user_id"@.len() == 7);
            assert("user_login"@.len() == 10);
            assert("user_name"@.len() == 9);
            assert("broadcaster_user_id"@.len() == 19);
            assert("broadcaster_user_login"@.len() == 22);
            assert("broadcaster_user_name"@.len() == 21);
            assert("tier"@.len() == 4);
            assert("is_gift"@.len() == 7);
            assert("user_id"@[0] != "is_gift"@[0]);
        }
        let user_id_json = Json::Text(self.user.user_id.clone());
        let user_login_json = Json::Text(self.user.user_login.clone());
        let user_name_json = Json::Text(self.user.user_name.clone());
        let broadcaster_id_json = Json::Text(self.broadcaster.user_id.clone());
        let broadcaster_login_json = Json::Text(self.broadcaster.user_login.clone());
        let broadcaster_name_json = Json::Text(self.broadcaster.user_name.clone());
        let tier_json = Json::Text(self.tier.clone());
        let is_gift_json = Json::Bool(self.is_gift);
        put(&mut entries, "user_id", user_id_json);
        put(&mut entries, "user_login", user_login_json);
        put(&mut entries, "user_name", user_name_json);
        put(&mut entries, "broadcaster_user_id", broadcaster_id_json);
        put(&mut entries, "broadcaster_user_login", broadcaster_login_json);
        put(&mut entries, "broadcaster_user_name", broadcaster_name_json);
        put(&mut entries, "tier", tier_json);
        put(&mut entries, "is_gift", is_gift_json);
        proof {
            assert(member(entries@, "user_id"@) == Some(user_id_json));
            assert(member(entries@, "user_login"@) == Some(user_login_json));
            assert(member(entries@, "user_name"@) == Some(user_name_json));
            assert(member(entries@, "broadcaster_user_id"@) == Some(broadcaster_id_json));
            assert(member(entries@, "broadcaster_user_login"@) == Some(broadcaster_login_json));
            assert(member(entries@, "broadcaster_user_name"@) == Some(broadcaster_name_json));
            assert(member(entries@, "tier"@) == Some(tier_json));
            assert(member(entries@, "is_gift"@) == Some(is_gift_json));
        }
        Json::Object(entries)
    }
}

/// An event of the category `channel.subscription.end`.
#[derive(Debug)]
pub struct SubscriptionEnd {
    pub user: User,
    pub broadcaster: User,
    pub tier: String,
    pub is_gift: bool,
}

impl FromJson for SubscriptionEnd {
    open spec fn parses(j: Json) -> bool {
        &&& User::parses(j, "user_id"@, "user_login"@, "user_name"@)
        &&& User::parses(
            j,
            "broadcaster_user_id"@,
            "broadcaster_user_login"@,
            "broadcaster_user_name"@,
        )
        &&& j.spec_text("tier"@) is Some
        &&& j.spec_flag("is_gift"@) is Some
    }

    open spec fn parsed_as(j: Json, v: SubscriptionEnd) -> bool {
        &&& User::parsed_as(j, "user_id"@, "user_login"@, "user_name"@, v.user)
        &&& User::parsed_as(
            j,
            "broadcaster_user_id"@,
            "broadcaster_user_login"@,
            "broadcaster_user_name"@,
            v.broadcaster,
        )
        &&& j.spec_text("tier"@) == Some(v.tier)
        &&& j.spec_flag("is_gift"@) == Some(v.is_gift)
    }

    fn from_json(j: &Json) -> (r: Option<SubscriptionEnd>) {
        let user = User::from_json(j, "user_id", "user_login", "user_name");
        let broadcaster = User::from_json(
            j,
            "broadcaster_user_id",
            "broadcaster_user_login",
            "broadcaster_user_name",
        );
        let tier = j.text("tier");
        let is_gift = j.flag("is_gift");
        if user.is_some() && broadcaster.is_some() && tier.is_some() && is_gift.is_some() {
            Some(
                SubscriptionEnd {
                    user: user.unwrap(),
                    broadcaster: broadcaster.unwrap(),
                    tier: tier.unwrap(),
                    is_gift: is_gift.unwrap(),
                },
            )
        } else {
            None
        }
    }
}

impl ToJson for SubscriptionEnd {
    fn to_json(&self) -> (r: Json) {
        let mut entries: Vec<(String, Json)> = Vec::new();
        proof {
            reveal_strlit("user_id");
            reveal_strlit("user_login");
            reveal_strlit("user_name");
            reveal_strlit("broadcaster_user_id");
            reveal_strlit("broadcaster_user_login");
            reveal_strlit("broadcaster_user_name");
            reveal_strlit("tier");
            reveal_strlit("is_gift");
            assert("user_id"@.len() == 7);
            assert("user_login"@.len() == 10);
            assert("user_name"@.len() == 9);
            assert("broadcaster_user_id"@.len() == 19);
            assert("broadcaster_user_login"@.len() == 22);
            assert("broadcaster_user_name"@.len() == 21);
            assert("tier"@.len() == 4);
            assert("is_gift"@.len() == 7);
            assert("user_id"@[0] != "is_gift"@[0]);
        }
        let user_id_json = Json::Text(self.user.user_id.clone());
        let user_login_json = Json::Text(self.user.user_login.clone());
        let user_name_json = Json::Text(self.user.user_name.clone());
        let broadcaster_id_json = Json::Text(self.broadcaster.user_id.clone());
        let broadcaster_login_json = Json::Text(self.broadcaster.user_login.clone());
        let broadcaster_name_json = Json::Text(self.broadcaster.user_name.clone());
        let tier_json = Json::Text(self.tier.clone());
        let is_gift_json = Json::Bool(self.is_gift);
        put(&mut entries, "user_id", user_id_json);
        put(&mut entries, "user_login", user_login_json);
        put(&mut entries, "user_name", user_name_json);
        put(&mut entries, "broadcaster_user_id", broadcaster_id_json);
        put(&mut entries, "broadcaster_user_login", broadcaster_login_json);
        put(&mut entries, "broadcaster_user_name", broadcaster_name_json);
        put(&mut entries, "tier", tier_json);
        put(&mut entries, "is_gift", is_gift_json);
        proof {
            assert(member(entries@, "user_id"@) == Some(user_id_json));
            assert(member(entries@, "user_login"@) == Some(user_login_json));
            assert(member(entries@, "user_name"@) == Some(user_name_json));
            assert(member(entries@, "broadcaster_user_id"@) == Some(broadcaster_id_json));
            assert(member(entries@, "broadcaster_user_login"@) == Some(broadcaster_login_json));
            assert(member(entries@, "broadcaster_user_name"@) == Some(broadcaster_name_json));
            assert(member(entries@, "tier"@) == Some(tier_json));
            assert(member(entries@, "is_gift"@) == Some(is_gift_json));
        }
        Json::Object(entries)
    }
}

/// An event of the category `channel.subscription.gift`.
#[derive(Debug)]
pub struct SubscriptionGift {
    pub user: User,
    pub broadcaster: User,
    pub total: u32,
    pub tier: String,
    pub cumulative_total: Option<u32>,
    pub is_anonymous: bool,
}

impl FromJson for SubscriptionGift {
    open spec fn parses(j: Json) -> bool {
        &&& User::parses(j, "user_id"@, "user_login"@, "user_name"@)
        &&& User::parses(
            j,
            "broadcaster_user_id"@,
            "broadcaster_user_login"@,
            "broadcaster_user_name"@,
        )
        &&& j.spec_count32("total"@) is Some
        &&& j.spec_text("tier"@) is Some
        &&& j.spec_optional_count32("cumulative_total"@) is Some
        &&& j.spec_flag("is_anonymous"@) is Some
    }

    open spec fn parsed_as(j: Json, v: SubscriptionGift) -> bool {
        &&& User::parsed_as(j, "user_id"@, "user_login"@, "user_name"@, v.user)
        &&& User::parsed_as(
            j,
            "broadcaster_user_id"@,
            "broadcaster_user_login"@,
            "broadcaster_user_name"@,
            v.broadcaster,
        )
        &&& j.spec_count32("total"@) == Some(v.total)
        &&& j.spec_text("tier"@) == Some(v.tier)
        &&& j.spec_optional_count32("cumulative_total"@) == Some(v.cumulative_total)
        &&& j.spec_flag("is_anonymous"@) == Some(v.is_anonymous)
    }

    fn from_json(j: &Json) -> (r: Option<SubscriptionGift>) {
        let user = User::from_json(j, "user_id", "user_login", "user_name");
        let broadcaster = User::from_json(
            j,
            "broadcaster_user_id",
            "broadcaster_user_login",
            "broadcaster_user_name",
        );
        let total = j.count32("total");
        let tier = j.text("tier");
        let cumulative_total = j.optional_count32("cumulative_total");
        let is_anonymous = j.flag("is_anonymous");
        if user.is_some() && broadcaster.is_some() && total.is_some() && tier.is_some()
            && cumulative_total.is_some() && is_anonymous.is_some() {
            Some(
                SubscriptionGift {
                    user: user.unwrap(),
                    broadcaster: broadcaster.unwrap(),
                    total: total.unwrap(),
                    tier: tier.unwrap(),
                    cumulative_total: cumulative_total.unwrap(),
                    is_anonymous: is_anonymous.unwrap(),
                },
            )
        } else {
            None
        }
    }
}

impl ToJson for SubscriptionGift {
    fn to_json(&self) -> (r: Json) {
        let mut entries: Vec<(String, Json)> = Vec::new();
        proof {
            reveal_strlit("user_id");
            reveal_strlit("user_login");
            reveal_strlit("user_name");
            reveal_strlit("broadcaster_user_id");
            reveal_strlit("broadcaster_user_login");
            reveal_strlit("broadcaster_user_name");
            reveal_strlit("total");
            reveal_strlit("tier");
            reveal_strlit("cumulative_total");
            reveal_strlit("is_anonymous");
            assert("user_id"@.len() == 7);
            assert("user_login"@.len() == 10);
            assert("user_name"@.len() == 9);
            assert("broadcaster_user_id"@.len() == 19);
            assert("broadcaster_user_login"@.len() == 22);
            assert("broadcaster_user_name"@.len() == 21);
            assert("total"@.len() == 5);
            assert("tier"@.len() == 4);
            assert("cumulative_total"@.len() == 16);
            assert("is_anonymous"@.len() == 12);
        }
        let user_id_json = Json::Text(self.user.user_id.clone());
        let user_login_json = Json::Text(self.user.user_login.clone());
        let user_name_json = Json::Text(self.user.user_name.clone());
        let broadcaster_id_json = Json::Text(self.broadcaster.user_id.clone());
        let broadcaster_login_json = Json::Text(self.broadcaster.user_login.clone());
        let broadcaster_name_json = Json::Text(self.broadcaster.user_name.clone());
        let total_json = count_json(self.total as u64);
        let tier_json = Json::Text(self.tier.clone());
        let cumulative_total_json = optional_count32_json(&self.cumulative_total);
        let is_anonymous_json = Json::Bool(self.is_anonymous);
        put(&mut entries, "user_id", user_id_json);
        put(&mut entries, "user_login", user_login_json);
        put(&mut entries, "user_name", user_name_json);
        put(&mut entries, "broadcaster_user_id", broadcaster_id_json);
        put(&mut entries, "broadcaster_user_login", broadcaster_login_json);
        put(&mut entries, "broadcaster_user_name", broadcaster_name_json);
        put(&mut entries, "total", total_json);
        put(&mut entries, "tier", tier_json);
        put(&mut entries, "cumulative_total", cumulative_total_json);
        put(&mut entries, "is_anonymous", is_anonymous_json);
        proof {
            assert(member(entries@, "user_id"@) == Some(user_id_json));
            assert(member(entries@, "user_login"@) == Some(user_login_json));
            assert(member(entries@, "user_name"@) == Some(user_name_json));
            assert(member(entries@, "broadcaster_user_id"@) == Some(broadcaster_id_json));
            assert(member(entries@, "broadcaster_user_login"@) == Some(broadcaster_login_json));
            assert(member(entries@, "broadcaster_user_name"@) == Some(broadcaster_name_json));
            assert(member(entries@, "total"@) == Some(total_json));
            assert(member(entries@, "tier"@) == Some(tier_json));
            assert(member(entries@, "cumulative_total"@) == Some(cumulative_total_json));
            assert(member(entries@, "is_anonymous"@) == Some(is_anonymous_json));
        }
        Json::Object(entries)
    }
}

/// An event of the category `channel.subscription.message`.
#[derive(Debug)]
pub struct SubscriptionMessage {
    pub user: User,
    pub broadcaster: User,
    pub tier: String,
    pub message: MessageSimple,
    pub cumulative_months: u32,
    pub streak_months: Option<u32>,
    pub duration_months: u32,
}

impl FromJson for SubscriptionMessage {
    open spec fn parses(j: Json) -> bool {
        &&& User::parses(j, "user_id"@, "user_login"@, "user_name"@)
        &&& User::parses(
            j,
            "broadcaster_user_id"@,
            "broadcaster_user_login"@,
            "broadcaster_user_name"@,
        )
        &&& j.spec_text("tier"@) is Some
        &&& member_parses::<MessageSimple>(j, "message"@)
        &&& j.spec_count32("cumulative_months"@) is Some
        &&& j.spec_optional_count32("streak_months"@) is Some
        &&& j.spec_count32("duration_months"@) is Some
    }

    open spec fn parsed_as(j: Json, v: SubscriptionMessage) -> bool {
        &&& User::parsed_as(j, "user_id"@, "user_login"@, "user_name"@, v.user)
        &&& User::parsed_as(
            j,
            "broadcaster_user_id"@,
            "broadcaster_user_login"@,
            "broadcaster_user_name"@,
            v.broadcaster,
        )
        &&& j.spec_text("tier"@) == Some(v.tier)
        &&& member_parsed_as(j, "message"@, v.message)
        &&& j.spec_count32("cumulative_months"@) == Some(v.cumulative_months)
        &&& j.spec_optional_count32("streak_months"@) == Some(v.streak_months)
        &&& j.spec_count32("duration_months"@) == Some(v.duration_months)
    }

    fn from_json(j: &Json) -> (r: Option<SubscriptionMessage>) {
        let user = User::from_json(j, "user_id", "user_login", "user_name");
        let broadcaster = User::from_json(
            j,
            "broadcaster_user_id",
            "broadcaster_user_login",
            "broadcaster_user_name",
        );
        let tier = j.text("tier");
        let message = read_member::<MessageSimple>(j, "message");
        let cumulative_months = j.count32("cumulative_months");
        let streak_months = j.optional_count32("streak_months");
        let duration_months = j.count32("duration_months");
        if user.is_some() && broadcaster.is_some() && tier.is_some() && message.is_some()
            && cumulative_months.is_some() && streak_months.is_some() && duration_months.is_some() {
            Some(
                SubscriptionMessage {
                    user: user.unwrap(),
                    broadcaster: broadcaster.unwrap(),
                    tier: tier.unwrap(),
                    message: message.unwrap(),
                    cumulative_months: cumulative_months.unwrap(),
                    streak_months: streak_months.unwrap(),
                    duration_months: duration_months.unwrap(),
                },
            )
        } else {
            None
        }
    }
}

impl ToJson for SubscriptionMessage {
    fn to_json(&self) -> (r: Json) {
        let mut entries: Vec<(String, Json)> = Vec::new();
        proof {
            reveal_strlit("user_id");
            reveal_strlit("user_login");
            reveal_strlit("user_name");
            reveal_strlit("broadcaster_user_id");
            reveal_strlit("broadcaster_user_login");
            reveal_strlit("broadcaster_user_name");
            reveal_strlit("tier");
            reveal_strlit("message");
            reveal_strlit("cumulative_months");
            reveal_strlit("streak_months");
            reveal_strlit("duration_months");
            assert("user_id"@.len() == 7);
            assert("user_login"@.len() == 10);
            assert("user_name"@.len() == 9);
            assert("broadcaster_user_id"@.len() == 19);
            assert("broadcaster_user_login"@.len() == 22);
            assert("broadcaster_user_name"@.len() == 21);
            assert("tier"@.len() == 4);
            assert("message"@.len() == 7);
            assert("cumulative_months"@.len() == 17);
            assert("streak_months"@.len() == 13);
            assert("duration_months"@.len() == 15);
            assert("user_id"@[0] != "message"@[0]);
        }
        let user_id_json = Json::Text(self.user.user_id.clone());
        let user_login_json = Json::Text(self.user.user_login.clone());
        let user_name_json = Json::Text(self.user.user_name.clone());
        let broadcaster_id_json = Json::Text(self.broadcaster.user_id.clone());
        let broadcaster_login_json = Json::Text(self.broadcaster.user_login.clone());
        let broadcaster_name_json = Json::Text(self.broadcaster.user_name.clone());
        let tier_json = Json::Text(self.tier.clone());
        let message_json = self.message.to_json();
        let cumulative_months_json = count_json(self.cumulative_months as u64);
        let streak_months_json = optional_count32_json(&self.streak_months);
        let duration_months_json = count_json(self.duration_months as u64);
        put(&mut entries, "user_id", user_id_json);
        put(&mut entries, "user_login", user_login_json);
        put(&mut entries, "user_name", user_name_json);
        put(&mut entries, "broadcaster_user_id", broadcaster_id_json);
        put(&mut entries, "broadcaster_user_login", broadcaster_login_json);
        put(&mut entries, "broadcaster_user_name", broadcaster_name_json);
        put(&mut entries, "tier", tier_json);
        put(&mut entries, "message", message_json);
        put(&mut entries, "cumulative_months", cumulative_months_json);
        put(&mut entries, "streak_months", streak_months_json);
        put(&mut entries, "duration_months", duration_months_json);
        proof {
            assert(member(entries@, "user_id"@) == Some(user_id_json));
            assert(member(entries@, "user_login"@) == Some(user_login_json));
            assert(member(entries@, "user_name"@) == Some(user_name_json));
            assert(member(entries@, "broadcaster_user_id"@) == Some(broadcaster_id_json));
            assert(member(entries@, "broadcaster_user_login"@) == Some(broadcaster_login_json));
            assert(member(entries@, "broadcaster_user_name"@) == Some(broadcaster_name_json));
            assert(member(entries@, "tier"@) == Some(tier_json));
            assert(member(entries@, "message"@) == Some(message_json));
            assert(member(entries@, "cumulative_months"@) == Some(cumulative_months_json));
            assert(member(entries@, "streak_months"@) == Some(streak_months_json));
            assert(member(entries@, "duration_months"@) == Some(duration_months_json));
        }
        Json::Object(entries)
    }
}

} // verus!
