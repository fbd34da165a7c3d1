//! Events about charity campaigns.

use vstd::prelude::*;
use crate::json::Json;
use crate::json::FromJson;
use crate::json::ToJson;
use crate::json::put;
use crate::json::member;
use crate::json::read_member;
use crate::json::member_parses;
use crate::json::member_parsed_as;
use crate::eventsub::events::DonationAmount;
use crate::eventsub::events::User;

verus! {

/// An event of the category `channel.charity_campaign.donate`.
#[derive(Debug)]
pub struct CharityDonation {
    pub id: String,
    pub campaign_id: String,
    pub broadcaster: User,
    pub user: User,
    pub charity_name: String,
    pub charity_description: String,
    pub charity_logo: String,
    pub charity_website: String,
    pub amount: DonationAmount,
}

impl FromJson for CharityDonation {
    open spec fn parses(j: Json) -> bool {
        &&& j.spec_text("id"@) is Some
        &&& j.spec_text("campaign_id"@) is Some
        &&& User::parses(
            j,
            "broadcaster_user_id"@,
            "broadcaster_user_login"@,
            "broadcaster_user_name"@,
        )
        &&& User::parses(j, "user_id"@, "user_login"@, "user_name"@)
        &&& j.spec_text("charity_name"@) is Some
        &&& j.spec_text("charity_description"@) is Some
        &&& j.spec_text("charity_logo"@) is Some
        &&& j.spec_text("charity_website"@) is Some
        &&& member_parses::<DonationAmount>(j, "amount"@)
    }

    open spec fn parsed_as(j: Json, v: CharityDonation) -> bool {
        &&& j.spec_text("id"@) == Some(v.id)
        &&& j.spec_text("campaign_id"@) == Some(v.campaign_id)
        &&& User::parsed_as(
            j,
            "broadcaster_user_id"@,
            "broadcaster_user_login"@,
            "broadcaster_user_name"@,
            v.broadcaster,
        )
        &&& User::parsed_as(j, "user_id"@, "user_login"@, "user_name"@, v.user)
        &&& j.spec_text("charity_name"@) == Some(v.charity_name)
        &&& j.spec_text("charity_description"@) == Some(v.charity_description)
        &&& j.spec_text("charity_logo"@) == Some(v.charity_logo)
        &&& j.spec_text("charity_website"@) == Some(v.charity_website)
        &&& member_parsed_as(j, "amount"@, v.amount)
    }

    fn from_json(j: &Json) -> (r: Option<CharityDonation>) {
        let id = j.text("id");
        let campaign_id = j.text("campaign_id");
        let broadcaster = User::from_json(
            j,
            "broadcaster_user_id",
            "broadcaster_user_login",
            "broadcaster_user_name",
        );
        let user = User::from_json(j, "user_id", "user_login", "user_name");
        let charity_name = j.text("charity_name");
        let charity_description = j.text("charity_description");
        let charity_logo = j.text("charity_logo");
        let charity_website = j.text("charity_website");
        let amount = read_member::<DonationAmount>(j, "amount");
        if id.is_some() && campaign_id.is_some() && broadcaster.is_some() && user.is_some()
            && charity_name.is_some() && charity_description.is_some() && charity_logo.is_some()
            && charity_website.is_some() && amount.is_some() {
            Some(
                CharityDonation {
                    id: id.unwrap(),
                    campaign_id: campaign_id.unwrap(),
                    broadcaster: broadcaster.unwrap(),
                    user: user.unwrap(),
                    charity_name: charity_name.unwrap(),
                    charity_description: charity_description.unwrap(),
                    charity_logo: charity_logo.unwrap(),
                    charity_website: charity_website.unwrap(),
                    amount: amount.unwrap(),
                },
            )
        } else {
            None
        }
    }
}

impl ToJson for CharityDonation {
    fn to_json(&self) -> (r: Json) {
        let mut entries: Vec<(String, Json)> = Vec::new();
        proof {
            reveal_strlit("id");
            reveal_strlit("campaign_id");
            reveal_strlit("broadcaster_user_id");
            reveal_strlit("broadcaster_user_login");
            reveal_strlit("broadcaster_user_name");
            reveal_strlit("user_id");
            reveal_strlit("user_login");
            reveal_strlit("user_name");
            reveal_strlit("charity_name");
            reveal_strlit("charity_description");
            reveal_strlit("charity_logo");
            reveal_strlit("charity_website");
            reveal_strlit("amount");
            assert("id"@.len() == 2);
            assert("campaign_id"@.len() == 11);
            assert("broadcaster_user_id"@.len() == 19);
            assert("broadcaster_user_login"@.len() == 22);
            assert("broadcaster_user_name"@.len() == 21);
            assert("user_id"@.len() == 7);
            assert("user_login"@.len() == 10);
            assert("user_name"@.len() == 9);
            assert("charity_name"@.len() == 12);
            assert("charity_description"@.len() == 19);
            assert("charity_logo"@.len() == 12);
            assert("charity_website"@.len() == 15);
            assert("amount"@.len() == 6);
            assert("broadcaster_user_id"@[0] != "charity_description"@[0]);
            assert("charity_name"@[8] != "charity_logo"@[8]);
        }
        let id_json = Json::Text(self.id.clone());
        let campaign_id_json = Json::Text(self.campaign_id.clone());
        let broadcaster_id_json = Json::Text(self.broadcaster.user_id.clone());
        let broadcaster_login_json = Json::Text(self.broadcaster.user_login.clone());
        let broadcaster_name_json = Json::Text(self.broadcaster.user_name.clone());
        let user_id_json = Json::Text(self.user.user_id.clone());
        let user_login_json = Json::Text(self.user.user_login.clone());
        let user_name_json = Json::Text(self.user.user_name.clone());
        let charity_name_json = Json::Text(self.charity_name.clone());
        let charity_description_json = Json::Text(self.charity_description.clone());
        let charity_logo_json = Json::Text(self.charity_logo.clone());
        let charity_website_json = Json::Text(self.charity_website.clone());
        let amount_json = self.amount.to_json();
        put(&mut entries, "id", id_json);
        put(&mut entries, "campaign_id", campaign_id_json);
        put(&mut entries, "broadcaster_user_id", broadcaster_id_json);
        put(&mut entries, "broadcaster_user_login", broadcaster_login_json);
        put(&mut entries, "broadcaster_user_name", broadcaster_name_json);
        put(&mut entries, "user_id", user_id_json);
        put(&mut entries, "user_login", user_login_json);
        put(&mut entries, "user_name", user_name_json);
        put(&mut entries, "charity_name", charity_name_json);
        put(&mut entries, "charity_description", charity_description_json);
        put(&mut entries, "charity_logo", charity_logo_json);
        put(&mut entries, "charity_website", charity_website_json);
        put(&mut entries, "amount", amount_json);
        proof {
            assert(member(entries@, "id"@) == Some(id_json));
            assert(member(entries@, "campaign_id"@) == Some(campaign_id_json));
            assert(member(entries@, "broadcaster_user_id"@) == Some(broadcaster_id_json));
            assert(member(entries@, "broadcaster_user_login"@) == Some(broadcaster_login_json));
            assert(member(entries@, "broadcaster_user_name"@) == Some(broadcaster_name_json));
            assert(member(entries@, "user_id"@) == Some(user_id_json));
            assert(member(entries@, "user_login"@) == Some(user_login_json));
            assert(member(entries@, "user_name"@) == Some(user_name_json));
            assert(member(entries@, "charity_name"@) == Some(charity_name_json));
            assert(member(entries@, "charity_description"@) == Some(charity_description_json));
            assert(member(entries@, "charity_logo"@) == Some(charity_logo_json));
            assert(member(entries@, "charity_website"@) == Some(charity_website_json));
            assert(member(entries@, "amount"@) == Some(amount_json));
        }
        Json::Object(entries)
    }
}

/// An event of the category `channel.charity_campaign.start`.
#[derive(Debug)]
pub struct CharityCampaignStart {
    pub id: String,
    pub broadcaster_id: String,
    pub broadcaster_login: String,
    pub broadcaster_name: String,
    pub charity_name: String,
    pub charity_description: String,
    pub charity_logo: String,
    pub charity_website: String,
    pub current_amount: DonationAmount,
    pub target_amount: DonationAmount,
    pub started_at: String,
}

impl FromJson for CharityCampaignStart {
    open spec fn parses(j: Json) -> bool {
        &&& j.spec_text("id"@) is Some
        &&& j.spec_text("broadcaster_id"@) is Some
        &&& j.spec_text("broadcaster_login"@) is Some
        &&& j.spec_text("broadcaster_name"@) is Some
        &&& j.spec_text("charity_name"@) is Some
        &&& j.spec_text("charity_description"@) is Some
        &&& j.spec_text("charity_logo"@) is Some
        &&& j.spec_text("charity_website"@) is Some
        &&& member_parses::<DonationAmount>(j, "current_amount"@)
        &&& member_parses::<DonationAmount>(j, "target_amount"@)
        &&& j.spec_text("started_at"@) is Some
    }

    open spec fn parsed_as(j: Json, v: CharityCampaignStart) -> bool {
        &&& j.spec_text("id"@) == Some(v.id)
        &&& j.spec_text("broadcaster_id"@) == Some(v.broadcaster_id)
        &&& j.spec_text("broadcaster_login"@) == Some(v.broadcaster_login)
        &&& j.spec_text("broadcaster_name"@) == Some(v.broadcaster_name)
        &&& j.spec_text("charity_name"@) == Some(v.charity_name)
        &&& j.spec_text("charity_description"@) == Some(v.charity_description)
        &&& j.spec_text("charity_logo"@) == Some(v.charity_logo)
        &&& j.spec_text("charity_website"@) == Some(v.charity_website)
        &&& member_parsed_as(j, "current_amount"@, v.current_amount)
        &&& member_parsed_as(j, "target_amount"@, v.target_amount)
        &&& j.spec_text("started_at"@) == Some(v.started_at)
    }

    fn from_json(j: &Json) -> (r: Option<CharityCampaignStart>) {
        let id = j.text("id");
        let broadcaster_id = j.text("broadcaster_id");
        let broadcaster_login = j.text("broadcaster_login");
        let broadcaster_name = j.text("broadcaster_name");
        let charity_name = j.text("charity_name");
        let charity_description = j.text("charity_description");
        let charity_logo = j.text("charity_logo");
        let charity_website = j.text("charity_website");
        let current_amount = read_member::<DonationAmount>(j, "current_amount");
        let target_amount = read_member::<DonationAmount>(j, "target_amount");
        let started_at = j.text("started_at");
        if id.is_some() && broadcaster_id.is_some() && broadcaster_login.is_some()
            && broadcaster_name.is_some() && charity_name.is_some()
            && charity_description.is_some() && charity_logo.is_some()
            && charity_website.is_some() && current_amount.is_some() && target_amount.is_some()
            && started_at.is_some() {
            Some(
                CharityCampaignStart {
                    id: id.unwrap(),
                    broadcaster_id: broadcaster_id.unwrap(),
                    broadcaster_login: broadcaster_login.unwrap(),
                    broadcaster_name: broadcaster_name.unwrap(),
                    charity_name: charity_name.unwrap(),
                    charity_description: charity_description.unwrap(),
                    charity_logo: charity_logo.unwrap(),
                    charity_website: charity_website.unwrap(),
                    current_amount: current_amount.unwrap(),
                    target_amount: target_amount.unwrap(),
                    started_at: started_at.unwrap(),
                },
            )
        } else {
            None
        }
    }
}

impl ToJson for CharityCampaignStart {
    fn to_json(&self) -> (r: Json) {
        let mut entries: Vec<(String, Json)> = Vec::new();
        proof {
            reveal_strlit("id");
            reveal_strlit("broadcaster_id");
            reveal_strlit("broadcaster_login");
            reveal_strlit("broadcaster_name");
            reveal_strlit("charity_name");
            reveal_strlit("charity_description");
            reveal_strlit("charity_logo");
            reveal_strlit("charity_website");
            reveal_strlit("current_amount");
            reveal_strlit("target_amount");
            reveal_strlit("started_at");
            assert("id"@.len() == 2);
            assert("broadcaster_id"@.len() == 14);
            assert("broadcaster_login"@.len() == 17);
            assert("broadcaster_name"@.len() == 16);
            assert("charity_name"@.len() == 12);
            assert("charity_description"@.len() == 19);
            assert("charity_logo"@.len() == 12);
            assert("charity_website"@.len() == 15);
            assert("current_amount"@.len() == 14);
            assert("target_amount"@.len() == 13);
            assert("started_at"@.len() == 10);
            assert("broadcaster_id"@[0] != "current_amount"@[0]);
            assert("charity_name"@[8] != "charity_logo"@[8]);
        }
        let id_json = Json::Text(self.id.clone());
        let broadcaster_id_json = Json::Text(self.broadcaster_id.clone());
        let broadcaster_login_json = Json::Text(self.broadcaster_login.clone());
        let broadcaster_name_json = Json::Text(self.broadcaster_name.clone());
        let charity_name_json = Json::Text(self.charity_name.clone());
        let charity_description_json = Json::Text(self.charity_description.clone());
        let charity_logo_json = Json::Text(self.charity_logo.clone());
        let charity_website_json = Json::Text(self.charity_website.clone());
        let current_amount_json = self.current_amount.to_json();
        let target_amount_json = self.target_amount.to_json();
        let started_at_json = Json::Text(self.started_at.clone());
        put(&mut entries, "id", id_json);
        put(&mut entries, "broadcaster_id", broadcaster_id_json);
        put(&mut entries, "broadcaster_login", broadcaster_login_json);
        put(&mut entries, "broadcaster_name", broadcaster_name_json);
        put(&mut entries, "charity_name", charity_name_json);
        put(&mut entries, "charity_description", charity_description_json);
        put(&mut entries, "charity_logo", charity_logo_json);
        put(&mut entries, "charity_website", charity_website_json);
        put(&mut entries, "current_amount", current_amount_json);
        put(&mut entries, "target_amount", target_amount_json);
        put(&mut entries, "started_at", started_at_json);
        proof {
            assert(member(entries@, "id"@) == Some(id_json));
            assert(member(entries@, "broadcaster_id"@) == Some(broadcaster_id_json));
            assert(member(entries@, "broadcaster_login"@) == Some(broadcaster_login_json));
            assert(member(entries@, "broadcaster_name"@) == Some(broadcaster_name_json));
            assert(member(entries@, "charity_name"@) == Some(charity_name_json));
            assert(member(entries@, "charity_description"@) == Some(charity_description_json));
            assert(member(entries@, "charity_logo"@) == Some(charity_logo_json));
            assert(member(entries@, "charity_website"@) == Some(charity_website_json));
            assert(member(entries@, "current_amount"@) == Some(current_amount_json));
            assert(member(entries@, "target_amount"@) == Some(target_amount_json));
            assert(member(entries@, "started_at"@) == Some(started_at_json));
        }
        Json::Object(entries)
    }
}

/// An event of the category `channel.charity_campaign.progress`.
#[derive(Debug)]
pub struct CharityCampaignProgress {
    pub id: String,
    pub broadcaster_id: String,
    pub broadcaster_login: String,
    pub broadcaster_name: String,
    pub charity_name: String,
    pub charity_description: String,
    pub charity_logo: String,
    pub charity_website: String,
    pub current_amount: DonationAmount,
    pub target_amount: DonationAmount,
}

impl FromJson for CharityCampaignProgress {
    open spec fn parses(j: Json) -> bool {
        &&& j.spec_text("id"@) is Some
        &&& j.spec_text("broadcaster_id"@) is Some
        &&& j.spec_text("broadcaster_login"@) is Some
        &&& j.spec_text("broadcaster_name"@) is Some
        &&& j.spec_text("charity_name"@) is Some
        &&& j.spec_text("charity_description"@) is Some
        &&& j.spec_text("charity_logo"@) is Some
        &&& j.spec_text("charity_website"@) is Some
        &&& member_parses::<DonationAmount>(j, "current_amount"@)
        &&& member_parses::<DonationAmount>(j, "target_amount"@)
    }

    open spec fn parsed_as(j: Json, v: CharityCampaignProgress) -> bool {
        &&& j.spec_text("id"@) == Some(v.id)
        &&& j.spec_text("broadcaster_id"@) == Some(v.broadcaster_id)
        &&& j.spec_text("broadcaster_login"@) == Some(v.broadcaster_login)
        &&& j.spec_text("broadcaster_name"@) == Some(v.broadcaster_name)
        &&& j.spec_text("charity_name"@) == Some(v.charity_name)
        &&& j.spec_text("charity_description"@) == Some(v.charity_description)
        &&& j.spec_text("charity_logo"@) == Some(v.charity_logo)
        &&& j.spec_text("charity_website"@) == Some(v.charity_website)
        &&& member_parsed_as(j, "current_amount"@, v.current_amount)
        &&& member_parsed_as(j, "target_amount"@, v.target_amount)
    }

    fn from_json(j: &Json) -> (r: Option<CharityCampaignProgress>) {
        let id = j.text("id");
        let broadcaster_id = j.text("broadcaster_id");
        let broadcaster_login = j.text("broadcaster_login");
        let broadcaster_name = j.text("broadcaster_name");
        let charity_name = j.text("charity_name");
        let charity_description = j.text("charity_description");
        let charity_logo = j.text("charity_logo");
        let charity_website = j.text("charity_website");
        let current_amount = read_member::<DonationAmount>(j, "current_amount");
        let target_amount = read_member::<DonationAmount>(j, "target_amount");
        if id.is_some() && broadcaster_id.is_some() && broadcaster_login.is_some()
            && broadcaster_name.is_some() && charity_name.is_some()
            && charity_description.is_some() && charity_logo.is_some()
            && charity_website.is_some() && current_amount.is_some() && target_amount.is_some() {
            Some(
                CharityCampaignProgress {
                    id: id.unwrap(),
                    broadcaster_id: broadcaster_id.unwrap(),
                    broadcaster_login: broadcaster_login.unwrap(),
                    broadcaster_name: broadcaster_name.unwrap(),
                    charity_name: charity_name.unwrap(),
                    charity_description: charity_description.unwrap(),
                    charity_logo: charity_logo.unwrap(),
                    charity_website: charity_website.unwrap(),
                    current_amount: current_amount.unwrap(),
                    target_amount: target_amount.unwrap(),
                },
            )
        } else {
            None
        }
    }
}

impl ToJson for CharityCampaignProgress {
    fn to_json(&self) -> (r: Json) {
        let mut entries: Vec<(String, Json)> = Vec::new();
        proof {
            reveal_strlit("id");
            reveal_strlit("broadcaster_id");
            reveal_strlit("broadcaster_login");
            reveal_strlit("broadcaster_name");
            reveal_strlit("charity_name");
            reveal_strlit("charity_description");
            reveal_strlit("charity_logo");
            reveal_strlit("charity_website");
            reveal_strlit("current_amount");
            reveal_strlit("target_amount");
            assert("id"@.len() == 2);
            assert("broadcaster_id"@.len() == 14);
            assert("broadcaster_login"@.len() == 17);
            assert("broadcaster_name"@.len() == 16);
            assert("charity_name"@.len() == 12);
            assert("charity_description"@.len() == 19);
            assert("charity_logo"@.len() == 12);
            assert("charity_website"@.len() == 15);
            assert("current_amount"@.len() == 14);
            assert("target_amount"@.len() == 13);
            assert("broadcaster_id"@[0] != "current_amount"@[0]);
            assert("charity_name"@[8] != "charity_logo"@[8]);
        }
        let id_json = Json::Text(self.id.clone());
        let broadcaster_id_json = Json::Text(self.broadcaster_id.clone());
        let broadcaster_login_json = Json::Text(self.broadcaster_login.clone());
        let broadcaster_name_json = Json::Text(self.broadcaster_name.clone());
        let charity_name_json = Json::Text(self.charity_name.clone());
        let charity_description_json = Json::Text(self.charity_description.clone());
        let charity_logo_json = Json::Text(self.charity_logo.clone());
        let charity_website_json = Json::Text(self.charity_website.clone());
        let current_amount_json = self.current_amount.to_json();
        let target_amount_json = self.target_amount.to_json();
        put(&mut entries, "id", id_json);
        put(&mut entries, "broadcaster_id", broadcaster_id_json);
        put(&mut entries, "broadcaster_login", broadcaster_login_json);
        put(&mut entries, "broadcaster_name", broadcaster_name_json);
        put(&mut entries, "charity_name", charity_name_json);
        put(&mut entries, "charity_description", charity_description_json);
        put(&mut entries, "charity_logo", charity_logo_json);
        put(&mut entries, "charity_website", charity_website_json);
        put(&mut entries, "current_amount", current_amount_json);
        put(&mut entries, "target_amount", target_amount_json);
        proof {
            assert(member(entries@, "id"@) == Some(id_json));
            assert(member(entries@, "broadcaster_id"@) == Some(broadcaster_id_json));
            assert(member(entries@, "broadcaster_login"@) == Some(broadcaster_login_json));
            assert(member(entries@, "broadcaster_name"@) == Some(broadcaster_name_json));
            assert(member(entries@, "charity_name"@) == Some(charity_name_json));
            assert(member(entries@, "charity_description"@) == Some(charity_description_json));
            assert(member(entries@, "charity_logo"@) == Some(charity_logo_json));
            assert(member(entries@, "charity_website"@) == Some(charity_website_json));
            assert(member(entries@, "current_amount"@) == Some(current_amount_json));
            assert(member(entries@, "target_amount"@) == Some(target_amount_json));
        }
        Json::Object(entries)
    }
}

/// An event of the category `channel.charity_campaign.stop`.
#[derive(Debug)]
pub struct CharityCampaignStop {
    pub id: String,
    pub broadcaster_id: String,
    pub broadcaster_login: String,
    pub broadcaster_name: String,
    pub charity_name: String,
    pub charity_description: String,
    pub charity_logo: String,
    pub charity_website: String,
    pub current_amount: DonationAmount,
    pub target_amount: DonationAmount,
    pub stopped_at: String,
}

impl FromJson for CharityCampaignStop {
    open spec fn parses(j: Json) -> bool {
        &&& j.spec_text("id"@) is Some
        &&& j.spec_text("broadcaster_id"@) is Some
        &&& j.spec_text("broadcaster_login"@) is Some
        &&& j.spec_text("broadcaster_name"@) is Some
        &&& j.spec_text("charity_name"@) is Some
        &&& j.spec_text("charity_description"@) is Some
        &&& j.spec_text("charity_logo"@) is Some
        &&& j.spec_text("charity_website"@) is Some
        &&& member_parses::<DonationAmount>(j, "current_amount"@)
        &&& member_parses::<DonationAmount>(j, "target_amount"@)
        &&& j.spec_text("stopped_at"@) is Some
    }

    open spec fn parsed_as(j: Json, v: CharityCampaignStop) -> bool {
        &&& j.spec_text("id"@) == Some(v.id)
        &&& j.spec_text("broadcaster_id"@) == Some(v.broadcaster_id)
        &&& j.spec_text("broadcaster_login"@) == Some(v.broadcaster_login)
        &&& j.spec_text("broadcaster_name"@) == Some(v.broadcaster_name)
        &&& j.spec_text("charity_name"@) == Some(v.charity_name)
        &&& j.spec_text("charity_description"@) == Some(v.charity_description)
        &&& j.spec_text("charity_logo"@) == Some(v.charity_logo)
        &&& j.spec_text("charity_website"@) == Some(v.charity_website)
        &&& member_parsed_as(j, "current_amount"@, v.current_amount)
        &&& member_parsed_as(j, "target_amount"@, v.target_amount)
        &&& j.spec_text("stopped_at"@) == Some(v.stopped_at)
    }

    fn from_json(j: &Json) -> (r: Option<CharityCampaignStop>) {
        let id = j.text("id");
        let broadcaster_id = j.text("broadcaster_id");
        let broadcaster_login = j.text("broadcaster_login");
        let broadcaster_name = j.text("broadcaster_name");
        let charity_name = j.text("charity_name");
        let charity_description = j.text("charity_description");
        let charity_logo = j.text("charity_logo");
        let charity_website = j.text("charity_website");
        let current_amount = read_member::<DonationAmount>(j, "current_amount");
        let target_amount = read_member::<DonationAmount>(j, "target_amount");
        let stopped_at = j.text("stopped_at");
        if id.is_some() && broadcaster_id.is_some() && broadcaster_login.is_some()
            && broadcaster_name.is_some() && charity_name.is_some()
            && charity_description.is_some() && charity_logo.is_some()
            && charity_website.is_some() && current_amount.is_some() && target_amount.is_some()
            && stopped_at.is_some() {
            Some(
                CharityCampaignStop {
                    id: id.unwrap(),
                    broadcaster_id: broadcaster_id.unwrap(),
                    broadcaster_login: broadcaster_login.unwrap(),
                    broadcaster_name: broadcaster_name.unwrap(),
                    charity_name: charity_name.unwrap(),
                    charity_description: charity_description.unwrap(),
                    charity_logo: charity_logo.unwrap(),
                    charity_website: charity_website.unwrap(),
                    current_amount: current_amount.unwrap(),
                    target_amount: target_amount.unwrap(),
                    stopped_at: stopped_at.unwrap(),
                },
            )
        } else {
            None
        }
    }
}

impl ToJson for CharityCampaignStop {
    fn to_json(&self) -> (r: Json) {
        let mut entries: Vec<(String, Json)> = Vec::new();
        proof {
            reveal_strlit("id");
            reveal_strlit("broadcaster_id");
            reveal_strlit("broadcaster_login");
            reveal_strlit("broadcaster_name");
            reveal_strlit("charity_name");
            reveal_strlit("charity_description");
            reveal_strlit("charity_logo");
            reveal_strlit("charity_website");
            reveal_strlit("current_amount");
            reveal_strlit("target_amount");
            reveal_strlit("stopped_at");
            assert("id"@.len() == 2);
            assert("broadcaster_id"@.len() == 14);
            assert("broadcaster_login"@.len() == 17);
            assert("broadcaster_name"@.len() == 16);
            assert("charity_name"@.len() == 12);
            assert("charity_description"@.len() == 19);
            assert("charity_logo"@.len() == 12);
            assert("charity_website"@.len() == 15);
            assert("current_amount"@.len() == 14);
            assert("target_amount"@.len() == 13);
            assert("stopped_at"@.len() == 10);
            assert("broadcaster_id"@[0] != "current_amount"@[0]);
            assert("charity_name"@[8] != "charity_logo"@[8]);
        }
        let id_json = Json::Text(self.id.clone());
        let broadcaster_id_json = Json::Text(self.broadcaster_id.clone());
        let broadcaster_login_json = Json::Text(self.broadcaster_login.clone());
        let broadcaster_name_json = Json::Text(self.broadcaster_name.clone());
        let charity_name_json = Json::Text(self.charity_name.clone());
        let charity_description_json = Json::Text(self.charity_description.clone());
        let charity_logo_json = Json::Text(self.charity_logo.clone());
        let charity_website_json = Json::Text(self.charity_website.clone());
        let current_amount_json = self.current_amount.to_json();
        let target_amount_json = self.target_amount.to_json();
        let stopped_at_json = Json::Text(self.stopped_at.clone());
        put(&mut entries, "id", id_json);
        put(&mut entries, "broadcaster_id", broadcaster_id_json);
        put(&mut entries, "broadcaster_login", broadcaster_login_json);
        put(&mut entries, "broadcaster_name", broadcaster_name_json);
        put(&mut entries, "charity_name", charity_name_json);
        put(&mut entries, "charity_description", charity_description_json);
        put(&mut entries, "charity_logo", charity_logo_json);
        put(&mut entries, "charity_website", charity_website_json);
        put(&mut entries, "current_amount", current_amount_json);
        put(&mut entries, "target_amount", target_amount_json);
        put(&mut entries, "stopped_at", stopped_at_json);
        proof {
            assert(member(entries@, "id"@) == Some(id_json));
            assert(member(entries@, "broadcaster_id"@) == Some(broadcaster_id_json));
            assert(member(entries@, "broadcaster_login"@) == Some(broadcaster_login_json));
            assert(member(entries@, "broadcaster_name"@) == Some(broadcaster_name_json));
            assert(member(entries@, "charity_name"@) == Some(charity_name_json));
            assert(member(entries@, "charity_description"@) == Some(charity_description_json));
            assert(member(entries@, "charity_logo"@) == Some(charity_logo_json));
            assert(member(entries@, "charity_website"@) == Some(charity_website_json));
            assert(member(entries@, "current_amount"@) == Some(current_amount_json));
            assert(member(entries@, "target_amount"@) == Some(target_amount_json));
            assert(member(entries@, "stopped_at"@) == Some(stopped_at_json));
        }
        Json::Object(entries)
    }
}

} // verus!
