//! Events about polls.

use vstd::prelude::*;
use crate::json::Json;
use crate::json::FromJson;
use crate::json::ToJson;
use crate::json::put;
use crate::json::member;
use crate::json::write_all;
use crate::json::count_json;
use crate::json::read_member;
use crate::json::read_list;
use crate::json::member_parses;
use crate::json::member_parsed_as;
use crate::json::list_parses;
use crate::json::list_parsed_as;
use crate::json::same_text;
use crate::eventsub::events::User;

verus! {

/// An event of the category `channel.poll.begin`.
#[derive(Debug)]
pub struct PollBegin {
    pub id: String,
    pub broadcaster: User,
    pub title: String,
    pub choices: Vec<Choice>,
    pub bits_voting: ExtraVotes,
    pub channel_points_voting: ExtraVotes,
    pub started_at: String,
    pub ends_at: String,
}

impl FromJson for PollBegin {
    open spec fn parses(j: Json) -> bool {
        &&& j.spec_text("id"@) is Some
        &&& User::parses(
            j,
            "broadcaster_user_id"@,
            "broadcaster_user_login"@,
            "broadcaster_user_name"@,
        )
        &&& j.spec_text("title"@) is Some
        &&& list_parses::<Choice>(j, "choices"@)
        &&& member_parses::<ExtraVotes>(j, "bits_voting"@)
        &&& member_parses::<ExtraVotes>(j, "channel_points_voting"@)
        &&& j.spec_text("started_at"@) is Some
        &&& j.spec_text("ends_at"@) is Some
    }

    open spec fn parsed_as(j: Json, v: PollBegin) -> bool {
        &&& j.spec_text("id"@) == Some(v.id)
        &&& User::parsed_as(
            j,
            "broadcaster_user_id"@,
            "broadcaster_user_login"@,
            "broadcaster_user_name"@,
            v.broadcaster,
        )
        &&& j.spec_text("title"@) == Some(v.title)
        &&& list_parsed_as(j, "choices"@, v.choices@)
        &&& member_parsed_as(j, "bits_voting"@, v.bits_voting)
        &&& member_parsed_as(j, "channel_points_voting"@, v.channel_points_voting)
        &&& j.spec_text("started_at"@) == Some(v.started_at)
        &&& j.spec_text("ends_at"@) == Some(v.ends_at)
    }

    fn from_json(j: &Json) -> (r: Option<PollBegin>) {
        let id = j.text("id");
        let broadcaster = User::from_json(
            j,
            "broadcaster_user_id",
            "broadcaster_user_login",
            "broadcaster_user_name",
        );
        let title = j.text("title");
        let choices = read_list::<Choice>(j, "choices");
        let bits_voting = read_member::<ExtraVotes>(j, "bits_voting");
        let channel_points_voting = read_member::<ExtraVotes>(j, "channel_points_voting");
        let started_at = j.text("started_at");
        let ends_at = j.text("ends_at");
        if id.is_some() && broadcaster.is_some() && title.is_some() && choices.is_some()
            && bits_voting.is_some() && channel_points_voting.is_some() && started_at.is_some()
            && ends_at.is_some() {
            Some(
                PollBegin {
                    id: id.unwrap(),
                    broadcaster: broadcaster.unwrap(),
                    title: title.unwrap(),
                    choices: choices.unwrap(),
                    bits_voting: bits_voting.unwrap(),
                    channel_points_voting: channel_points_voting.unwrap(),
                    started_at: started_at.unwrap(),
                    ends_at: ends_at.unwrap(),
                },
            )
        } else {
            None
        }
    }
}

impl ToJson for PollBegin {
    fn to_json(&self) -> (r: Json) {
        let mut entries: Vec<(String, Json)> = Vec::new();
        proof {
            reveal_strlit("id");
            reveal_strlit("broadcaster_user_id");
            reveal_strlit("broadcaster_user_login");
            reveal_strlit("broadcaster_user_name");
            reveal_strlit("title");
            reveal_strlit("choices");
            reveal_strlit("bits_voting");
            reveal_strlit("channel_points_voting");
            reveal_strlit("started_at");
            reveal_strlit("ends_at");
            assert("id"@.len() == 2);
            assert("broadcaster_user_id"@.len() == 19);
            assert("broadcaster_user_login"@.len() == 22);
            assert("broadcaster_user_name"@.len() == 21);
            assert("title"@.len() == 5);
            assert("choices"@.len() == 7);
            assert("bits_voting"@.len() == 11);
            assert("channel_points_voting"@.len() == 21);
            assert("started_at"@.len() == 10);
            assert("ends_at"@.len() == 7);
            assert("broadcaster_user_name"@[0] != "channel_points_voting"@[0]);
            assert("choices"@[0] != "ends_at"@[0]);
        }
        let id_json = Json::Text(self.id.clone());
        let broadcaster_id_json = Json::Text(self.broadcaster.user_id.clone());
        let broadcaster_login_json = Json::Text(self.broadcaster.user_login.clone());
        let broadcaster_name_json = Json::Text(self.broadcaster.user_name.clone());
        let title_json = Json::Text(self.title.clone());
        let choices_json = Json::List(write_all(&self.choices));
        let bits_voting_json = self.bits_voting.to_json();
        let channel_points_voting_json = self.channel_points_voting.to_json();
        let started_at_json = Json::Text(self.started_at.clone());
        let ends_at_json = Json::Text(self.ends_at.clone());
        put(&mut entries, "id", id_json);
        put(&mut entries, "broadcaster_user_id", broadcaster_id_json);
        put(&mut entries, "broadcaster_user_login", broadcaster_login_json);
        put(&mut entries, "broadcaster_user_name", broadcaster_name_json);
        put(&mut entries, "title", title_json);
        put(&mut entries, "choices", choices_json);
        put(&mut entries, "bits_voting", bits_voting_json);
        put(&mut entries, "channel_points_voting", channel_points_voting_json);
        put(&mut entries, "started_at", started_at_json);
        put(&mut entries, "ends_at", ends_at_json);
        proof {
            assert(member(entries@, "id"@) == Some(id_json));
            assert(member(entries@, "broadcaster_user_id"@) == Some(broadcaster_id_json));
            assert(member(entries@, "broadcaster_user_login"@) == Some(broadcaster_login_json));
            assert(member(entries@, "broadcaster_user_name"@) == Some(broadcaster_name_json));
            assert(member(entries@, "title"@) == Some(title_json));
            assert(member(entries@, "choices"@) == Some(choices_json));
            assert(member(entries@, "bits_voting"@) == Some(bits_voting_json));
            assert(member(entries@, "channel_points_voting"@) == Some(channel_points_voting_json));
            assert(member(entries@, "started_at"@) == Some(started_at_json));
            assert(member(entries@, "ends_at"@) == Some(ends_at_json));
        }
        Json::Object(entries)
    }
}

/// An event of the category `channel.poll.progress`.
#[derive(Debug)]
pub struct PollProgress {
    pub id: String,
    pub broadcaster: User,
    pub title: String,
    pub choices: Vec<Choice>,
    pub bits_voting: ExtraVotes,
    pub channel_points_voting: ExtraVotes,
    pub started_at: String,
    pub ends_at: String,
}

impl FromJson for PollProgress {
    open spec fn parses(j: Json) -> bool {
        &&& j.spec_text("id"@) is Some
        &&& User::parses(
            j,
            "broadcaster_user_id"@,
            "broadcaster_user_login"@,
            "broadcaster_user_name"@,
        )
        &&& j.spec_text("title"@) is Some
        &&& list_parses::<Choice>(j, "choices"@)
        &&& member_parses::<ExtraVotes>(j, "bits_voting"@)
        &&& member_parses::<ExtraVotes>(j, "channel_points_voting"@)
        &&& j.spec_text("started_at"@) is Some
        &&& j.spec_text("ends_at"@) is Some
    }

    open spec fn parsed_as(j: Json, v: PollProgress) -> bool {
        &&& j.spec_text("id"@) == Some(v.id)
        &&& User::parsed_as(
            j,
            "broadcaster_user_id"@,
            "broadcaster_user_login"@,
            "broadcaster_user_name"@,
            v.broadcaster,
        )
        &&& j.spec_text("title"@) == Some(v.title)
        &&& list_parsed_as(j, "choices"@, v.choices@)
        &&& member_parsed_as(j, "bits_voting"@, v.bits_voting)
        &&& member_parsed_as(j, "channel_points_voting"@, v.channel_points_voting)
        &&& j.spec_text("started_at"@) == Some(v.started_at)
        &&& j.spec_text("ends_at"@) == Some(v.ends_at)
    }

    fn from_json(j: &Json) -> (r: Option<PollProgress>) {
        let id = j.text("id");
        let broadcaster = User::from_json(
            j,
            "broadcaster_user_id",
            "broadcaster_user_login",
            "broadcaster_user_name",
        );
        let title = j.text("title");
        let choices = read_list::<Choice>(j, "choices");
        let bits_voting = read_member::<ExtraVotes>(j, "bits_voting");
        let channel_points_voting = read_member::<ExtraVotes>(j, "channel_points_voting");
        let started_at = j.text("started_at");
        let ends_at = j.text("ends_at");
        if id.is_some() && broadcaster.is_some() && title.is_some() && choices.is_some()
            && bits_voting.is_some() && channel_points_voting.is_some() && started_at.is_some()
            && ends_at.is_some() {
            Some(
                PollProgress {
                    id: id.unwrap(),
                    broadcaster: broadcaster.unwrap(),
                    title: title.unwrap(),
                    choices: choices.unwrap(),
                    bits_voting: bits_voting.unwrap(),
                    channel_points_voting: channel_points_voting.unwrap(),
                    started_at: started_at.unwrap(),
                    ends_at: ends_at.unwrap(),
                },
            )
        } else {
            None
        }
    }
}

impl ToJson for PollProgress {
    fn to_json(&self) -> (r: Json) {
        let mut entries: Vec<(String, Json)> = Vec::new();
        proof {
            reveal_strlit("id");
            reveal_strlit("broadcaster_user_id");
            reveal_strlit("broadcaster_user_login");
            reveal_strlit("broadcaster_user_name");
            reveal_strlit("title");
            reveal_strlit("choices");
            reveal_strlit("bits_voting");
            reveal_strlit("channel_points_voting");
            reveal_strlit("started_at");
            reveal_strlit("ends_at");
            assert("id"@.len() == 2);
            assert("broadcaster_user_id"@.len() == 19);
            assert("broadcaster_user_login"@.len() == 22);
            assert("broadcaster_user_name"@.len() == 21);
            assert("title"@.len() == 5);
            assert("choices"@.len() == 7);
            assert("bits_voting"@.len() == 11);
            assert("channel_points_voting"@.len() == 21);
            assert("started_at"@.len() == 10);
            assert("ends_at"@.len() == 7);
            assert("broadcaster_user_name"@[0] != "channel_points_voting"@[0]);
            assert("choices"@[0] != "ends_at"@[0]);
        }
        let id_json = Json::Text(self.id.clone());
        let broadcaster_id_json = Json::Text(self.broadcaster.user_id.clone());
        let broadcaster_login_json = Json::Text(self.broadcaster.user_login.clone());
        let broadcaster_name_json = Json::Text(self.broadcaster.user_name.clone());
        let title_json = Json::Text(self.title.clone());
        let choices_json = Json::List(write_all(&self.choices));
        let bits_voting_json = self.bits_voting.to_json();
        let channel_points_voting_json = self.channel_points_voting.to_json();
        let started_at_json = Json::Text(self.started_at.clone());
        let ends_at_json = Json::Text(self.ends_at.clone());
        put(&mut entries, "id", id_json);
        put(&mut entries, "broadcaster_user_id", broadcaster_id_json);
        put(&mut entries, "broadcaster_user_login", broadcaster_login_json);
        put(&mut entries, "broadcaster_user_name", broadcaster_name_json);
        put(&mut entries, "title", title_json);
        put(&mut entries, "choices", choices_json);
        put(&mut entries, "bits_voting", bits_voting_json);
        put(&mut entries, "channel_points_voting", channel_points_voting_json);
        put(&mut entries, "started_at", started_at_json);
        put(&mut entries, "ends_at", ends_at_json);
        proof {
            assert(member(entries@, "id"@) == Some(id_json));
            assert(member(entries@, "broadcaster_user_id"@) == Some(broadcaster_id_json));
            assert(member(entries@, "broadcaster_user_login"@) == Some(broadcaster_login_json));
            assert(member(entries@, "broadcaster_user_name"@) == Some(broadcaster_name_json));
            assert(member(entries@, "title"@) == Some(title_json));
            assert(member(entries@, "choices"@) == Some(choices_json));
            assert(member(entries@, "bits_voting"@) == Some(bits_voting_json));
            assert(member(entries@, "channel_points_voting"@) == Some(channel_points_voting_json));
            assert(member(entries@, "started_at"@) == Some(started_at_json));
            assert(member(entries@, "ends_at"@) == Some(ends_at_json));
        }
        Json::Object(entries)
    }
}

/// An event of the category `channel.poll.end`.
#[derive(Debug)]
pub struct PollEnd {
    pub id: String,
    pub broadcaster: User,
    pub title: String,
    pub choices: Vec<Choice>,
    pub bits_voting: ExtraVotes,
    pub channel_points_voting: ExtraVotes,
    pub status: PollStatus,
    pub started_at: String,
    pub ended_at: String,
}

impl FromJson for PollEnd {
    open spec fn parses(j: Json) -> bool {
        &&& j.spec_text("id"@) is Some
        &&& User::parses(
            j,
            "broadcaster_user_id"@,
            "broadcaster_user_login"@,
            "broadcaster_user_name"@,
        )
        &&& j.spec_text("title"@) is Some
        &&& list_parses::<Choice>(j, "choices"@)
        &&& member_parses::<ExtraVotes>(j, "bits_voting"@)
        &&& member_parses::<ExtraVotes>(j, "channel_points_voting"@)
        &&& member_parses::<PollStatus>(j, "status"@)
        &&& j.spec_text("started_at"@) is Some
        &&& j.spec_text("ended_at"@) is Some
    }

    open spec fn parsed_as(j: Json, v: PollEnd) -> bool {
        &&& j.spec_text("id"@) == Some(v.id)
        &&& User::parsed_as(
            j,
            "broadcaster_user_id"@,
            "broadcaster_user_login"@,
            "broadcaster_user_name"@,
            v.broadcaster,
        )
        &&& j.spec_text("title"@) == Some(v.title)
        &&& list_parsed_as(j, "choices"@, v.choices@)
        &&& member_parsed_as(j, "bits_voting"@, v.bits_voting)
        &&& member_parsed_as(j, "channel_points_voting"@, v.channel_points_voting)
        &&& member_parsed_as(j, "status"@, v.status)
        &&& j.spec_text("started_at"@) == Some(v.started_at)
        &&& j.spec_text("ended_at"@) == Some(v.ended_at)
    }

    fn from_json(j: &Json) -> (r: Option<PollEnd>) {
        let id = j.text("id");
        let broadcaster = User::from_json(
            j,
            "broadcaster_user_id",
            "broadcaster_user_login",
            "broadcaster_user_name",
        );
        let title = j.text("title");
        let choices = read_list::<Choice>(j, "choices");
        let bits_voting = read_member::<ExtraVotes>(j, "bits_voting");
        let channel_points_voting = read_member::<ExtraVotes>(j, "channel_points_voting");
        let status = read_member::<PollStatus>(j, "status");
        let started_at = j.text("started_at");
        let ended_at = j.text("ended_at");
        if id.is_some() && broadcaster.is_some() && title.is_some() && choices.is_some()
            && bits_voting.is_some() && channel_points_voting.is_some() && status.is_some()
            && started_at.is_some() && ended_at.is_some() {
            Some(
                PollEnd {
                    id: id.unwrap(),
                    broadcaster: broadcaster.unwrap(),
                    title: title.unwrap(),
                    choices: choices.unwrap(),
                    bits_voting: bits_voting.unwrap(),
                    channel_points_voting: channel_points_voting.unwrap(),
                    status: status.unwrap(),
                    started_at: started_at.unwrap(),
                    ended_at: ended_at.unwrap(),
                },
            )
        } else {
            None
        }
    }
}

impl ToJson for PollEnd {
    fn to_json(&self) -> (r: Json) {
        let mut entries: Vec<(String, Json)> = Vec::new();
        proof {
            reveal_strlit("id");
            reveal_strlit("broadcaster_user_id");
            reveal_strlit("broadcaster_user_login");
            reveal_strlit("broadcaster_user_name");
            reveal_strlit("title");
            reveal_strlit("choices");
            reveal_strlit("bits_voting");
            reveal_strlit("channel_points_voting");
            reveal_strlit("status");
            reveal_strlit("started_at");
            reveal_strlit("ended_at");
            assert("id"@.len() == 2);
            assert("broadcaster_user_id"@.len() == 19);
            assert("broadcaster_user_login"@.len() == 22);
            assert("broadcaster_user_name"@.len() == 21);
            assert("title"@.len() == 5);
            assert("choices"@.len() == 7);
            assert("bits_voting"@.len() == 11);
            assert("channel_points_voting"@.len() == 21);
            assert("status"@.len() == 6);
            assert("started_at"@.len() == 10);
            assert("ended_at"@.len() == 8);
            assert("broadcaster_user_name"@[0] != "channel_points_voting"@[0]);
        }
        let id_json = Json::Text(self.id.clone());
        let broadcaster_id_json = Json::Text(self.broadcaster.user_id.clone());
        let broadcaster_login_json = Json::Text(self.broadcaster.user_login.clone());
        let broadcaster_name_json = Json::Text(self.broadcaster.user_name.clone());
        let title_json = Json::Text(self.title.clone());
        let choices_json = Json::List(write_all(&self.choices));
        let bits_voting_json = self.bits_voting.to_json();
        let channel_points_voting_json = self.channel_points_voting.to_json();
        let status_json = self.status.to_json();
        let started_at_json = Json::Text(self.started_at.clone());
        let ended_at_json = Json::Text(self.ended_at.clone());
        put(&mut entries, "id", id_json);
        put(&mut entries, "broadcaster_user_id", broadcaster_id_json);
        put(&mut entries, "broadcaster_user_login", broadcaster_login_json);
        put(&mut entries, "broadcaster_user_name", broadcaster_name_json);
        put(&mut entries, "title", title_json);
        put(&mut entries, "choices", choices_json);
        put(&mut entries, "bits_voting", bits_voting_json);
        put(&mut entries, "channel_points_voting", channel_points_voting_json);
        put(&mut entries, "status", status_json);
        put(&mut entries, "started_at", started_at_json);
        put(&mut entries, "ended_at", ended_at_json);
        proof {
            assert(member(entries@, "id"@) == Some(id_json));
            assert(member(entries@, "broadcaster_user_id"@) == Some(broadcaster_id_json));
            assert(member(entries@, "broadcaster_user_login"@) == Some(broadcaster_login_json));
            assert(member(entries@, "broadcaster_user_name"@) == Some(broadcaster_name_json));
            assert(member(entries@, "title"@) == Some(title_json));
            assert(member(entries@, "choices"@) == Some(choices_json));
            assert(member(entries@, "bits_voting"@) == Some(bits_voting_json));
            assert(member(entries@, "channel_points_voting"@) == Some(channel_points_voting_json));
            assert(member(entries@, "status"@) == Some(status_json));
            assert(member(entries@, "started_at"@) == Some(started_at_json));
            assert(member(entries@, "ended_at"@) == Some(ended_at_json));
        }
        Json::Object(entries)
    }
}

#[derive(Debug)]
pub struct Choice {
    pub id: String,
    pub title: String,
    pub bits_votes: u64,
    pub channel_points_votes: u64,
    pub votes: u64,
}

impl FromJson for Choice {
    open spec fn parses(j: Json) -> bool {
        &&& j.spec_text("id"@) is Some
        &&& j.spec_text("title"@) is Some
        &&& j.spec_count_or_zero("bits_votes"@) is Some
        &&& j.spec_count_or_zero("channel_points_votes"@) is Some
        &&& j.spec_count_or_zero("votes"@) is Some
    }

    open spec fn parsed_as(j: Json, v: Choice) -> bool {
        &&& j.spec_text("id"@) == Some(v.id)
        &&& j.spec_text("title"@) == Some(v.title)
        &&& j.spec_count_or_zero("bits_votes"@) == Some(v.bits_votes)
        &&& j.spec_count_or_zero("channel_points_votes"@) == Some(v.channel_points_votes)
        &&& j.spec_count_or_zero("votes"@) == Some(v.votes)
    }

    fn from_json(j: &Json) -> (r: Option<Choice>) {
        let id = j.text("id");
        let title = j.text("title");
        let bits_votes = j.count_or_zero("bits_votes");
        let channel_points_votes = j.count_or_zero("channel_points_votes");
        let votes = j.count_or_zero("votes");
        if id.is_some() && title.is_some() && bits_votes.is_some()
            && channel_points_votes.is_some() && votes.is_some() {
            Some(
                Choice {
                    id: id.unwrap(),
                    title: title.unwrap(),
                    bits_votes: bits_votes.unwrap(),
                    channel_points_votes: channel_points_votes.unwrap(),
                    votes: votes.unwrap(),
                },
            )
        } else {
            None
        }
    }
}

impl ToJson for Choice {
    fn to_json(&self) -> (r: Json) {
        let mut entries: Vec<(String, Json)> = Vec::new();
        proof {
            reveal_strlit("id");
            reveal_strlit("title");
            reveal_strlit("bits_votes");
            reveal_strlit("channel_points_votes");
            reveal_strlit("votes");
            assert("id"@.len() == 2);
            assert("title"@.len() == 5);
            assert("bits_votes"@.len() == 10);
            assert("channel_points_votes"@.len() == 20);
            assert("votes"@.len() == 5);
            assert("title"@[0] != "votes"@[0]);
        }
        let id_json = Json::Text(self.id.clone());
        let title_json = Json::Text(self.title.clone());
        let bits_votes_json = count_json(self.bits_votes);
        let channel_points_votes_json = count_json(self.channel_points_votes);
        let votes_json = count_json(self.votes);
        put(&mut entries, "id", id_json);
        put(&mut entries, "title", title_json);
        put(&mut entries, "bits_votes", bits_votes_json);
        put(&mut entries, "channel_points_votes", channel_points_votes_json);
        put(&mut entries, "votes", votes_json);
        proof {
            assert(member(entries@, "id"@) == Some(id_json));
            assert(member(entries@, "title"@) == Some(title_json));
            assert(member(entries@, "bits_votes"@) == Some(bits_votes_json));
            assert(member(entries@, "channel_points_votes"@) == Some(channel_points_votes_json));
            assert(member(entries@, "votes"@) == Some(votes_json));
        }
        Json::Object(entries)
    }
}

#[derive(Debug)]
pub struct ExtraVotes {
    pub is_enabled: bool,
    pub amount_per_vote: u64,
}

impl FromJson for ExtraVotes {
    open spec fn parses(j: Json) -> bool {
        &&& j.spec_flag("is_enabled"@) is Some
        &&& j.spec_count("amount_per_vote"@) is Some
    }

    open spec fn parsed_as(j: Json, v: ExtraVotes) -> bool {
        &&& j.spec_flag("is_enabled"@) == Some(v.is_enabled)
        &&& j.spec_count("amount_per_vote"@) == Some(v.amount_per_vote)
    }

    fn from_json(j: &Json) -> (r: Option<ExtraVotes>) {
        let is_enabled = j.flag("is_enabled");
        let amount_per_vote = j.count("amount_per_vote");
        if is_enabled.is_some() && amount_per_vote.is_some() {
            Some(
                ExtraVotes {
                    is_enabled: is_enabled.unwrap(),
                    amount_per_vote: amount_per_vote.unwrap(),
                },
            )
        } else {
            None
        }
    }
}

impl ToJson for ExtraVotes {
    fn to_json(&self) -> (r: Json) {
        let mut entries: Vec<(String, Json)> = Vec::new();
        proof {
            reveal_strlit("is_enabled");
            reveal_strlit("amount_per_vote");
            assert("is_enabled"@.len() == 10);
            assert("amount_per_vote"@.len() == 15);
        }
        let is_enabled_json = Json::Bool(self.is_enabled);
        let amount_per_vote_json = count_json(self.amount_per_vote);
        put(&mut entries, "is_enabled", is_enabled_json);
        put(&mut entries, "amount_per_vote", amount_per_vote_json);
        proof {
            assert(member(entries@, "is_enabled"@) == Some(is_enabled_json));
            assert(member(entries@, "amount_per_vote"@) == Some(amount_per_vote_json));
        }
        Json::Object(entries)
    }
}

#[derive(Clone, Copy, Debug, PartialEq, Eq, Structural)]
pub enum PollStatus {
    Completed,
    Archived,
    Terminated,
}

impl PollStatus {
    /// The value that a name stands for.
    pub open spec fn spec_named(name: Seq<char>) -> Option<PollStatus> {
        if name == "completed"@ {
            Some(PollStatus::Completed)
        } else if name == "archived"@ {
            Some(PollStatus::Archived)
        } else if name == "terminated"@ {
            Some(PollStatus::Terminated)
        } else {
            None
        }
    }

    /// The value that a name stands for.
    pub fn named(name: &str) -> (r: Option<PollStatus>)
        ensures
            r == Self::spec_named(name@),
    {
        if same_text(name, "completed") {
            Some(PollStatus::Completed)
        } else if same_text(name, "archived") {
            Some(PollStatus::Archived)
        } else if same_text(name, "terminated") {
            Some(PollStatus::Terminated)
        } else {
            None
        }
    }
}

impl FromJson for PollStatus {
    open spec fn parses(j: Json) -> bool {
        j matches Json::Text(s) && Self::spec_named(s@) is Some
    }

    open spec fn parsed_as(j: Json, v: PollStatus) -> bool {
        j matches Json::Text(s) && Self::spec_named(s@) == Some(v)
    }

    fn from_json(j: &Json) -> (r: Option<PollStatus>) {
        match j {
            Json::Text(s) => Self::named(s.as_str()),
            _ => None,
        }
    }
}

impl PollStatus {
    /// The name that stands for the value.
    pub fn name(&self) -> (r: &'static str)
        ensures
            Self::spec_named(r@) == Some(*self),
    {
        proof {
            reveal_strlit("completed");
            reveal_strlit("archived");
            reveal_strlit("terminated");
            assert("completed"@.len() == 9);
            assert("archived"@.len() == 8);
            assert("terminated"@.len() == 10);
        }
        match self {
            PollStatus::Completed => "completed",
            PollStatus::Archived => "archived",
            PollStatus::Terminated => "terminated",
        }
    }
}

impl ToJson for PollStatus {
    fn to_json(&self) -> (r: Json) {
        Json::Text(self.name().to_owned())
    }
}

} // verus!
