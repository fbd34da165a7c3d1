//! Subscription requests: the event categories, their wire names and versions,
//! and the conditions that each category is filtered by.

use vstd::prelude::*;
use crate::json::Json;
use crate::json::member;
use crate::json::optional_text_json;
use crate::json::put;

verus! {

/// A subscription as the service describes it and as a request for one is
/// sent. `id` and `status` are set by the service only.
#[derive(Debug)]
pub struct Subscription {
    pub id: Option<String>,
    pub status: Option<String>,
    pub subscription_type: String,
    pub version: String,
    pub condition: Vec<(String, String)>,
    pub transport: Transport,
}

/// How the events of a subscription are delivered. Over a socket, `method` is
/// `websocket` and `session_id` names the session.
#[derive(Debug)]
pub struct Transport {
    pub method: String,
    pub session_id: Option<String>,
}

/// Whether a condition has the name `key` and the value `value`.
pub open spec fn is_text_entry(entry: (String, String), key: Seq<char>, value: Seq<char>) -> bool {
    entry.0@ == key && entry.1@ == value
}

/// Whether the conditions are, one by one and in order, those of `expected`.
pub open spec fn text_entries(
    entries: Seq<(String, String)>,
    expected: Seq<(Seq<char>, Seq<char>)>,
) -> bool {
    entries.len() == expected.len() && forall|i: int|
        0 <= i < entries.len() ==> is_text_entry(
            #[trigger] entries[i],
            expected[i].0,
            expected[i].1,
        )
}

/// The direction of a raid that a subscription listens for.
#[derive(Clone, Copy, Debug, PartialEq, Eq, Structural)]
pub enum Raid {
    To,
    From,
}

/// The event categories that can be subscribed to. The reward categories may
/// name one reward to listen for.
#[derive(Debug)]
pub enum SubscriptionType {
    AutomodMessageHold,
    AutomodMessageUpdate,
    AutomodSettingsUpdate,
    AutomodTermsUpdate,
    ChannelUpdate,
    Follow,
    AdBreakBegin,
    ChatClear,
    ChatClearUserMessages,
    ChatMessage,
    ChatMessageDelete,
    ChatNotification,
    ChatSettingsUpdate,
    ChatUserMessageHold,
    ChatUserMessageUpdate,
    SharedChatSessionBegin,
    SharedChatSessionUpdate,
    SharedChatSessionEnd,
    Subscribe,
    SubscriptionEnd,
    SubscriptionGift,
    SubscriptionMessage,
    Cheer,
    Raid(Raid),
    Ban,
    Unban,
    UnbanRequestCreate,
    UnbanRequestResolve,
    Moderate,
    ModeratorAdd,
    ModeratorRemove,
    PointsAutomaticRewardRedemption,
    PointsCustomRewardAdd,
    PointsCustomRewardUpdate(Option<String>),
    PointsCustomRewardRemove(Option<String>),
    PointsCustomRewardRedemptionAdd(Option<String>),
    PointsCustomRewardRedemptionUpdate(Option<String>),
    PollBegin,
    PollProgress,
    PollEnd,
    PredictionBegin,
    PredictionProgress,
    PredictionLock,
    PredictionEnd,
    SuspiciousUserMessage,
    SuspiciousUserUpdate,
    VIPAdd,
    VIPRemove,
    WarningAcknowledgement,
    WarningSend,
    CharityDonation,
    CharityCampaignStart,
    CharityCampaignProgress,
    CharityCampaignStop,
    GoalBegin,
    GoalProgress,
    GoalEnd,
    HypeTrainBegin,
    HypeTrainProgress,
    HypeTrainEnd,
    ShieldModeBegin,
    ShieldModeEnd,
    ShoutoutCreate,
    ShoutoutReceived,
    StreamOnline,
    StreamOffline,
    UserUpdate,
    WhisperReceived,
}

/// Whose events are wanted: the channel, and the user that the access token
/// belongs to.
pub struct Conditions {
    pub broadcaster_id: String,
    pub token_user_id: String,
}

/// Whether `conditions` are the members of `entries`, which are all strings.
pub open spec fn conditions_of(
    entries: Seq<(String, Json)>,
    conditions: Seq<(String, String)>,
) -> bool {
    conditions.len() == entries.len() && forall|i: int|
        0 <= i < entries.len() ==> (#[trigger] entries[i]) == (
            conditions[i].0,
            Json::Text(conditions[i].1),
        )
}

/// Whether every member of `entries` is a string.
pub open spec fn all_text(entries: Seq<(String, Json)>) -> bool {
    forall|i: int| 0 <= i < entries.len() ==> (#[trigger] entries[i]).1 is Text
}

/// The members of an object as conditions, where all of them are strings.
pub fn conditions_from(entries: &Vec<(String, Json)>) -> (r: Option<Vec<(String, String)>>)
    ensures
        r is Some <==> all_text(entries@),
        r matches Some(c) ==> conditions_of(entries@, c@),
{
    let mut out: Vec<(String, String)> = Vec::new();
    let mut i: usize = 0;
    while i < entries.len()
        invariant
            i <= entries.len(),
            out@.len() == i,
            forall|k: int| 0 <= k < i ==> (#[trigger] entries@[k]).1 is Text,
            forall|k: int|
                0 <= k < i ==> (#[trigger] entries@[k]) == (out@[k].0, Json::Text(out@[k].1)),
        decreases entries.len() - i,
    {
        match &entries[i].1 {
            Json::Text(value) => {
                out.push((entries[i].0.clone(), value.clone()));
            },
            _ => {
                return None;
            },
        }
        i += 1;
    }
    Some(out)
}

impl Transport {
    /// Whether a value describes a transport: an object with a string
    /// `method` and, where it has a `session_id`, a string there.
    pub open spec fn parses(j: Json) -> bool {
        j.spec_text("method"@) is Some && j.spec_optional_text("session_id"@) is Some
    }

    /// Whether `v` is the transport that `j` describes.
    pub open spec fn parsed_as(j: Json, v: Transport) -> bool {
        j.spec_text("method"@) == Some(v.method) && j.spec_optional_text("session_id"@) == Some(
            v.session_id,
        )
    }

    /// Reads a transport.
    pub fn from_json(j: &Json) -> (r: Option<Transport>)
        ensures
            r is Some <==> Self::parses(*j),
            r matches Some(v) ==> Self::parsed_as(*j, v),
    {
        let method = j.text("method");
        let session_id = j.optional_text("session_id");
        if method.is_some() && session_id.is_some() {
            Some(Transport { method: method.unwrap(), session_id: session_id.unwrap() })
        } else {
            None
        }
    }
}

impl Subscription {
    /// Whether a value describes a subscription: an object with strings under
    /// `type` and `version`, an object of strings under `condition`, a
    /// transport under `transport`, and strings, if anything, under `id` and
    /// `status`.
    pub open spec fn parses(j: Json) -> bool {
        &&& j.spec_optional_text("id"@) is Some
        &&& j.spec_optional_text("status"@) is Some
        &&& j.spec_text("type"@) is Some
        &&& j.spec_text("version"@) is Some
        &&& j.spec_get("condition"@) matches Some(Json::Object(entries)) && all_text(entries@)
        &&& j.spec_get("transport"@) matches Some(t) && Transport::parses(t)
    }

    /// Whether `v` is the subscription that `j` describes.
    pub open spec fn parsed_as(j: Json, v: Subscription) -> bool {
        &&& j.spec_optional_text("id"@) == Some(v.id)
        &&& j.spec_optional_text("status"@) == Some(v.status)
        &&& j.spec_text("type"@) == Some(v.subscription_type)
        &&& j.spec_text("version"@) == Some(v.version)
        &&& j.spec_get("condition"@) matches Some(Json::Object(entries)) && conditions_of(
            entries@,
            v.condition@,
        )
        &&& j.spec_get("transport"@) matches Some(t) && Transport::parsed_as(t, v.transport)
    }

    /// Reads a subscription.
    pub fn from_json(j: &Json) -> (r: Option<Subscription>)
        ensures
            r is Some <==> Self::parses(*j),
            r matches Some(v) ==> Self::parsed_as(*j, v),
    {
        let id = j.optional_text("id");
        let status = j.optional_text("status");
        let subscription_type = j.text("type");
        let version = j.text("version");
        let condition = match j.get("condition") {
            Some(Json::Object(entries)) => conditions_from(entries),
            _ => None,
        };
        let transport = match j.get("transport") {
            Some(t) => Transport::from_json(t),
            None => None,
        };
        if id.is_some() && status.is_some() && subscription_type.is_some() && version.is_some()
            && condition.is_some() && transport.is_some() {
            Some(
                Subscription {
                    id: id.unwrap(),
                    status: status.unwrap(),
                    subscription_type: subscription_type.unwrap(),
                    version: version.unwrap(),
                    condition: condition.unwrap(),
                    transport: transport.unwrap(),
                },
            )
        } else {
            None
        }
    }
}

/// The conditions as the members of an object.
pub fn conditions_to(conditions: &Vec<(String, String)>) -> (r: Vec<(String, Json)>)
    ensures
        all_text(r@),
        conditions_of(r@, conditions@),
{
    let mut out: Vec<(String, Json)> = Vec::new();
    let mut i: usize = 0;
    while i < conditions.len()
        invariant
            i <= conditions.len(),
            out@.len() == i,
            forall|k: int|
                0 <= k < i ==> (#[trigger] out@[k]) == (
                    conditions@[k].0,
                    Json::Text(conditions@[k].1),
                ),
        decreases conditions.len() - i,
    {
        out.push((conditions[i].0.clone(), Json::Text(conditions[i].1.clone())));
        i += 1;
    }
    out
}

impl Transport {
    /// Writes the transport. What is written is read back as the same
    /// transport.
    pub fn to_json(&self) -> (r: Json)
        ensures
            Self::parses(r),
            Self::parsed_as(r, *self),
    {
        let mut entries: Vec<(String, Json)> = Vec::new();
        let method = Json::Text(self.method.clone());
        let session_id = optional_text_json(&self.session_id);
        put(&mut entries, "method", method);
        put(&mut entries, "session_id", session_id);
        proof {
            reveal_strlit("method");
            reveal_strlit("session_id");
            assert("method"@.len() == 6 && "session_id"@.len() == 10);
            assert(member(entries@, "method"@) == Some(method));
            assert(member(entries@, "session_id"@) == Some(session_id));
        }
        Json::Object(entries)
    }
}

impl Subscription {
    /// Writes the subscription, as a request for one is sent. What is
    /// written is read back as the same subscription.
    pub fn to_json(&self) -> (r: Json)
        ensures
            Self::parses(r),
            Self::parsed_as(r, *self),
    {
        let mut entries: Vec<(String, Json)> = Vec::new();
        let id = optional_text_json(&self.id);
        let status = optional_text_json(&self.status);
        let subscription_type = Json::Text(self.subscription_type.clone());
        let version = Json::Text(self.version.clone());
        let condition = Json::Object(conditions_to(&self.condition));
        let transport = self.transport.to_json();
        proof {
            reveal_strlit("id");
            reveal_strlit("status");
            reveal_strlit("type");
            reveal_strlit("version");
            reveal_strlit("condition");
            reveal_strlit("transport");
            assert("id"@.len() == 2 && "status"@.len() == 6 && "type"@.len() == 4);
            assert("version"@.len() == 7 && "condition"@.len() == 9 && "transport"@.len() == 9);
            assert("condition"@[0] != "transport"@[0]);
        }
        put(&mut entries, "id", id);
        put(&mut entries, "status", status);
        put(&mut entries, "type", subscription_type);
        put(&mut entries, "version", version);
        put(&mut entries, "condition", condition);
        put(&mut entries, "transport", transport);
        proof {
            assert(member(entries@, "id"@) == Some(id));
            assert(member(entries@, "status"@) == Some(status));
            assert(member(entries@, "type"@) == Some(subscription_type));
            assert(member(entries@, "version"@) == Some(version));
            assert(member(entries@, "condition"@) == Some(condition));
            assert(member(entries@, "transport"@) == Some(transport));
        }
        Json::Object(entries)
    }
}

impl Conditions {
    pub fn new(broadcaster_id: String, token_user_id: String) -> (r: Self)
        ensures
            r.broadcaster_id == broadcaster_id,
            r.token_user_id == token_user_id,
    {
        Self { broadcaster_id, token_user_id }
    }

    /// The condition that names one reward.
    pub fn reward_id(id: &str) -> (r: (String, String))
        ensures
            is_text_entry(r, "reward_id"@, id@),
    {
        ("reward_id".to_owned(), id.to_owned())
    }

    /// The condition of a raid that leaves the channel.
    pub fn from_broadcaster_user_id(&self) -> (r: (String, String))
        ensures
            is_text_entry(r, "from_broadcaster_user_id"@, self.broadcaster_id@),
    {
        ("from_broadcaster_user_id".to_owned(), self.broadcaster_id.clone())
    }

    /// The condition of a raid that arrives at the channel.
    pub fn to_broadcaster_user_id(&self) -> (r: (String, String))
        ensures
            is_text_entry(r, "to_broadcaster_user_id"@, self.broadcaster_id@),
    {
        ("to_broadcaster_user_id".to_owned(), self.broadcaster_id.clone())
    }

    /// The condition that names the channel.
    pub fn broadcaster_user_id(&self) -> (r: (String, String))
        ensures
            is_text_entry(r, "broadcaster_user_id"@, self.broadcaster_id@),
    {
        ("broadcaster_user_id".to_owned(), self.broadcaster_id.clone())
    }

    /// The condition that names the token's user as the moderator.
    pub fn moderator_user_id(&self) -> (r: (String, String))
        ensures
            is_text_entry(r, "moderator_user_id"@, self.token_user_id@),
    {
        ("moderator_user_id".to_owned(), self.token_user_id.clone())
    }

    /// The condition that names the token's user.
    pub fn user_id(&self) -> (r: (String, String))
        ensures
            is_text_entry(r, "user_id"@, self.token_user_id@),
    {
        ("user_id".to_owned(), self.token_user_id.clone())
    }
}

impl SubscriptionType {
    /// The name under which the service knows the category.
    pub open spec fn spec_kind(self) -> Seq<char> {
        match self {
            Self::AutomodMessageHold => "automod.message.hold"@,
            Self::AutomodMessageUpdate => "automod.message.update"@,
            Self::AutomodSettingsUpdate => "automod.settings.update"@,
            Self::AutomodTermsUpdate => "automod.terms.update"@,
            Self::ChannelUpdate => "channel.update"@,
            Self::Follow => "channel.follow"@,
            Self::AdBreakBegin => "channel.ad_break.begin"@,
            Self::ChatClear => "channel.chat.clear"@,
            Self::ChatClearUserMessages => "channel.chat.clear_user_messages"@,
            Self::ChatMessage => "channel.chat.message"@,
            Self::ChatMessageDelete => "channel.chat.message_delete"@,
            Self::ChatNotification => "channel.chat.notification"@,
            Self::ChatSettingsUpdate => "channel.chat_settings.update"@,
            Self::ChatUserMessageHold => "channel.chat.user_message_hold"@,
            Self::ChatUserMessageUpdate => "channel.chat.user_message_update"@,
            Self::SharedChatSessionBegin => "channel.shared_chat.begin"@,
            Self::SharedChatSessionUpdate => "channel.shared_chat.update"@,
            Self::SharedChatSessionEnd => "channel.shared_chat.end"@,
            Self::Subscribe => "channel.subscribe"@,
            Self::SubscriptionEnd => "channel.subscription.end"@,
            Self::SubscriptionGift => "channel.subscription.gift"@,
            Self::SubscriptionMessage => "channel.subscription.message"@,
            Self::Cheer => "channel.ChannelCheer"@,
            Self::Raid(_) => "channel.ChannelRaid"@,
            Self::Ban => "channel.ban"@,
            Self::Unban => "channel.unban"@,
            Self::UnbanRequestCreate => "channel.unban_request.create"@,
            Self::UnbanRequestResolve => "channel.unban_request.resolve"@,
            Self::Moderate => "channel.moderate"@,
            Self::ModeratorAdd => "channel.moderator.add"@,
            Self::ModeratorRemove => "channel.moderator.remove"@,
            Self::PointsAutomaticRewardRedemption =>
                "channel.channel_points_automatic_reward_redemption.add"@,
            Self::PointsCustomRewardAdd => "channel.channel_points_custom_reward.add"@,
            Self::PointsCustomRewardUpdate(_) => "channel.channel_points_custom_reward.update"@,
            Self::PointsCustomRewardRemove(_) => "channel.channel_points_custom_reward.remove"@,
            Self::PointsCustomRewardRedemptionAdd(_) =>
                "channel.channel_points_custom_reward_redemption.add"@,
            Self::PointsCustomRewardRedemptionUpdate(_) =>
                "channel.channel_points_custom_reward_redemption.update"@,
            Self::PollBegin => "channel.poll.begin"@,
            Self::PollProgress => "channel.poll.progress"@,
            Self::PollEnd => "channel.poll.end"@,
            Self::PredictionBegin => "channel.prediction.begin"@,
            Self::PredictionProgress => "channel.prediction.progress"@,
            Self::PredictionLock => "channel.prediction.lock"@,
            Self::PredictionEnd => "channel.prediction.end"@,
            Self::SuspiciousUserMessage => "channel.suspicious_user.message"@,
            Self::SuspiciousUserUpdate => "channel.suspicious_user.update"@,
            Self::VIPAdd => "channel.vip.add"@,
            Self::VIPRemove => "channel.vip.remove"@,
            Self::WarningAcknowledgement => "channel.warning.acknowledge"@,
            Self::WarningSend => "channel.warning.send"@,
            Self::CharityDonation => "channel.charity_campaign.donate"@,
            Self::CharityCampaignStart => "channel.charity_campaign.start"@,
            Self::CharityCampaignProgress => "channel.charity_campaign.progress"@,
            Self::CharityCampaignStop => "channel.charity_campaign.stop"@,
            Self::GoalBegin => "channel.goal.begin"@,
            Self::GoalProgress => "channel.goal.progress"@,
            Self::GoalEnd => "channel.goal.end"@,
            Self::HypeTrainBegin => "channel.hype_train.begin"@,
            Self::HypeTrainProgress => "channel.hype_train.progress"@,
            Self::HypeTrainEnd => "channel.hype_train.end"@,
            Self::ShieldModeBegin => "channel.shield_mode.begin"@,
            Self::ShieldModeEnd => "channel.shield_mode.end"@,
            Self::ShoutoutCreate => "channel.shoutout.create"@,
            Self::ShoutoutReceived => "channel.shoutout.receive"@,
            Self::StreamOnline => "stream.online"@,
            Self::StreamOffline => "stream.offline"@,
            Self::UserUpdate => "user.update"@,
            Self::WhisperReceived => "user.whisper.message"@,
        }
    }

    /// Whether the category is subscribed to in its second version; all others
    /// are in their first.
    pub open spec fn second_version(self) -> bool {
        match self {
            Self::AutomodMessageHold | Self::AutomodMessageUpdate | Self::ChannelUpdate
            | Self::Follow | Self::Moderate => true,
            _ => false,
        }
    }

    /// The version of the category that this library understands.
    pub open spec fn spec_version(self) -> Seq<char> {
        if self.second_version() {
            "2"@
        } else {
            "1"@
        }
    }

    /// Whether the category is filtered by a moderator besides the channel.
    pub open spec fn wants_moderator(self) -> bool {
        match self {
            Self::AutomodMessageHold | Self::AutomodMessageUpdate
            | Self::AutomodSettingsUpdate | Self::AutomodTermsUpdate | Self::Follow
            | Self::UnbanRequestCreate | Self::UnbanRequestResolve | Self::Moderate
            | Self::SuspiciousUserMessage | Self::SuspiciousUserUpdate
            | Self::WarningAcknowledgement | Self::WarningSend | Self::ShieldModeBegin
            | Self::ShieldModeEnd | Self::ShoutoutCreate | Self::ShoutoutReceived => true,
            _ => false,
        }
    }

    /// Whether the category is filtered by the token's user besides the channel.
    pub open spec fn wants_user(self) -> bool {
        match self {
            Self::ChatClear | Self::ChatClearUserMessages | Self::ChatMessage
            | Self::ChatMessageDelete | Self::ChatNotification | Self::ChatSettingsUpdate
            | Self::ChatUserMessageHold | Self::ChatUserMessageUpdate | Self::UserUpdate => true,
            _ => false,
        }
    }

    /// The reward that a reward category is narrowed to, if any.
    pub open spec fn spec_reward(self) -> Option<String> {
        match self {
            Self::PointsCustomRewardUpdate(id)
            | Self::PointsCustomRewardRemove(id)
            | Self::PointsCustomRewardRedemptionAdd(id)
            | Self::PointsCustomRewardRedemptionUpdate(id) => id,
            _ => None,
        }
    }

    /// The conditions of a subscription to this category, as names and
    /// values, in the order in which they are listed.
    pub open spec fn spec_conditions(self, cond: Conditions) -> Seq<(Seq<char>, Seq<char>)> {
        let channel = ("broadcaster_user_id"@, cond.broadcaster_id@);
        match self {
            Self::Raid(Raid::To) => seq![("to_broadcaster_user_id"@, cond.broadcaster_id@)],
            Self::Raid(Raid::From) => seq![("from_broadcaster_user_id"@, cond.broadcaster_id@)],
            Self::WhisperReceived => seq![("user_id"@, cond.token_user_id@)],
            _ => if self.wants_moderator() {
                seq![channel, ("moderator_user_id"@, cond.token_user_id@)]
            } else if self.wants_user() {
                seq![channel, ("user_id"@, cond.token_user_id@)]
            } else {
                match self.spec_reward() {
                    Some(id) => seq![channel, ("reward_id"@, id@)],
                    None => seq![channel],
                }
            },
        }
    }

    /// The request for a subscription to this category, delivered over the
    /// session `session_id`.
    pub fn build_subscription(&self, session_id: &str, conditions: &Conditions) -> (r: Subscription)
        ensures
            r.id is None,
            r.status is None,
            r.subscription_type@ == self.spec_kind(),
            r.version@ == self.spec_version(),
            text_entries(r.condition@, self.spec_conditions(*conditions)),
            r.transport.method@ == "websocket"@,
            r.transport.session_id matches Some(id) && id@ == session_id@,
    {
        let (subscription_type, version) = self.details();
        let condition = self.conditions(conditions);
        let transport = Transport {
            method: "websocket".to_owned(),
            session_id: Some(session_id.to_owned()),
        };
        Subscription { id: None, status: None, subscription_type, version, condition, transport }
    }

    /// The category's name and version.
    pub fn details(&self) -> (r: (String, String))
        ensures
            r.0@ == self.spec_kind(),
            r.1@ == self.spec_version(),
    {
        let (kind, version) = match self {
            Self::AutomodMessageHold => ("automod.message.hold", "2"),
            Self::AutomodMessageUpdate => ("automod.message.update", "2"),
            Self::AutomodSettingsUpdate => ("automod.settings.update", "1"),
            Self::AutomodTermsUpdate => ("automod.terms.update", "1"),
            Self::ChannelUpdate => ("channel.update", "2"),
            Self::Follow => ("channel.follow", "2"),
            Self::AdBreakBegin => ("channel.ad_break.begin", "1"),
            Self::ChatClear => ("channel.chat.clear", "1"),
            Self::ChatClearUserMessages => ("channel.chat.clear_user_messages", "1"),
            Self::ChatMessage => ("channel.chat.message", "1"),
            Self::ChatMessageDelete => ("channel.chat.message_delete", "1"),
            Self::ChatNotification => ("channel.chat.notification", "1"),
            Self::ChatSettingsUpdate => ("channel.chat_settings.update", "1"),
            Self::ChatUserMessageHold => ("channel.chat.user_message_hold", "1"),
            Self::ChatUserMessageUpdate => ("channel.chat.user_message_update", "1"),
            Self::SharedChatSessionBegin => ("channel.shared_chat.begin", "1"),
            Self::SharedChatSessionUpdate => ("channel.shared_chat.update", "1"),
            Self::SharedChatSessionEnd => ("channel.shared_chat.end", "1"),
            Self::Subscribe => ("channel.subscribe", "1"),
            Self::SubscriptionEnd => ("channel.subscription.end", "1"),
            Self::SubscriptionGift => ("channel.subscription.gift", "1"),
            Self::SubscriptionMessage => ("channel.subscription.message", "1"),
            Self::Cheer => ("channel.ChannelCheer", "1"),
            Self::Raid(_) => ("channel.ChannelRaid", "1"),
            Self::Ban => ("channel.ban", "1"),
            Self::Unban => ("channel.unban", "1"),
            Self::UnbanRequestCreate => ("channel.unban_request.create", "1"),
            Self::UnbanRequestResolve => ("channel.unban_request.resolve", "1"),
            Self::Moderate => ("channel.moderate", "2"),
            Self::ModeratorAdd => ("channel.moderator.add", "1"),
            Self::ModeratorRemove => ("channel.moderator.remove", "1"),
            Self::PointsAutomaticRewardRedemption => (
                "channel.channel_points_automatic_reward_redemption.add",
                "1",
            ),
            Self::PointsCustomRewardAdd => ("channel.channel_points_custom_reward.add", "1"),
            Self::PointsCustomRewardUpdate(_) => (
                "channel.channel_points_custom_reward.update",
                "1",
            ),
            Self::PointsCustomRewardRemove(_) => (
                "channel.channel_points_custom_reward.remove",
                "1",
            ),
            Self::PointsCustomRewardRedemptionAdd(_) => (
                "channel.channel_points_custom_reward_redemption.add",
                "1",
            ),
            Self::PointsCustomRewardRedemptionUpdate(_) => (
                "channel.channel_points_custom_reward_redemption.update",
                "1",
            ),
            Self::PollBegin => ("channel.poll.begin", "1"),
            Self::PollProgress => ("channel.poll.progress", "1"),
            Self::PollEnd => ("channel.poll.end", "1"),
            Self::PredictionBegin => ("channel.prediction.begin", "1"),
            Self::PredictionProgress => ("channel.prediction.progress", "1"),
            Self::PredictionLock => ("channel.prediction.lock", "1"),
            Self::PredictionEnd => ("channel.prediction.end", "1"),
            Self::SuspiciousUserMessage => ("channel.suspicious_user.message", "1"),
            Self::SuspiciousUserUpdate => ("channel.suspicious_user.update", "1"),
            Self::VIPAdd => ("channel.vip.add", "1"),
            Self::VIPRemove => ("channel.vip.remove", "1"),
            Self::WarningAcknowledgement => ("channel.warning.acknowledge", "1"),
            Self::WarningSend => ("channel.warning.send", "1"),
            Self::CharityDonation => ("channel.charity_campaign.donate", "1"),
            Self::CharityCampaignStart => ("channel.charity_campaign.start", "1"),
            Self::CharityCampaignProgress => ("channel.charity_campaign.progress", "1"),
            Self::CharityCampaignStop => ("channel.charity_campaign.stop", "1"),
            Self::GoalBegin => ("channel.goal.begin", "1"),
            Self::GoalProgress => ("channel.goal.progress", "1"),
            Self::GoalEnd => ("channel.goal.end", "1"),
            Self::HypeTrainBegin => ("channel.hype_train.begin", "1"),
            Self::HypeTrainProgress => ("channel.hype_train.progress", "1"),
            Self::HypeTrainEnd => ("channel.hype_train.end", "1"),
            Self::ShieldModeBegin => ("channel.shield_mode.begin", "1"),
            Self::ShieldModeEnd => ("channel.shield_mode.end", "1"),
            Self::ShoutoutCreate => ("channel.shoutout.create", "1"),
            Self::ShoutoutReceived => ("channel.shoutout.receive", "1"),
            Self::StreamOnline => ("stream.online", "1"),
            Self::StreamOffline => ("stream.offline", "1"),
            Self::UserUpdate => ("user.update", "1"),
            Self::WhisperReceived => ("user.whisper.message", "1"),
        };
        (kind.to_owned(), version.to_owned())
    }

    /// The conditions that a subscription to this category carries.
    pub fn conditions(&self, cond: &Conditions) -> (r: Vec<(String, String)>)
        ensures
            text_entries(r@, self.spec_conditions(*cond)),
    {
        match self {
            Self::AutomodMessageHold => vec![cond.broadcaster_user_id(), cond.moderator_user_id()],
            Self::AutomodMessageUpdate => vec![
                cond.broadcaster_user_id(),
                cond.moderator_user_id(),
            ],
            Self::AutomodSettingsUpdate => vec![
                cond.broadcaster_user_id(),
                cond.moderator_user_id(),
            ],
            Self::AutomodTermsUpdate => vec![cond.broadcaster_user_id(), cond.moderator_user_id()],
            Self::ChannelUpdate => vec![cond.broadcaster_user_id()],
            Self::Follow => vec![cond.broadcaster_user_id(), cond.moderator_user_id()],
            Self::AdBreakBegin => vec![cond.broadcaster_user_id()],
            Self::ChatClear => vec![cond.broadcaster_user_id(), cond.user_id()],
            Self::ChatClearUserMessages => vec![cond.broadcaster_user_id(), cond.user_id()],
            Self::ChatMessage => vec![cond.broadcaster_user_id(), cond.user_id()],
            Self::ChatMessageDelete => vec![cond.broadcaster_user_id(), cond.user_id()],
            Self::ChatNotification => vec![cond.broadcaster_user_id(), cond.user_id()],
            Self::ChatSettingsUpdate => vec![cond.broadcaster_user_id(), cond.user_id()],
            Self::ChatUserMessageHold => vec![cond.broadcaster_user_id(), cond.user_id()],
            Self::ChatUserMessageUpdate => vec![cond.broadcaster_user_id(), cond.user_id()],
            Self::SharedChatSessionBegin => vec![cond.broadcaster_user_id()],
            Self::SharedChatSessionUpdate => vec![cond.broadcaster_user_id()],
            Self::SharedChatSessionEnd => vec![cond.broadcaster_user_id()],
            Self::Subscribe => vec![cond.broadcaster_user_id()],
            Self::SubscriptionEnd => vec![cond.broadcaster_user_id()],
            Self::SubscriptionGift => vec![cond.broadcaster_user_id()],
            Self::SubscriptionMessage => vec![cond.broadcaster_user_id()],
            Self::Cheer => vec![cond.broadcaster_user_id()],
            Self::Raid(Raid::To) => vec![cond.to_broadcaster_user_id()],
            Self::Raid(Raid::From) => vec![cond.from_broadcaster_user_id()],
            Self::Ban => vec![cond.broadcaster_user_id()],
            Self::Unban => vec![cond.broadcaster_user_id()],
            Self::UnbanRequestCreate => vec![cond.broadcaster_user_id(), cond.moderator_user_id()],
            Self::UnbanRequestResolve => vec![cond.broadcaster_user_id(), cond.moderator_user_id()],
            Self::Moderate => vec![cond.broadcaster_user_id(), cond.moderator_user_id()],
            Self::ModeratorAdd => vec![cond.broadcaster_user_id()],
            Self::ModeratorRemove => vec![cond.broadcaster_user_id()],
            Self::PointsAutomaticRewardRedemption => vec![cond.broadcaster_user_id()],
            Self::PointsCustomRewardAdd => vec![cond.broadcaster_user_id()],
            Self::PointsCustomRewardUpdate(None) => vec![cond.broadcaster_user_id()],
            Self::PointsCustomRewardUpdate(Some(id)) => vec![
                cond.broadcaster_user_id(),
                Conditions::reward_id(id.as_str()),
            ],
            Self::PointsCustomRewardRemove(None) => vec![cond.broadcaster_user_id()],
            Self::PointsCustomRewardRemove(Some(id)) => vec![
                cond.broadcaster_user_id(),
                Conditions::reward_id(id.as_str()),
            ],
            Self::PointsCustomRewardRedemptionAdd(None) => vec![cond.broadcaster_user_id()],
            Self::PointsCustomRewardRedemptionAdd(Some(id)) => vec![
                cond.broadcaster_user_id(),
                Conditions::reward_id(id.as_str()),
            ],
            Self::PointsCustomRewardRedemptionUpdate(None) => vec![cond.broadcaster_user_id()],
            Self::PointsCustomRewardRedemptionUpdate(Some(id)) => vec![
                cond.broadcaster_user_id(),
                Conditions::reward_id(id.as_str()),
            ],
            Self::PollBegin => vec![cond.broadcaster_user_id()],
            Self::PollProgress => vec![cond.broadcaster_user_id()],
            Self::PollEnd => vec![cond.broadcaster_user_id()],
            Self::PredictionBegin => vec![cond.broadcaster_user_id()],
            Self::PredictionProgress => vec![cond.broadcaster_user_id()],
            Self::PredictionLock => vec![cond.broadcaster_user_id()],
            Self::PredictionEnd => vec![cond.broadcaster_user_id()],
            Self::SuspiciousUserMessage => vec![
                cond.broadcaster_user_id(),
                cond.moderator_user_id(),
            ],
            Self::SuspiciousUserUpdate => vec![
                cond.broadcaster_user_id(),
                cond.moderator_user_id(),
            ],
            Self::VIPAdd => vec![cond.broadcaster_user_id()],
            Self::VIPRemove => vec![cond.broadcaster_user_id()],
            Self::WarningAcknowledgement => vec![
                cond.broadcaster_user_id(),
                cond.moderator_user_id(),
            ],
            Self::WarningSend => vec![cond.broadcaster_user_id(), cond.moderator_user_id()],
            Self::CharityDonation => vec![cond.broadcaster_user_id()],
            Self::CharityCampaignStart => vec![cond.broadcaster_user_id()],
            Self::CharityCampaignProgress => vec![cond.broadcaster_user_id()],
            Self::CharityCampaignStop => vec![cond.broadcaster_user_id()],
            Self::GoalBegin => vec![cond.broadcaster_user_id()],
            Self::GoalProgress => vec![cond.broadcaster_user_id()],
            Self::GoalEnd => vec![cond.broadcaster_user_id()],
            Self::HypeTrainBegin => vec![cond.broadcaster_user_id()],
            Self::HypeTrainProgress => vec![cond.broadcaster_user_id()],
            Self::HypeTrainEnd => vec![cond.broadcaster_user_id()],
            Self::ShieldModeBegin => vec![cond.broadcaster_user_id(), cond.moderator_user_id()],
            Self::ShieldModeEnd => vec![cond.broadcaster_user_id(), cond.moderator_user_id()],
            Self::ShoutoutCreate => vec![cond.broadcaster_user_id(), cond.moderator_user_id()],
            Self::ShoutoutReceived => vec![cond.broadcaster_user_id(), cond.moderator_user_id()],
            Self::StreamOnline => vec![cond.broadcaster_user_id()],
            Self::StreamOffline => vec![cond.broadcaster_user_id()],
            Self::UserUpdate => vec![cond.broadcaster_user_id(), cond.user_id()],
            Self::WhisperReceived => vec![cond.user_id()],
        }
    }
}

} // verus!
