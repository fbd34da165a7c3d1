//! The messages of the event socket and the events they carry.

pub mod automod;
pub mod channel;
pub mod charity;
pub mod chat;
pub mod goal;
pub mod hypetrain;
pub mod moderation;
pub mod polls;
pub mod prediction;
pub mod rewards;
pub mod shared_chat;
pub mod subscription;
pub mod user;

use vstd::prelude::*;
use crate::json::ToJson;
use crate::json::put;
use crate::json::member;
use crate::json::write_all;
use crate::json::count_json;
use crate::json::read_member;
use crate::json::read_list;
use crate::json::member_parses;
use crate::json::member_parsed_as;
use crate::json::list_parses;
use crate::json::list_parsed_as;
use crate::json::FromJson;
use crate::eventsub::events::channel::AdBreakBegin;
use crate::eventsub::events::automod::AutomodMessageHold;
use crate::eventsub::events::automod::AutomodMessageUpdate;
use crate::eventsub::events::automod::AutomodSettingsUpdate;
use crate::eventsub::events::automod::AutomodTermsUpdate;
use crate::eventsub::events::moderation::Ban;
use crate::eventsub::events::channel::ChannelUpdate;
use crate::eventsub::events::charity::CharityCampaignProgress;
use crate::eventsub::events::charity::CharityCampaignStart;
use crate::eventsub::events::charity::CharityCampaignStop;
use crate::eventsub::events::charity::CharityDonation;
use crate::eventsub::events::chat::ChatClear;
use crate::eventsub::events::chat::ChatClearUserMessages;
use crate::eventsub::events::chat::ChatMessage;
use crate::eventsub::events::chat::ChatMessageDelete;
use crate::eventsub::events::chat::ChatNotification;
use crate::eventsub::events::chat::ChatSettingsUpdate;
use crate::eventsub::events::chat::ChatUserMessageHold;
use crate::eventsub::events::chat::ChatUserMessageUpdate;
use crate::eventsub::events::channel::Cheer;
use crate::eventsub::events::channel::Follow;
use crate::eventsub::events::goal::GoalBegin;
use crate::eventsub::events::goal::GoalEnd;
use crate::eventsub::events::goal::GoalProgress;
use crate::eventsub::events::hypetrain::HypeTrainBegin;
use crate::eventsub::events::hypetrain::HypeTrainEnd;
use crate::eventsub::events::hypetrain::HypeTrainProgress;
use crate::eventsub::events::moderation::Moderate;
use crate::eventsub::events::channel::ModeratorAdd;
use crate::eventsub::events::channel::ModeratorRemove;
use crate::eventsub::events::rewards::PointsAutomaticRewardRedemption;
use crate::eventsub::events::rewards::PointsCustomRewardAdd;
use crate::eventsub::events::rewards::PointsCustomRewardRedemptionAdd;
use crate::eventsub::events::rewards::PointsCustomRewardRedemptionUpdate;
use crate::eventsub::events::rewards::PointsCustomRewardRemove;
use crate::eventsub::events::rewards::PointsCustomRewardUpdate;
use crate::eventsub::events::polls::PollBegin;
use crate::eventsub::events::polls::PollEnd;
use crate::eventsub::events::polls::PollProgress;
use crate::eventsub::events::prediction::PredictionBegin;
use crate::eventsub::events::prediction::PredictionEnd;
use crate::eventsub::events::prediction::PredictionLock;
use crate::eventsub::events::prediction::PredictionProgress;
use crate::eventsub::events::channel::Raid;
use crate::eventsub::events::shared_chat::SharedChatSessionBegin;
use crate::eventsub::events::shared_chat::SharedChatSessionEnd;
use crate::eventsub::events::shared_chat::SharedChatSessionUpdate;
use crate::eventsub::events::moderation::ShieldModeBegin;
use crate::eventsub::events::moderation::ShieldModeEnd;
use crate::eventsub::events::channel::ShoutoutCreate;
use crate::eventsub::events::channel::ShoutoutReceived;
use crate::eventsub::events::channel::StreamOffline;
use crate::eventsub::events::channel::StreamOnline;
use crate::eventsub::events::subscription::Subscribe;
use crate::eventsub::events::subscription::SubscriptionEnd;
use crate::eventsub::events::subscription::SubscriptionGift;
use crate::eventsub::events::subscription::SubscriptionMessage;
use crate::eventsub::events::moderation::SuspiciousUserMessage;
use crate::eventsub::events::moderation::SuspiciousUserUpdate;
use crate::eventsub::events::moderation::Unban;
use crate::eventsub::events::moderation::UnbanRequestCreate;
use crate::eventsub::events::moderation::UnbanRequestResolve;
use crate::eventsub::events::user::UserUpdate;
use crate::eventsub::events::channel::VIPAdd;
use crate::eventsub::events::channel::VIPRemove;
use crate::eventsub::events::moderation::WarningAcknowledge;
use crate::eventsub::events::moderation::WarningSend;
use crate::eventsub::events::user::WhisperReceived;
use crate::json::Json;
use crate::json::same_text;
use crate::eventsub::subscriptions::Subscription;

verus! {

/// One message of the socket: what it is, and what it carries.
#[derive(Debug)]
pub struct EventsubMessage {
    pub metadata: Metadata,
    pub payload: Payload,
}

/// What every message says of itself. The subscription's type and version
/// come with notifications only.
#[derive(Debug)]
pub struct Metadata {
    pub message_id: String,
    pub message_type: EventsubMessageType,
    pub message_timestamp: String,
    pub subscription_type: Option<String>,
    pub subscription_version: Option<String>,
}

/// The kinds of message.
#[derive(Clone, Copy, Debug, PartialEq, Eq, Structural)]
pub enum EventsubMessageType {
    SessionWelcome,
    SessionKeepalive,
    Notification,
    SessionReconnect,
    Revocation,
}

/// What a message carries; which of these depends on its kind.
#[derive(Debug)]
#[allow(inconsistent_fields)]
pub enum Payload {
    Notification { subscription: Subscription, event: Event },
    Revocation { subscription: Subscription },
    Reconnect { session: Reconnect },
    Welcome { session: Welcome },
    Keepalive,
}

/// The session as a request to reconnect describes it.
#[derive(Debug)]
pub struct Reconnect {
    pub id: String,
    pub status: String,
    pub connected_at: String,
    pub keepalive_timeout_seconds: u32,
    pub reconnect_url: String,
}

/// The session as the first message describes it.
#[derive(Debug)]
pub struct Welcome {
    pub id: String,
    pub status: String,
    pub connected_at: String,
    pub keepalive_timeout_seconds: u32,
}

/// Which members a payload has, of the three that tell the kinds apart.
#[derive(Clone, Copy, Debug, PartialEq, Eq, Structural)]
pub enum Shape {
    /// A subscription and an event.
    Notification,
    /// A subscription alone.
    Revocation,
    /// A session alone.
    Session,
    /// None of the three.
    Empty,
    /// Any other combination, or no object at all.
    Mixed,
}

impl EventsubMessageType {
    /// The kind that a name stands for.
    pub open spec fn spec_named(name: Seq<char>) -> Option<Self> {
        if name == "session_welcome"@ {
            Some(Self::SessionWelcome)
        } else if name == "session_keepalive"@ {
            Some(Self::SessionKeepalive)
        } else if name == "notification"@ {
            Some(Self::Notification)
        } else if name == "session_reconnect"@ {
            Some(Self::SessionReconnect)
        } else if name == "revocation"@ {
            Some(Self::Revocation)
        } else {
            None
        }
    }

    /// The kind that a name stands for.
    pub fn named(name: &str) -> (r: Option<Self>)
        ensures
            r == Self::spec_named(name@),
    {
        if same_text(name, "session_welcome") {
            Some(Self::SessionWelcome)
        } else if same_text(name, "session_keepalive") {
            Some(Self::SessionKeepalive)
        } else if same_text(name, "notification") {
            Some(Self::Notification)
        } else if same_text(name, "session_reconnect") {
            Some(Self::SessionReconnect)
        } else if same_text(name, "revocation") {
            Some(Self::Revocation)
        } else {
            None
        }
    }

    /// The shape of payload that goes with the kind.
    pub open spec fn spec_shape(self) -> Shape {
        match self {
            Self::SessionWelcome | Self::SessionReconnect => Shape::Session,
            Self::SessionKeepalive => Shape::Empty,
            Self::Notification => Shape::Notification,
            Self::Revocation => Shape::Revocation,
        }
    }
}

impl Shape {
    /// The shape of a payload.
    pub open spec fn spec_of(payload: Json) -> Shape {
        let subscription = payload.spec_get("subscription"@) is Some;
        let event = payload.spec_get("event"@) is Some;
        let session = payload.spec_get("session"@) is Some;
        if !(payload is Object) {
            Shape::Mixed
        } else if subscription && event && !session {
            Shape::Notification
        } else if subscription && !event && !session {
            Shape::Revocation
        } else if !subscription && !event && session {
            Shape::Session
        } else if !subscription && !event && !session {
            Shape::Empty
        } else {
            Shape::Mixed
        }
    }

    /// The shape of a payload.
    pub fn of(payload: &Json) -> (r: Shape)
        ensures
            r == Self::spec_of(*payload),
    {
        let subscription = payload.get("subscription").is_some();
        let event = payload.get("event").is_some();
        let session = payload.get("session").is_some();
        let object = match payload {
            Json::Object(_) => true,
            _ => false,
        };
        if !object {
            Shape::Mixed
        } else if subscription && event && !session {
            Shape::Notification
        } else if subscription && !event && !session {
            Shape::Revocation
        } else if !subscription && !event && session {
            Shape::Session
        } else if !subscription && !event && !session {
            Shape::Empty
        } else {
            Shape::Mixed
        }
    }
}

impl Metadata {
    /// The kind that the metadata names, if it names one.
    pub open spec fn spec_kind(j: Json) -> Option<EventsubMessageType> {
        match j.spec_text("message_type"@) {
            Some(name) => EventsubMessageType::spec_named(name@),
            None => None,
        }
    }

    /// Whether a value describes metadata.
    pub open spec fn parses(j: Json) -> bool {
        &&& j.spec_text("message_id"@) is Some
        &&& Self::spec_kind(j) is Some
        &&& j.spec_text("message_timestamp"@) is Some
        &&& j.spec_optional_text("subscription_type"@) is Some
        &&& j.spec_optional_text("subscription_version"@) is Some
    }

    /// Whether `v` is the metadata that `j` describes.
    pub open spec fn parsed_as(j: Json, v: Metadata) -> bool {
        &&& j.spec_text("message_id"@) == Some(v.message_id)
        &&& Self::spec_kind(j) == Some(v.message_type)
        &&& j.spec_text("message_timestamp"@) == Some(v.message_timestamp)
        &&& j.spec_optional_text("subscription_type"@) == Some(v.subscription_type)
        &&& j.spec_optional_text("subscription_version"@) == Some(v.subscription_version)
    }

    /// Reads metadata.
    pub fn from_json(j: &Json) -> (r: Option<Metadata>)
        ensures
            r is Some <==> Self::parses(*j),
            r matches Some(v) ==> Self::parsed_as(*j, v),
    {
        let message_id = j.text("message_id");
        let message_type = match j.text("message_type") {
            Some(name) => EventsubMessageType::named(name.as_str()),
            None => None,
        };
        let message_timestamp = j.text("message_timestamp");
        let subscription_type = j.optional_text("subscription_type");
        let subscription_version = j.optional_text("subscription_version");
        if message_id.is_some() && message_type.is_some() && message_timestamp.is_some()
            && subscription_type.is_some() && subscription_version.is_some() {
            Some(
                Metadata {
                    message_id: message_id.unwrap(),
                    message_type: message_type.unwrap(),
                    message_timestamp: message_timestamp.unwrap(),
                    subscription_type: subscription_type.unwrap(),
                    subscription_version: subscription_version.unwrap(),
                },
            )
        } else {
            None
        }
    }
}

impl Welcome {
    /// Whether a value describes the session of a first message.
    pub open spec fn parses(j: Json) -> bool {
        &&& j.spec_text("id"@) is Some
        &&& j.spec_text("status"@) is Some
        &&& j.spec_text("connected_at"@) is Some
        &&& j.spec_count32("keepalive_timeout_seconds"@) is Some
    }

    /// Whether `v` is the session that `j` describes.
    pub open spec fn parsed_as(j: Json, v: Welcome) -> bool {
        &&& j.spec_text("id"@) == Some(v.id)
        &&& j.spec_text("status"@) == Some(v.status)
        &&& j.spec_text("connected_at"@) == Some(v.connected_at)
        &&& j.spec_count32("keepalive_timeout_seconds"@) == Some(v.keepalive_timeout_seconds)
    }

    /// Reads the session of a first message.
    pub fn from_json(j: &Json) -> (r: Option<Welcome>)
        ensures
            r is Some <==> Self::parses(*j),
            r matches Some(v) ==> Self::parsed_as(*j, v),
    {
        let id = j.text("id");
        let status = j.text("status");
        let connected_at = j.text("connected_at");
        let keepalive_timeout_seconds = j.count32("keepalive_timeout_seconds");
        if id.is_some() && status.is_some() && connected_at.is_some()
            && keepalive_timeout_seconds.is_some() {
            Some(
                Welcome {
                    id: id.unwrap(),
                    status: status.unwrap(),
                    connected_at: connected_at.unwrap(),
                    keepalive_timeout_seconds: keepalive_timeout_seconds.unwrap(),
                },
            )
        } else {
            None
        }
    }
}

impl Reconnect {
    /// Whether a value describes the session of a request to reconnect.
    pub open spec fn parses(j: Json) -> bool {
        &&& j.spec_text("id"@) is Some
        &&& j.spec_text("status"@) is Some
        &&& j.spec_text("connected_at"@) is Some
        &&& j.spec_count32("keepalive_timeout_seconds"@) is Some
        &&& j.spec_text("reconnect_url"@) is Some
    }

    /// Whether `v` is the session that `j` describes.
    pub open spec fn parsed_as(j: Json, v: Reconnect) -> bool {
        &&& j.spec_text("id"@) == Some(v.id)
        &&& j.spec_text("status"@) == Some(v.status)
        &&& j.spec_text("connected_at"@) == Some(v.connected_at)
        &&& j.spec_count32("keepalive_timeout_seconds"@) == Some(v.keepalive_timeout_seconds)
        &&& j.spec_text("reconnect_url"@) == Some(v.reconnect_url)
    }

    /// Reads the session of a request to reconnect.
    pub fn from_json(j: &Json) -> (r: Option<Reconnect>)
        ensures
            r is Some <==> Self::parses(*j),
            r matches Some(v) ==> Self::parsed_as(*j, v),
    {
        let id = j.text("id");
        let status = j.text("status");
        let connected_at = j.text("connected_at");
        let keepalive_timeout_seconds = j.count32("keepalive_timeout_seconds");
        let reconnect_url = j.text("reconnect_url");
        if id.is_some() && status.is_some() && connected_at.is_some()
            && keepalive_timeout_seconds.is_some() && reconnect_url.is_some() {
            Some(
                Reconnect {
                    id: id.unwrap(),
                    status: status.unwrap(),
                    connected_at: connected_at.unwrap(),
                    keepalive_timeout_seconds: keepalive_timeout_seconds.unwrap(),
                    reconnect_url: reconnect_url.unwrap(),
                },
            )
        } else {
            None
        }
    }
}

impl Payload {
    /// Whether a value is a payload of the given kind: it has the shape that
    /// goes with the kind, and what it holds can be read. The event of a
    /// notification is read as the subscription's type says.
    pub open spec fn parses(kind: EventsubMessageType, j: Json) -> bool {
        Shape::spec_of(j) == kind.spec_shape() && match kind {
            EventsubMessageType::SessionWelcome => Welcome::parses(j.spec_get("session"@).unwrap()),
            EventsubMessageType::SessionReconnect => Reconnect::parses(
                j.spec_get("session"@).unwrap(),
            ),
            EventsubMessageType::SessionKeepalive => true,
            EventsubMessageType::Revocation => Subscription::parses(
                j.spec_get("subscription"@).unwrap(),
            ),
            EventsubMessageType::Notification => {
                let subscription = j.spec_get("subscription"@).unwrap();
                Subscription::parses(subscription) && Event::parses(
                    subscription.spec_text("type"@).unwrap()@,
                    j.spec_get("event"@).unwrap(),
                )
            },
        }
    }

    /// Whether `v` is the payload of the given kind that `j` describes.
    pub open spec fn parsed_as(kind: EventsubMessageType, j: Json, v: Payload) -> bool {
        match kind {
            EventsubMessageType::SessionWelcome => v matches Payload::Welcome { session }
                && Welcome::parsed_as(j.spec_get("session"@).unwrap(), session),
            EventsubMessageType::SessionReconnect => v matches Payload::Reconnect { session }
                && Reconnect::parsed_as(j.spec_get("session"@).unwrap(), session),
            EventsubMessageType::SessionKeepalive => v is Keepalive,
            EventsubMessageType::Revocation => v matches Payload::Revocation { subscription }
                && Subscription::parsed_as(j.spec_get("subscription"@).unwrap(), subscription),
            EventsubMessageType::Notification => v matches Payload::Notification {
                subscription,
                event,
            } && Subscription::parsed_as(j.spec_get("subscription"@).unwrap(), subscription)
                && Event::parsed_as(
                j.spec_get("subscription"@).unwrap().spec_text("type"@).unwrap()@,
                j.spec_get("event"@).unwrap(),
                event,
            ),
        }
    }

    /// Reads a payload of the given kind.
    pub fn from_json(kind: EventsubMessageType, j: &Json) -> (r: Option<Payload>)
        ensures
            r is Some <==> Self::parses(kind, *j),
            r matches Some(v) ==> Self::parsed_as(kind, *j, v),
    {
        let shape = Shape::of(j);
        match kind {
            EventsubMessageType::SessionWelcome => {
                if shape != Shape::Session {
                    return None;
                }
                match Welcome::from_json(j.get("session").unwrap()) {
                    Some(session) => Some(Payload::Welcome { session }),
                    None => None,
                }
            },
            EventsubMessageType::SessionReconnect => {
                if shape != Shape::Session {
                    return None;
                }
                match Reconnect::from_json(j.get("session").unwrap()) {
                    Some(session) => Some(Payload::Reconnect { session }),
                    None => None,
                }
            },
            EventsubMessageType::SessionKeepalive => {
                if shape != Shape::Empty {
                    return None;
                }
                Some(Payload::Keepalive)
            },
            EventsubMessageType::Revocation => {
                if shape != Shape::Revocation {
                    return None;
                }
                match Subscription::from_json(j.get("subscription").unwrap()) {
                    Some(subscription) => Some(Payload::Revocation { subscription }),
                    None => None,
                }
            },
            EventsubMessageType::Notification => {
                if shape != Shape::Notification {
                    return None;
                }
                match Subscription::from_json(j.get("subscription").unwrap()) {
                    Some(subscription) => {
                        let found = Event::from_json(
                            subscription.subscription_type.as_str(),
                            j.get("event").unwrap(),
                        );
                        match found {
                            Some(event) => Some(Payload::Notification { subscription, event }),
                            None => None,
                        }
                    },
                    None => None,
                }
            },
        }
    }
}

impl EventsubMessage {
    /// The kind of message that a value says it is.
    pub open spec fn spec_kind(j: Json) -> Option<EventsubMessageType> {
        match j.spec_get("metadata"@) {
            Some(metadata) => Metadata::spec_kind(metadata),
            None => None,
        }
    }

    /// Whether a value is a message: it has metadata, and a payload of the
    /// kind that the metadata names.
    pub open spec fn parses(j: Json) -> bool {
        &&& j.spec_get("metadata"@) matches Some(metadata) && Metadata::parses(metadata)
        &&& j.spec_get("payload"@) matches Some(payload) && Payload::parses(
            Self::spec_kind(j).unwrap(),
            payload,
        )
    }

    /// Whether `v` is the message that `j` describes.
    pub open spec fn parsed_as(j: Json, v: EventsubMessage) -> bool {
        &&& Metadata::parsed_as(j.spec_get("metadata"@).unwrap(), v.metadata)
        &&& Payload::parsed_as(v.metadata.message_type, j.spec_get("payload"@).unwrap(), v.payload)
    }

    /// Reads a message.
    pub fn from_json(j: &Json) -> (r: Option<EventsubMessage>)
        ensures
            r is Some <==> Self::parses(*j),
            r matches Some(v) ==> Self::parsed_as(*j, v),
    {
        let metadata = match j.get("metadata") {
            Some(m) => Metadata::from_json(m),
            None => None,
        };
        match metadata {
            Some(metadata) => match j.get("payload") {
                Some(p) => match Payload::from_json(metadata.message_type, p) {
                    Some(payload) => Some(EventsubMessage { metadata, payload }),
                    None => None,
                },
                None => None,
            },
            None => None,
        }
    }

    /// Whether a value is a first message but for the session's identifier:
    /// its metadata names a welcome, its payload holds a session and nothing
    /// else, and the session has no string under `id`.
    pub open spec fn spec_lacks_session_id(j: Json) -> bool {
        &&& j.spec_get("metadata"@) matches Some(metadata) && Metadata::parses(metadata)
        &&& Self::spec_kind(j) == Some(EventsubMessageType::SessionWelcome)
        &&& j.spec_get("payload"@) matches Some(payload) && Shape::spec_of(payload)
            == Shape::Session && payload.spec_get("session"@).unwrap().spec_text("id"@) is None
    }

    /// Whether a value is a first message but for the session's identifier.
    pub fn lacks_session_id(j: &Json) -> (r: bool)
        ensures
            r == Self::spec_lacks_session_id(*j),
    {
        let metadata = match j.get("metadata") {
            Some(m) => Metadata::from_json(m),
            None => None,
        };
        match metadata {
            Some(metadata) => match j.get("payload") {
                Some(p) => metadata.message_type == EventsubMessageType::SessionWelcome
                    && Shape::of(p) == Shape::Session && p.get("session").unwrap().text(
                    "id",
                ).is_none(),
                None => false,
            },
            None => false,
        }
    }
}

// Parts that events share

/// A user: the identifier, the login and the name as it is shown.
#[derive(Debug)]
pub struct User {
    pub user_id: String,
    pub user_login: String,
    pub user_name: String,
}

impl User {
    /// Whether `j` has the three strings of a user under the given names.
    pub open spec fn parses(j: Json, id: Seq<char>, login: Seq<char>, name: Seq<char>) -> bool {
        j.spec_text(id) is Some && j.spec_text(login) is Some && j.spec_text(name) is Some
    }

    /// Whether `v` is the user that `j` holds under the given names.
    pub open spec fn parsed_as(
        j: Json,
        id: Seq<char>,
        login: Seq<char>,
        name: Seq<char>,
        v: User,
    ) -> bool {
        j.spec_text(id) == Some(v.user_id) && j.spec_text(login) == Some(v.user_login)
            && j.spec_text(name) == Some(v.user_name)
    }

    /// Reads the user that `j` holds under the given names.
    pub fn from_json(j: &Json, id: &str, login: &str, name: &str) -> (r: Option<User>)
        ensures
            r is Some <==> Self::parses(*j, id@, login@, name@),
            r matches Some(v) ==> Self::parsed_as(*j, id@, login@, name@, v),
    {
        let user_id = j.text(id);
        let user_login = j.text(login);
        let user_name = j.text(name);
        if user_id.is_some() && user_login.is_some() && user_name.is_some() {
            Some(
                User {
                    user_id: user_id.unwrap(),
                    user_login: user_login.unwrap(),
                    user_name: user_name.unwrap(),
                },
            )
        } else {
            None
        }
    }
}


#[derive(Debug)]
pub struct MessageSimple {
    pub text: String,
    pub emotes: Vec<EmoteSimple>,
}

impl FromJson for MessageSimple {
    open spec fn parses(j: Json) -> bool {
        &&& j.spec_text("text"@) is Some
        &&& list_parses::<EmoteSimple>(j, "emotes"@)
    }

    open spec fn parsed_as(j: Json, v: MessageSimple) -> bool {
        &&& j.spec_text("text"@) == Some(v.text)
        &&& list_parsed_as(j, "emotes"@, v.emotes@)
    }

    fn from_json(j: &Json) -> (r: Option<MessageSimple>) {
        let text = j.text("text");
        let emotes = read_list::<EmoteSimple>(j, "emotes");
        if text.is_some() && emotes.is_some() {
            Some(MessageSimple { text: text.unwrap(), emotes: emotes.unwrap() })
        } else {
            None
        }
    }
}

impl ToJson for MessageSimple {
    fn to_json(&self) -> (r: Json) {
        let mut entries: Vec<(String, Json)> = Vec::new();
        proof {
            reveal_strlit("text");
            reveal_strlit("emotes");
            assert("text"@.len() == 4);
            assert("emotes"@.len() == 6);
        }
        let text_json = Json::Text(self.text.clone());
        let emotes_json = Json::List(write_all(&self.emotes));
        put(&mut entries, "text", text_json);
        put(&mut entries, "emotes", emotes_json);
        proof {
            assert(member(entries@, "text"@) == Some(text_json));
            assert(member(entries@, "emotes"@) == Some(emotes_json));
        }
        Json::Object(entries)
    }
}

#[derive(Debug)]
pub struct EmoteSimple {
    pub begin: u32,
    pub end: u32,
    pub id: String,
}

impl FromJson for EmoteSimple {
    open spec fn parses(j: Json) -> bool {
        &&& j.spec_count32("begin"@) is Some
        &&& j.spec_count32("end"@) is Some
        &&& j.spec_text("id"@) is Some
    }

    open spec fn parsed_as(j: Json, v: EmoteSimple) -> bool {
        &&& j.spec_count32("begin"@) == Some(v.begin)
        &&& j.spec_count32("end"@) == Some(v.end)
        &&& j.spec_text("id"@) == Some(v.id)
    }

    fn from_json(j: &Json) -> (r: Option<EmoteSimple>) {
        let begin = j.count32("begin");
        let end = j.count32("end");
        let id = j.text("id");
        if begin.is_some() && end.is_some() && id.is_some() {
            Some(EmoteSimple { begin: begin.unwrap(), end: end.unwrap(), id: id.unwrap() })
        } else {
            None
        }
    }
}

impl ToJson for EmoteSimple {
    fn to_json(&self) -> (r: Json) {
        let mut entries: Vec<(String, Json)> = Vec::new();
        proof {
            reveal_strlit("begin");
            reveal_strlit("end");
            reveal_strlit("id");
            assert("begin"@.len() == 5);
            assert("end"@.len() == 3);
            assert("id"@.len() == 2);
        }
        let begin_json = count_json(self.begin as u64);
        let end_json = count_json(self.end as u64);
        let id_json = Json::Text(self.id.clone());
        put(&mut entries, "begin", begin_json);
        put(&mut entries, "end", end_json);
        put(&mut entries, "id", id_json);
        proof {
            assert(member(entries@, "begin"@) == Some(begin_json));
            assert(member(entries@, "end"@) == Some(end_json));
            assert(member(entries@, "id"@) == Some(id_json));
        }
        Json::Object(entries)
    }
}

#[derive(Debug)]
pub struct Message {
    pub text: String,
    pub fragments: Vec<Fragment>,
}

impl FromJson for Message {
    open spec fn parses(j: Json) -> bool {
        &&& j.spec_text("text"@) is Some
        &&& list_parses::<Fragment>(j, "fragments"@)
    }

    open spec fn parsed_as(j: Json, v: Message) -> bool {
        &&& j.spec_text("text"@) == Some(v.text)
        &&& list_parsed_as(j, "fragments"@, v.fragments@)
    }

    fn from_json(j: &Json) -> (r: Option<Message>) {
        let text = j.text("text");
        let fragments = read_list::<Fragment>(j, "fragments");
        if text.is_some() && fragments.is_some() {
            Some(Message { text: text.unwrap(), fragments: fragments.unwrap() })
        } else {
            None
        }
    }
}

impl ToJson for Message {
    fn to_json(&self) -> (r: Json) {
        let mut entries: Vec<(String, Json)> = Vec::new();
        proof {
            reveal_strlit("text");
            reveal_strlit("fragments");
            assert("text"@.len() == 4);
            assert("fragments"@.len() == 9);
        }
        let text_json = Json::Text(self.text.clone());
        let fragments_json = Json::List(write_all(&self.fragments));
        put(&mut entries, "text", text_json);
        put(&mut entries, "fragments", fragments_json);
        proof {
            assert(member(entries@, "text"@) == Some(text_json));
            assert(member(entries@, "fragments"@) == Some(fragments_json));
        }
        Json::Object(entries)
    }
}

/// A piece of a message. Every piece has its text; what else it has tells
/// what it is: a cheermote, an emote, the mention of a user, or plain text.
#[derive(Debug)]
pub enum Fragment {
    Cheermote { text: String, cheermote: Cheermote },
    Emote { text: String, emote: Emote },
    Mention { text: String, user: User },
    Text { text: String },
}

impl FromJson for Fragment {
    open spec fn parses(j: Json) -> bool {
        j.spec_text("text"@) is Some
    }

    open spec fn parsed_as(j: Json, v: Fragment) -> bool {
        if member_parses::<Cheermote>(j, "cheermote"@) {
            v matches Fragment::Cheermote { text, cheermote } && j.spec_text("text"@) == Some(text)
                && member_parsed_as(j, "cheermote"@, cheermote)
        } else if member_parses::<Emote>(j, "emote"@) {
            v matches Fragment::Emote { text, emote } && j.spec_text("text"@) == Some(text)
                && member_parsed_as(j, "emote"@, emote)
        } else if User::parses(j, "user_id"@, "user_login"@, "user_name"@) {
            v matches Fragment::Mention { text, user } && j.spec_text("text"@) == Some(text)
                && User::parsed_as(j, "user_id"@, "user_login"@, "user_name"@, user)
        } else {
            v matches Fragment::Text { text } && j.spec_text("text"@) == Some(text)
        }
    }

    fn from_json(j: &Json) -> (r: Option<Fragment>) {
        let text = match j.text("text") {
            Some(text) => text,
            None => {
                return None;
            },
        };
        match read_member::<Cheermote>(j, "cheermote") {
            Some(cheermote) => {
                return Some(Fragment::Cheermote { text, cheermote });
            },
            None => {},
        }
        match read_member::<Emote>(j, "emote") {
            Some(emote) => {
                return Some(Fragment::Emote { text, emote });
            },
            None => {},
        }
        match User::from_json(j, "user_id", "user_login", "user_name") {
            Some(user) => Some(Fragment::Mention { text, user }),
            None => Some(Fragment::Text { text }),
        }
    }
}

impl ToJson for Fragment {
    fn to_json(&self) -> (r: Json) {
        let mut entries: Vec<(String, Json)> = Vec::new();
        proof {
            reveal_strlit("text");
            reveal_strlit("cheermote");
            reveal_strlit("emote");
            reveal_strlit("user_id");
            reveal_strlit("user_login");
            reveal_strlit("user_name");
            assert("text"@.len() == 4);
            assert("cheermote"@.len() == 9);
            assert("emote"@.len() == 5);
            assert("user_id"@.len() == 7);
            assert("user_login"@.len() == 10);
            assert("user_name"@.len() == 9);
            assert("cheermote"@[0] != "user_name"@[0]);
        }
        match self {
            Fragment::Cheermote { text, cheermote } => {
                let text_json = Json::Text(text.clone());
                let cheermote_json = cheermote.to_json();
                put(&mut entries, "text", text_json);
                put(&mut entries, "cheermote", cheermote_json);
                proof {
                    assert(member(entries@, "text"@) == Some(text_json));
                    assert(member(entries@, "cheermote"@) == Some(cheermote_json));
                }
            },
            Fragment::Emote { text, emote } => {
                let text_json = Json::Text(text.clone());
                let emote_json = emote.to_json();
                put(&mut entries, "text", text_json);
                put(&mut entries, "emote", emote_json);
                proof {
                    assert(member(entries@, "text"@) == Some(text_json));
                    assert(member(entries@, "emote"@) == Some(emote_json));
                    assert(member(entries@, "cheermote"@) is None);
                }
            },
            Fragment::Mention { text, user } => {
                let text_json = Json::Text(text.clone());
                let id_json = Json::Text(user.user_id.clone());
                let login_json = Json::Text(user.user_login.clone());
                let name_json = Json::Text(user.user_name.clone());
                put(&mut entries, "text", text_json);
                put(&mut entries, "user_id", id_json);
                put(&mut entries, "user_login", login_json);
                put(&mut entries, "user_name", name_json);
                proof {
                    assert(member(entries@, "text"@) == Some(text_json));
                    assert(member(entries@, "user_id"@) == Some(id_json));
                    assert(member(entries@, "user_login"@) == Some(login_json));
                    assert(member(entries@, "user_name"@) == Some(name_json));
                    assert(member(entries@, "cheermote"@) is None);
                    assert(member(entries@, "emote"@) is None);
                }
            },
            Fragment::Text { text } => {
                let text_json = Json::Text(text.clone());
                put(&mut entries, "text", text_json);
                proof {
                    assert(member(entries@, "text"@) == Some(text_json));
                    assert(member(entries@, "cheermote"@) is None);
                    assert(member(entries@, "emote"@) is None);
                    assert(member(entries@, "user_id"@) is None);
                }
            },
        }
        Json::Object(entries)
    }
}


#[derive(Debug)]
pub struct Cheermote {
    pub prefix: String,
    pub bits: u32,
    pub tier: u32,
}

impl FromJson for Cheermote {
    open spec fn parses(j: Json) -> bool {
        &&& j.spec_text("prefix"@) is Some
        &&& j.spec_count32("bits"@) is Some
        &&& j.spec_count32("tier"@) is Some
    }

    open spec fn parsed_as(j: Json, v: Cheermote) -> bool {
        &&& j.spec_text("prefix"@) == Some(v.prefix)
        &&& j.spec_count32("bits"@) == Some(v.bits)
        &&& j.spec_count32("tier"@) == Some(v.tier)
    }

    fn from_json(j: &Json) -> (r: Option<Cheermote>) {
        let prefix = j.text("prefix");
        let bits = j.count32("bits");
        let tier = j.count32("tier");
        if prefix.is_some() && bits.is_some() && tier.is_some() {
            Some(Cheermote { prefix: prefix.unwrap(), bits: bits.unwrap(), tier: tier.unwrap() })
        } else {
            None
        }
    }
}

impl ToJson for Cheermote {
    fn to_json(&self) -> (r: Json) {
        let mut entries: Vec<(String, Json)> = Vec::new();
        proof {
            reveal_strlit("prefix");
            reveal_strlit("bits");
            reveal_strlit("tier");
            assert("prefix"@.len() == 6);
            assert("bits"@.len() == 4);
            assert("tier"@.len() == 4);
            assert("bits"@[0] != "tier"@[0]);
        }
        let prefix_json = Json::Text(self.prefix.clone());
        let bits_json = count_json(self.bits as u64);
        let tier_json = count_json(self.tier as u64);
        put(&mut entries, "prefix", prefix_json);
        put(&mut entries, "bits", bits_json);
        put(&mut entries, "tier", tier_json);
        proof {
            assert(member(entries@, "prefix"@) == Some(prefix_json));
            assert(member(entries@, "bits"@) == Some(bits_json));
            assert(member(entries@, "tier"@) == Some(tier_json));
        }
        Json::Object(entries)
    }
}

#[derive(Debug)]
pub struct Emote {
    pub id: String,
    pub emote_set_id: String,
    pub owner_id: String,
    pub format: Vec<EmoteFormat>,
}

impl FromJson for Emote {
    open spec fn parses(j: Json) -> bool {
        &&& j.spec_text("id"@) is Some
        &&& j.spec_text("emote_set_id"@) is Some
        &&& j.spec_text("owner_id"@) is Some
        &&& list_parses::<EmoteFormat>(j, "format"@)
    }

    open spec fn parsed_as(j: Json, v: Emote) -> bool {
        &&& j.spec_text("id"@) == Some(v.id)
        &&& j.spec_text("emote_set_id"@) == Some(v.emote_set_id)
        &&& j.spec_text("owner_id"@) == Some(v.owner_id)
        &&& list_parsed_as(j, "format"@, v.format@)
    }

    fn from_json(j: &Json) -> (r: Option<Emote>) {
        let id = j.text("id");
        let emote_set_id = j.text("emote_set_id");
        let owner_id = j.text("owner_id");
        let format = read_list::<EmoteFormat>(j, "format");
        if id.is_some() && emote_set_id.is_some() && owner_id.is_some() && format.is_some() {
            Some(
                Emote {
                    id: id.unwrap(),
                    emote_set_id: emote_set_id.unwrap(),
                    owner_id: owner_id.unwrap(),
                    format: format.unwrap(),
                },
            )
        } else {
            None
        }
    }
}

impl ToJson for Emote {
    fn to_json(&self) -> (r: Json) {
        let mut entries: Vec<(String, Json)> = Vec::new();
        proof {
            reveal_strlit("id");
            reveal_strlit("emote_set_id");
            reveal_strlit("owner_id");
            reveal_strlit("format");
            assert("id"@.len() == 2);
            assert("emote_set_id"@.len() == 12);
            assert("owner_id"@.len() == 8);
            assert("format"@.len() == 6);
        }
        let id_json = Json::Text(self.id.clone());
        let emote_set_id_json = Json::Text(self.emote_set_id.clone());
        let owner_id_json = Json::Text(self.owner_id.clone());
        let format_json = Json::List(write_all(&self.format));
        put(&mut entries, "id", id_json);
        put(&mut entries, "emote_set_id", emote_set_id_json);
        put(&mut entries, "owner_id", owner_id_json);
        put(&mut entries, "format", format_json);
        proof {
            assert(member(entries@, "id"@) == Some(id_json));
            assert(member(entries@, "emote_set_id"@) == Some(emote_set_id_json));
            assert(member(entries@, "owner_id"@) == Some(owner_id_json));
            assert(member(entries@, "format"@) == Some(format_json));
        }
        Json::Object(entries)
    }
}

#[derive(Clone, Copy, Debug, PartialEq, Eq, Structural)]
pub enum EmoteFormat {
    Static,
    Animated,
}

impl EmoteFormat {
    /// The value that a name stands for.
    pub open spec fn spec_named(name: Seq<char>) -> Option<EmoteFormat> {
        if name == "static"@ {
            Some(EmoteFormat::Static)
        } else if name == "animated"@ {
            Some(EmoteFormat::Animated)
        } else {
            None
        }
    }

    /// The value that a name stands for.
    pub fn named(name: &str) -> (r: Option<EmoteFormat>)
        ensures
            r == Self::spec_named(name@),
    {
        if same_text(name, "static") {
            Some(EmoteFormat::Static)
        } else if same_text(name, "animated") {
            Some(EmoteFormat::Animated)
        } else {
            None
        }
    }
}

impl FromJson for EmoteFormat {
    open spec fn parses(j: Json) -> bool {
        j matches Json::Text(s) && Self::spec_named(s@) is Some
    }

    open spec fn parsed_as(j: Json, v: EmoteFormat) -> bool {
        j matches Json::Text(s) && Self::spec_named(s@) == Some(v)
    }

    fn from_json(j: &Json) -> (r: Option<EmoteFormat>) {
        match j {
            Json::Text(s) => Self::named(s.as_str()),
            _ => None,
        }
    }
}

impl EmoteFormat {
    /// The name that stands for the value.
    pub fn name(&self) -> (r: &'static str)
        ensures
            Self::spec_named(r@) == Some(*self),
    {
        proof {
            reveal_strlit("static");
            reveal_strlit("animated");
            assert("static"@.len() == 6);
            assert("animated"@.len() == 8);
        }
        match self {
            EmoteFormat::Static => "static",
            EmoteFormat::Animated => "animated",
        }
    }
}

impl ToJson for EmoteFormat {
    fn to_json(&self) -> (r: Json) {
        Json::Text(self.name().to_owned())
    }
}

#[derive(Debug)]
pub struct DonationAmount {
    pub value: u32,
    pub decimal_places: u32,
    pub currency: String,
}

impl FromJson for DonationAmount {
    open spec fn parses(j: Json) -> bool {
        &&& j.spec_count32("value"@) is Some
        &&& j.spec_count32("decimal_places"@) is Some
        &&& j.spec_text("currency"@) is Some
    }

    open spec fn parsed_as(j: Json, v: DonationAmount) -> bool {
        &&& j.spec_count32("value"@) == Some(v.value)
        &&& j.spec_count32("decimal_places"@) == Some(v.decimal_places)
        &&& j.spec_text("currency"@) == Some(v.currency)
    }

    fn from_json(j: &Json) -> (r: Option<DonationAmount>) {
        let value = j.count32("value");
        let decimal_places = j.count32("decimal_places");
        let currency = j.text("currency");
        if value.is_some() && decimal_places.is_some() && currency.is_some() {
            Some(
                DonationAmount {
                    value: value.unwrap(),
                    decimal_places: decimal_places.unwrap(),
                    currency: currency.unwrap(),
                },
            )
        } else {
            None
        }
    }
}

impl ToJson for DonationAmount {
    fn to_json(&self) -> (r: Json) {
        let mut entries: Vec<(String, Json)> = Vec::new();
        proof {
            reveal_strlit("value");
            reveal_strlit("decimal_places");
            reveal_strlit("currency");
            assert("value"@.len() == 5);
            assert("decimal_places"@.len() == 14);
            assert("currency"@.len() == 8);
        }
        let value_json = count_json(self.value as u64);
        let decimal_places_json = count_json(self.decimal_places as u64);
        let currency_json = Json::Text(self.currency.clone());
        put(&mut entries, "value", value_json);
        put(&mut entries, "decimal_places", decimal_places_json);
        put(&mut entries, "currency", currency_json);
        proof {
            assert(member(entries@, "value"@) == Some(value_json));
            assert(member(entries@, "decimal_places"@) == Some(decimal_places_json));
            assert(member(entries@, "currency"@) == Some(currency_json));
        }
        Json::Object(entries)
    }
}

/// An event of one of the categories that can be subscribed to.
#[derive(Debug)]
pub enum Event {
    AutomodMessageHold(AutomodMessageHold),
    AutomodMessageUpdate(AutomodMessageUpdate),
    AutomodSettingsUpdate(AutomodSettingsUpdate),
    AutomodTermsUpdate(AutomodTermsUpdate),
    ChannelUpdate(ChannelUpdate),
    Follow(Follow),
    AdBreakBegin(AdBreakBegin),
    ChatClear(ChatClear),
    ChatClearUserMessages(ChatClearUserMessages),
    ChatMessage(ChatMessage),
    ChatMessageDelete(ChatMessageDelete),
    ChatNotification(ChatNotification),
    ChatSettingsUpdate(ChatSettingsUpdate),
    ChatUserMessageHold(ChatUserMessageHold),
    ChatUserMessageUpdate(ChatUserMessageUpdate),
    SharedChatSessionBegin(SharedChatSessionBegin),
    SharedChatSessionUpdate(SharedChatSessionUpdate),
    SharedChatSessionEnd(SharedChatSessionEnd),
    Subscribe(Subscribe),
    SubscriptionEnd(SubscriptionEnd),
    SubscriptionGift(SubscriptionGift),
    SubscriptionMessage(SubscriptionMessage),
    Cheer(Cheer),
    Raid(Raid),
    Ban(Ban),
    Unban(Unban),
    UnbanRequestCreate(UnbanRequestCreate),
    UnbanRequestResolve(UnbanRequestResolve),
    Moderate(Moderate),
    ModeratorAdd(ModeratorAdd),
    ModeratorRemove(ModeratorRemove),
    PointsAutomaticRewardRedemption(PointsAutomaticRewardRedemption),
    PointsCustomRewardAdd(PointsCustomRewardAdd),
    PointsCustomRewardUpdate(PointsCustomRewardUpdate),
    PointsCustomRewardRemove(PointsCustomRewardRemove),
    PointsCustomRewardRedemptionAdd(PointsCustomRewardRedemptionAdd),
    PointsCustomRewardRedemptionUpdate(PointsCustomRewardRedemptionUpdate),
    PollBegin(PollBegin),
    PollProgress(PollProgress),
    PollEnd(PollEnd),
    PredictionBegin(PredictionBegin),
    PredictionProgress(PredictionProgress),
    PredictionLock(PredictionLock),
    PredictionEnd(PredictionEnd),
    SuspiciousUserMessage(SuspiciousUserMessage),
    SuspiciousUserUpdate(SuspiciousUserUpdate),
    VIPAdd(VIPAdd),
    VIPRemove(VIPRemove),
    WarningAcknowledge(WarningAcknowledge),
    WarningSend(WarningSend),
    CharityDonation(CharityDonation),
    CharityCampaignStart(CharityCampaignStart),
    CharityCampaignProgress(CharityCampaignProgress),
    CharityCampaignStop(CharityCampaignStop),
    GoalBegin(GoalBegin),
    GoalProgress(GoalProgress),
    GoalEnd(GoalEnd),
    HypeTrainBegin(HypeTrainBegin),
    HypeTrainProgress(HypeTrainProgress),
    HypeTrainEnd(HypeTrainEnd),
    ShieldModeBegin(ShieldModeBegin),
    ShieldModeEnd(ShieldModeEnd),
    ShoutoutCreate(ShoutoutCreate),
    ShoutoutReceived(ShoutoutReceived),
    StreamOnline(StreamOnline),
    StreamOffline(StreamOffline),
    UserUpdate(UserUpdate),
    WhisperReceived(WhisperReceived),
}

impl Event {
    /// Whether `j` describes an event of the category that `kind` names.
    /// Cheers and raids are known under two names each.
    pub open spec fn parses(kind: Seq<char>, j: Json) -> bool {
        if kind == "automod.message.hold"@ {
            AutomodMessageHold::parses(j)
        } else if kind == "automod.message.update"@ {
            AutomodMessageUpdate::parses(j)
        } else if kind == "automod.settings.update"@ {
            AutomodSettingsUpdate::parses(j)
        } else if kind == "automod.terms.update"@ {
            AutomodTermsUpdate::parses(j)
        } else if kind == "channel.update"@ {
            ChannelUpdate::parses(j)
        } else if kind == "channel.follow"@ {
            Follow::parses(j)
        } else if kind == "channel.ad_break.begin"@ {
            AdBreakBegin::parses(j)
        } else if kind == "channel.chat.clear"@ {
            ChatClear::parses(j)
        } else if kind == "channel.chat.clear_user_messages"@ {
            ChatClearUserMessages::parses(j)
        } else if kind == "channel.chat.message"@ {
            ChatMessage::parses(j)
        } else if kind == "channel.chat.message_delete"@ {
            ChatMessageDelete::parses(j)
        } else if kind == "channel.chat.notification"@ {
            ChatNotification::parses(j)
        } else if kind == "channel.chat_settings.update"@ {
            ChatSettingsUpdate::parses(j)
        } else if kind == "channel.chat.user_message_hold"@ {
            ChatUserMessageHold::parses(j)
        } else if kind == "channel.chat.user_message_update"@ {
            ChatUserMessageUpdate::parses(j)
        } else if kind == "channel.shared_chat.begin"@ {
            SharedChatSessionBegin::parses(j)
        } else if kind == "channel.shared_chat.update"@ {
            SharedChatSessionUpdate::parses(j)
        } else if kind == "channel.shared_chat.end"@ {
            SharedChatSessionEnd::parses(j)
        } else if kind == "channel.subscribe"@ {
            Subscribe::parses(j)
        } else if kind == "channel.subscription.end"@ {
            SubscriptionEnd::parses(j)
        } else if kind == "channel.subscription.gift"@ {
            SubscriptionGift::parses(j)
        } else if kind == "channel.subscription.message"@ {
            SubscriptionMessage::parses(j)
        } else if kind == "channel.cheer"@ || kind == "channel.ChannelCheer"@ {
            Cheer::parses(j)
        } else if kind == "channel.raid"@ || kind == "channel.ChannelRaid"@ {
            Raid::parses(j)
        } else if kind == "channel.ban"@ {
            Ban::parses(j)
        } else if kind == "channel.unban"@ {
            Unban::parses(j)
        } else if kind == "channel.unban_request.create"@ {
            UnbanRequestCreate::parses(j)
        } else if kind == "channel.unban_request.resolve"@ {
            UnbanRequestResolve::parses(j)
        } else if kind == "channel.moderate"@ {
            Moderate::parses(j)
        } else if kind == "channel.moderator.add"@ {
            ModeratorAdd::parses(j)
        } else if kind == "channel.moderator.remove"@ {
            ModeratorRemove::parses(j)
        } else if kind == "channel.channel_points_automatic_reward_redemption.add"@ {
            PointsAutomaticRewardRedemption::parses(j)
        } else if kind == "channel.channel_points_custom_reward.add"@ {
            PointsCustomRewardAdd::parses(j)
        } else if kind == "channel.channel_points_custom_reward.update"@ {
            PointsCustomRewardUpdate::parses(j)
        } else if kind == "channel.channel_points_custom_reward.remove"@ {
            PointsCustomRewardRemove::parses(j)
        } else if kind == "channel.channel_points_custom_reward_redemption.add"@ {
            PointsCustomRewardRedemptionAdd::parses(j)
        } else if kind == "channel.channel_points_custom_reward_redemption.update"@ {
            PointsCustomRewardRedemptionUpdate::parses(j)
        } else if kind == "channel.poll.begin"@ {
            PollBegin::parses(j)
        } else if kind == "channel.poll.progress"@ {
            PollProgress::parses(j)
        } else if kind == "channel.poll.end"@ {
            PollEnd::parses(j)
        } else if kind == "channel.prediction.begin"@ {
            PredictionBegin::parses(j)
        } else if kind == "channel.prediction.progress"@ {
            PredictionProgress::parses(j)
        } else if kind == "channel.prediction.lock"@ {
            PredictionLock::parses(j)
        } else if kind == "channel.prediction.end"@ {
            PredictionEnd::parses(j)
        } else if kind == "channel.suspicious_user.message"@ {
            SuspiciousUserMessage::parses(j)
        } else if kind == "channel.suspicious_user.update"@ {
            SuspiciousUserUpdate::parses(j)
        } else if kind == "channel.vip.add"@ {
            VIPAdd::parses(j)
        } else if kind == "channel.vip.remove"@ {
            VIPRemove::parses(j)
        } else if kind == "channel.warning.acknowledge"@ {
            WarningAcknowledge::parses(j)
        } else if kind == "channel.warning.send"@ {
            WarningSend::parses(j)
        } else if kind == "channel.charity_campaign.donate"@ {
            CharityDonation::parses(j)
        } else if kind == "channel.charity_campaign.start"@ {
            CharityCampaignStart::parses(j)
        } else if kind == "channel.charity_campaign.progress"@ {
            CharityCampaignProgress::parses(j)
        } else if kind == "channel.charity_campaign.stop"@ {
            CharityCampaignStop::parses(j)
        } else if kind == "channel.goal.begin"@ {
            GoalBegin::parses(j)
        } else if kind == "channel.goal.progress"@ {
            GoalProgress::parses(j)
        } else if kind == "channel.goal.end"@ {
            GoalEnd::parses(j)
        } else if kind == "channel.hype_train.begin"@ {
            HypeTrainBegin::parses(j)
        } else if kind == "channel.hype_train.progress"@ {
            HypeTrainProgress::parses(j)
        } else if kind == "channel.hype_train.end"@ {
            HypeTrainEnd::parses(j)
        } else if kind == "channel.shield_mode.begin"@ {
            ShieldModeBegin::parses(j)
        } else if kind == "channel.shield_mode.end"@ {
            ShieldModeEnd::parses(j)
        } else if kind == "channel.shoutout.create"@ {
            ShoutoutCreate::parses(j)
        } else if kind == "channel.shoutout.receive"@ {
            ShoutoutReceived::parses(j)
        } else if kind == "stream.online"@ {
            StreamOnline::parses(j)
        } else if kind == "stream.offline"@ {
            StreamOffline::parses(j)
        } else if kind == "user.update"@ {
            UserUpdate::parses(j)
        } else if kind == "user.whisper.message"@ {
            WhisperReceived::parses(j)
        } else {
            false
        }
    }

    /// Whether `v` is the event of the category `kind` that `j` describes.
    pub open spec fn parsed_as(kind: Seq<char>, j: Json, v: Event) -> bool {
        if kind == "automod.message.hold"@ {
            v matches Event::AutomodMessageHold(e) && AutomodMessageHold::parsed_as(j, e)
        } else if kind == "automod.message.update"@ {
            v matches Event::AutomodMessageUpdate(e) && AutomodMessageUpdate::parsed_as(j, e)
        } else if kind == "automod.settings.update"@ {
            v matches Event::AutomodSettingsUpdate(e) && AutomodSettingsUpdate::parsed_as(j, e)
        } else if kind == "automod.terms.update"@ {
            v matches Event::AutomodTermsUpdate(e) && AutomodTermsUpdate::parsed_as(j, e)
        } else if kind == "channel.update"@ {
            v matches Event::ChannelUpdate(e) && ChannelUpdate::parsed_as(j, e)
        } else if kind == "channel.follow"@ {
            v matches Event::Follow(e) && Follow::parsed_as(j, e)
        } else if kind == "channel.ad_break.begin"@ {
            v matches Event::AdBreakBegin(e) && AdBreakBegin::parsed_as(j, e)
        } else if kind == "channel.chat.clear"@ {
            v matches Event::ChatClear(e) && ChatClear::parsed_as(j, e)
        } else if kind == "channel.chat.clear_user_messages"@ {
            v matches Event::ChatClearUserMessages(e) && ChatClearUserMessages::parsed_as(j, e)
        } else if kind == "channel.chat.message"@ {
            v matches Event::ChatMessage(e) && ChatMessage::parsed_as(j, e)
        } else if kind == "channel.chat.message_delete"@ {
            v matches Event::ChatMessageDelete(e) && ChatMessageDelete::parsed_as(j, e)
        } else if kind == "channel.chat.notification"@ {
            v matches Event::ChatNotification(e) && ChatNotification::parsed_as(j, e)
        } else if kind == "channel.chat_settings.update"@ {
            v matches Event::ChatSettingsUpdate(e) && ChatSettingsUpdate::parsed_as(j, e)
        } else if kind == "channel.chat.user_message_hold"@ {
            v matches Event::ChatUserMessageHold(e) && ChatUserMessageHold::parsed_as(j, e)
        } else if kind == "channel.chat.user_message_update"@ {
            v matches Event::ChatUserMessageUpdate(e) && ChatUserMessageUpdate::parsed_as(j, e)
        } else if kind == "channel.shared_chat.begin"@ {
            v matches Event::SharedChatSessionBegin(e) && SharedChatSessionBegin::parsed_as(j, e)
        } else if kind == "channel.shared_chat.update"@ {
            v matches Event::SharedChatSessionUpdate(e) && SharedChatSessionUpdate::parsed_as(j, e)
        } else if kind == "channel.shared_chat.end"@ {
            v matches Event::SharedChatSessionEnd(e) && SharedChatSessionEnd::parsed_as(j, e)
        } else if kind == "channel.subscribe"@ {
            v matches Event::Subscribe(e) && Subscribe::parsed_as(j, e)
        } else if kind == "channel.subscription.end"@ {
            v matches Event::SubscriptionEnd(e) && SubscriptionEnd::parsed_as(j, e)
        } else if kind == "channel.subscription.gift"@ {
            v matches Event::SubscriptionGift(e) && SubscriptionGift::parsed_as(j, e)
        } else if kind == "channel.subscription.message"@ {
            v matches Event::SubscriptionMessage(e) && SubscriptionMessage::parsed_as(j, e)
        } else if kind == "channel.cheer"@ || kind == "channel.ChannelCheer"@ {
            v matches Event::Cheer(e) && Cheer::parsed_as(j, e)
        } else if kind == "channel.raid"@ || kind == "channel.ChannelRaid"@ {
            v matches Event::Raid(e) && Raid::parsed_as(j, e)
        } else if kind == "channel.ban"@ {
            v matches Event::Ban(e) && Ban::parsed_as(j, e)
        } else if kind == "channel.unban"@ {
            v matches Event::Unban(e) && Unban::parsed_as(j, e)
        } else if kind == "channel.unban_request.create"@ {
            v matches Event::UnbanRequestCreate(e) && UnbanRequestCreate::parsed_as(j, e)
        } else if kind == "channel.unban_request.resolve"@ {
            v matches Event::UnbanRequestResolve(e) && UnbanRequestResolve::parsed_as(j, e)
        } else if kind == "channel.moderate"@ {
            v matches Event::Moderate(e) && Moderate::parsed_as(j, e)
        } else if kind == "channel.moderator.add"@ {
            v matches Event::ModeratorAdd(e) && ModeratorAdd::parsed_as(j, e)
        } else if kind == "channel.moderator.remove"@ {
            v matches Event::ModeratorRemove(e) && ModeratorRemove::parsed_as(j, e)
        } else if kind == "channel.channel_points_automatic_reward_redemption.add"@ {
            v matches Event::PointsAutomaticRewardRedemption(e)
                && PointsAutomaticRewardRedemption::parsed_as(j, e)
        } else if kind == "channel.channel_points_custom_reward.add"@ {
            v matches Event::PointsCustomRewardAdd(e) && PointsCustomRewardAdd::parsed_as(j, e)
        } else if kind == "channel.channel_points_custom_reward.update"@ {
            v matches Event::PointsCustomRewardUpdate(e)
                && PointsCustomRewardUpdate::parsed_as(j, e)
        } else if kind == "channel.channel_points_custom_reward.remove"@ {
            v matches Event::PointsCustomRewardRemove(e)
                && PointsCustomRewardRemove::parsed_as(j, e)
        } else if kind == "channel.channel_points_custom_reward_redemption.add"@ {
            v matches Event::PointsCustomRewardRedemptionAdd(e)
                && PointsCustomRewardRedemptionAdd::parsed_as(j, e)
        } else if kind == "channel.channel_points_custom_reward_redemption.update"@ {
            v matches Event::PointsCustomRewardRedemptionUpdate(e)
                && PointsCustomRewardRedemptionUpdate::parsed_as(j, e)
        } else if kind == "channel.poll.begin"@ {
            v matches Event::PollBegin(e) && PollBegin::parsed_as(j, e)
        } else if kind == "channel.poll.progress"@ {
            v matches Event::PollProgress(e) && PollProgress::parsed_as(j, e)
        } else if kind == "channel.poll.end"@ {
            v matches Event::PollEnd(e) && PollEnd::parsed_as(j, e)
        } else if kind == "channel.prediction.begin"@ {
            v matches Event::PredictionBegin(e) && PredictionBegin::parsed_as(j, e)
        } else if kind == "channel.prediction.progress"@ {
            v matches Event::PredictionProgress(e) && PredictionProgress::parsed_as(j, e)
        } else if kind == "channel.prediction.lock"@ {
            v matches Event::PredictionLock(e) && PredictionLock::parsed_as(j, e)
        } else if kind == "channel.prediction.end"@ {
            v matches Event::PredictionEnd(e) && PredictionEnd::parsed_as(j, e)
        } else if kind == "channel.suspicious_user.message"@ {
            v matches Event::SuspiciousUserMessage(e) && SuspiciousUserMessage::parsed_as(j, e)
        } else if kind == "channel.suspicious_user.update"@ {
            v matches Event::SuspiciousUserUpdate(e) && SuspiciousUserUpdate::parsed_as(j, e)
        } else if kind == "channel.vip.add"@ {
            v matches Event::VIPAdd(e) && VIPAdd::parsed_as(j, e)
        } else if kind == "channel.vip.remove"@ {
            v matches Event::VIPRemove(e) && VIPRemove::parsed_as(j, e)
        } else if kind == "channel.warning.acknowledge"@ {
            v matches Event::WarningAcknowledge(e) && WarningAcknowledge::parsed_as(j, e)
        } else if kind == "channel.warning.send"@ {
            v matches Event::WarningSend(e) && WarningSend::parsed_as(j, e)
        } else if kind == "channel.charity_campaign.donate"@ {
            v matches Event::CharityDonation(e) && CharityDonation::parsed_as(j, e)
        } else if kind == "channel.charity_campaign.start"@ {
            v matches Event::CharityCampaignStart(e) && CharityCampaignStart::parsed_as(j, e)
        } else if kind == "channel.charity_campaign.progress"@ {
            v matches Event::CharityCampaignProgress(e) && CharityCampaignProgress::parsed_as(j, e)
        } else if kind == "channel.charity_campaign.stop"@ {
            v matches Event::CharityCampaignStop(e) && CharityCampaignStop::parsed_as(j, e)
        } else if kind == "channel.goal.begin"@ {
            v matches Event::GoalBegin(e) && GoalBegin::parsed_as(j, e)
        } else if kind == "channel.goal.progress"@ {
            v matches Event::GoalProgress(e) && GoalProgress::parsed_as(j, e)
        } else if kind == "channel.goal.end"@ {
            v matches Event::GoalEnd(e) && GoalEnd::parsed_as(j, e)
        } else if kind == "channel.hype_train.begin"@ {
            v matches Event::HypeTrainBegin(e) && HypeTrainBegin::parsed_as(j, e)
        } else if kind == "channel.hype_train.progress"@ {
            v matches Event::HypeTrainProgress(e) && HypeTrainProgress::parsed_as(j, e)
        } else if kind == "channel.hype_train.end"@ {
            v matches Event::HypeTrainEnd(e) && HypeTrainEnd::parsed_as(j, e)
        } else if kind == "channel.shield_mode.begin"@ {
            v matches Event::ShieldModeBegin(e) && ShieldModeBegin::parsed_as(j, e)
        } else if kind == "channel.shield_mode.end"@ {
            v matches Event::ShieldModeEnd(e) && ShieldModeEnd::parsed_as(j, e)
        } else if kind == "channel.shoutout.create"@ {
            v matches Event::ShoutoutCreate(e) && ShoutoutCreate::parsed_as(j, e)
        } else if kind == "channel.shoutout.receive"@ {
            v matches Event::ShoutoutReceived(e) && ShoutoutReceived::parsed_as(j, e)
        } else if kind == "stream.online"@ {
            v matches Event::StreamOnline(e) && StreamOnline::parsed_as(j, e)
        } else if kind == "stream.offline"@ {
            v matches Event::StreamOffline(e) && StreamOffline::parsed_as(j, e)
        } else if kind == "user.update"@ {
            v matches Event::UserUpdate(e) && UserUpdate::parsed_as(j, e)
        } else if kind == "user.whisper.message"@ {
            v matches Event::WhisperReceived(e) && WhisperReceived::parsed_as(j, e)
        } else {
            false
        }
    }

    /// Reads the event of the category `kind` that `j` describes.
    pub fn from_json(kind: &str, j: &Json) -> (r: Option<Event>)
        ensures
            r is Some <==> Self::parses(kind@, *j),
            r matches Some(v) ==> Self::parsed_as(kind@, *j, v),
    {
        if same_text(kind, "automod.message.hold") {
            match AutomodMessageHold::from_json(j) {
                Some(e) => Some(Event::AutomodMessageHold(e)),
                None => None,
            }
        } else if same_text(kind, "automod.message.update") {
            match AutomodMessageUpdate::from_json(j) {
                Some(e) => Some(Event::AutomodMessageUpdate(e)),
                None => None,
            }
        } else if same_text(kind, "automod.settings.update") {
            match AutomodSettingsUpdate::from_json(j) {
                Some(e) => Some(Event::AutomodSettingsUpdate(e)),
                None => None,
            }
        } else if same_text(kind, "automod.terms.update") {
            match AutomodTermsUpdate::from_json(j) {
                Some(e) => Some(Event::AutomodTermsUpdate(e)),
                None => None,
            }
        } else if same_text(kind, "channel.update") {
            match ChannelUpdate::from_json(j) {
                Some(e) => Some(Event::ChannelUpdate(e)),
                None => None,
            }
        } else if same_text(kind, "channel.follow") {
            match Follow::from_json(j) {
                Some(e) => Some(Event::Follow(e)),
                None => None,
            }
        } else if same_text(kind, "channel.ad_break.begin") {
            match AdBreakBegin::from_json(j) {
                Some(e) => Some(Event::AdBreakBegin(e)),
                None => None,
            }
        } else if same_text(kind, "channel.chat.clear") {
            match ChatClear::from_json(j) {
                Some(e) => Some(Event::ChatClear(e)),
                None => None,
            }
        } else if same_text(kind, "channel.chat.clear_user_messages") {
            match ChatClearUserMessages::from_json(j) {
                Some(e) => Some(Event::ChatClearUserMessages(e)),
                None => None,
            }
        } else if same_text(kind, "channel.chat.message") {
            match ChatMessage::from_json(j) {
                Some(e) => Some(Event::ChatMessage(e)),
                None => None,
            }
        } else if same_text(kind, "channel.chat.message_delete") {
            match ChatMessageDelete::from_json(j) {
                Some(e) => Some(Event::ChatMessageDelete(e)),
                None => None,
            }
        } else if same_text(kind, "channel.chat.notification") {
            match ChatNotification::from_json(j) {
                Some(e) => Some(Event::ChatNotification(e)),
                None => None,
            }
        } else if same_text(kind, "channel.chat_settings.update") {
            match ChatSettingsUpdate::from_json(j) {
                Some(e) => Some(Event::ChatSettingsUpdate(e)),
                None => None,
            }
        } else if same_text(kind, "channel.chat.user_message_hold") {
            match ChatUserMessageHold::from_json(j) {
                Some(e) => Some(Event::ChatUserMessageHold(e)),
                None => None,
            }
        } else if same_text(kind, "channel.chat.user_message_update") {
            match ChatUserMessageUpdate::from_json(j) {
                Some(e) => Some(Event::ChatUserMessageUpdate(e)),
                None => None,
            }
        } else if same_text(kind, "channel.shared_chat.begin") {
            match SharedChatSessionBegin::from_json(j) {
                Some(e) => Some(Event::SharedChatSessionBegin(e)),
                None => None,
            }
        } else if same_text(kind, "channel.shared_chat.update") {
            match SharedChatSessionUpdate::from_json(j) {
                Some(e) => Some(Event::SharedChatSessionUpdate(e)),
                None => None,
            }
        } else if same_text(kind, "channel.shared_chat.end") {
            match SharedChatSessionEnd::from_json(j) {
                Some(e) => Some(Event::SharedChatSessionEnd(e)),
                None => None,
            }
        } else if same_text(kind, "channel.subscribe") {
            match Subscribe::from_json(j) {
                Some(e) => Some(Event::Subscribe(e)),
                None => None,
            }
        } else if same_text(kind, "channel.subscription.end") {
            match SubscriptionEnd::from_json(j) {
                Some(e) => Some(Event::SubscriptionEnd(e)),
                None => None,
            }
        } else if same_text(kind, "channel.subscription.gift") {
            match SubscriptionGift::from_json(j) {
                Some(e) => Some(Event::SubscriptionGift(e)),
                None => None,
            }
        } else if same_text(kind, "channel.subscription.message") {
            match SubscriptionMessage::from_json(j) {
                Some(e) => Some(Event::SubscriptionMessage(e)),
                None => None,
            }
        } else if same_text(kind, "channel.cheer") || same_text(kind, "channel.ChannelCheer") {
            match Cheer::from_json(j) {
                Some(e) => Some(Event::Cheer(e)),
                None => None,
            }
        } else if same_text(kind, "channel.raid") || same_text(kind, "channel.ChannelRaid") {
            match Raid::from_json(j) {
                Some(e) => Some(Event::Raid(e)),
                None => None,
            }
        } else if same_text(kind, "channel.ban") {
            match Ban::from_json(j) {
                Some(e) => Some(Event::Ban(e)),
                None => None,
            }
        } else if same_text(kind, "channel.unban") {
            match Unban::from_json(j) {
                Some(e) => Some(Event::Unban(e)),
                None => None,
            }
        } else if same_text(kind, "channel.unban_request.create") {
            match UnbanRequestCreate::from_json(j) {
                Some(e) => Some(Event::UnbanRequestCreate(e)),
                None => None,
            }
        } else if same_text(kind, "channel.unban_request.resolve") {
            match UnbanRequestResolve::from_json(j) {
                Some(e) => Some(Event::UnbanRequestResolve(e)),
                None => None,
            }
        } else if same_text(kind, "channel.moderate") {
            match Moderate::from_json(j) {
                Some(e) => Some(Event::Moderate(e)),
                None => None,
            }
        } else if same_text(kind, "channel.moderator.add") {
            match ModeratorAdd::from_json(j) {
                Some(e) => Some(Event::ModeratorAdd(e)),
                None => None,
            }
        } else if same_text(kind, "channel.moderator.remove") {
            match ModeratorRemove::from_json(j) {
                Some(e) => Some(Event::ModeratorRemove(e)),
                None => None,
            }
        } else if same_text(kind, "channel.channel_points_automatic_reward_redemption.add") {
            match PointsAutomaticRewardRedemption::from_json(j) {
                Some(e) => Some(Event::PointsAutomaticRewardRedemption(e)),
                None => None,
            }
        } else if same_text(kind, "channel.channel_points_custom_reward.add") {
            match PointsCustomRewardAdd::from_json(j) {
                Some(e) => Some(Event::PointsCustomRewardAdd(e)),
                None => None,
            }
        } else if same_text(kind, "channel.channel_points_custom_reward.update") {
            match PointsCustomRewardUpdate::from_json(j) {
                Some(e) => Some(Event::PointsCustomRewardUpdate(e)),
                None => None,
            }
        } else if same_text(kind, "channel.channel_points_custom_reward.remove") {
            match PointsCustomRewardRemove::from_json(j) {
                Some(e) => Some(Event::PointsCustomRewardRemove(e)),
                None => None,
            }
        } else if same_text(kind, "channel.channel_points_custom_reward_redemption.add") {
            match PointsCustomRewardRedemptionAdd::from_json(j) {
                Some(e) => Some(Event::PointsCustomRewardRedemptionAdd(e)),
                None => None,
            }
        } else if same_text(kind, "channel.channel_points_custom_reward_redemption.update") {
            match PointsCustomRewardRedemptionUpdate::from_json(j) {
                Some(e) => Some(Event::PointsCustomRewardRedemptionUpdate(e)),
                None => None,
            }
        } else if same_text(kind, "channel.poll.begin") {
            match PollBegin::from_json(j) {
                Some(e) => Some(Event::PollBegin(e)),
                None => None,
            }
        } else if same_text(kind, "channel.poll.progress") {
            match PollProgress::from_json(j) {
                Some(e) => Some(Event::PollProgress(e)),
                None => None,
            }
        } else if same_text(kind, "channel.poll.end") {
            match PollEnd::from_json(j) {
                Some(e) => Some(Event::PollEnd(e)),
                None => None,
            }
        } else if same_text(kind, "channel.prediction.begin") {
            match PredictionBegin::from_json(j) {
                Some(e) => Some(Event::PredictionBegin(e)),
                None => None,
            }
        } else if same_text(kind, "channel.prediction.progress") {
            match PredictionProgress::from_json(j) {
                Some(e) => Some(Event::PredictionProgress(e)),
                None => None,
            }
        } else if same_text(kind, "channel.prediction.lock") {
            match PredictionLock::from_json(j) {
                Some(e) => Some(Event::PredictionLock(e)),
                None => None,
            }
        } else if same_text(kind, "channel.prediction.end") {
            match PredictionEnd::from_json(j) {
                Some(e) => Some(Event::PredictionEnd(e)),
                None => None,
            }
        } else if same_text(kind, "channel.suspicious_user.message") {
            match SuspiciousUserMessage::from_json(j) {
                Some(e) => Some(Event::SuspiciousUserMessage(e)),
                None => None,
            }
        } else if same_text(kind, "channel.suspicious_user.update") {
            match SuspiciousUserUpdate::from_json(j) {
                Some(e) => Some(Event::SuspiciousUserUpdate(e)),
                None => None,
            }
        } else if same_text(kind, "channel.vip.add") {
            match VIPAdd::from_json(j) {
                Some(e) => Some(Event::VIPAdd(e)),
                None => None,
            }
        } else if same_text(kind, "channel.vip.remove") {
            match VIPRemove::from_json(j) {
                Some(e) => Some(Event::VIPRemove(e)),
                None => None,
            }
        } else if same_text(kind, "channel.warning.acknowledge") {
            match WarningAcknowledge::from_json(j) {
                Some(e) => Some(Event::WarningAcknowledge(e)),
                None => None,
            }
        } else if same_text(kind, "channel.warning.send") {
            match WarningSend::from_json(j) {
                Some(e) => Some(Event::WarningSend(e)),
                None => None,
            }
        } else if same_text(kind, "channel.charity_campaign.donate") {
            match CharityDonation::from_json(j) {
                Some(e) => Some(Event::CharityDonation(e)),
                None => None,
            }
        } else if same_text(kind, "channel.charity_campaign.start") {
            match CharityCampaignStart::from_json(j) {
                Some(e) => Some(Event::CharityCampaignStart(e)),
                None => None,
            }
        } else if same_text(kind, "channel.charity_campaign.progress") {
            match CharityCampaignProgress::from_json(j) {
                Some(e) => Some(Event::CharityCampaignProgress(e)),
                None => None,
            }
        } else if same_text(kind, "channel.charity_campaign.stop") {
            match CharityCampaignStop::from_json(j) {
                Some(e) => Some(Event::CharityCampaignStop(e)),
                None => None,
            }
        } else if same_text(kind, "channel.goal.begin") {
            match GoalBegin::from_json(j) {
                Some(e) => Some(Event::GoalBegin(e)),
                None => None,
            }
        } else if same_text(kind, "channel.goal.progress") {
            match GoalProgress::from_json(j) {
                Some(e) => Some(Event::GoalProgress(e)),
                None => None,
            }
        } else if same_text(kind, "channel.goal.end") {
            match GoalEnd::from_json(j) {
                Some(e) => Some(Event::GoalEnd(e)),
                None => None,
            }
        } else if same_text(kind, "channel.hype_train.begin") {
            match HypeTrainBegin::from_json(j) {
                Some(e) => Some(Event::HypeTrainBegin(e)),
                None => None,
            }
        } else if same_text(kind, "channel.hype_train.progress") {
            match HypeTrainProgress::from_json(j) {
                Some(e) => Some(Event::HypeTrainProgress(e)),
                None => None,
            }
        } else if same_text(kind, "channel.hype_train.end") {
            match HypeTrainEnd::from_json(j) {
                Some(e) => Some(Event::HypeTrainEnd(e)),
                None => None,
            }
        } else if same_text(kind, "channel.shield_mode.begin") {
            match ShieldModeBegin::from_json(j) {
                Some(e) => Some(Event::ShieldModeBegin(e)),
                None => None,
            }
        } else if same_text(kind, "channel.shield_mode.end") {
            match ShieldModeEnd::from_json(j) {
                Some(e) => Some(Event::ShieldModeEnd(e)),
                None => None,
            }
        } else if same_text(kind, "channel.shoutout.create") {
            match ShoutoutCreate::from_json(j) {
                Some(e) => Some(Event::ShoutoutCreate(e)),
                None => None,
            }
        } else if same_text(kind, "channel.shoutout.receive") {
            match ShoutoutReceived::from_json(j) {
                Some(e) => Some(Event::ShoutoutReceived(e)),
                None => None,
            }
        } else if same_text(kind, "stream.online") {
            match StreamOnline::from_json(j) {
                Some(e) => Some(Event::StreamOnline(e)),
                None => None,
            }
        } else if same_text(kind, "stream.offline") {
            match StreamOffline::from_json(j) {
                Some(e) => Some(Event::StreamOffline(e)),
                None => None,
            }
        } else if same_text(kind, "user.update") {
            match UserUpdate::from_json(j) {
                Some(e) => Some(Event::UserUpdate(e)),
                None => None,
            }
        } else if same_text(kind, "user.whisper.message") {
            match WhisperReceived::from_json(j) {
                Some(e) => Some(Event::WhisperReceived(e)),
                None => None,
            }
        } else {
            None
        }
    }
}

impl Event {
    /// The name of the category of the event. Cheers and raids go by the
    /// names that the service sends.
    pub open spec fn spec_kind(self) -> Seq<char> {
        match self {
            Event::AutomodMessageHold(_) => "automod.message.hold"@,
            Event::AutomodMessageUpdate(_) => "automod.message.update"@,
            Event::AutomodSettingsUpdate(_) => "automod.settings.update"@,
            Event::AutomodTermsUpdate(_) => "automod.terms.update"@,
            Event::ChannelUpdate(_) => "channel.update"@,
            Event::Follow(_) => "channel.follow"@,
            Event::AdBreakBegin(_) => "channel.ad_break.begin"@,
            Event::ChatClear(_) => "channel.chat.clear"@,
            Event::ChatClearUserMessages(_) => "channel.chat.clear_user_messages"@,
            Event::ChatMessage(_) => "channel.chat.message"@,
            Event::ChatMessageDelete(_) => "channel.chat.message_delete"@,
            Event::ChatNotification(_) => "channel.chat.notification"@,
            Event::ChatSettingsUpdate(_) => "channel.chat_settings.update"@,
            Event::ChatUserMessageHold(_) => "channel.chat.user_message_hold"@,
            Event::ChatUserMessageUpdate(_) => "channel.chat.user_message_update"@,
            Event::SharedChatSessionBegin(_) => "channel.shared_chat.begin"@,
            Event::SharedChatSessionUpdate(_) => "channel.shared_chat.update"@,
            Event::SharedChatSessionEnd(_) => "channel.shared_chat.end"@,
            Event::Subscribe(_) => "channel.subscribe"@,
            Event::SubscriptionEnd(_) => "channel.subscription.end"@,
            Event::SubscriptionGift(_) => "channel.subscription.gift"@,
            Event::SubscriptionMessage(_) => "channel.subscription.message"@,
            Event::Cheer(_) => "channel.cheer"@,
            Event::Raid(_) => "channel.raid"@,
            Event::Ban(_) => "channel.ban"@,
            Event::Unban(_) => "channel.unban"@,
            Event::UnbanRequestCreate(_) => "channel.unban_request.create"@,
            Event::UnbanRequestResolve(_) => "channel.unban_request.resolve"@,
            Event::Moderate(_) => "channel.moderate"@,
            Event::ModeratorAdd(_) => "channel.moderator.add"@,
            Event::ModeratorRemove(_) => "channel.moderator.remove"@,
            Event::PointsAutomaticRewardRedemption(_) => "channel.channel_points_automatic_reward_redemption.add"@,
            Event::PointsCustomRewardAdd(_) => "channel.channel_points_custom_reward.add"@,
            Event::PointsCustomRewardUpdate(_) => "channel.channel_points_custom_reward.update"@,
            Event::PointsCustomRewardRemove(_) => "channel.channel_points_custom_reward.remove"@,
            Event::PointsCustomRewardRedemptionAdd(_) => "channel.channel_points_custom_reward_redemption.add"@,
            Event::PointsCustomRewardRedemptionUpdate(_) => "channel.channel_points_custom_reward_redemption.update"@,
            Event::PollBegin(_) => "channel.poll.begin"@,
            Event::PollProgress(_) => "channel.poll.progress"@,
            Event::PollEnd(_) => "channel.poll.end"@,
            Event::PredictionBegin(_) => "channel.prediction.begin"@,
            Event::PredictionProgress(_) => "channel.prediction.progress"@,
            Event::PredictionLock(_) => "channel.prediction.lock"@,
            Event::PredictionEnd(_) => "channel.prediction.end"@,
            Event::SuspiciousUserMessage(_) => "channel.suspicious_user.message"@,
            Event::SuspiciousUserUpdate(_) => "channel.suspicious_user.update"@,
            Event::VIPAdd(_) => "channel.vip.add"@,
            Event::VIPRemove(_) => "channel.vip.remove"@,
            Event::WarningAcknowledge(_) => "channel.warning.acknowledge"@,
            Event::WarningSend(_) => "channel.warning.send"@,
            Event::CharityDonation(_) => "channel.charity_campaign.donate"@,
            Event::CharityCampaignStart(_) => "channel.charity_campaign.start"@,
            Event::CharityCampaignProgress(_) => "channel.charity_campaign.progress"@,
            Event::CharityCampaignStop(_) => "channel.charity_campaign.stop"@,
            Event::GoalBegin(_) => "channel.goal.begin"@,
            Event::GoalProgress(_) => "channel.goal.progress"@,
            Event::GoalEnd(_) => "channel.goal.end"@,
            Event::HypeTrainBegin(_) => "channel.hype_train.begin"@,
            Event::HypeTrainProgress(_) => "channel.hype_train.progress"@,
            Event::HypeTrainEnd(_) => "channel.hype_train.end"@,
            Event::ShieldModeBegin(_) => "channel.shield_mode.begin"@,
            Event::ShieldModeEnd(_) => "channel.shield_mode.end"@,
            Event::ShoutoutCreate(_) => "channel.shoutout.create"@,
            Event::ShoutoutReceived(_) => "channel.shoutout.receive"@,
            Event::StreamOnline(_) => "stream.online"@,
            Event::StreamOffline(_) => "stream.offline"@,
            Event::UserUpdate(_) => "user.update"@,
            Event::WhisperReceived(_) => "user.whisper.message"@,
        }
    }

    /// The name of the category of the event.
    pub fn kind(&self) -> (r: &'static str)
        ensures
            r@ == self.spec_kind(),
    {
        match self {
            Event::AutomodMessageHold(_) => "automod.message.hold",
            Event::AutomodMessageUpdate(_) => "automod.message.update",
            Event::AutomodSettingsUpdate(_) => "automod.settings.update",
            Event::AutomodTermsUpdate(_) => "automod.terms.update",
            Event::ChannelUpdate(_) => "channel.update",
            Event::Follow(_) => "channel.follow",
            Event::AdBreakBegin(_) => "channel.ad_break.begin",
            Event::ChatClear(_) => "channel.chat.clear",
            Event::ChatClearUserMessages(_) => "channel.chat.clear_user_messages",
            Event::ChatMessage(_) => "channel.chat.message",
            Event::ChatMessageDelete(_) => "channel.chat.message_delete",
            Event::ChatNotification(_) => "channel.chat.notification",
            Event::ChatSettingsUpdate(_) => "channel.chat_settings.update",
            Event::ChatUserMessageHold(_) => "channel.chat.user_message_hold",
            Event::ChatUserMessageUpdate(_) => "channel.chat.user_message_update",
            Event::SharedChatSessionBegin(_) => "channel.shared_chat.begin",
            Event::SharedChatSessionUpdate(_) => "channel.shared_chat.update",
            Event::SharedChatSessionEnd(_) => "channel.shared_chat.end",
            Event::Subscribe(_) => "channel.subscribe",
            Event::SubscriptionEnd(_) => "channel.subscription.end",
            Event::SubscriptionGift(_) => "channel.subscription.gift",
            Event::SubscriptionMessage(_) => "channel.subscription.message",
            Event::Cheer(_) => "channel.cheer",
            Event::Raid(_) => "channel.raid",
            Event::Ban(_) => "channel.ban",
            Event::Unban(_) => "channel.unban",
            Event::UnbanRequestCreate(_) => "channel.unban_request.create",
            Event::UnbanRequestResolve(_) => "channel.unban_request.resolve",
            Event::Moderate(_) => "channel.moderate",
            Event::ModeratorAdd(_) => "channel.moderator.add",
            Event::ModeratorRemove(_) => "channel.moderator.remove",
            Event::PointsAutomaticRewardRedemption(_) => "channel.channel_points_automatic_reward_redemption.add",
            Event::PointsCustomRewardAdd(_) => "channel.channel_points_custom_reward.add",
            Event::PointsCustomRewardUpdate(_) => "channel.channel_points_custom_reward.update",
            Event::PointsCustomRewardRemove(_) => "channel.channel_points_custom_reward.remove",
            Event::PointsCustomRewardRedemptionAdd(_) => "channel.channel_points_custom_reward_redemption.add",
            Event::PointsCustomRewardRedemptionUpdate(_) => "channel.channel_points_custom_reward_redemption.update",
            Event::PollBegin(_) => "channel.poll.begin",
            Event::PollProgress(_) => "channel.poll.progress",
            Event::PollEnd(_) => "channel.poll.end",
            Event::PredictionBegin(_) => "channel.prediction.begin",
            Event::PredictionProgress(_) => "channel.prediction.progress",
            Event::PredictionLock(_) => "channel.prediction.lock",
            Event::PredictionEnd(_) => "channel.prediction.end",
            Event::SuspiciousUserMessage(_) => "channel.suspicious_user.message",
            Event::SuspiciousUserUpdate(_) => "channel.suspicious_user.update",
            Event::VIPAdd(_) => "channel.vip.add",
            Event::VIPRemove(_) => "channel.vip.remove",
            Event::WarningAcknowledge(_) => "channel.warning.acknowledge",
            Event::WarningSend(_) => "channel.warning.send",
            Event::CharityDonation(_) => "channel.charity_campaign.donate",
            Event::CharityCampaignStart(_) => "channel.charity_campaign.start",
            Event::CharityCampaignProgress(_) => "channel.charity_campaign.progress",
            Event::CharityCampaignStop(_) => "channel.charity_campaign.stop",
            Event::GoalBegin(_) => "channel.goal.begin",
            Event::GoalProgress(_) => "channel.goal.progress",
            Event::GoalEnd(_) => "channel.goal.end",
            Event::HypeTrainBegin(_) => "channel.hype_train.begin",
            Event::HypeTrainProgress(_) => "channel.hype_train.progress",
            Event::HypeTrainEnd(_) => "channel.hype_train.end",
            Event::ShieldModeBegin(_) => "channel.shield_mode.begin",
            Event::ShieldModeEnd(_) => "channel.shield_mode.end",
            Event::ShoutoutCreate(_) => "channel.shoutout.create",
            Event::ShoutoutReceived(_) => "channel.shoutout.receive",
            Event::StreamOnline(_) => "stream.online",
            Event::StreamOffline(_) => "stream.offline",
            Event::UserUpdate(_) => "user.update",
            Event::WhisperReceived(_) => "user.whisper.message",
        }
    }

    /// Whether `j` describes the event as one of its own category.
    pub open spec fn written_as(self, j: Json) -> bool {
        match self {
            Event::AutomodMessageHold(e) => AutomodMessageHold::parses(j)
                && AutomodMessageHold::parsed_as(j, e),
            Event::AutomodMessageUpdate(e) => AutomodMessageUpdate::parses(j)
                && AutomodMessageUpdate::parsed_as(j, e),
            Event::AutomodSettingsUpdate(e) => AutomodSettingsUpdate::parses(j)
                && AutomodSettingsUpdate::parsed_as(j, e),
            Event::AutomodTermsUpdate(e) => AutomodTermsUpdate::parses(j)
                && AutomodTermsUpdate::parsed_as(j, e),
            Event::ChannelUpdate(e) => ChannelUpdate::parses(j) && ChannelUpdate::parsed_as(j, e),
            Event::Follow(e) => Follow::parses(j) && Follow::parsed_as(j, e),
            Event::AdBreakBegin(e) => AdBreakBegin::parses(j) && AdBreakBegin::parsed_as(j, e),
            Event::ChatClear(e) => ChatClear::parses(j) && ChatClear::parsed_as(j, e),
            Event::ChatClearUserMessages(e) => ChatClearUserMessages::parses(j)
                && ChatClearUserMessages::parsed_as(j, e),
            Event::ChatMessage(e) => ChatMessage::parses(j) && ChatMessage::parsed_as(j, e),
            Event::ChatMessageDelete(e) => ChatMessageDelete::parses(j)
                && ChatMessageDelete::parsed_as(j, e),
            Event::ChatNotification(e) => ChatNotification::parses(j)
                && ChatNotification::parsed_as(j, e),
            Event::ChatSettingsUpdate(e) => ChatSettingsUpdate::parses(j)
                && ChatSettingsUpdate::parsed_as(j, e),
            Event::ChatUserMessageHold(e) => ChatUserMessageHold::parses(j)
                && ChatUserMessageHold::parsed_as(j, e),
            Event::ChatUserMessageUpdate(e) => ChatUserMessageUpdate::parses(j)
                && ChatUserMessageUpdate::parsed_as(j, e),
            Event::SharedChatSessionBegin(e) => SharedChatSessionBegin::parses(j)
                && SharedChatSessionBegin::parsed_as(j, e),
            Event::SharedChatSessionUpdate(e) => SharedChatSessionUpdate::parses(j)
                && SharedChatSessionUpdate::parsed_as(j, e),
            Event::SharedChatSessionEnd(e) => SharedChatSessionEnd::parses(j)
                && SharedChatSessionEnd::parsed_as(j, e),
            Event::Subscribe(e) => Subscribe::parses(j) && Subscribe::parsed_as(j, e),
            Event::SubscriptionEnd(e) => SubscriptionEnd::parses(j)
                && SubscriptionEnd::parsed_as(j, e),
            Event::SubscriptionGift(e) => SubscriptionGift::parses(j)
                && SubscriptionGift::parsed_as(j, e),
            Event::SubscriptionMessage(e) => SubscriptionMessage::parses(j)
                && SubscriptionMessage::parsed_as(j, e),
            Event::Cheer(e) => Cheer::parses(j) && Cheer::parsed_as(j, e),
            Event::Raid(e) => Raid::parses(j) && Raid::parsed_as(j, e),
            Event::Ban(e) => Ban::parses(j) && Ban::parsed_as(j, e),
            Event::Unban(e) => Unban::parses(j) && Unban::parsed_as(j, e),
            Event::UnbanRequestCreate(e) => UnbanRequestCreate::parses(j)
                && UnbanRequestCreate::parsed_as(j, e),
            Event::UnbanRequestResolve(e) => UnbanRequestResolve::parses(j)
                && UnbanRequestResolve::parsed_as(j, e),
            Event::Moderate(e) => Moderate::parses(j) && Moderate::parsed_as(j, e),
            Event::ModeratorAdd(e) => ModeratorAdd::parses(j) && ModeratorAdd::parsed_as(j, e),
            Event::ModeratorRemove(e) => ModeratorRemove::parses(j)
                && ModeratorRemove::parsed_as(j, e),
            Event::PointsAutomaticRewardRedemption(e) => PointsAutomaticRewardRedemption::parses(j) && PointsAutomaticRewardRedemption::parsed_as(
                j,
                e,
            ),
            Event::PointsCustomRewardAdd(e) => PointsCustomRewardAdd::parses(j)
                && PointsCustomRewardAdd::parsed_as(j, e),
            Event::PointsCustomRewardUpdate(e) => PointsCustomRewardUpdate::parses(j)
                && PointsCustomRewardUpdate::parsed_as(j, e),
            Event::PointsCustomRewardRemove(e) => PointsCustomRewardRemove::parses(j)
                && PointsCustomRewardRemove::parsed_as(j, e),
            Event::PointsCustomRewardRedemptionAdd(e) => PointsCustomRewardRedemptionAdd::parses(j) && PointsCustomRewardRedemptionAdd::parsed_as(
                j,
                e,
            ),
            Event::PointsCustomRewardRedemptionUpdate(e) => PointsCustomRewardRedemptionUpdate::parses(j) && PointsCustomRewardRedemptionUpdate::parsed_as(
                j,
                e,
            ),
            Event::PollBegin(e) => PollBegin::parses(j) && PollBegin::parsed_as(j, e),
            Event::PollProgress(e) => PollProgress::parses(j) && PollProgress::parsed_as(j, e),
            Event::PollEnd(e) => PollEnd::parses(j) && PollEnd::parsed_as(j, e),
            Event::PredictionBegin(e) => PredictionBegin::parses(j)
                && PredictionBegin::parsed_as(j, e),
            Event::PredictionProgress(e) => PredictionProgress::parses(j)
                && PredictionProgress::parsed_as(j, e),
            Event::PredictionLock(e) => PredictionLock::parses(j)
                && PredictionLock::parsed_as(j, e),
            Event::PredictionEnd(e) => PredictionEnd::parses(j) && PredictionEnd::parsed_as(j, e),
            Event::SuspiciousUserMessage(e) => SuspiciousUserMessage::parses(j)
                && SuspiciousUserMessage::parsed_as(j, e),
            Event::SuspiciousUserUpdate(e) => SuspiciousUserUpdate::parses(j)
                && SuspiciousUserUpdate::parsed_as(j, e),
            Event::VIPAdd(e) => VIPAdd::parses(j) && VIPAdd::parsed_as(j, e),
            Event::VIPRemove(e) => VIPRemove::parses(j) && VIPRemove::parsed_as(j, e),
            Event::WarningAcknowledge(e) => WarningAcknowledge::parses(j)
                && WarningAcknowledge::parsed_as(j, e),
            Event::WarningSend(e) => WarningSend::parses(j) && WarningSend::parsed_as(j, e),
            Event::CharityDonation(e) => CharityDonation::parses(j)
                && CharityDonation::parsed_as(j, e),
            Event::CharityCampaignStart(e) => CharityCampaignStart::parses(j)
                && CharityCampaignStart::parsed_as(j, e),
            Event::CharityCampaignProgress(e) => CharityCampaignProgress::parses(j)
                && CharityCampaignProgress::parsed_as(j, e),
            Event::CharityCampaignStop(e) => CharityCampaignStop::parses(j)
                && CharityCampaignStop::parsed_as(j, e),
            Event::GoalBegin(e) => GoalBegin::parses(j) && GoalBegin::parsed_as(j, e),
            Event::GoalProgress(e) => GoalProgress::parses(j) && GoalProgress::parsed_as(j, e),
            Event::GoalEnd(e) => GoalEnd::parses(j) && GoalEnd::parsed_as(j, e),
            Event::HypeTrainBegin(e) => HypeTrainBegin::parses(j)
                && HypeTrainBegin::parsed_as(j, e),
            Event::HypeTrainProgress(e) => HypeTrainProgress::parses(j)
                && HypeTrainProgress::parsed_as(j, e),
            Event::HypeTrainEnd(e) => HypeTrainEnd::parses(j) && HypeTrainEnd::parsed_as(j, e),
            Event::ShieldModeBegin(e) => ShieldModeBegin::parses(j)
                && ShieldModeBegin::parsed_as(j, e),
            Event::ShieldModeEnd(e) => ShieldModeEnd::parses(j) && ShieldModeEnd::parsed_as(j, e),
            Event::ShoutoutCreate(e) => ShoutoutCreate::parses(j)
                && ShoutoutCreate::parsed_as(j, e),
            Event::ShoutoutReceived(e) => ShoutoutReceived::parses(j)
                && ShoutoutReceived::parsed_as(j, e),
            Event::StreamOnline(e) => StreamOnline::parses(j) && StreamOnline::parsed_as(j, e),
            Event::StreamOffline(e) => StreamOffline::parses(j) && StreamOffline::parsed_as(j, e),
            Event::UserUpdate(e) => UserUpdate::parses(j) && UserUpdate::parsed_as(j, e),
            Event::WhisperReceived(e) => WhisperReceived::parses(j)
                && WhisperReceived::parsed_as(j, e),
        }
    }

    /// Writes the event as its category is written. What is written is read
    /// back as the same event.
    pub fn to_json(&self) -> (r: Json)
        ensures
            self.written_as(r),
            Event::parses(self.spec_kind(), r),
            Event::parsed_as(self.spec_kind(), r, *self),
    {
        let written = match self {
            Event::AutomodMessageHold(e) => e.to_json(),
            Event::AutomodMessageUpdate(e) => e.to_json(),
            Event::AutomodSettingsUpdate(e) => e.to_json(),
            Event::AutomodTermsUpdate(e) => e.to_json(),
            Event::ChannelUpdate(e) => e.to_json(),
            Event::Follow(e) => e.to_json(),
            Event::AdBreakBegin(e) => e.to_json(),
            Event::ChatClear(e) => e.to_json(),
            Event::ChatClearUserMessages(e) => e.to_json(),
            Event::ChatMessage(e) => e.to_json(),
            Event::ChatMessageDelete(e) => e.to_json(),
            Event::ChatNotification(e) => e.to_json(),
            Event::ChatSettingsUpdate(e) => e.to_json(),
            Event::ChatUserMessageHold(e) => e.to_json(),
            Event::ChatUserMessageUpdate(e) => e.to_json(),
            Event::SharedChatSessionBegin(e) => e.to_json(),
            Event::SharedChatSessionUpdate(e) => e.to_json(),
            Event::SharedChatSessionEnd(e) => e.to_json(),
            Event::Subscribe(e) => e.to_json(),
            Event::SubscriptionEnd(e) => e.to_json(),
            Event::SubscriptionGift(e) => e.to_json(),
            Event::SubscriptionMessage(e) => e.to_json(),
            Event::Cheer(e) => e.to_json(),
            Event::Raid(e) => e.to_json(),
            Event::Ban(e) => e.to_json(),
            Event::Unban(e) => e.to_json(),
            Event::UnbanRequestCreate(e) => e.to_json(),
            Event::UnbanRequestResolve(e) => e.to_json(),
            Event::Moderate(e) => e.to_json(),
            Event::ModeratorAdd(e) => e.to_json(),
            Event::ModeratorRemove(e) => e.to_json(),
            Event::PointsAutomaticRewardRedemption(e) => e.to_json(),
            Event::PointsCustomRewardAdd(e) => e.to_json(),
            Event::PointsCustomRewardUpdate(e) => e.to_json(),
            Event::PointsCustomRewardRemove(e) => e.to_json(),
            Event::PointsCustomRewardRedemptionAdd(e) => e.to_json(),
            Event::PointsCustomRewardRedemptionUpdate(e) => e.to_json(),
            Event::PollBegin(e) => e.to_json(),
            Event::PollProgress(e) => e.to_json(),
            Event::PollEnd(e) => e.to_json(),
            Event::PredictionBegin(e) => e.to_json(),
            Event::PredictionProgress(e) => e.to_json(),
            Event::PredictionLock(e) => e.to_json(),
            Event::PredictionEnd(e) => e.to_json(),
            Event::SuspiciousUserMessage(e) => e.to_json(),
            Event::SuspiciousUserUpdate(e) => e.to_json(),
            Event::VIPAdd(e) => e.to_json(),
            Event::VIPRemove(e) => e.to_json(),
            Event::WarningAcknowledge(e) => e.to_json(),
            Event::WarningSend(e) => e.to_json(),
            Event::CharityDonation(e) => e.to_json(),
            Event::CharityCampaignStart(e) => e.to_json(),
            Event::CharityCampaignProgress(e) => e.to_json(),
            Event::CharityCampaignStop(e) => e.to_json(),
            Event::GoalBegin(e) => e.to_json(),
            Event::GoalProgress(e) => e.to_json(),
            Event::GoalEnd(e) => e.to_json(),
            Event::HypeTrainBegin(e) => e.to_json(),
            Event::HypeTrainProgress(e) => e.to_json(),
            Event::HypeTrainEnd(e) => e.to_json(),
            Event::ShieldModeBegin(e) => e.to_json(),
            Event::ShieldModeEnd(e) => e.to_json(),
            Event::ShoutoutCreate(e) => e.to_json(),
            Event::ShoutoutReceived(e) => e.to_json(),
            Event::StreamOnline(e) => e.to_json(),
            Event::StreamOffline(e) => e.to_json(),
            Event::UserUpdate(e) => e.to_json(),
            Event::WhisperReceived(e) => e.to_json(),
        };
        proof {
            lemma_round_trip(*self, written);
        }
        written
    }
}

/// An event that is written and read back under the name of its category
/// is read, and as the same event.
pub proof fn lemma_round_trip(event: Event, j: Json)
    requires
        event.written_as(j),
    ensures
        Event::parses(event.spec_kind(), j),
        Event::parsed_as(event.spec_kind(), j, event),
{
    reveal_strlit("automod.message.hold");
    reveal_strlit("automod.message.update");
    reveal_strlit("automod.settings.update");
    reveal_strlit("automod.terms.update");
    reveal_strlit("channel.update");
    reveal_strlit("channel.follow");
    reveal_strlit("channel.ad_break.begin");
    reveal_strlit("channel.chat.clear");
    reveal_strlit("channel.chat.clear_user_messages");
    reveal_strlit("channel.chat.message");
    reveal_strlit("channel.chat.message_delete");
    reveal_strlit("channel.chat.notification");
    reveal_strlit("channel.chat_settings.update");
    reveal_strlit("channel.chat.user_message_hold");
    reveal_strlit("channel.chat.user_message_update");
    reveal_strlit("channel.shared_chat.begin");
    reveal_strlit("channel.shared_chat.update");
    reveal_strlit("channel.shared_chat.end");
    reveal_strlit("channel.subscribe");
    reveal_strlit("channel.subscription.end");
    reveal_strlit("channel.subscription.gift");
    reveal_strlit("channel.subscription.message");
    reveal_strlit("channel.cheer");
    reveal_strlit("channel.raid");
    reveal_strlit("channel.ban");
    reveal_strlit("channel.unban");
    reveal_strlit("channel.unban_request.create");
    reveal_strlit("channel.unban_request.resolve");
    reveal_strlit("channel.moderate");
    reveal_strlit("channel.moderator.add");
    reveal_strlit("channel.moderator.remove");
    reveal_strlit("channel.channel_points_automatic_reward_redemption.add");
    reveal_strlit("channel.channel_points_custom_reward.add");
    reveal_strlit("channel.channel_points_custom_reward.update");
    reveal_strlit("channel.channel_points_custom_reward.remove");
    reveal_strlit("channel.channel_points_custom_reward_redemption.add");
    reveal_strlit("channel.channel_points_custom_reward_redemption.update");
    reveal_strlit("channel.poll.begin");
    reveal_strlit("channel.poll.progress");
    reveal_strlit("channel.poll.end");
    reveal_strlit("channel.prediction.begin");
    reveal_strlit("channel.prediction.progress");
    reveal_strlit("channel.prediction.lock");
    reveal_strlit("channel.prediction.end");
    reveal_strlit("channel.suspicious_user.message");
    reveal_strlit("channel.suspicious_user.update");
    reveal_strlit("channel.vip.add");
    reveal_strlit("channel.vip.remove");
    reveal_strlit("channel.warning.acknowledge");
    reveal_strlit("channel.warning.send");
    reveal_strlit("channel.charity_campaign.donate");
    reveal_strlit("channel.charity_campaign.start");
    reveal_strlit("channel.charity_campaign.progress");
    reveal_strlit("channel.charity_campaign.stop");
    reveal_strlit("channel.goal.begin");
    reveal_strlit("channel.goal.progress");
    reveal_strlit("channel.goal.end");
    reveal_strlit("channel.hype_train.begin");
    reveal_strlit("channel.hype_train.progress");
    reveal_strlit("channel.hype_train.end");
    reveal_strlit("channel.shield_mode.begin");
    reveal_strlit("channel.shield_mode.end");
    reveal_strlit("channel.shoutout.create");
    reveal_strlit("channel.shoutout.receive");
    reveal_strlit("stream.online");
    reveal_strlit("stream.offline");
    reveal_strlit("user.update");
    reveal_strlit("user.whisper.message");
    reveal_strlit("channel.ChannelCheer");
    reveal_strlit("channel.ChannelRaid");
    assert("automod.message.hold"@.len() == 20);
    assert("automod.message.update"@.len() == 22);
    assert("automod.settings.update"@.len() == 23);
    assert("automod.terms.update"@.len() == 20);
    assert("channel.update"@.len() == 14);
    assert("channel.follow"@.len() == 14);
    assert("channel.ad_break.begin"@.len() == 22);
    assert("channel.chat.clear"@.len() == 18);
    assert("channel.chat.clear_user_messages"@.len() == 32);
    assert("channel.chat.message"@.len() == 20);
    assert("channel.chat.message_delete"@.len() == 27);
    assert("channel.chat.notification"@.len() == 25);
    assert("channel.chat_settings.update"@.len() == 28);
    assert("channel.chat.user_message_hold"@.len() == 30);
    assert("channel.chat.user_message_update"@.len() == 32);
    assert("channel.shared_chat.begin"@.len() == 25);
    assert("channel.shared_chat.update"@.len() == 26);
    assert("channel.shared_chat.end"@.len() == 23);
    assert("channel.subscribe"@.len() == 17);
    assert("channel.subscription.end"@.len() == 24);
    assert("channel.subscription.gift"@.len() == 25);
    assert("channel.subscription.message"@.len() == 28);
    assert("channel.cheer"@.len() == 13);
    assert("channel.raid"@.len() == 12);
    assert("channel.ban"@.len() == 11);
    assert("channel.unban"@.len() == 13);
    assert("channel.unban_request.create"@.len() == 28);
    assert("channel.unban_request.resolve"@.len() == 29);
    assert("channel.moderate"@.len() == 16);
    assert("channel.moderator.add"@.len() == 21);
    assert("channel.moderator.remove"@.len() == 24);
    assert("channel.channel_points_automatic_reward_redemption.add"@.len() == 54);
    assert("channel.channel_points_custom_reward.add"@.len() == 40);
    assert("channel.channel_points_custom_reward.update"@.len() == 43);
    assert("channel.channel_points_custom_reward.remove"@.len() == 43);
    assert("channel.channel_points_custom_reward_redemption.add"@.len() == 51);
    assert("channel.channel_points_custom_reward_redemption.update"@.len() == 54);
    assert("channel.poll.begin"@.len() == 18);
    assert("channel.poll.progress"@.len() == 21);
    assert("channel.poll.end"@.len() == 16);
    assert("channel.prediction.begin"@.len() == 24);
    assert("channel.prediction.progress"@.len() == 27);
    assert("channel.prediction.lock"@.len() == 23);
    assert("channel.prediction.end"@.len() == 22);
    assert("channel.suspicious_user.message"@.len() == 31);
    assert("channel.suspicious_user.update"@.len() == 30);
    assert("channel.vip.add"@.len() == 15);
    assert("channel.vip.remove"@.len() == 18);
    assert("channel.warning.acknowledge"@.len() == 27);
    assert("channel.warning.send"@.len() == 20);
    assert("channel.charity_campaign.donate"@.len() == 31);
    assert("channel.charity_campaign.start"@.len() == 30);
    assert("channel.charity_campaign.progress"@.len() == 33);
    assert("channel.charity_campaign.stop"@.len() == 29);
    assert("channel.goal.begin"@.len() == 18);
    assert("channel.goal.progress"@.len() == 21);
    assert("channel.goal.end"@.len() == 16);
    assert("channel.hype_train.begin"@.len() == 24);
    assert("channel.hype_train.progress"@.len() == 27);
    assert("channel.hype_train.end"@.len() == 22);
    assert("channel.shield_mode.begin"@.len() == 25);
    assert("channel.shield_mode.end"@.len() == 23);
    assert("channel.shoutout.create"@.len() == 23);
    assert("channel.shoutout.receive"@.len() == 24);
    assert("stream.online"@.len() == 13);
    assert("stream.offline"@.len() == 14);
    assert("user.update"@.len() == 11);
    assert("user.whisper.message"@.len() == 20);
    assert("channel.ChannelCheer"@.len() == 20);
    assert("channel.ChannelRaid"@.len() == 19);
    assert("automod.message.hold"@[8] != "automod.terms.update"@[8]);
    assert("automod.message.hold"@[0] != "channel.chat.message"@[0]);
    assert("automod.message.hold"@[0] != "channel.warning.send"@[0]);
    assert("automod.message.hold"@[0] != "user.whisper.message"@[0]);
    assert("automod.message.hold"@[0] != "channel.ChannelCheer"@[0]);
    assert("automod.message.update"@[0] != "channel.ad_break.begin"@[0]);
    assert("automod.message.update"@[0] != "channel.prediction.end"@[0]);
    assert("automod.message.update"@[0] != "channel.hype_train.end"@[0]);
    assert("automod.settings.update"@[0] != "channel.shared_chat.end"@[0]);
    assert("automod.settings.update"@[0] != "channel.prediction.lock"@[0]);
    assert("automod.settings.update"@[0] != "channel.shield_mode.end"@[0]);
    assert("automod.settings.update"@[0] != "channel.shoutout.create"@[0]);
    assert("automod.terms.update"@[0] != "channel.chat.message"@[0]);
    assert("automod.terms.update"@[0] != "channel.warning.send"@[0]);
    assert("automod.terms.update"@[0] != "user.whisper.message"@[0]);
    assert("automod.terms.update"@[0] != "channel.ChannelCheer"@[0]);
    assert("channel.update"@[8] != "channel.follow"@[8]);
    assert("channel.update"@[0] != "stream.offline"@[0]);
    assert("channel.follow"@[0] != "stream.offline"@[0]);
    assert("channel.ad_break.begin"@[8] != "channel.prediction.end"@[8]);
    assert("channel.ad_break.begin"@[8] != "channel.hype_train.end"@[8]);
    assert("channel.chat.clear"@[8] != "channel.poll.begin"@[8]);
    assert("channel.chat.clear"@[8] != "channel.vip.remove"@[8]);
    assert("channel.chat.clear"@[8] != "channel.goal.begin"@[8]);
    assert("channel.chat.clear_user_messages"@[13] != "channel.chat.user_message_update"@[13]);
    assert("channel.chat.message"@[8] != "channel.warning.send"@[8]);
    assert("channel.chat.message"@[0] != "user.whisper.message"@[0]);
    assert("channel.chat.message"@[8] != "channel.ChannelCheer"@[8]);
    assert("channel.chat.message_delete"@[8] != "channel.prediction.progress"@[8]);
    assert("channel.chat.message_delete"@[8] != "channel.warning.acknowledge"@[8]);
    assert("channel.chat.message_delete"@[8] != "channel.hype_train.progress"@[8]);
    assert("channel.chat.notification"@[8] != "channel.shared_chat.begin"@[8]);
    assert("channel.chat.notification"@[8] != "channel.subscription.gift"@[8]);
    assert("channel.chat.notification"@[8] != "channel.shield_mode.begin"@[8]);
    assert("channel.chat_settings.update"@[8] != "channel.subscription.message"@[8]);
    assert("channel.chat_settings.update"@[8] != "channel.unban_request.create"@[8]);
    assert("channel.chat.user_message_hold"@[8] != "channel.suspicious_user.update"@[8]);
    assert("channel.chat.user_message_hold"@[11] != "channel.charity_campaign.start"@[11]);
    assert("channel.shared_chat.begin"@[9] != "channel.subscription.gift"@[9]);
    assert("channel.shared_chat.begin"@[10] != "channel.shield_mode.begin"@[10]);
    assert("channel.shared_chat.end"@[8] != "channel.prediction.lock"@[8]);
    assert("channel.shared_chat.end"@[10] != "channel.shield_mode.end"@[10]);
    assert("channel.shared_chat.end"@[10] != "channel.shoutout.create"@[10]);
    assert("channel.subscription.end"@[8] != "channel.moderator.remove"@[8]);
    assert("channel.subscription.end"@[8] != "channel.prediction.begin"@[8]);
    assert("channel.subscription.end"@[8] != "channel.hype_train.begin"@[8]);
    assert("channel.subscription.end"@[9] != "channel.shoutout.receive"@[9]);
    assert("channel.subscription.gift"@[9] != "channel.shield_mode.begin"@[9]);
    assert("channel.subscription.message"@[8] != "channel.unban_request.create"@[8]);
    assert("channel.cheer"@[8] != "channel.unban"@[8]);
    assert("channel.cheer"@[0] != "stream.online"@[0]);
    assert("channel.ban"@[0] != "user.update"@[0]);
    assert("channel.unban"@[0] != "stream.online"@[0]);
    assert("channel.unban_request.resolve"@[8] != "channel.charity_campaign.stop"@[8]);
    assert("channel.moderate"@[8] != "channel.poll.end"@[8]);
    assert("channel.moderate"@[8] != "channel.goal.end"@[8]);
    assert("channel.moderator.add"@[8] != "channel.poll.progress"@[8]);
    assert("channel.moderator.add"@[8] != "channel.goal.progress"@[8]);
    assert("channel.moderator.remove"@[8] != "channel.prediction.begin"@[8]);
    assert("channel.moderator.remove"@[8] != "channel.hype_train.begin"@[8]);
    assert("channel.moderator.remove"@[8] != "channel.shoutout.receive"@[8]);
    assert("channel.channel_points_automatic_reward_redemption.add"@[23]
        != "channel.channel_points_custom_reward_redemption.update"@[23]);
    assert("channel.channel_points_custom_reward.update"@[37]
        != "channel.channel_points_custom_reward.remove"@[37]);
    assert("channel.poll.begin"@[8] != "channel.vip.remove"@[8]);
    assert("channel.poll.begin"@[8] != "channel.goal.begin"@[8]);
    assert("channel.poll.progress"@[8] != "channel.goal.progress"@[8]);
    assert("channel.poll.end"@[8] != "channel.goal.end"@[8]);
    assert("channel.prediction.begin"@[8] != "channel.hype_train.begin"@[8]);
    assert("channel.prediction.begin"@[8] != "channel.shoutout.receive"@[8]);
    assert("channel.prediction.progress"@[8] != "channel.warning.acknowledge"@[8]);
    assert("channel.prediction.progress"@[8] != "channel.hype_train.progress"@[8]);
    assert("channel.prediction.lock"@[8] != "channel.shield_mode.end"@[8]);
    assert("channel.prediction.lock"@[8] != "channel.shoutout.create"@[8]);
    assert("channel.prediction.end"@[8] != "channel.hype_train.end"@[8]);
    assert("channel.suspicious_user.message"@[8] != "channel.charity_campaign.donate"@[8]);
    assert("channel.suspicious_user.update"@[8] != "channel.charity_campaign.start"@[8]);
    assert("channel.vip.remove"@[8] != "channel.goal.begin"@[8]);
    assert("channel.warning.acknowledge"@[8] != "channel.hype_train.progress"@[8]);
    assert("channel.warning.send"@[0] != "user.whisper.message"@[0]);
    assert("channel.warning.send"@[8] != "channel.ChannelCheer"@[8]);
    assert("channel.hype_train.begin"@[8] != "channel.shoutout.receive"@[8]);
    assert("channel.shield_mode.end"@[10] != "channel.shoutout.create"@[10]);
    assert("user.whisper.message"@[0] != "channel.ChannelCheer"@[0]);
}

} // verus!
