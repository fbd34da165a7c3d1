//! Access scopes: the permissions that a token is asked to carry.

use vstd::prelude::*;
use crate::eventsub::subscriptions::SubscriptionType;

verus! {

pub const ANALYTICS_READ_EXTENSIONS: u128 = 0x1;
pub const ANALYTICS_READ_GAMES: u128 = 0x2;
pub const BITS_READ: u128 = 0x4;
pub const CHANNEL_BOT: u128 = 0x8;
pub const CHANNEL_MANAGE_ADS: u128 = 0x10;
pub const CHANNEL_READ_ADS: u128 = 0x20;
pub const CHANNEL_MANAGE_BROADCAST: u128 = 0x40;
pub const CHANNEL_READ_CHARITY: u128 = 0x80;
pub const CHANNEL_EDIT_COMMERCIAL: u128 = 0x100;
pub const CHANNEL_READ_EDITORS: u128 = 0x200;
pub const CHANNEL_MANAGE_EXTENSIONS: u128 = 0x400;
pub const CHANNEL_READ_GOALS: u128 = 0x800;
pub const CHANNEL_READ_GUEST_STAR: u128 = 0x1000;
pub const CHANNEL_MANAGE_GUEST_STAR: u128 = 0x2000;
pub const CHANNEL_READ_HYPE_TRAIN: u128 = 0x4000;
pub const CHANNEL_MANAGE_MODERATORS: u128 = 0x8000;
pub const CHANNEL_READ_POLLS: u128 = 0x10000;
pub const CHANNEL_MANAGE_POLLS: u128 = 0x20000;
pub const CHANNEL_READ_PREDICTIONS: u128 = 0x40000;
pub const CHANNEL_MANAGE_PREDICTIONS: u128 = 0x80000;
pub const CHANNEL_MANAGE_RAIDS: u128 = 0x100000;
pub const CHANNEL_READ_REDEMPTIONS: u128 = 0x200000;
pub const CHANNEL_MANAGE_REDEMPTIONS: u128 = 0x400000;
pub const CHANNEL_MANAGE_SCHEDULE: u128 = 0x800000;
pub const CHANNEL_READ_STREAM_KEY: u128 = 0x1000000;
pub const CHANNEL_READ_SUBSCRIPTIONS: u128 = 0x2000000;
pub const CHANNEL_MANAGE_VIDEOS: u128 = 0x4000000;
pub const CHANNEL_READ_VIPS: u128 = 0x8000000;
pub const CHANNEL_MANAGE_VIPS: u128 = 0x10000000;
pub const CLIPS_EDIT: u128 = 0x20000000;
pub const MODERATION_READ: u128 = 0x40000000;
pub const MODERATOR_MANAGE_ANNOUNCEMENTS: u128 = 0x80000000;
pub const MODERATOR_MANAGE_AUTOMOD: u128 = 0x100000000;
pub const MODERATOR_READ_AUTOMOD_SETTINGS: u128 = 0x200000000;
pub const MODERATOR_MANAGE_AUTOMOD_SETTINGS: u128 = 0x400000000;
pub const MODERATOR_READ_BANNED_USERS: u128 = 0x800000000;
pub const MODERATOR_MANAGE_BANNED_USERS: u128 = 0x1000000000;
pub const MODERATOR_READ_BLOCKED_TERMS: u128 = 0x2000000000;
pub const MODERATOR_READ_CHAT_MESSAGES: u128 = 0x4000000000;
pub const MODERATOR_MANAGE_BLOCKED_TERMS: u128 = 0x8000000000;
pub const MODERATOR_MANAGE_CHAT_MESSAGES: u128 = 0x10000000000;
pub const MODERATOR_READ_CHAT_SETTINGS: u128 = 0x20000000000;
pub const MODERATOR_MANAGE_CHAT_SETTINGS: u128 = 0x40000000000;
pub const MODERATOR_READ_CHATTERS: u128 = 0x80000000000;
pub const MODERATOR_READ_FOLLOWERS: u128 = 0x100000000000;
pub const MODERATOR_READ_GUEST_STAR: u128 = 0x200000000000;
pub const MODERATOR_MANAGE_GUEST_STAR: u128 = 0x400000000000;
pub const MODERATOR_READ_MODERATORS: u128 = 0x800000000000;
pub const MODERATOR_READ_SHIELD_MODE: u128 = 0x1000000000000;
pub const MODERATOR_MANAGE_SHIELD_MODE: u128 = 0x2000000000000;
pub const MODERATOR_READ_SHOUTOUTS: u128 = 0x4000000000000;
pub const MODERATOR_MANAGE_SHOUTOUTS: u128 = 0x8000000000000;
pub const MODERATOR_READ_SUSPICIOUS_USERS: u128 = 0x10000000000000;
pub const MODERATOR_READ_UNBAN_REQUESTS: u128 = 0x20000000000000;
pub const MODERATOR_MANAGE_UNBAN_REQUESTS: u128 = 0x40000000000000;
pub const MODERATOR_READ_VIPS: u128 = 0x80000000000000;
pub const MODERATOR_READ_WARNINGS: u128 = 0x100000000000000;
pub const MODERATOR_MANAGE_WARNINGS: u128 = 0x200000000000000;
pub const USER_BOT: u128 = 0x400000000000000;
pub const USER_EDIT: u128 = 0x800000000000000;
pub const USER_EDIT_BROADCAST: u128 = 0x1000000000000000;
pub const USER_READ_BLOCKED_USERS: u128 = 0x2000000000000000;
pub const USER_MANAGE_BLOCKED_USERS: u128 = 0x4000000000000000;
pub const USER_READ_BROADCAST: u128 = 0x8000000000000000;
pub const USER_READ_CHAT: u128 = 0x10000000000000000;
pub const USER_MANAGE_CHAT_COLOR: u128 = 0x20000000000000000;
pub const USER_READ_EMAIL: u128 = 0x40000000000000000;
pub const USER_READ_EMOTES: u128 = 0x80000000000000000;
pub const USER_READ_FOLLOWS: u128 = 0x100000000000000000;
pub const USER_READ_MODERATED_CHANNELS: u128 = 0x200000000000000000;
pub const USER_READ_SUBSCRIPTIONS: u128 = 0x400000000000000000;
pub const USER_READ_WHISPERS: u128 = 0x800000000000000000;
pub const USER_MANAGE_WHISPERS: u128 = 0x1000000000000000000;
pub const USER_WRITE_CHAT: u128 = 0x2000000000000000000;

/// How many scopes there are.
pub const SCOPE_COUNT: usize = 74;

/// A set of scopes, one bit for each: the constants above, joined by `|`.
#[derive(Clone, Copy, Debug, PartialEq, Eq, Structural)]
pub struct Scope {
    pub bits: u128,
}

/// The name of the scope with the given number, as it is written in an
/// authorization address.
pub open spec fn scope_name(index: int) -> Seq<char> {
    if index == 0 {
        "analytics%3Aread%3Aextensions"@
    } else if index == 1 {
        "analytics%3Aread%3Agames"@
    } else if index == 2 {
        "bits%3Aread"@
    } else if index == 3 {
        "channel%3Abot"@
    } else if index == 4 {
        "channel%3Amanage%3Aads"@
    } else if index == 5 {
        "channel%3Aread%3Aads"@
    } else if index == 6 {
        "channel%3Amanage%3Abroadcast"@
    } else if index == 7 {
        "channel%3Aread%3Acharity"@
    } else if index == 8 {
        "channel%3Aedit%3Acommercial"@
    } else if index == 9 {
        "channel%3Aread%3Aeditors"@
    } else if index == 10 {
        "channel%3Amanage%3Aextensions"@
    } else if index == 11 {
        "channel%3Aread%3Agoals"@
    } else if index == 12 {
        "channel%3Aread%3Aguest_star"@
    } else if index == 13 {
        "channel%3Amanage%3Aguest_star"@
    } else if index == 14 {
        "channel%3Aread%3Ahype_train"@
    } else if index == 15 {
        "channel%3Amanage%3Amoderators"@
    } else if index == 16 {
        "channel%3Aread%3Apolls"@
    } else if index == 17 {
        "channel%3Amanage%3Apolls"@
    } else if index == 18 {
        "channel%3Aread%3Apredictions"@
    } else if index == 19 {
        "channel%3Amanage%3Apredictions"@
    } else if index == 20 {
        "channel%3Amanage%3Araids"@
    } else if index == 21 {
        "channel%3Aread%3Aredemptions"@
    } else if index == 22 {
        "channel%3Amanage%3Aredemptions"@
    } else if index == 23 {
        "channel%3Amanage%3Aschedule"@
    } else if index == 24 {
        "channel%3Aread%3Astream_key"@
    } else if index == 25 {
        "channel%3Aread%3Asubscriptions"@
    } else if index == 26 {
        "channel%3Amanage%3Avideos"@
    } else if index == 27 {
        "channel%3Aread%3Avips"@
    } else if index == 28 {
        "channel%3Amanage%3Avips"@
    } else if index == 29 {
        "clips%3Aedit"@
    } else if index == 30 {
        "moderation%3Aread"@
    } else if index == 31 {
        "moderator%3Amanage%3Aannouncements"@
    } else if index == 32 {
        "moderator%3Amanage%3Aautomod"@
    } else if index == 33 {
        "moderator%3Aread%3Aautomod_settings"@
    } else if index == 34 {
        "moderator%3Amanage%3Aautomod_settings"@
    } else if index == 35 {
        "moderator%3Aread%3Abanned_users"@
    } else if index == 36 {
        "moderator%3Amanage%3Abanned_users"@
    } else if index == 37 {
        "moderator%3Aread%3Ablocked_terms"@
    } else if index == 38 {
        "moderator%3Aread%3Achat_messages"@
    } else if index == 39 {
        "moderator%3Amanage%3Ablocked_terms"@
    } else if index == 40 {
        "moderator%3Amanage%3Achat_messages"@
    } else if index == 41 {
        "moderator%3Aread%3Achat_settings"@
    } else if index == 42 {
        "moderator%3Amanage%3Achat_settings"@
    } else if index == 43 {
        "moderator%3Aread%3Achatters"@
    } else if index == 44 {
        "moderator%3Aread%3Afollowers"@
    } else if index == 45 {
        "moderator%3Aread%3Aguest_star"@
    } else if index == 46 {
        "moderator%3Amanage%3Aguest_star"@
    } else if index == 47 {
        "moderator%3Aread%3Amoderators"@
    } else if index == 48 {
        "moderator%3Aread%3Ashield_mode"@
    } else if index == 49 {
        "moderator%3Amanage%3Ashield_mode"@
    } else if index == 50 {
        "moderator%3Aread%3Ashoutouts"@
    } else if index == 51 {
        "moderator%3Amanage%3Ashoutouts"@
    } else if index == 52 {
        "moderator%3Aread%3Asuspicious_users"@
    } else if index == 53 {
        "moderator%3Aread%3Aunban_requests"@
    } else if index == 54 {
        "moderator%3Amanage%3Aunban_requests"@
    } else if index == 55 {
        "moderator%3Aread%3Avips"@
    } else if index == 56 {
        "moderator%3Aread%3Awarnings"@
    } else if index == 57 {
        "moderator%3Amanage%3Awarnings"@
    } else if index == 58 {
        "user%3Abot"@
    } else if index == 59 {
        "user%3Aedit"@
    } else if index == 60 {
        "user%3Aedit%3Abroadcast"@
    } else if index == 61 {
        "user%3Aread%3Ablocked_users"@
    } else if index == 62 {
        "user%3Amanage%3Ablocked_users"@
    } else if index == 63 {
        "user%3Aread%3Abroadcast"@
    } else if index == 64 {
        "user%3Aread%3Achat"@
    } else if index == 65 {
        "user%3Amanage%3Achat_color"@
    } else if index == 66 {
        "user%3Aread%3Aemail"@
    } else if index == 67 {
        "user%3Aread%3Aemotes"@
    } else if index == 68 {
        "user%3Aread%3Afollows"@
    } else if index == 69 {
        "user%3Aread%3Amoderated_channels"@
    } else if index == 70 {
        "user%3Aread%3Asubscriptions"@
    } else if index == 71 {
        "user%3Aread%3Awhispers"@
    } else if index == 72 {
        "user%3Amanage%3Awhispers"@
    } else if index == 73 {
        "user%3Awrite%3Achat"@
    } else {
        Seq::empty()
    }
}

/// The bit of the scope with the given number.
pub open spec fn scope_bit(index: int) -> u128
    recommends
        0 <= index < 128,
{
    1u128 << (index as u128)
}

/// The names of the scopes of `bits` from number `from` on, joined by `+`.
/// `first` says that no name has been written before.
pub open spec fn joined_names(bits: u128, from: int, first: bool) -> Seq<char>
    decreases SCOPE_COUNT - from,
{
    if from >= SCOPE_COUNT || from < 0 {
        Seq::empty()
    } else if bits & scope_bit(from) == scope_bit(from) {
        let head = if first {
            scope_name(from)
        } else {
            "+"@ + scope_name(from)
        };
        head + joined_names(bits, from + 1, false)
    } else {
        joined_names(bits, from + 1, first)
    }
}

/// The scope that a subscription to `kind` needs, as bits; none for a
/// category that needs no scope or whose scope is not known here.
pub open spec fn needed_bits(kind: SubscriptionType) -> u128 {
    match kind {
        SubscriptionType::Follow => MODERATOR_READ_FOLLOWERS,
        SubscriptionType::AdBreakBegin => CHANNEL_READ_ADS,
        SubscriptionType::ChatClear => USER_READ_CHAT,
        SubscriptionType::ChatClearUserMessages => USER_READ_CHAT,
        SubscriptionType::ChatMessage => USER_READ_CHAT,
        SubscriptionType::ChatMessageDelete => USER_READ_CHAT,
        SubscriptionType::Subscribe => CHANNEL_READ_SUBSCRIPTIONS,
        SubscriptionType::SubscriptionGift => CHANNEL_READ_SUBSCRIPTIONS,
        SubscriptionType::SubscriptionMessage => CHANNEL_READ_SUBSCRIPTIONS,
        SubscriptionType::Cheer => BITS_READ,
        SubscriptionType::PointsCustomRewardRedemptionAdd(_) => CHANNEL_READ_REDEMPTIONS,
        SubscriptionType::PollBegin => CHANNEL_READ_POLLS,
        SubscriptionType::PollProgress => CHANNEL_READ_POLLS,
        SubscriptionType::PollEnd => CHANNEL_READ_POLLS,
        SubscriptionType::PredictionBegin => CHANNEL_READ_PREDICTIONS,
        SubscriptionType::PredictionProgress => CHANNEL_READ_PREDICTIONS,
        SubscriptionType::PredictionLock => CHANNEL_READ_PREDICTIONS,
        SubscriptionType::PredictionEnd => CHANNEL_READ_PREDICTIONS,
        SubscriptionType::CharityDonation => CHANNEL_READ_CHARITY,
        SubscriptionType::HypeTrainBegin => CHANNEL_READ_HYPE_TRAIN,
        SubscriptionType::HypeTrainProgress => CHANNEL_READ_HYPE_TRAIN,
        SubscriptionType::HypeTrainEnd => CHANNEL_READ_HYPE_TRAIN,
        SubscriptionType::ShoutoutCreate => MODERATOR_READ_SHOUTOUTS,
        _ => 0,
    }
}

/// The constants are the bits that `scope_bit` numbers.
proof fn lemma_scope_bits()
    ensures
        ANALYTICS_READ_EXTENSIONS == scope_bit(0),
        ANALYTICS_READ_GAMES == scope_bit(1),
        BITS_READ == scope_bit(2),
        CHANNEL_BOT == scope_bit(3),
        CHANNEL_MANAGE_ADS == scope_bit(4),
        CHANNEL_READ_ADS == scope_bit(5),
        CHANNEL_MANAGE_BROADCAST == scope_bit(6),
        CHANNEL_READ_CHARITY == scope_bit(7),
        CHANNEL_EDIT_COMMERCIAL == scope_bit(8),
        CHANNEL_READ_EDITORS == scope_bit(9),
        CHANNEL_MANAGE_EXTENSIONS == scope_bit(10),
        CHANNEL_READ_GOALS == scope_bit(11),
        CHANNEL_READ_GUEST_STAR == scope_bit(12),
        CHANNEL_MANAGE_GUEST_STAR == scope_bit(13),
        CHANNEL_READ_HYPE_TRAIN == scope_bit(14),
        CHANNEL_MANAGE_MODERATORS == scope_bit(15),
        CHANNEL_READ_POLLS == scope_bit(16),
        CHANNEL_MANAGE_POLLS == scope_bit(17),
        CHANNEL_READ_PREDICTIONS == scope_bit(18),
        CHANNEL_MANAGE_PREDICTIONS == scope_bit(19),
        CHANNEL_MANAGE_RAIDS == scope_bit(20),
        CHANNEL_READ_REDEMPTIONS == scope_bit(21),
        CHANNEL_MANAGE_REDEMPTIONS == scope_bit(22),
        CHANNEL_MANAGE_SCHEDULE == scope_bit(23),
        CHANNEL_READ_STREAM_KEY == scope_bit(24),
        CHANNEL_READ_SUBSCRIPTIONS == scope_bit(25),
        CHANNEL_MANAGE_VIDEOS == scope_bit(26),
        CHANNEL_READ_VIPS == scope_bit(27),
        CHANNEL_MANAGE_VIPS == scope_bit(28),
        CLIPS_EDIT == scope_bit(29),
        MODERATION_READ == scope_bit(30),
        MODERATOR_MANAGE_ANNOUNCEMENTS == scope_bit(31),
        MODERATOR_MANAGE_AUTOMOD == scope_bit(32),
        MODERATOR_READ_AUTOMOD_SETTINGS == scope_bit(33),
        MODERATOR_MANAGE_AUTOMOD_SETTINGS == scope_bit(34),
        MODERATOR_READ_BANNED_USERS == scope_bit(35),
        MODERATOR_MANAGE_BANNED_USERS == scope_bit(36),
        MODERATOR_READ_BLOCKED_TERMS == scope_bit(37),
        MODERATOR_READ_CHAT_MESSAGES == scope_bit(38),
        MODERATOR_MANAGE_BLOCKED_TERMS == scope_bit(39),
        MODERATOR_MANAGE_CHAT_MESSAGES == scope_bit(40),
        MODERATOR_READ_CHAT_SETTINGS == scope_bit(41),
        MODERATOR_MANAGE_CHAT_SETTINGS == scope_bit(42),
        MODERATOR_READ_CHATTERS == scope_bit(43),
        MODERATOR_READ_FOLLOWERS == scope_bit(44),
        MODERATOR_READ_GUEST_STAR == scope_bit(45),
        MODERATOR_MANAGE_GUEST_STAR == scope_bit(46),
        MODERATOR_READ_MODERATORS == scope_bit(47),
        MODERATOR_READ_SHIELD_MODE == scope_bit(48),
        MODERATOR_MANAGE_SHIELD_MODE == scope_bit(49),
        MODERATOR_READ_SHOUTOUTS == scope_bit(50),
        MODERATOR_MANAGE_SHOUTOUTS == scope_bit(51),
        MODERATOR_READ_SUSPICIOUS_USERS == scope_bit(52),
        MODERATOR_READ_UNBAN_REQUESTS == scope_bit(53),
        MODERATOR_MANAGE_UNBAN_REQUESTS == scope_bit(54),
        MODERATOR_READ_VIPS == scope_bit(55),
        MODERATOR_READ_WARNINGS == scope_bit(56),
        MODERATOR_MANAGE_WARNINGS == scope_bit(57),
        USER_BOT == scope_bit(58),
        USER_EDIT == scope_bit(59),
        USER_EDIT_BROADCAST == scope_bit(60),
        USER_READ_BLOCKED_USERS == scope_bit(61),
        USER_MANAGE_BLOCKED_USERS == scope_bit(62),
        USER_READ_BROADCAST == scope_bit(63),
        USER_READ_CHAT == scope_bit(64),
        USER_MANAGE_CHAT_COLOR == scope_bit(65),
        USER_READ_EMAIL == scope_bit(66),
        USER_READ_EMOTES == scope_bit(67),
        USER_READ_FOLLOWS == scope_bit(68),
        USER_READ_MODERATED_CHANNELS == scope_bit(69),
        USER_READ_SUBSCRIPTIONS == scope_bit(70),
        USER_READ_WHISPERS == scope_bit(71),
        USER_MANAGE_WHISPERS == scope_bit(72),
        USER_WRITE_CHAT == scope_bit(73),
{
    assert(
        0x1u128 == 1u128 << 0u128
        && 0x2u128 == 1u128 << 1u128
        && 0x4u128 == 1u128 << 2u128
        && 0x8u128 == 1u128 << 3u128
        && 0x10u128 == 1u128 << 4u128
        && 0x20u128 == 1u128 << 5u128
        && 0x40u128 == 1u128 << 6u128
        && 0x80u128 == 1u128 << 7u128
        && 0x100u128 == 1u128 << 8u128
        && 0x200u128 == 1u128 << 9u128
        && 0x400u128 == 1u128 << 10u128
        && 0x800u128 == 1u128 << 11u128
        && 0x1000u128 == 1u128 << 12u128
        && 0x2000u128 == 1u128 << 13u128
        && 0x4000u128 == 1u128 << 14u128
        && 0x8000u128 == 1u128 << 15u128
        && 0x10000u128 == 1u128 << 16u128
        && 0x20000u128 == 1u128 << 17u128
        && 0x40000u128 == 1u128 << 18u128
        && 0x80000u128 == 1u128 << 19u128
        && 0x100000u128 == 1u128 << 20u128
        && 0x200000u128 == 1u128 << 21u128
        && 0x400000u128 == 1u128 << 22u128
        && 0x800000u128 == 1u128 << 23u128
        && 0x1000000u128 == 1u128 << 24u128
        && 0x2000000u128 == 1u128 << 25u128
        && 0x4000000u128 == 1u128 << 26u128
        && 0x8000000u128 == 1u128 << 27u128
        && 0x10000000u128 == 1u128 << 28u128
        && 0x20000000u128 == 1u128 << 29u128
        && 0x40000000u128 == 1u128 << 30u128
        && 0x80000000u128 == 1u128 << 31u128
        && 0x100000000u128 == 1u128 << 32u128
        && 0x200000000u128 == 1u128 << 33u128
        && 0x400000000u128 == 1u128 << 34u128
        && 0x800000000u128 == 1u128 << 35u128
        && 0x1000000000u128 == 1u128 << 36u128
        && 0x2000000000u128 == 1u128 << 37u128
        && 0x4000000000u128 == 1u128 << 38u128
        && 0x8000000000u128 == 1u128 << 39u128
        && 0x10000000000u128 == 1u128 << 40u128
        && 0x20000000000u128 == 1u128 << 41u128
        && 0x40000000000u128 == 1u128 << 42u128
        && 0x80000000000u128 == 1u128 << 43u128
        && 0x100000000000u128 == 1u128 << 44u128
        && 0x200000000000u128 == 1u128 << 45u128
        && 0x400000000000u128 == 1u128 << 46u128
        && 0x800000000000u128 == 1u128 << 47u128
        && 0x1000000000000u128 == 1u128 << 48u128
        && 0x2000000000000u128 == 1u128 << 49u128
        && 0x4000000000000u128 == 1u128 << 50u128
        && 0x8000000000000u128 == 1u128 << 51u128
        && 0x10000000000000u128 == 1u128 << 52u128
        && 0x20000000000000u128 == 1u128 << 53u128
        && 0x40000000000000u128 == 1u128 << 54u128
        && 0x80000000000000u128 == 1u128 << 55u128
        && 0x100000000000000u128 == 1u128 << 56u128
        && 0x200000000000000u128 == 1u128 << 57u128
        && 0x400000000000000u128 == 1u128 << 58u128
        && 0x800000000000000u128 == 1u128 << 59u128
        && 0x1000000000000000u128 == 1u128 << 60u128
        && 0x2000000000000000u128 == 1u128 << 61u128
        && 0x4000000000000000u128 == 1u128 << 62u128
        && 0x8000000000000000u128 == 1u128 << 63u128
        && 0x10000000000000000u128 == 1u128 << 64u128
        && 0x20000000000000000u128 == 1u128 << 65u128
        && 0x40000000000000000u128 == 1u128 << 66u128
        && 0x80000000000000000u128 == 1u128 << 67u128
        && 0x100000000000000000u128 == 1u128 << 68u128
        && 0x200000000000000000u128 == 1u128 << 69u128
        && 0x400000000000000000u128 == 1u128 << 70u128
        && 0x800000000000000000u128 == 1u128 << 71u128
        && 0x1000000000000000000u128 == 1u128 << 72u128
        && 0x2000000000000000000u128 == 1u128 << 73u128
    ) by (bit_vector);
}

impl Scope {
    /// The empty set.
    pub fn none() -> (r: Scope)
        ensures
            r.bits == 0,
    {
        Scope { bits: 0 }
    }

    /// The set with the given bits.
    pub fn from_bits(bits: u128) -> (r: Scope)
        ensures
            r.bits == bits,
    {
        Scope { bits }
    }

    /// The scopes of either set.
    pub fn or(self, other: Scope) -> (r: Scope)
        ensures
            r.bits == self.bits | other.bits,
    {
        Scope { bits: self.bits | other.bits }
    }

    /// Whether every scope of `other` is in this set.
    pub fn contains(&self, other: Scope) -> (r: bool)
        ensures
            r == (self.bits & other.bits == other.bits),
    {
        self.bits & other.bits == other.bits
    }

    /// The scope that a subscription to `value` needs.
    pub fn from(value: SubscriptionType) -> (r: Scope)
        ensures
            r.bits == needed_bits(value),
    {
        let bits: u128 = match value {
            SubscriptionType::Follow => MODERATOR_READ_FOLLOWERS,
            SubscriptionType::AdBreakBegin => CHANNEL_READ_ADS,
            SubscriptionType::ChatClear => USER_READ_CHAT,
            SubscriptionType::ChatClearUserMessages => USER_READ_CHAT,
            SubscriptionType::ChatMessage => USER_READ_CHAT,
            SubscriptionType::ChatMessageDelete => USER_READ_CHAT,
            SubscriptionType::Subscribe => CHANNEL_READ_SUBSCRIPTIONS,
            SubscriptionType::SubscriptionGift => CHANNEL_READ_SUBSCRIPTIONS,
            SubscriptionType::SubscriptionMessage => CHANNEL_READ_SUBSCRIPTIONS,
            SubscriptionType::Cheer => BITS_READ,
            SubscriptionType::PointsCustomRewardRedemptionAdd(_) => CHANNEL_READ_REDEMPTIONS,
            SubscriptionType::PollBegin => CHANNEL_READ_POLLS,
            SubscriptionType::PollProgress => CHANNEL_READ_POLLS,
            SubscriptionType::PollEnd => CHANNEL_READ_POLLS,
            SubscriptionType::PredictionBegin => CHANNEL_READ_PREDICTIONS,
            SubscriptionType::PredictionProgress => CHANNEL_READ_PREDICTIONS,
            SubscriptionType::PredictionLock => CHANNEL_READ_PREDICTIONS,
            SubscriptionType::PredictionEnd => CHANNEL_READ_PREDICTIONS,
            SubscriptionType::CharityDonation => CHANNEL_READ_CHARITY,
            SubscriptionType::HypeTrainBegin => CHANNEL_READ_HYPE_TRAIN,
            SubscriptionType::HypeTrainProgress => CHANNEL_READ_HYPE_TRAIN,
            SubscriptionType::HypeTrainEnd => CHANNEL_READ_HYPE_TRAIN,
            SubscriptionType::ShoutoutCreate => MODERATOR_READ_SHOUTOUTS,
            _ => 0,
        };
        Scope { bits }
    }

    /// Every scope with its name, in the order of their numbers.
    pub fn scopes() -> (r: Vec<(Scope, &'static str)>)
        ensures
            r@.len() == SCOPE_COUNT,
            forall|i: int|
                0 <= i < SCOPE_COUNT ==> (#[trigger] r@[i]).0.bits == scope_bit(i) && r@[i].1@
                    == scope_name(i),
    {
        proof {
            lemma_scope_bits();
        }
        vec![
            (Scope { bits: ANALYTICS_READ_EXTENSIONS }, "analytics%3Aread%3Aextensions"),
            (Scope { bits: ANALYTICS_READ_GAMES }, "analytics%3Aread%3Agames"),
            (Scope { bits: BITS_READ }, "bits%3Aread"),
            (Scope { bits: CHANNEL_BOT }, "channel%3Abot"),
            (Scope { bits: CHANNEL_MANAGE_ADS }, "channel%3Amanage%3Aads"),
            (Scope { bits: CHANNEL_READ_ADS }, "channel%3Aread%3Aads"),
            (Scope { bits: CHANNEL_MANAGE_BROADCAST }, "channel%3Amanage%3Abroadcast"),
            (Scope { bits: CHANNEL_READ_CHARITY }, "channel%3Aread%3Acharity"),
            (Scope { bits: CHANNEL_EDIT_COMMERCIAL }, "channel%3Aedit%3Acommercial"),
            (Scope { bits: CHANNEL_READ_EDITORS }, "channel%3Aread%3Aeditors"),
            (Scope { bits: CHANNEL_MANAGE_EXTENSIONS }, "channel%3Amanage%3Aextensions"),
            (Scope { bits: CHANNEL_READ_GOALS }, "channel%3Aread%3Agoals"),
            (Scope { bits: CHANNEL_READ_GUEST_STAR }, "channel%3Aread%3Aguest_star"),
            (Scope { bits: CHANNEL_MANAGE_GUEST_STAR }, "channel%3Amanage%3Aguest_star"),
            (Scope { bits: CHANNEL_READ_HYPE_TRAIN }, "channel%3Aread%3Ahype_train"),
            (Scope { bits: CHANNEL_MANAGE_MODERATORS }, "channel%3Amanage%3Amoderators"),
            (Scope { bits: CHANNEL_READ_POLLS }, "channel%3Aread%3Apolls"),
            (Scope { bits: CHANNEL_MANAGE_POLLS }, "channel%3Amanage%3Apolls"),
            (Scope { bits: CHANNEL_READ_PREDICTIONS }, "channel%3Aread%3Apredictions"),
            (Scope { bits: CHANNEL_MANAGE_PREDICTIONS }, "channel%3Amanage%3Apredictions"),
            (Scope { bits: CHANNEL_MANAGE_RAIDS }, "channel%3Amanage%3Araids"),
            (Scope { bits: CHANNEL_READ_REDEMPTIONS }, "channel%3Aread%3Aredemptions"),
            (Scope { bits: CHANNEL_MANAGE_REDEMPTIONS }, "channel%3Amanage%3Aredemptions"),
            (Scope { bits: CHANNEL_MANAGE_SCHEDULE }, "channel%3Amanage%3Aschedule"),
            (Scope { bits: CHANNEL_READ_STREAM_KEY }, "channel%3Aread%3Astream_key"),
            (Scope { bits: CHANNEL_READ_SUBSCRIPTIONS }, "channel%3Aread%3Asubscriptions"),
            (Scope { bits: CHANNEL_MANAGE_VIDEOS }, "channel%3Amanage%3Avideos"),
            (Scope { bits: CHANNEL_READ_VIPS }, "channel%3Aread%3Avips"),
            (Scope { bits: CHANNEL_MANAGE_VIPS }, "channel%3Amanage%3Avips"),
            (Scope { bits: CLIPS_EDIT }, "clips%3Aedit"),
            (Scope { bits: MODERATION_READ }, "moderation%3Aread"),
            (Scope { bits: MODERATOR_MANAGE_ANNOUNCEMENTS }, "moderator%3Amanage%3Aannouncements"),
            (Scope { bits: MODERATOR_MANAGE_AUTOMOD }, "moderator%3Amanage%3Aautomod"),
            (Scope { bits: MODERATOR_READ_AUTOMOD_SETTINGS }, "moderator%3Aread%3Aautomod_settings"),
            (Scope { bits: MODERATOR_MANAGE_AUTOMOD_SETTINGS }, "moderator%3Amanage%3Aautomod_settings"),
            (Scope { bits: MODERATOR_READ_BANNED_USERS }, "moderator%3Aread%3Abanned_users"),
            (Scope { bits: MODERATOR_MANAGE_BANNED_USERS }, "moderator%3Amanage%3Abanned_users"),
            (Scope { bits: MODERATOR_READ_BLOCKED_TERMS }, "moderator%3Aread%3Ablocked_terms"),
            (Scope { bits: MODERATOR_READ_CHAT_MESSAGES }, "moderator%3Aread%3Achat_messages"),
            (Scope { bits: MODERATOR_MANAGE_BLOCKED_TERMS }, "moderator%3Amanage%3Ablocked_terms"),
            (Scope { bits: MODERATOR_MANAGE_CHAT_MESSAGES }, "moderator%3Amanage%3Achat_messages"),
            (Scope { bits: MODERATOR_READ_CHAT_SETTINGS }, "moderator%3Aread%3Achat_settings"),
            (Scope { bits: MODERATOR_MANAGE_CHAT_SETTINGS }, "moderator%3Amanage%3Achat_settings"),
            (Scope { bits: MODERATOR_READ_CHATTERS }, "moderator%3Aread%3Achatters"),
            (Scope { bits: MODERATOR_READ_FOLLOWERS }, "moderator%3Aread%3Afollowers"),
            (Scope { bits: MODERATOR_READ_GUEST_STAR }, "moderator%3Aread%3Aguest_star"),
            (Scope { bits: MODERATOR_MANAGE_GUEST_STAR }, "moderator%3Amanage%3Aguest_star"),
            (Scope { bits: MODERATOR_READ_MODERATORS }, "moderator%3Aread%3Amoderators"),
            (Scope { bits: MODERATOR_READ_SHIELD_MODE }, "moderator%3Aread%3Ashield_mode"),
            (Scope { bits: MODERATOR_MANAGE_SHIELD_MODE }, "moderator%3Amanage%3Ashield_mode"),
            (Scope { bits: MODERATOR_READ_SHOUTOUTS }, "moderator%3Aread%3Ashoutouts"),
            (Scope { bits: MODERATOR_MANAGE_SHOUTOUTS }, "moderator%3Amanage%3Ashoutouts"),
            (Scope { bits: MODERATOR_READ_SUSPICIOUS_USERS }, "moderator%3Aread%3Asuspicious_users"),
            (Scope { bits: MODERATOR_READ_UNBAN_REQUESTS }, "moderator%3Aread%3Aunban_requests"),
            (Scope { bits: MODERATOR_MANAGE_UNBAN_REQUESTS }, "moderator%3Amanage%3Aunban_requests"),
            (Scope { bits: MODERATOR_READ_VIPS }, "moderator%3Aread%3Avips"),
            (Scope { bits: MODERATOR_READ_WARNINGS }, "moderator%3Aread%3Awarnings"),
            (Scope { bits: MODERATOR_MANAGE_WARNINGS }, "moderator%3Amanage%3Awarnings"),
            (Scope { bits: USER_BOT }, "user%3Abot"),
            (Scope { bits: USER_EDIT }, "user%3Aedit"),
            (Scope { bits: USER_EDIT_BROADCAST }, "user%3Aedit%3Abroadcast"),
            (Scope { bits: USER_READ_BLOCKED_USERS }, "user%3Aread%3Ablocked_users"),
            (Scope { bits: USER_MANAGE_BLOCKED_USERS }, "user%3Amanage%3Ablocked_users"),
            (Scope { bits: USER_READ_BROADCAST }, "user%3Aread%3Abroadcast"),
            (Scope { bits: USER_READ_CHAT }, "user%3Aread%3Achat"),
            (Scope { bits: USER_MANAGE_CHAT_COLOR }, "user%3Amanage%3Achat_color"),
            (Scope { bits: USER_READ_EMAIL }, "user%3Aread%3Aemail"),
            (Scope { bits: USER_READ_EMOTES }, "user%3Aread%3Aemotes"),
            (Scope { bits: USER_READ_FOLLOWS }, "user%3Aread%3Afollows"),
            (Scope { bits: USER_READ_MODERATED_CHANNELS }, "user%3Aread%3Amoderated_channels"),
            (Scope { bits: USER_READ_SUBSCRIPTIONS }, "user%3Aread%3Asubscriptions"),
            (Scope { bits: USER_READ_WHISPERS }, "user%3Aread%3Awhispers"),
            (Scope { bits: USER_MANAGE_WHISPERS }, "user%3Amanage%3Awhispers"),
            (Scope { bits: USER_WRITE_CHAT }, "user%3Awrite%3Achat"),
        ]
    }

    /// The names of the scopes in this set, joined by `+`, as an
    /// authorization address wants them.
    pub fn get_scopes(&self) -> (r: String)
        ensures
            r@ == joined_names(self.bits, 0, true),
    {
        let table = Self::scopes();
        let mut out = String::new();
        let mut first = true;
        let mut i: usize = 0;
        while i < table.len()
            invariant
                i <= table@.len() == SCOPE_COUNT,
                forall|k: int|
                    0 <= k < SCOPE_COUNT ==> (#[trigger] table@[k]).0.bits == scope_bit(k)
                        && table@[k].1@ == scope_name(k),
                out@ + joined_names(self.bits, i as int, first) == joined_names(self.bits, 0, true),
            decreases table@.len() - i,
        {
            let ghost before = out@;
            let entry = table[i];
            if self.contains(entry.0) {
                if !first {
                    out.append("+");
                }
                out.append(entry.1);
                proof {
                    let head = if first {
                        scope_name(i as int)
                    } else {
                        "+"@ + scope_name(i as int)
                    };
                    assert(out@ =~= before + head);
                    assert(out@ + joined_names(self.bits, i + 1, false) =~= before + (head
                        + joined_names(self.bits, i + 1, false)));
                }
                first = false;
            }
            i += 1;
        }
        proof {
            assert(out@ + Seq::<char>::empty() =~= out@);
        }
        out
    }
}

/// The address of the page on which a user grants the scopes; the answer
/// is of the kind that `response_type` names.
pub fn authorize_address(response_type: &str, client_id: &str, scopes: Scope) -> (r: String)
    ensures
        r@ == "https://id.twitch.tv/oauth2/authorize?response_type="@ + response_type@
            + "&client_id="@ + client_id@ + "&redirect_uri=http://localhost:8080&scope="@
            + joined_names(scopes.bits, 0, true),
{
    let mut address = "https://id.twitch.tv/oauth2/authorize?response_type=".to_owned();
    address.append(response_type);
    address.append("&client_id=");
    address.append(client_id);
    address.append("&redirect_uri=http://localhost:8080&scope=");
    address.append(scopes.get_scopes().as_str());
    address
}

/// Where the first `&` of a text stands.
pub open spec fn first_separator(s: Seq<char>) -> Option<int>
    decreases s.len(),
{
    if s.len() == 0 {
        None
    } else if s[0] == '&' {
        Some(0)
    } else {
        match first_separator(s.drop_first()) {
            Some(i) => Some(i + 1),
            None => None,
        }
    }
}

/// The value of the first parameter of a request line: what stands between
/// `prefix`, with which the line must begin, and the first `&` after it.
pub open spec fn spec_parameter(line: Seq<char>, prefix: Seq<char>) -> Option<Seq<char>> {
    if prefix.len() <= line.len() && line.take(prefix.len() as int) == prefix {
        let rest = line.skip(prefix.len() as int);
        match first_separator(rest) {
            Some(i) => Some(rest.take(i)),
            None => None,
        }
    } else {
        None
    }
}

/// `first_separator` finds the first `&`, and none where there is none.
pub proof fn lemma_first_separator(s: Seq<char>, n: int)
    requires
        0 <= n <= s.len(),
        forall|i: int| 0 <= i < n ==> s[i] != '&',
    ensures
        n < s.len() && s[n] == '&' ==> first_separator(s) == Some(n),
        n == s.len() ==> first_separator(s) is None,
    decreases n,
{
    if n > 0 {
        let rest = s.drop_first();
        assert forall|i: int| 0 <= i < n - 1 implies rest[i] != '&' by {
            assert(rest[i] == s[i + 1]);
        }
        lemma_first_separator(rest, n - 1);
        if n < s.len() {
            assert(rest[n - 1] == s[n]);
        }
    }
}

/// Reads the value of the first parameter of a request line.
pub fn parameter(line: &str, prefix: &str) -> (r: Option<String>)
    ensures
        match r {
            Some(v) => spec_parameter(line@, prefix@) == Some(v@),
            None => spec_parameter(line@, prefix@) is None,
        },
{
    let n: usize = line.unicode_len();
    let m: usize = prefix.unicode_len();
    if m > n {
        return None;
    }
    let mut i: usize = 0;
    while i < m
        invariant
            i <= m <= n,
            n == line@.len(),
            m == prefix@.len(),
            forall|k: int| 0 <= k < i ==> line@[k] == prefix@[k],
        decreases m - i,
    {
        if line.get_char(i) != prefix.get_char(i) {
            assert(line@.take(m as int)[i as int] != prefix@[i as int]);
            return None;
        }
        i += 1;
    }
    assert(line@.take(m as int) =~= prefix@);
    let ghost rest = line@.skip(m as int);
    let mut k: usize = m;
    while k < n
        invariant
            m <= k <= n,
            n == line@.len(),
            m == prefix@.len(),
            line@.take(m as int) == prefix@,
            rest == line@.skip(m as int),
            forall|p: int| 0 <= p < k - m ==> rest[p] != '&',
        decreases n - k,
    {
        if line.get_char(k) == '&' {
            proof {
                assert(rest[k - m] == line@[k as int]);
                lemma_first_separator(rest, k - m);
                assert(line@.subrange(m as int, k as int) =~= rest.take(k - m));
            }
            return Some(line.substring_char(m, k).to_owned());
        }
        assert(rest[k - m] == line@[k as int]);
        k += 1;
    }
    proof {
        lemma_first_separator(rest, n - m);
    }
    None
}

} // verus!
