//! Events about channel points: rewards and their redemptions.

use vstd::prelude::*;
use crate::json::Json;
use crate::json::FromJson;
use crate::json::ToJson;
use crate::json::put;
use crate::json::member;
use crate::json::write_optional;
use crate::json::count_json;
use crate::json::optional_count_json;
use crate::json::optional_text_json;
use crate::json::read_member;
use crate::json::read_optional;
use crate::json::member_parses;
use crate::json::member_parsed_as;
use crate::json::optional_parses;
use crate::json::optional_parsed_as;
use crate::json::same_text;
use crate::eventsub::events::MessageSimple;
use crate::eventsub::events::User;

verus! {

/// An event of the category `channel.channel_points_automatic_reward_redemption.add`.
#[derive(Debug)]
pub struct PointsAutomaticRewardRedemption {
    pub broadcaster: User,
    pub user: User,
    pub id: String,
    pub reward: AutomaticReward,
    pub message: MessageSimple,
    pub user_input: String,
    pub redeemed_at: String,
}

impl FromJson for PointsAutomaticRewardRedemption {
    open spec fn parses(j: Json) -> bool {
        &&& User::parses(
            j,
            "broadcaster_user_id"@,
            "broadcaster_user_login"@,
            "broadcaster_user_name"@,
        )
        &&& User::parses(j, "user_id"@, "user_login"@, "user_name"@)
        &&& j.spec_text("id"@) is Some
        &&& member_parses::<AutomaticReward>(j, "reward"@)
        &&& member_parses::<MessageSimple>(j, "message"@)
        &&& j.spec_text("user_input"@) is Some
        &&& j.spec_text("redeemed_at"@) is Some
    }

    open spec fn parsed_as(j: Json, v: PointsAutomaticRewardRedemption) -> bool {
        &&& User::parsed_as(
            j,
            "broadcaster_user_id"@,
            "broadcaster_user_login"@,
            "broadcaster_user_name"@,
            v.broadcaster,
        )
        &&& User::parsed_as(j, "user_id"@, "user_login"@, "user_name"@, v.user)
        &&& j.spec_text("id"@) == Some(v.id)
        &&& member_parsed_as(j, "reward"@, v.reward)
        &&& member_parsed_as(j, "message"@, v.message)
        &&& j.spec_text("user_input"@) == Some(v.user_input)
        &&& j.spec_text("redeemed_at"@) == Some(v.redeemed_at)
    }

    fn from_json(j: &Json) -> (r: Option<PointsAutomaticRewardRedemption>) {
        let broadcaster = User::from_json(
            j,
            "broadcaster_user_id",
            "broadcaster_user_login",
            "broadcaster_user_name",
        );
        let user = User::from_json(j, "user_id", "user_login", "user_name");
        let id = j.text("id");
        let reward = read_member::<AutomaticReward>(j, "reward");
        let message = read_member::<MessageSimple>(j, "message");
        let user_input = j.text("user_input");
        let redeemed_at = j.text("redeemed_at");
        if broadcaster.is_some() && user.is_some() && id.is_some() && reward.is_some()
            && message.is_some() && user_input.is_some() && redeemed_at.is_some() {
            Some(
                PointsAutomaticRewardRedemption {
                    broadcaster: broadcaster.unwrap(),
                    user: user.unwrap(),
                    id: id.unwrap(),
                    reward: reward.unwrap(),
                    message: message.unwrap(),
                    user_input: user_input.unwrap(),
                    redeemed_at: redeemed_at.unwrap(),
                },
            )
        } else {
            None
        }
    }
}

impl ToJson for PointsAutomaticRewardRedemption {
    fn to_json(&self) -> (r: Json) {
        let mut entries: Vec<(String, Json)> = Vec::new();
        proof {
            reveal_strlit("broadcaster_user_id");
            reveal_strlit("broadcaster_user_login");
            reveal_strlit("broadcaster_user_name");
            reveal_strlit("user_id");
            reveal_strlit("user_login");
            reveal_strlit("user_name");
            reveal_strlit("id");
            reveal_strlit("reward");
            reveal_strlit("message");
            reveal_strlit("user_input");
            reveal_strlit("redeemed_at");
            assert("broadcaster_user_id"@.len() == 19);
            assert("broadcaster_user_login"@.len() == 22);
            assert("broadcaster_user_name"@.len() == 21);
            assert("user_id"@.len() == 7);
            assert("user_login"@.len() == 10);
            assert("user_name"@.len() == 9);
            assert("id"@.len() == 2);
            assert("reward"@.len() == 6);
            assert("message"@.len() == 7);
            assert("user_input"@.len() == 10);
            assert("redeemed_at"@.len() == 11);
            assert("user_id"@[0] != "message"@[0]);
            assert("user_login"@[5] != "user_input"@[5]);
        }
        let broadcaster_id_json = Json::Text(self.broadcaster.user_id.clone());
        let broadcaster_login_json = Json::Text(self.broadcaster.user_login.clone());
        let broadcaster_name_json = Json::Text(self.broadcaster.user_name.clone());
        let user_id_json = Json::Text(self.user.user_id.clone());
        let user_login_json = Json::Text(self.user.user_login.clone());
        let user_name_json = Json::Text(self.user.user_name.clone());
        let id_json = Json::Text(self.id.clone());
        let reward_json = self.reward.to_json();
        let message_json = self.message.to_json();
        let user_input_json = Json::Text(self.user_input.clone());
        let redeemed_at_json = Json::Text(self.redeemed_at.clone());
        put(&mut entries, "broadcaster_user_id", broadcaster_id_json);
        put(&mut entries, "broadcaster_user_login", broadcaster_login_json);
        put(&mut entries, "broadcaster_user_name", broadcaster_name_json);
        put(&mut entries, "user_id", user_id_json);
        put(&mut entries, "user_login", user_login_json);
        put(&mut entries, "user_name", user_name_json);
        put(&mut entries, "id", id_json);
        put(&mut entries, "reward", reward_json);
        put(&mut entries, "message", message_json);
        put(&mut entries, "user_input", user_input_json);
        put(&mut entries, "redeemed_at", redeemed_at_json);
        proof {
            assert(member(entries@, "broadcaster_user_id"@) == Some(broadcaster_id_json));
            assert(member(entries@, "broadcaster_user_login"@) == Some(broadcaster_login_json));
            assert(member(entries@, "broadcaster_user_name"@) == Some(broadcaster_name_json));
            assert(member(entries@, "user_id"@) == Some(user_id_json));
            assert(member(entries@, "user_login"@) == Some(user_login_json));
            assert(member(entries@, "user_name"@) == Some(user_name_json));
            assert(member(entries@, "id"@) == Some(id_json));
            assert(member(entries@, "reward"@) == Some(reward_json));
            assert(member(entries@, "message"@) == Some(message_json));
            assert(member(entries@, "user_input"@) == Some(user_input_json));
            assert(member(entries@, "redeemed_at"@) == Some(redeemed_at_json));
        }
        Json::Object(entries)
    }
}

/// An event of the category `channel.channel_points_custom_reward.add`.
#[derive(Debug)]
pub struct PointsCustomRewardAdd {
    pub id: String,
    pub broadcaster: User,
    pub is_enabled: bool,
    pub is_paused: bool,
    pub is_in_stock: bool,
    pub title: String,
    pub cost: u64,
    pub prompt: String,
    pub is_user_input_required: bool,
    pub should_redemptions_skip_request_queue: bool,
    pub max_per_stream: MaxPerStream,
    pub max_per_user_per_stream: MaxPerStream,
    pub background_color: String,
    pub image: Option<Image>,
    pub default_image: Image,
    pub global_cooldown: GlobalCooldown,
    pub cooldown_expires_at: Option<String>,
    pub redemptions_redeemed_current_stream: Option<u64>,
}

impl FromJson for PointsCustomRewardAdd {
    open spec fn parses(j: Json) -> bool {
        &&& j.spec_text("id"@) is Some
        &&& User::parses(
            j,
            "broadcaster_user_id"@,
            "broadcaster_user_login"@,
            "broadcaster_user_name"@,
        )
        &&& j.spec_flag("is_enabled"@) is Some
        &&& j.spec_flag("is_paused"@) is Some
        &&& j.spec_flag("is_in_stock"@) is Some
        &&& j.spec_text("title"@) is Some
        &&& j.spec_count("cost"@) is Some
        &&& j.spec_text("prompt"@) is Some
        &&& j.spec_flag("is_user_input_required"@) is Some
        &&& j.spec_flag("should_redemptions_skip_request_queue"@) is Some
        &&& member_parses::<MaxPerStream>(j, "max_per_stream"@)
        &&& member_parses::<MaxPerStream>(j, "max_per_user_per_stream"@)
        &&& j.spec_text("background_color"@) is Some
        &&& optional_parses::<Image>(j, "image"@)
        &&& member_parses::<Image>(j, "default_image"@)
        &&& member_parses::<GlobalCooldown>(j, "global_cooldown"@)
        &&& j.spec_optional_text("cooldown_expires_at"@) is Some
        &&& j.spec_optional_count("redemptions_redeemed_current_stream"@) is Some
    }

    open spec fn parsed_as(j: Json, v: PointsCustomRewardAdd) -> bool {
        &&& j.spec_text("id"@) == Some(v.id)
        &&& User::parsed_as(
            j,
            "broadcaster_user_id"@,
            "broadcaster_user_login"@,
            "broadcaster_user_name"@,
            v.broadcaster,
        )
        &&& j.spec_flag("is_enabled"@) == Some(v.is_enabled)
        &&& j.spec_flag("is_paused"@) == Some(v.is_paused)
        &&& j.spec_flag("is_in_stock"@) == Some(v.is_in_stock)
        &&& j.spec_text("title"@) == Some(v.title)
        &&& j.spec_count("cost"@) == Some(v.cost)
        &&& j.spec_text("prompt"@) == Some(v.prompt)
        &&& j.spec_flag("is_user_input_required"@) == Some(v.is_user_input_required)
        &&& j.spec_flag("should_redemptions_skip_request_queue"@) == Some(
            v.should_redemptions_skip_request_queue,
        )
        &&& member_parsed_as(j, "max_per_stream"@, v.max_per_stream)
        &&& member_parsed_as(j, "max_per_user_per_stream"@, v.max_per_user_per_stream)
        &&& j.spec_text("background_color"@) == Some(v.background_color)
        &&& optional_parsed_as(j, "image"@, v.image)
        &&& member_parsed_as(j, "default_image"@, v.default_image)
        &&& member_parsed_as(j, "global_cooldown"@, v.global_cooldown)
        &&& j.spec_optional_text("cooldown_expires_at"@) == Some(v.cooldown_expires_at)
        &&& j.spec_optional_count("redemptions_redeemed_current_stream"@) == Some(
            v.redemptions_redeemed_current_stream,
        )
    }

    fn from_json(j: &Json) -> (r: Option<PointsCustomRewardAdd>) {
        let id = j.text("id");
        let broadcaster = User::from_json(
            j,
            "broadcaster_user_id",
            "broadcaster_user_login",
            "broadcaster_user_name",
        );
        let is_enabled = j.flag("is_enabled");
        let is_paused = j.flag("is_paused");
        let is_in_stock = j.flag("is_in_stock");
        let title = j.text("title");
        let cost = j.count("cost");
        let prompt = j.text("prompt");
        let is_user_input_required = j.flag("is_user_input_required");
        let should_redemptions_skip_request_queue = j.flag("should_redemptions_skip_request_queue");
        let max_per_stream = read_member::<MaxPerStream>(j, "max_per_stream");
        let max_per_user_per_stream = read_member::<MaxPerStream>(j, "max_per_user_per_stream");
        let background_color = j.text("background_color");
        let image = read_optional::<Image>(j, "image");
        let default_image = read_member::<Image>(j, "default_image");
        let global_cooldown = read_member::<GlobalCooldown>(j, "global_cooldown");
        let cooldown_expires_at = j.optional_text("cooldown_expires_at");
        let redemptions_redeemed_current_stream = j.optional_count(
            "redemptions_redeemed_current_stream",
        );
        if id.is_some() && broadcaster.is_some() && is_enabled.is_some() && is_paused.is_some()
            && is_in_stock.is_some() && title.is_some() && cost.is_some() && prompt.is_some()
            && is_user_input_required.is_some() && should_redemptions_skip_request_queue.is_some()
            && max_per_stream.is_some() && max_per_user_per_stream.is_some()
            && background_color.is_some() && image.is_some() && default_image.is_some()
            && global_cooldown.is_some() && cooldown_expires_at.is_some()
            && redemptions_redeemed_current_stream.is_some() {
            Some(
                PointsCustomRewardAdd {
                    id: id.unwrap(),
                    broadcaster: broadcaster.unwrap(),
                    is_enabled: is_enabled.unwrap(),
                    is_paused: is_paused.unwrap(),
                    is_in_stock: is_in_stock.unwrap(),
                    title: title.unwrap(),
                    cost: cost.unwrap(),
                    prompt: prompt.unwrap(),
                    is_user_input_required: is_user_input_required.unwrap(),
                    should_redemptions_skip_request_queue: should_redemptions_skip_request_queue.unwrap(
                    ),
                    max_per_stream: max_per_stream.unwrap(),
                    max_per_user_per_stream: max_per_user_per_stream.unwrap(),
                    background_color: background_color.unwrap(),
                    image: image.unwrap(),
                    default_image: default_image.unwrap(),
                    global_cooldown: global_cooldown.unwrap(),
                    cooldown_expires_at: cooldown_expires_at.unwrap(),
                    redemptions_redeemed_current_stream: redemptions_redeemed_current_stream.unwrap(
                    ),
                },
            )
        } else {
            None
        }
    }
}

impl ToJson for PointsCustomRewardAdd {
    fn to_json(&self) -> (r: Json) {
        let mut entries: Vec<(String, Json)> = Vec::new();
        proof {
            assert(!Image::parses(Json::Null));
            reveal_strlit("id");
            reveal_strlit("broadcaster_user_id");
            reveal_strlit("broadcaster_user_login");
            reveal_strlit("broadcaster_user_name");
            reveal_strlit("is_enabled");
            reveal_strlit("is_paused");
            reveal_strlit("is_in_stock");
            reveal_strlit("title");
            reveal_strlit("cost");
            reveal_strlit("prompt");
            reveal_strlit("is_user_input_required");
            reveal_strlit("should_redemptions_skip_request_queue");
            reveal_strlit("max_per_stream");
            reveal_strlit("max_per_user_per_stream");
            reveal_strlit("background_color");
            reveal_strlit("image");
            reveal_strlit("default_image");
            reveal_strlit("global_cooldown");
            reveal_strlit("cooldown_expires_at");
            reveal_strlit("redemptions_redeemed_current_stream");
            assert("id"@.len() == 2);
            assert("broadcaster_user_id"@.len() == 19);
            assert("broadcaster_user_login"@.len() == 22);
            assert("broadcaster_user_name"@.len() == 21);
            assert("is_enabled"@.len() == 10);
            assert("is_paused"@.len() == 9);
            assert("is_in_stock"@.len() == 11);
            assert("title"@.len() == 5);
            assert("cost"@.len() == 4);
            assert("prompt"@.len() == 6);
            assert("is_user_input_required"@.len() == 22);
            assert("should_redemptions_skip_request_queue"@.len() == 37);
            assert("max_per_stream"@.len() == 14);
            assert("max_per_user_per_stream"@.len() == 23);
            assert("background_color"@.len() == 16);
            assert("image"@.len() == 5);
            assert("default_image"@.len() == 13);
            assert("global_cooldown"@.len() == 15);
            assert("cooldown_expires_at"@.len() == 19);
            assert("redemptions_redeemed_current_stream"@.len() == 35);
            assert("broadcaster_user_id"@[0] != "cooldown_expires_at"@[0]);
            assert("broadcaster_user_login"@[0] != "is_user_input_required"@[0]);
            assert("title"@[0] != "image"@[0]);
        }
        let id_json = Json::Text(self.id.clone());
        let broadcaster_id_json = Json::Text(self.broadcaster.user_id.clone());
        let broadcaster_login_json = Json::Text(self.broadcaster.user_login.clone());
        let broadcaster_name_json = Json::Text(self.broadcaster.user_name.clone());
        let is_enabled_json = Json::Bool(self.is_enabled);
        let is_paused_json = Json::Bool(self.is_paused);
        let is_in_stock_json = Json::Bool(self.is_in_stock);
        let title_json = Json::Text(self.title.clone());
        let cost_json = count_json(self.cost);
        let prompt_json = Json::Text(self.prompt.clone());
        let is_user_input_required_json = Json::Bool(self.is_user_input_required);
        let should_redemptions_skip_request_queue_json = Json::Bool(
            self.should_redemptions_skip_request_queue,
        );
        let max_per_stream_json = self.max_per_stream.to_json();
        let max_per_user_per_stream_json = self.max_per_user_per_stream.to_json();
        let background_color_json = Json::Text(self.background_color.clone());
        let image_json = write_optional(&self.image);
        let default_image_json = self.default_image.to_json();
        let global_cooldown_json = self.global_cooldown.to_json();
        let cooldown_expires_at_json = optional_text_json(&self.cooldown_expires_at);
        let redemptions_redeemed_current_stream_json = optional_count_json(
            &self.redemptions_redeemed_current_stream,
        );
        put(&mut entries, "id", id_json);
        put(&mut entries, "broadcaster_user_id", broadcaster_id_json);
        put(&mut entries, "broadcaster_user_login", broadcaster_login_json);
        put(&mut entries, "broadcaster_user_name", broadcaster_name_json);
        put(&mut entries, "is_enabled", is_enabled_json);
        put(&mut entries, "is_paused", is_paused_json);
        put(&mut entries, "is_in_stock", is_in_stock_json);
        put(&mut entries, "title", title_json);
        put(&mut entries, "cost", cost_json);
        put(&mut entries, "prompt", prompt_json);
        put(&mut entries, "is_user_input_required", is_user_input_required_json);
        put(
            &mut entries,
            "should_redemptions_skip_request_queue",
            should_redemptions_skip_request_queue_json,
        );
        put(&mut entries, "max_per_stream", max_per_stream_json);
        put(&mut entries, "max_per_user_per_stream", max_per_user_per_stream_json);
        put(&mut entries, "background_color", background_color_json);
        put(&mut entries, "image", image_json);
        put(&mut entries, "default_image", default_image_json);
        put(&mut entries, "global_cooldown", global_cooldown_json);
        put(&mut entries, "cooldown_expires_at", cooldown_expires_at_json);
        put(
            &mut entries,
            "redemptions_redeemed_current_stream",
            redemptions_redeemed_current_stream_json,
        );
        proof {
            assert(member(entries@, "id"@) == Some(id_json));
            assert(member(entries@, "broadcaster_user_id"@) == Some(broadcaster_id_json));
            assert(member(entries@, "broadcaster_user_login"@) == Some(broadcaster_login_json));
            assert(member(entries@, "broadcaster_user_name"@) == Some(broadcaster_name_json));
            assert(member(entries@, "is_enabled"@) == Some(is_enabled_json));
            assert(member(entries@, "is_paused"@) == Some(is_paused_json));
            assert(member(entries@, "is_in_stock"@) == Some(is_in_stock_json));
            assert(member(entries@, "title"@) == Some(title_json));
            assert(member(entries@, "cost"@) == Some(cost_json));
            assert(member(entries@, "prompt"@) == Some(prompt_json));
            assert(member(entries@, "is_user_input_required"@)
                == Some(is_user_input_required_json));
            assert(member(entries@, "should_redemptions_skip_request_queue"@)
                == Some(should_redemptions_skip_request_queue_json));
            assert(member(entries@, "max_per_stream"@) == Some(max_per_stream_json));
            assert(member(entries@, "max_per_user_per_stream"@)
                == Some(max_per_user_per_stream_json));
            assert(member(entries@, "background_color"@) == Some(background_color_json));
            assert(member(entries@, "image"@) == Some(image_json));
            assert(member(entries@, "default_image"@) == Some(default_image_json));
            assert(member(entries@, "global_cooldown"@) == Some(global_cooldown_json));
            assert(member(entries@, "cooldown_expires_at"@) == Some(cooldown_expires_at_json));
            assert(member(entries@, "redemptions_redeemed_current_stream"@)
                == Some(redemptions_redeemed_current_stream_json));
        }
        Json::Object(entries)
    }
}

/// An event of the category `channel.channel_points_custom_reward.update`.
#[derive(Debug)]
pub struct PointsCustomRewardUpdate {
    pub id: String,
    pub broadcaster: User,
    pub is_enabled: bool,
    pub is_paused: bool,
    pub is_in_stock: bool,
    pub title: String,
    pub cost: u64,
    pub prompt: String,
    pub is_user_input_required: bool,
    pub should_redemptions_skip_request_queue: bool,
    pub max_per_stream: MaxPerStream,
    pub max_per_user_per_stream: MaxPerStream,
    pub background_color: String,
    pub image: Option<Image>,
    pub default_image: Image,
    pub global_cooldown: GlobalCooldown,
    pub cooldown_expires_at: Option<String>,
    pub redemptions_redeemed_current_stream: Option<u64>,
}

impl FromJson for PointsCustomRewardUpdate {
    open spec fn parses(j: Json) -> bool {
        &&& j.spec_text("id"@) is Some
        &&& User::parses(
            j,
            "broadcaster_user_id"@,
            "broadcaster_user_login"@,
            "broadcaster_user_name"@,
        )
        &&& j.spec_flag("is_enabled"@) is Some
        &&& j.spec_flag("is_paused"@) is Some
        &&& j.spec_flag("is_in_stock"@) is Some
        &&& j.spec_text("title"@) is Some
        &&& j.spec_count("cost"@) is Some
        &&& j.spec_text("prompt"@) is Some
        &&& j.spec_flag("is_user_input_required"@) is Some
        &&& j.spec_flag("should_redemptions_skip_request_queue"@) is Some
        &&& member_parses::<MaxPerStream>(j, "max_per_stream"@)
        &&& member_parses::<MaxPerStream>(j, "max_per_user_per_stream"@)
        &&& j.spec_text("background_color"@) is Some
        &&& optional_parses::<Image>(j, "image"@)
        &&& member_parses::<Image>(j, "default_image"@)
        &&& member_parses::<GlobalCooldown>(j, "global_cooldown"@)
        &&& j.spec_optional_text("cooldown_expires_at"@) is Some
        &&& j.spec_optional_count("redemptions_redeemed_current_stream"@) is Some
    }

    open spec fn parsed_as(j: Json, v: PointsCustomRewardUpdate) -> bool {
        &&& j.spec_text("id"@) == Some(v.id)
        &&& User::parsed_as(
            j,
            "broadcaster_user_id"@,
            "broadcaster_user_login"@,
            "broadcaster_user_name"@,
            v.broadcaster,
        )
        &&& j.spec_flag("is_enabled"@) == Some(v.is_enabled)
        &&& j.spec_flag("is_paused"@) == Some(v.is_paused)
        &&& j.spec_flag("is_in_stock"@) == Some(v.is_in_stock)
        &&& j.spec_text("title"@) == Some(v.title)
        &&& j.spec_count("cost"@) == Some(v.cost)
        &&& j.spec_text("prompt"@) == Some(v.prompt)
        &&& j.spec_flag("is_user_input_required"@) == Some(v.is_user_input_required)
        &&& j.spec_flag("should_redemptions_skip_request_queue"@) == Some(
            v.should_redemptions_skip_request_queue,
        )
        &&& member_parsed_as(j, "max_per_stream"@, v.max_per_stream)
        &&& member_parsed_as(j, "max_per_user_per_stream"@, v.max_per_user_per_stream)
        &&& j.spec_text("background_color"@) == Some(v.background_color)
        &&& optional_parsed_as(j, "image"@, v.image)
        &&& member_parsed_as(j, "default_image"@, v.default_image)
        &&& member_parsed_as(j, "global_cooldown"@, v.global_cooldown)
        &&& j.spec_optional_text("cooldown_expires_at"@) == Some(v.cooldown_expires_at)
        &&& j.spec_optional_count("redemptions_redeemed_current_stream"@) == Some(
            v.redemptions_redeemed_current_stream,
        )
    }

    fn from_json(j: &Json) -> (r: Option<PointsCustomRewardUpdate>) {
        let id = j.text("id");
        let broadcaster = User::from_json(
            j,
            "broadcaster_user_id",
            "broadcaster_user_login",
            "broadcaster_user_name",
        );
        let is_enabled = j.flag("is_enabled");
        let is_paused = j.flag("is_paused");
        let is_in_stock = j.flag("is_in_stock");
        let title = j.text("title");
        let cost = j.count("cost");
        let prompt = j.text("prompt");
        let is_user_input_required = j.flag("is_user_input_required");
        let should_redemptions_skip_request_queue = j.flag("should_redemptions_skip_request_queue");
        let max_per_stream = read_member::<MaxPerStream>(j, "max_per_stream");
        let max_per_user_per_stream = read_member::<MaxPerStream>(j, "max_per_user_per_stream");
        let background_color = j.text("background_color");
        let image = read_optional::<Image>(j, "image");
        let default_image = read_member::<Image>(j, "default_image");
        let global_cooldown = read_member::<GlobalCooldown>(j, "global_cooldown");
        let cooldown_expires_at = j.optional_text("cooldown_expires_at");
        let redemptions_redeemed_current_stream = j.optional_count(
            "redemptions_redeemed_current_stream",
        );
        if id.is_some() && broadcaster.is_some() && is_enabled.is_some() && is_paused.is_some()
            && is_in_stock.is_some() && title.is_some() && cost.is_some() && prompt.is_some()
            && is_user_input_required.is_some() && should_redemptions_skip_request_queue.is_some()
            && max_per_stream.is_some() && max_per_user_per_stream.is_some()
            && background_color.is_some() && image.is_some() && default_image.is_some()
            && global_cooldown.is_some() && cooldown_expires_at.is_some()
            && redemptions_redeemed_current_stream.is_some() {
            Some(
                PointsCustomRewardUpdate {
                    id: id.unwrap(),
                    broadcaster: broadcaster.unwrap(),
                    is_enabled: is_enabled.unwrap(),
                    is_paused: is_paused.unwrap(),
                    is_in_stock: is_in_stock.unwrap(),
                    title: title.unwrap(),
                    cost: cost.unwrap(),
                    prompt: prompt.unwrap(),
                    is_user_input_required: is_user_input_required.unwrap(),
                    should_redemptions_skip_request_queue: should_redemptions_skip_request_queue.unwrap(
                    ),
                    max_per_stream: max_per_stream.unwrap(),
                    max_per_user_per_stream: max_per_user_per_stream.unwrap(),
                    background_color: background_color.unwrap(),
                    image: image.unwrap(),
                    default_image: default_image.unwrap(),
                    global_cooldown: global_cooldown.unwrap(),
                    cooldown_expires_at: cooldown_expires_at.unwrap(),
                    redemptions_redeemed_current_stream: redemptions_redeemed_current_stream.unwrap(
                    ),
                },
            )
        } else {
            None
        }
    }
}

impl ToJson for PointsCustomRewardUpdate {
    fn to_json(&self) -> (r: Json) {
        let mut entries: Vec<(String, Json)> = Vec::new();
        proof {
            assert(!Image::parses(Json::Null));
            reveal_strlit("id");
            reveal_strlit("broadcaster_user_id");
            reveal_strlit("broadcaster_user_login");
            reveal_strlit("broadcaster_user_name");
            reveal_strlit("is_enabled");
            reveal_strlit("is_paused");
            reveal_strlit("is_in_stock");
            reveal_strlit("title");
            reveal_strlit("cost");
            reveal_strlit("prompt");
            reveal_strlit("is_user_input_required");
            reveal_strlit("should_redemptions_skip_request_queue");
            reveal_strlit("max_per_stream");
            reveal_strlit("max_per_user_per_stream");
            reveal_strlit("background_color");
            reveal_strlit("image");
            reveal_strlit("default_image");
            reveal_strlit("global_cooldown");
            reveal_strlit("cooldown_expires_at");
            reveal_strlit("redemptions_redeemed_current_stream");
            assert("id"@.len() == 2);
            assert("broadcaster_user_id"@.len() == 19);
            assert("broadcaster_user_login"@.len() == 22);
            assert("broadcaster_user_name"@.len() == 21);
            assert("is_enabled"@.len() == 10);
            assert("is_paused"@.len() == 9);
            assert("is_in_stock"@.len() == 11);
            assert("title"@.len() == 5);
            assert("cost"@.len() == 4);
            assert("prompt"@.len() == 6);
            assert("is_user_input_required"@.len() == 22);
            assert("should_redemptions_skip_request_queue"@.len() == 37);
            assert("max_per_stream"@.len() == 14);
            assert("max_per_user_per_stream"@.len() == 23);
            assert("background_color"@.len() == 16);
            assert("image"@.len() == 5);
            assert("default_image"@.len() == 13);
            assert("global_cooldown"@.len() == 15);
            assert("cooldown_expires_at"@.len() == 19);
            assert("redemptions_redeemed_current_stream"@.len() == 35);
            assert("broadcaster_user_id"@[0] != "cooldown_expires_at"@[0]);
            assert("broadcaster_user_login"@[0] != "is_user_input_required"@[0]);
            assert("title"@[0] != "image"@[0]);
        }
        let id_json = Json::Text(self.id.clone());
        let broadcaster_id_json = Json::Text(self.broadcaster.user_id.clone());
        let broadcaster_login_json = Json::Text(self.broadcaster.user_login.clone());
        let broadcaster_name_json = Json::Text(self.broadcaster.user_name.clone());
        let is_enabled_json = Json::Bool(self.is_enabled);
        let is_paused_json = Json::Bool(self.is_paused);
        let is_in_stock_json = Json::Bool(self.is_in_stock);
        let title_json = Json::Text(self.title.clone());
        let cost_json = count_json(self.cost);
        let prompt_json = Json::Text(self.prompt.clone());
        let is_user_input_required_json = Json::Bool(self.is_user_input_required);
        let should_redemptions_skip_request_queue_json = Json::Bool(
            self.should_redemptions_skip_request_queue,
        );
        let max_per_stream_json = self.max_per_stream.to_json();
        let max_per_user_per_stream_json = self.max_per_user_per_stream.to_json();
        let background_color_json = Json::Text(self.background_color.clone());
        let image_json = write_optional(&self.image);
        let default_image_json = self.default_image.to_json();
        let global_cooldown_json = self.global_cooldown.to_json();
        let cooldown_expires_at_json = optional_text_json(&self.cooldown_expires_at);
        let redemptions_redeemed_current_stream_json = optional_count_json(
            &self.redemptions_redeemed_current_stream,
        );
        put(&mut entries, "id", id_json);
        put(&mut entries, "broadcaster_user_id", broadcaster_id_json);
        put(&mut entries, "broadcaster_user_login", broadcaster_login_json);
        put(&mut entries, "broadcaster_user_name", broadcaster_name_json);
        put(&mut entries, "is_enabled", is_enabled_json);
        put(&mut entries, "is_paused", is_paused_json);
        put(&mut entries, "is_in_stock", is_in_stock_json);
        put(&mut entries, "title", title_json);
        put(&mut entries, "cost", cost_json);
        put(&mut entries, "prompt", prompt_json);
        put(&mut entries, "is_user_input_required", is_user_input_required_json);
        put(
            &mut entries,
            "should_redemptions_skip_request_queue",
            should_redemptions_skip_request_queue_json,
        );
        put(&mut entries, "max_per_stream", max_per_stream_json);
        put(&mut entries, "max_per_user_per_stream", max_per_user_per_stream_json);
        put(&mut entries, "background_color", background_color_json);
        put(&mut entries, "image", image_json);
        put(&mut entries, "default_image", default_image_json);
        put(&mut entries, "global_cooldown", global_cooldown_json);
        put(&mut entries, "cooldown_expires_at", cooldown_expires_at_json);
        put(
            &mut entries,
            "redemptions_redeemed_current_stream",
            redemptions_redeemed_current_stream_json,
        );
        proof {
            assert(member(entries@, "id"@) == Some(id_json));
            assert(member(entries@, "broadcaster_user_id"@) == Some(broadcaster_id_json));
            assert(member(entries@, "broadcaster_user_login"@) == Some(broadcaster_login_json));
            assert(member(entries@, "broadcaster_user_name"@) == Some(broadcaster_name_json));
            assert(member(entries@, "is_enabled"@) == Some(is_enabled_json));
            assert(member(entries@, "is_paused"@) == Some(is_paused_json));
            assert(member(entries@, "is_in_stock"@) == Some(is_in_stock_json));
            assert(member(entries@, "title"@) == Some(title_json));
            assert(member(entries@, "cost"@) == Some(cost_json));
            assert(member(entries@, "prompt"@) == Some(prompt_json));
            assert(member(entries@, "is_user_input_required"@)
                == Some(is_user_input_required_json));
            assert(member(entries@, "should_redemptions_skip_request_queue"@)
                == Some(should_redemptions_skip_request_queue_json));
            assert(member(entries@, "max_per_stream"@) == Some(max_per_stream_json));
            assert(member(entries@, "max_per_user_per_stream"@)
                == Some(max_per_user_per_stream_json));
            assert(member(entries@, "background_color"@) == Some(background_color_json));
            assert(member(entries@, "image"@) == Some(image_json));
            assert(member(entries@, "default_image"@) == Some(default_image_json));
            assert(member(entries@, "global_cooldown"@) == Some(global_cooldown_json));
            assert(member(entries@, "cooldown_expires_at"@) == Some(cooldown_expires_at_json));
            assert(member(entries@, "redemptions_redeemed_current_stream"@)
                == Some(redemptions_redeemed_current_stream_json));
        }
        Json::Object(entries)
    }
}

/// An event of the category `channel.channel_points_custom_reward.remove`.
#[derive(Debug)]
pub struct PointsCustomRewardRemove {
    pub id: String,
    pub broadcaster: User,
    pub is_enabled: bool,
    pub is_paused: bool,
    pub is_in_stock: bool,
    pub title: String,
    pub cost: u64,
    pub prompt: String,
    pub is_user_input_required: bool,
    pub should_redemptions_skip_request_queue: bool,
    pub max_per_stream: MaxPerStream,
    pub max_per_user_per_stream: MaxPerStream,
    pub background_color: String,
    pub image: Option<Image>,
    pub default_image: Image,
    pub global_cooldown: GlobalCooldown,
    pub cooldown_expires_at: Option<String>,
    pub redemptions_redeemed_current_stream: Option<u64>,
}

impl FromJson for PointsCustomRewardRemove {
    open spec fn parses(j: Json) -> bool {
        &&& j.spec_text("id"@) is Some
        &&& User::parses(
            j,
            "broadcaster_user_id"@,
            "broadcaster_user_login"@,
            "broadcaster_user_name"@,
        )
        &&& j.spec_flag("is_enabled"@) is Some
        &&& j.spec_flag("is_paused"@) is Some
        &&& j.spec_flag("is_in_stock"@) is Some
        &&& j.spec_text("title"@) is Some
        &&& j.spec_count("cost"@) is Some
        &&& j.spec_text("prompt"@) is Some
        &&& j.spec_flag("is_user_input_required"@) is Some
        &&& j.spec_flag("should_redemptions_skip_request_queue"@) is Some
        &&& member_parses::<MaxPerStream>(j, "max_per_stream"@)
        &&& member_parses::<MaxPerStream>(j, "max_per_user_per_stream"@)
        &&& j.spec_text("background_color"@) is Some
        &&& optional_parses::<Image>(j, "image"@)
        &&& member_parses::<Image>(j, "default_image"@)
        &&& member_parses::<GlobalCooldown>(j, "global_cooldown"@)
        &&& j.spec_optional_text("cooldown_expires_at"@) is Some
        &&& j.spec_optional_count("redemptions_redeemed_current_stream"@) is Some
    }

    open spec fn parsed_as(j: Json, v: PointsCustomRewardRemove) -> bool {
        &&& j.spec_text("id"@) == Some(v.id)
        &&& User::parsed_as(
            j,
            "broadcaster_user_id"@,
            "broadcaster_user_login"@,
            "broadcaster_user_name"@,
            v.broadcaster,
        )
        &&& j.spec_flag("is_enabled"@) == Some(v.is_enabled)
        &&& j.spec_flag("is_paused"@) == Some(v.is_paused)
        &&& j.spec_flag("is_in_stock"@) == Some(v.is_in_stock)
        &&& j.spec_text("title"@) == Some(v.title)
        &&& j.spec_count("cost"@) == Some(v.cost)
        &&& j.spec_text("prompt"@) == Some(v.prompt)
        &&& j.spec_flag("is_user_input_required"@) == Some(v.is_user_input_required)
        &&& j.spec_flag("should_redemptions_skip_request_queue"@) == Some(
            v.should_redemptions_skip_request_queue,
        )
        &&& member_parsed_as(j, "max_per_stream"@, v.max_per_stream)
        &&& member_parsed_as(j, "max_per_user_per_stream"@, v.max_per_user_per_stream)
        &&& j.spec_text("background_color"@) == Some(v.background_color)
        &&& optional_parsed_as(j, "image"@, v.image)
        &&& member_parsed_as(j, "default_image"@, v.default_image)
        &&& member_parsed_as(j, "global_cooldown"@, v.global_cooldown)
        &&& j.spec_optional_text("cooldown_expires_at"@) == Some(v.cooldown_expires_at)
        &&& j.spec_optional_count("redemptions_redeemed_current_stream"@) == Some(
            v.redemptions_redeemed_current_stream,
        )
    }

    fn from_json(j: &Json) -> (r: Option<PointsCustomRewardRemove>) {
        let id = j.text("id");
        let broadcaster = User::from_json(
            j,
            "broadcaster_user_id",
            "broadcaster_user_login",
            "broadcaster_user_name",
        );
        let is_enabled = j.flag("is_enabled");
        let is_paused = j.flag("is_paused");
        let is_in_stock = j.flag("is_in_stock");
        let title = j.text("title");
        let cost = j.count("cost");
        let prompt = j.text("prompt");
        let is_user_input_required = j.flag("is_user_input_required");
        let should_redemptions_skip_request_queue = j.flag("should_redemptions_skip_request_queue");
        let max_per_stream = read_member::<MaxPerStream>(j, "max_per_stream");
        let max_per_user_per_stream = read_member::<MaxPerStream>(j, "max_per_user_per_stream");
        let background_color = j.text("background_color");
        let image = read_optional::<Image>(j, "image");
        let default_image = read_member::<Image>(j, "default_image");
        let global_cooldown = read_member::<GlobalCooldown>(j, "global_cooldown");
        let cooldown_expires_at = j.optional_text("cooldown_expires_at");
        let redemptions_redeemed_current_stream = j.optional_count(
            "redemptions_redeemed_current_stream",
        );
        if id.is_some() && broadcaster.is_some() && is_enabled.is_some() && is_paused.is_some()
            && is_in_stock.is_some() && title.is_some() && cost.is_some() && prompt.is_some()
            && is_user_input_required.is_some() && should_redemptions_skip_request_queue.is_some()
            && max_per_stream.is_some() && max_per_user_per_stream.is_some()
            && background_color.is_some() && image.is_some() && default_image.is_some()
            && global_cooldown.is_some() && cooldown_expires_at.is_some()
            && redemptions_redeemed_current_stream.is_some() {
            Some(
                PointsCustomRewardRemove {
                    id: id.unwrap(),
                    broadcaster: broadcaster.unwrap(),
                    is_enabled: is_enabled.unwrap(),
                    is_paused: is_paused.unwrap(),
                    is_in_stock: is_in_stock.unwrap(),
                    title: title.unwrap(),
                    cost: cost.unwrap(),
                    prompt: prompt.unwrap(),
                    is_user_input_required: is_user_input_required.unwrap(),
                    should_redemptions_skip_request_queue: should_redemptions_skip_request_queue.unwrap(
                    ),
                    max_per_stream: max_per_stream.unwrap(),
                    max_per_user_per_stream: max_per_user_per_stream.unwrap(),
                    background_color: background_color.unwrap(),
                    image: image.unwrap(),
                    default_image: default_image.unwrap(),
                    global_cooldown: global_cooldown.unwrap(),
                    cooldown_expires_at: cooldown_expires_at.unwrap(),
                    redemptions_redeemed_current_stream: redemptions_redeemed_current_stream.unwrap(
                    ),
                },
            )
        } else {
            None
        }
    }
}

impl ToJson for PointsCustomRewardRemove {
    fn to_json(&self) -> (r: Json) {
        let mut entries: Vec<(String, Json)> = Vec::new();
        proof {
            assert(!Image::parses(Json::Null));
            reveal_strlit("id");
            reveal_strlit("broadcaster_user_id");
            reveal_strlit("broadcaster_user_login");
            reveal_strlit("broadcaster_user_name");
            reveal_strlit("is_enabled");
            reveal_strlit("is_paused");
            reveal_strlit("is_in_stock");
            reveal_strlit("title");
            reveal_strlit("cost");
            reveal_strlit("prompt");
            reveal_strlit("is_user_input_required");
            reveal_strlit("should_redemptions_skip_request_queue");
            reveal_strlit("max_per_stream");
            reveal_strlit("max_per_user_per_stream");
            reveal_strlit("background_color");
            reveal_strlit("image");
            reveal_strlit("default_image");
            reveal_strlit("global_cooldown");
            reveal_strlit("cooldown_expires_at");
            reveal_strlit("redemptions_redeemed_current_stream");
            assert("id"@.len() == 2);
            assert("broadcaster_user_id"@.len() == 19);
            assert("broadcaster_user_login"@.len() == 22);
            assert("broadcaster_user_name"@.len() == 21);
            assert("is_enabled"@.len() == 10);
            assert("is_paused"@.len() == 9);
            assert("is_in_stock"@.len() == 11);
            assert("title"@.len() == 5);
            assert("cost"@.len() == 4);
            assert("prompt"@.len() == 6);
            assert("is_user_input_required"@.len() == 22);
            assert("should_redemptions_skip_request_queue"@.len() == 37);
            assert("max_per_stream"@.len() == 14);
            assert("max_per_user_per_stream"@.len() == 23);
            assert("background_color"@.len() == 16);
            assert("image"@.len() == 5);
            assert("default_image"@.len() == 13);
            assert("global_cooldown"@.len() == 15);
            assert("cooldown_expires_at"@.len() == 19);
            assert("redemptions_redeemed_current_stream"@.len() == 35);
            assert("broadcaster_user_id"@[0] != "cooldown_expires_at"@[0]);
            assert("broadcaster_user_login"@[0] != "is_user_input_required"@[0]);
            assert("title"@[0] != "image"@[0]);
        }
        let id_json = Json::Text(self.id.clone());
        let broadcaster_id_json = Json::Text(self.broadcaster.user_id.clone());
        let broadcaster_login_json = Json::Text(self.broadcaster.user_login.clone());
        let broadcaster_name_json = Json::Text(self.broadcaster.user_name.clone());
        let is_enabled_json = Json::Bool(self.is_enabled);
        let is_paused_json = Json::Bool(self.is_paused);
        let is_in_stock_json = Json::Bool(self.is_in_stock);
        let title_json = Json::Text(self.title.clone());
        let cost_json = count_json(self.cost);
        let prompt_json = Json::Text(self.prompt.clone());
        let is_user_input_required_json = Json::Bool(self.is_user_input_required);
        let should_redemptions_skip_request_queue_json = Json::Bool(
            self.should_redemptions_skip_request_queue,
        );
        let max_per_stream_json = self.max_per_stream.to_json();
        let max_per_user_per_stream_json = self.max_per_user_per_stream.to_json();
        let background_color_json = Json::Text(self.background_color.clone());
        let image_json = write_optional(&self.image);
        let default_image_json = self.default_image.to_json();
        let global_cooldown_json = self.global_cooldown.to_json();
        let cooldown_expires_at_json = optional_text_json(&self.cooldown_expires_at);
        let redemptions_redeemed_current_stream_json = optional_count_json(
            &self.redemptions_redeemed_current_stream,
        );
        put(&mut entries, "id", id_json);
        put(&mut entries, "broadcaster_user_id", broadcaster_id_json);
        put(&mut entries, "broadcaster_user_login", broadcaster_login_json);
        put(&mut entries, "broadcaster_user_name", broadcaster_name_json);
        put(&mut entries, "is_enabled", is_enabled_json);
        put(&mut entries, "is_paused", is_paused_json);
        put(&mut entries, "is_in_stock", is_in_stock_json);
        put(&mut entries, "title", title_json);
        put(&mut entries, "cost", cost_json);
        put(&mut entries, "prompt", prompt_json);
        put(&mut entries, "is_user_input_required", is_user_input_required_json);
        put(
            &mut entries,
            "should_redemptions_skip_request_queue",
            should_redemptions_skip_request_queue_json,
        );
        put(&mut entries, "max_per_stream", max_per_stream_json);
        put(&mut entries, "max_per_user_per_stream", max_per_user_per_stream_json);
        put(&mut entries, "background_color", background_color_json);
        put(&mut entries, "image", image_json);
        put(&mut entries, "default_image", default_image_json);
        put(&mut entries, "global_cooldown", global_cooldown_json);
        put(&mut entries, "cooldown_expires_at", cooldown_expires_at_json);
        put(
            &mut entries,
            "redemptions_redeemed_current_stream",
            redemptions_redeemed_current_stream_json,
        );
        proof {
            assert(member(entries@, "id"@) == Some(id_json));
            assert(member(entries@, "broadcaster_user_id"@) == Some(broadcaster_id_json));
            assert(member(entries@, "broadcaster_user_login"@) == Some(broadcaster_login_json));
            assert(member(entries@, "broadcaster_user_name"@) == Some(broadcaster_name_json));
            assert(member(entries@, "is_enabled"@) == Some(is_enabled_json));
            assert(member(entries@, "is_paused"@) == Some(is_paused_json));
            assert(member(entries@, "is_in_stock"@) == Some(is_in_stock_json));
            assert(member(entries@, "title"@) == Some(title_json));
            assert(member(entries@, "cost"@) == Some(cost_json));
            assert(member(entries@, "prompt"@) == Some(prompt_json));
            assert(member(entries@, "is_user_input_required"@)
                == Some(is_user_input_required_json));
            assert(member(entries@, "should_redemptions_skip_request_queue"@)
                == Some(should_redemptions_skip_request_queue_json));
            assert(member(entries@, "max_per_stream"@) == Some(max_per_stream_json));
            assert(member(entries@, "max_per_user_per_stream"@)
                == Some(max_per_user_per_stream_json));
            assert(member(entries@, "background_color"@) == Some(background_color_json));
            assert(member(entries@, "image"@) == Some(image_json));
            assert(member(entries@, "default_image"@) == Some(default_image_json));
            assert(member(entries@, "global_cooldown"@) == Some(global_cooldown_json));
            assert(member(entries@, "cooldown_expires_at"@) == Some(cooldown_expires_at_json));
            assert(member(entries@, "redemptions_redeemed_current_stream"@)
                == Some(redemptions_redeemed_current_stream_json));
        }
        Json::Object(entries)
    }
}

/// An event of the category `channel.channel_points_custom_reward_redemption.add`.
#[derive(Debug)]
pub struct PointsCustomRewardRedemptionAdd {
    pub id: String,
    pub broadcaster: User,
    pub user: User,
    pub user_input: String,
    pub status: RedeemStatus,
    pub reward: CustomReward,
    pub redeemed_at: String,
}

impl FromJson for PointsCustomRewardRedemptionAdd {
    open spec fn parses(j: Json) -> bool {
        &&& j.spec_text("id"@) is Some
        &&& User::parses(
            j,
            "broadcaster_user_id"@,
            "broadcaster_user_login"@,
            "broadcaster_user_name"@,
        )
        &&& User::parses(j, "user_id"@, "user_login"@, "user_name"@)
        &&& j.spec_text("user_input"@) is Some
        &&& member_parses::<RedeemStatus>(j, "status"@)
        &&& member_parses::<CustomReward>(j, "reward"@)
        &&& j.spec_text("redeemed_at"@) is Some
    }

    open spec fn parsed_as(j: Json, v: PointsCustomRewardRedemptionAdd) -> bool {
        &&& j.spec_text("id"@) == Some(v.id)
        &&& User::parsed_as(
            j,
            "broadcaster_user_id"@,
            "broadcaster_user_login"@,
            "broadcaster_user_name"@,
            v.broadcaster,
        )
        &&& User::parsed_as(j, "user_id"@, "user_login"@, "user_name"@, v.user)
        &&& j.spec_text("user_input"@) == Some(v.user_input)
        &&& member_parsed_as(j, "status"@, v.status)
        &&& member_parsed_as(j, "reward"@, v.reward)
        &&& j.spec_text("redeemed_at"@) == Some(v.redeemed_at)
    }

    fn from_json(j: &Json) -> (r: Option<PointsCustomRewardRedemptionAdd>) {
        let id = j.text("id");
        let broadcaster = User::from_json(
            j,
            "broadcaster_user_id",
            "broadcaster_user_login",
            "broadcaster_user_name",
        );
        let user = User::from_json(j, "user_id", "user_login", "user_name");
        let user_input = j.text("user_input");
        let status = read_member::<RedeemStatus>(j, "status");
        let reward = read_member::<CustomReward>(j, "reward");
        let redeemed_at = j.text("redeemed_at");
        if id.is_some() && broadcaster.is_some() && user.is_some() && user_input.is_some()
            && status.is_some() && reward.is_some() && redeemed_at.is_some() {
            Some(
                PointsCustomRewardRedemptionAdd {
                    id: id.unwrap(),
                    broadcaster: broadcaster.unwrap(),
                    user: user.unwrap(),
                    user_input: user_input.unwrap(),
                    status: status.unwrap(),
                    reward: reward.unwrap(),
                    redeemed_at: redeemed_at.unwrap(),
                },
            )
        } else {
            None
        }
    }
}

impl ToJson for PointsCustomRewardRedemptionAdd {
    fn to_json(&self) -> (r: Json) {
        let mut entries: Vec<(String, Json)> = Vec::new();
        proof {
            reveal_strlit("id");
            reveal_strlit("broadcaster_user_id");
            reveal_strlit("broadcaster_user_login");
            reveal_strlit("broadcaster_user_name");
            reveal_strlit("user_id");
            reveal_strlit("user_login");
            reveal_strlit("user_name");
            reveal_strlit("user_input");
            reveal_strlit("status");
            reveal_strlit("reward");
            reveal_strlit("redeemed_at");
            assert("id"@.len() == 2);
            assert("broadcaster_user_id"@.len() == 19);
            assert("broadcaster_user_login"@.len() == 22);
            assert("broadcaster_user_name"@.len() == 21);
            assert("user_id"@.len() == 7);
            assert("user_login"@.len() == 10);
            assert("user_name"@.len() == 9);
            assert("user_input"@.len() == 10);
            assert("status"@.len() == 6);
            assert("reward"@.len() == 6);
            assert("redeemed_at"@.len() == 11);
            assert("user_login"@[5] != "user_input"@[5]);
            assert("status"@[0] != "reward"@[0]);
        }
        let id_json = Json::Text(self.id.clone());
        let broadcaster_id_json = Json::Text(self.broadcaster.user_id.clone());
        let broadcaster_login_json = Json::Text(self.broadcaster.user_login.clone());
        let broadcaster_name_json = Json::Text(self.broadcaster.user_name.clone());
        let user_id_json = Json::Text(self.user.user_id.clone());
        let user_login_json = Json::Text(self.user.user_login.clone());
        let user_name_json = Json::Text(self.user.user_name.clone());
        let user_input_json = Json::Text(self.user_input.clone());
        let status_json = self.status.to_json();
        let reward_json = self.reward.to_json();
        let redeemed_at_json = Json::Text(self.redeemed_at.clone());
        put(&mut entries, "id", id_json);
        put(&mut entries, "broadcaster_user_id", broadcaster_id_json);
        put(&mut entries, "broadcaster_user_login", broadcaster_login_json);
        put(&mut entries, "broadcaster_user_name", broadcaster_name_json);
        put(&mut entries, "user_id", user_id_json);
        put(&mut entries, "user_login", user_login_json);
        put(&mut entries, "user_name", user_name_json);
        put(&mut entries, "user_input", user_input_json);
        put(&mut entries, "status", status_json);
        put(&mut entries, "reward", reward_json);
        put(&mut entries, "redeemed_at", redeemed_at_json);
        proof {
            assert(member(entries@, "id"@) == Some(id_json));
            assert(member(entries@, "broadcaster_user_id"@) == Some(broadcaster_id_json));
            assert(member(entries@, "broadcaster_user_login"@) == Some(broadcaster_login_json));
            assert(member(entries@, "broadcaster_user_name"@) == Some(broadcaster_name_json));
            assert(member(entries@, "user_id"@) == Some(user_id_json));
            assert(member(entries@, "user_login"@) == Some(user_login_json));
            assert(member(entries@, "user_name"@) == Some(user_name_json));
            assert(member(entries@, "user_input"@) == Some(user_input_json));
            assert(member(entries@, "status"@) == Some(status_json));
            assert(member(entries@, "reward"@) == Some(reward_json));
            assert(member(entries@, "redeemed_at"@) == Some(redeemed_at_json));
        }
        Json::Object(entries)
    }
}

/// An event of the category `channel.channel_points_custom_reward_redemption.update`.
#[derive(Debug)]
pub struct PointsCustomRewardRedemptionUpdate {
    pub id: String,
    pub broadcaster: User,
    pub user: User,
    pub user_input: String,
    pub status: RedeemStatus,
    pub reward: CustomReward,
    pub redeemed_at: String,
}

impl FromJson for PointsCustomRewardRedemptionUpdate {
    open spec fn parses(j: Json) -> bool {
        &&& j.spec_text("id"@) is Some
        &&& User::parses(
            j,
            "broadcaster_user_id"@,
            "broadcaster_user_login"@,
            "broadcaster_user_name"@,
        )
        &&& User::parses(j, "user_id"@, "user_login"@, "user_name"@)
        &&& j.spec_text("user_input"@) is Some
        &&& member_parses::<RedeemStatus>(j, "status"@)
        &&& member_parses::<CustomReward>(j, "reward"@)
        &&& j.spec_text("redeemed_at"@) is Some
    }

    open spec fn parsed_as(j: Json, v: PointsCustomRewardRedemptionUpdate) -> bool {
        &&& j.spec_text("id"@) == Some(v.id)
        &&& User::parsed_as(
            j,
            "broadcaster_user_id"@,
            "broadcaster_user_login"@,
            "broadcaster_user_name"@,
            v.broadcaster,
        )
        &&& User::parsed_as(j, "user_id"@, "user_login"@, "user_name"@, v.user)
        &&& j.spec_text("user_input"@) == Some(v.user_input)
        &&& member_parsed_as(j, "status"@, v.status)
        &&& member_parsed_as(j, "reward"@, v.reward)
        &&& j.spec_text("redeemed_at"@) == Some(v.redeemed_at)
    }

    fn from_json(j: &Json) -> (r: Option<PointsCustomRewardRedemptionUpdate>) {
        let id = j.text("id");
        let broadcaster = User::from_json(
            j,
            "broadcaster_user_id",
            "broadcaster_user_login",
            "broadcaster_user_name",
        );
        let user = User::from_json(j, "user_id", "user_login", "user_name");
        let user_input = j.text("user_input");
        let status = read_member::<RedeemStatus>(j, "status");
        let reward = read_member::<CustomReward>(j, "reward");
        let redeemed_at = j.text("redeemed_at");
        if id.is_some() && broadcaster.is_some() && user.is_some() && user_input.is_some()
            && status.is_some() && reward.is_some() && redeemed_at.is_some() {
            Some(
                PointsCustomRewardRedemptionUpdate {
                    id: id.unwrap(),
                    broadcaster: broadcaster.unwrap(),
                    user: user.unwrap(),
                    user_input: user_input.unwrap(),
                    status: status.unwrap(),
                    reward: reward.unwrap(),
                    redeemed_at: redeemed_at.unwrap(),
                },
            )
        } else {
            None
        }
    }
}

impl ToJson for PointsCustomRewardRedemptionUpdate {
    fn to_json(&self) -> (r: Json) {
        let mut entries: Vec<(String, Json)> = Vec::new();
        proof {
            reveal_strlit("id");
            reveal_strlit("broadcaster_user_id");
            reveal_strlit("broadcaster_user_login");
            reveal_strlit("broadcaster_user_name");
            reveal_strlit("user_id");
            reveal_strlit("user_login");
            reveal_strlit("user_name");
            reveal_strlit("user_input");
            reveal_strlit("status");
            reveal_strlit("reward");
            reveal_strlit("redeemed_at");
            assert("id"@.len() == 2);
            assert("broadcaster_user_id"@.len() == 19);
            assert("broadcaster_user_login"@.len() == 22);
            assert("broadcaster_user_name"@.len() == 21);
            assert("user_id"@.len() == 7);
            assert("user_login"@.len() == 10);
            assert("user_name"@.len() == 9);
            assert("user_input"@.len() == 10);
            assert("status"@.len() == 6);
            assert("reward"@.len() == 6);
            assert("redeemed_at"@.len() == 11);
            assert("user_login"@[5] != "user_input"@[5]);
            assert("status"@[0] != "reward"@[0]);
        }
        let id_json = Json::Text(self.id.clone());
        let broadcaster_id_json = Json::Text(self.broadcaster.user_id.clone());
        let broadcaster_login_json = Json::Text(self.broadcaster.user_login.clone());
        let broadcaster_name_json = Json::Text(self.broadcaster.user_name.clone());
        let user_id_json = Json::Text(self.user.user_id.clone());
        let user_login_json = Json::Text(self.user.user_login.clone());
        let user_name_json = Json::Text(self.user.user_name.clone());
        let user_input_json = Json::Text(self.user_input.clone());
        let status_json = self.status.to_json();
        let reward_json = self.reward.to_json();
        let redeemed_at_json = Json::Text(self.redeemed_at.clone());
        put(&mut entries, "id", id_json);
        put(&mut entries, "broadcaster_user_id", broadcaster_id_json);
        put(&mut entries, "broadcaster_user_login", broadcaster_login_json);
        put(&mut entries, "broadcaster_user_name", broadcaster_name_json);
        put(&mut entries, "user_id", user_id_json);
        put(&mut entries, "user_login", user_login_json);
        put(&mut entries, "user_name", user_name_json);
        put(&mut entries, "user_input", user_input_json);
        put(&mut entries, "status", status_json);
        put(&mut entries, "reward", reward_json);
        put(&mut entries, "redeemed_at", redeemed_at_json);
        proof {
            assert(member(entries@, "id"@) == Some(id_json));
            assert(member(entries@, "broadcaster_user_id"@) == Some(broadcaster_id_json));
            assert(member(entries@, "broadcaster_user_login"@) == Some(broadcaster_login_json));
            assert(member(entries@, "broadcaster_user_name"@) == Some(broadcaster_name_json));
            assert(member(entries@, "user_id"@) == Some(user_id_json));
            assert(member(entries@, "user_login"@) == Some(user_login_json));
            assert(member(entries@, "user_name"@) == Some(user_name_json));
            assert(member(entries@, "user_input"@) == Some(user_input_json));
            assert(member(entries@, "status"@) == Some(status_json));
            assert(member(entries@, "reward"@) == Some(reward_json));
            assert(member(entries@, "redeemed_at"@) == Some(redeemed_at_json));
        }
        Json::Object(entries)
    }
}

#[derive(Debug)]
pub struct AutomaticReward {
    pub reward_type: AutomaticRewardType,
    pub cost: u64,
    pub unlocked_emote: Option<UnlockedEmote>,
}

impl FromJson for AutomaticReward {
    open spec fn parses(j: Json) -> bool {
        &&& member_parses::<AutomaticRewardType>(j, "type"@)
        &&& j.spec_count("cost"@) is Some
        &&& optional_parses::<UnlockedEmote>(j, "unlocked_emote"@)
    }

    open spec fn parsed_as(j: Json, v: AutomaticReward) -> bool {
        &&& member_parsed_as(j, "type"@, v.reward_type)
        &&& j.spec_count("cost"@) == Some(v.cost)
        &&& optional_parsed_as(j, "unlocked_emote"@, v.unlocked_emote)
    }

    fn from_json(j: &Json) -> (r: Option<AutomaticReward>) {
        let reward_type = read_member::<AutomaticRewardType>(j, "type");
        let cost = j.count("cost");
        let unlocked_emote = read_optional::<UnlockedEmote>(j, "unlocked_emote");
        if reward_type.is_some() && cost.is_some() && unlocked_emote.is_some() {
            Some(
                AutomaticReward {
                    reward_type: reward_type.unwrap(),
                    cost: cost.unwrap(),
                    unlocked_emote: unlocked_emote.unwrap(),
                },
            )
        } else {
            None
        }
    }
}

impl ToJson for AutomaticReward {
    fn to_json(&self) -> (r: Json) {
        let mut entries: Vec<(String, Json)> = Vec::new();
        proof {
            assert(!UnlockedEmote::parses(Json::Null));
            reveal_strlit("type");
            reveal_strlit("cost");
            reveal_strlit("unlocked_emote");
            assert("type"@.len() == 4);
            assert("cost"@.len() == 4);
            assert("unlocked_emote"@.len() == 14);
            assert("type"@[0] != "cost"@[0]);
        }
        let reward_type_json = self.reward_type.to_json();
        let cost_json = count_json(self.cost);
        let unlocked_emote_json = write_optional(&self.unlocked_emote);
        put(&mut entries, "type", reward_type_json);
        put(&mut entries, "cost", cost_json);
        put(&mut entries, "unlocked_emote", unlocked_emote_json);
        proof {
            assert(member(entries@, "type"@) == Some(reward_type_json));
            assert(member(entries@, "cost"@) == Some(cost_json));
            assert(member(entries@, "unlocked_emote"@) == Some(unlocked_emote_json));
        }
        Json::Object(entries)
    }
}

#[derive(Clone, Copy, Debug, PartialEq, Eq, Structural)]
pub enum AutomaticRewardType {
    SingleMessageBypassSubMode,
    SendHighlightedMessage,
    RandomSubEmoteUnlock,
    ChosenSubEmoteUnlock,
    ChosenModifiedSubEmoteUnlock,
    MessageEffect,
    GigantifyAnEmote,
    Celebration,
}

impl AutomaticRewardType {
    /// The value that a name stands for.
    pub open spec fn spec_named(name: Seq<char>) -> Option<AutomaticRewardType> {
        if name == "single_message_bypass_sub_mode"@ {
            Some(AutomaticRewardType::SingleMessageBypassSubMode)
        } else if name == "send_highlighted_message"@ {
            Some(AutomaticRewardType::SendHighlightedMessage)
        } else if name == "random_sub_emote_unlock"@ {
            Some(AutomaticRewardType::RandomSubEmoteUnlock)
        } else if name == "chosen_sub_emote_unlock"@ {
            Some(AutomaticRewardType::ChosenSubEmoteUnlock)
        } else if name == "chosen_modified_sub_emote_unlock"@ {
            Some(AutomaticRewardType::ChosenModifiedSubEmoteUnlock)
        } else if name == "message_effect"@ {
            Some(AutomaticRewardType::MessageEffect)
        } else if name == "gigantify_an_emote"@ {
            Some(AutomaticRewardType::GigantifyAnEmote)
        } else if name == "celebration"@ {
            Some(AutomaticRewardType::Celebration)
        } else {
            None
        }
    }

    /// The value that a name stands for.
    pub fn named(name: &str) -> (r: Option<AutomaticRewardType>)
        ensures
            r == Self::spec_named(name@),
    {
        if same_text(name, "single_message_bypass_sub_mode") {
            Some(AutomaticRewardType::SingleMessageBypassSubMode)
        } else if same_text(name, "send_highlighted_message") {
            Some(AutomaticRewardType::SendHighlightedMessage)
        } else if same_text(name, "random_sub_emote_unlock") {
            Some(AutomaticRewardType::RandomSubEmoteUnlock)
        } else if same_text(name, "chosen_sub_emote_unlock") {
            Some(AutomaticRewardType::ChosenSubEmoteUnlock)
        } else if same_text(name, "chosen_modified_sub_emote_unlock") {
            Some(AutomaticRewardType::ChosenModifiedSubEmoteUnlock)
        } else if same_text(name, "message_effect") {
            Some(AutomaticRewardType::MessageEffect)
        } else if same_text(name, "gigantify_an_emote") {
            Some(AutomaticRewardType::GigantifyAnEmote)
        } else if same_text(name, "celebration") {
            Some(AutomaticRewardType::Celebration)
        } else {
            None
        }
    }
}

impl FromJson for AutomaticRewardType {
    open spec fn parses(j: Json) -> bool {
        j matches Json::Text(s) && Self::spec_named(s@) is Some
    }

    open spec fn parsed_as(j: Json, v: AutomaticRewardType) -> bool {
        j matches Json::Text(s) && Self::spec_named(s@) == Some(v)
    }

    fn from_json(j: &Json) -> (r: Option<AutomaticRewardType>) {
        match j {
            Json::Text(s) => Self::named(s.as_str()),
            _ => None,
        }
    }
}

impl AutomaticRewardType {
    /// The name that stands for the value.
    pub fn name(&self) -> (r: &'static str)
        ensures
            Self::spec_named(r@) == Some(*self),
    {
        proof {
            reveal_strlit("single_message_bypass_sub_mode");
            reveal_strlit("send_highlighted_message");
            reveal_strlit("random_sub_emote_unlock");
            reveal_strlit("chosen_sub_emote_unlock");
            reveal_strlit("chosen_modified_sub_emote_unlock");
            reveal_strlit("message_effect");
            reveal_strlit("gigantify_an_emote");
            reveal_strlit("celebration");
            assert("single_message_bypass_sub_mode"@.len() == 30);
            assert("send_highlighted_message"@.len() == 24);
            assert("random_sub_emote_unlock"@.len() == 23);
            assert("chosen_sub_emote_unlock"@.len() == 23);
            assert("chosen_modified_sub_emote_unlock"@.len() == 32);
            assert("message_effect"@.len() == 14);
            assert("gigantify_an_emote"@.len() == 18);
            assert("celebration"@.len() == 11);
            assert("random_sub_emote_unlock"@[0] != "chosen_sub_emote_unlock"@[0]);
        }
        match self {
            AutomaticRewardType::SingleMessageBypassSubMode => "single_message_bypass_sub_mode",
            AutomaticRewardType::SendHighlightedMessage => "send_highlighted_message",
            AutomaticRewardType::RandomSubEmoteUnlock => "random_sub_emote_unlock",
            AutomaticRewardType::ChosenSubEmoteUnlock => "chosen_sub_emote_unlock",
            AutomaticRewardType::ChosenModifiedSubEmoteUnlock => "chosen_modified_sub_emote_unlock",
            AutomaticRewardType::MessageEffect => "message_effect",
            AutomaticRewardType::GigantifyAnEmote => "gigantify_an_emote",
            AutomaticRewardType::Celebration => "celebration",
        }
    }
}

impl ToJson for AutomaticRewardType {
    fn to_json(&self) -> (r: Json) {
        Json::Text(self.name().to_owned())
    }
}

#[derive(Debug)]
pub struct UnlockedEmote {
    pub id: String,
    pub name: String,
}

impl FromJson for UnlockedEmote {
    open spec fn parses(j: Json) -> bool {
        &&& j.spec_text("id"@) is Some
        &&& j.spec_text("name"@) is Some
    }

    open spec fn parsed_as(j: Json, v: UnlockedEmote) -> bool {
        &&& j.spec_text("id"@) == Some(v.id)
        &&& j.spec_text("name"@) == Some(v.name)
    }

    fn from_json(j: &Json) -> (r: Option<UnlockedEmote>) {
        let id = j.text("id");
        let name = j.text("name");
        if id.is_some() && name.is_some() {
            Some(UnlockedEmote { id: id.unwrap(), name: name.unwrap() })
        } else {
            None
        }
    }
}

impl ToJson for UnlockedEmote {
    fn to_json(&self) -> (r: Json) {
        let mut entries: Vec<(String, Json)> = Vec::new();
        proof {
            reveal_strlit("id");
            reveal_strlit("name");
            assert("id"@.len() == 2);
            assert("name"@.len() == 4);
        }
        let id_json = Json::Text(self.id.clone());
        let name_json = Json::Text(self.name.clone());
        put(&mut entries, "id", id_json);
        put(&mut entries, "name", name_json);
        proof {
            assert(member(entries@, "id"@) == Some(id_json));
            assert(member(entries@, "name"@) == Some(name_json));
        }
        Json::Object(entries)
    }
}

#[derive(Debug)]
pub struct MaxPerStream {
    pub is_enabled: bool,
    pub value: u64,
}

impl FromJson for MaxPerStream {
    open spec fn parses(j: Json) -> bool {
        &&& j.spec_flag("is_enabled"@) is Some
        &&& j.spec_count("value"@) is Some
    }

    open spec fn parsed_as(j: Json, v: MaxPerStream) -> bool {
        &&& j.spec_flag("is_enabled"@) == Some(v.is_enabled)
        &&& j.spec_count("value"@) == Some(v.value)
    }

    fn from_json(j: &Json) -> (r: Option<MaxPerStream>) {
        let is_enabled = j.flag("is_enabled");
        let value = j.count("value");
        if is_enabled.is_some() && value.is_some() {
            Some(MaxPerStream { is_enabled: is_enabled.unwrap(), value: value.unwrap() })
        } else {
            None
        }
    }
}

impl ToJson for MaxPerStream {
    fn to_json(&self) -> (r: Json) {
        let mut entries: Vec<(String, Json)> = Vec::new();
        proof {
            reveal_strlit("is_enabled");
            reveal_strlit("value");
            assert("is_enabled"@.len() == 10);
            assert("value"@.len() == 5);
        }
        let is_enabled_json = Json::Bool(self.is_enabled);
        let value_json = count_json(self.value);
        put(&mut entries, "is_enabled", is_enabled_json);
        put(&mut entries, "value", value_json);
        proof {
            assert(member(entries@, "is_enabled"@) == Some(is_enabled_json));
            assert(member(entries@, "value"@) == Some(value_json));
        }
        Json::Object(entries)
    }
}

#[derive(Debug)]
pub struct Image {
    pub url_1x: String,
    pub url_2x: String,
    pub url_4x: String,
}

impl FromJson for Image {
    open spec fn parses(j: Json) -> bool {
        &&& j.spec_text("url_1x"@) is Some
        &&& j.spec_text("url_2x"@) is Some
        &&& j.spec_text("url_4x"@) is Some
    }

    open spec fn parsed_as(j: Json, v: Image) -> bool {
        &&& j.spec_text("url_1x"@) == Some(v.url_1x)
        &&& j.spec_text("url_2x"@) == Some(v.url_2x)
        &&& j.spec_text("url_4x"@) == Some(v.url_4x)
    }

    fn from_json(j: &Json) -> (r: Option<Image>) {
        let url_1x = j.text("url_1x");
        let url_2x = j.text("url_2x");
        let url_4x = j.text("url_4x");
        if url_1x.is_some() && url_2x.is_some() && url_4x.is_some() {
            Some(
                Image {
                    url_1x: url_1x.unwrap(),
                    url_2x: url_2x.unwrap(),
                    url_4x: url_4x.unwrap(),
                },
            )
        } else {
            None
        }
    }
}

impl ToJson for Image {
    fn to_json(&self) -> (r: Json) {
        let mut entries: Vec<(String, Json)> = Vec::new();
        proof {
            reveal_strlit("url_1x");
            reveal_strlit("url_2x");
            reveal_strlit("url_4x");
            assert("url_1x"@.len() == 6);
            assert("url_2x"@.len() == 6);
            assert("url_4x"@.len() == 6);
            assert("url_1x"@[4] != "url_2x"@[4]);
            assert("url_1x"@[4] != "url_4x"@[4]);
            assert("url_2x"@[4] != "url_4x"@[4]);
        }
        let url_1x_json = Json::Text(self.url_1x.clone());
        let url_2x_json = Json::Text(self.url_2x.clone());
        let url_4x_json = Json::Text(self.url_4x.clone());
        put(&mut entries, "url_1x", url_1x_json);
        put(&mut entries, "url_2x", url_2x_json);
        put(&mut entries, "url_4x", url_4x_json);
        proof {
            assert(member(entries@, "url_1x"@) == Some(url_1x_json));
            assert(member(entries@, "url_2x"@) == Some(url_2x_json));
            assert(member(entries@, "url_4x"@) == Some(url_4x_json));
        }
        Json::Object(entries)
    }
}

#[derive(Debug)]
pub struct GlobalCooldown {
    pub is_enabled: bool,
    pub seconds: u64,
}

impl FromJson for GlobalCooldown {
    open spec fn parses(j: Json) -> bool {
        &&& j.spec_flag("is_enabled"@) is Some
        &&& j.spec_count("seconds"@) is Some
    }

    open spec fn parsed_as(j: Json, v: GlobalCooldown) -> bool {
        &&& j.spec_flag("is_enabled"@) == Some(v.is_enabled)
        &&& j.spec_count("seconds"@) == Some(v.seconds)
    }

    fn from_json(j: &Json) -> (r: Option<GlobalCooldown>) {
        let is_enabled = j.flag("is_enabled");
        let seconds = j.count("seconds");
        if is_enabled.is_some() && seconds.is_some() {
            Some(GlobalCooldown { is_enabled: is_enabled.unwrap(), seconds: seconds.unwrap() })
        } else {
            None
        }
    }
}

impl ToJson for GlobalCooldown {
    fn to_json(&self) -> (r: Json) {
        let mut entries: Vec<(String, Json)> = Vec::new();
        proof {
            reveal_strlit("is_enabled");
            reveal_strlit("seconds");
            assert("is_enabled"@.len() == 10);
            assert("seconds"@.len() == 7);
        }
        let is_enabled_json = Json::Bool(self.is_enabled);
        let seconds_json = count_json(self.seconds);
        put(&mut entries, "is_enabled", is_enabled_json);
        put(&mut entries, "seconds", seconds_json);
        proof {
            assert(member(entries@, "is_enabled"@) == Some(is_enabled_json));
            assert(member(entries@, "seconds"@) == Some(seconds_json));
        }
        Json::Object(entries)
    }
}

#[derive(Clone, Copy, Debug, PartialEq, Eq, Structural)]
pub enum RedeemStatus {
    Unfulfilled,
    Fulfilled,
    Canceled,
    Unknown,
}

impl RedeemStatus {
    /// The value that a name stands for.
    pub open spec fn spec_named(name: Seq<char>) -> Option<RedeemStatus> {
        if name == "unfulfilled"@ {
            Some(RedeemStatus::Unfulfilled)
        } else if name == "fulfilled"@ {
            Some(RedeemStatus::Fulfilled)
        } else if name == "canceled"@ {
            Some(RedeemStatus::Canceled)
        } else if name == "unknown"@ {
            Some(RedeemStatus::Unknown)
        } else {
            None
        }
    }

    /// The value that a name stands for.
    pub fn named(name: &str) -> (r: Option<RedeemStatus>)
        ensures
            r == Self::spec_named(name@),
    {
        if same_text(name, "unfulfilled") {
            Some(RedeemStatus::Unfulfilled)
        } else if same_text(name, "fulfilled") {
            Some(RedeemStatus::Fulfilled)
        } else if same_text(name, "canceled") {
            Some(RedeemStatus::Canceled)
        } else if same_text(name, "unknown") {
            Some(RedeemStatus::Unknown)
        } else {
            None
        }
    }
}

impl FromJson for RedeemStatus {
    open spec fn parses(j: Json) -> bool {
        j matches Json::Text(s) && Self::spec_named(s@) is Some
    }

    open spec fn parsed_as(j: Json, v: RedeemStatus) -> bool {
        j matches Json::Text(s) && Self::spec_named(s@) == Some(v)
    }

    fn from_json(j: &Json) -> (r: Option<RedeemStatus>) {
        match j {
            Json::Text(s) => Self::named(s.as_str()),
            _ => None,
        }
    }
}

impl RedeemStatus {
    /// The name that stands for the value.
    pub fn name(&self) -> (r: &'static str)
        ensures
            Self::spec_named(r@) == Some(*self),
    {
        proof {
            reveal_strlit("unfulfilled");
            reveal_strlit("fulfilled");
            reveal_strlit("canceled");
            reveal_strlit("unknown");
            assert("unfulfilled"@.len() == 11);
            assert("fulfilled"@.len() == 9);
            assert("canceled"@.len() == 8);
            assert("unknown"@.len() == 7);
        }
        match self {
            RedeemStatus::Unfulfilled => "unfulfilled",
            RedeemStatus::Fulfilled => "fulfilled",
            RedeemStatus::Canceled => "canceled",
            RedeemStatus::Unknown => "unknown",
        }
    }
}

impl ToJson for RedeemStatus {
    fn to_json(&self) -> (r: Json) {
        Json::Text(self.name().to_owned())
    }
}

#[derive(Debug)]
pub struct CustomReward {
    pub id: String,
    pub title: String,
    pub cost: u64,
    pub prompt: String,
}

impl FromJson for CustomReward {
    open spec fn parses(j: Json) -> bool {
        &&& j.spec_text("id"@) is Some
        &&& j.spec_text("title"@) is Some
        &&& j.spec_count("cost"@) is Some
        &&& j.spec_text("prompt"@) is Some
    }

    open spec fn parsed_as(j: Json, v: CustomReward) -> bool {
        &&& j.spec_text("id"@) == Some(v.id)
        &&& j.spec_text("title"@) == Some(v.title)
        &&& j.spec_count("cost"@) == Some(v.cost)
        &&& j.spec_text("prompt"@) == Some(v.prompt)
    }

    fn from_json(j: &Json) -> (r: Option<CustomReward>) {
        let id = j.text("id");
        let title = j.text("title");
        let cost = j.count("cost");
        let prompt = j.text("prompt");
        if id.is_some() && title.is_some() && cost.is_some() && prompt.is_some() {
            Some(
                CustomReward {
                    id: id.unwrap(),
                    title: title.unwrap(),
                    cost: cost.unwrap(),
                    prompt: prompt.unwrap(),
                },
            )
        } else {
            None
        }
    }
}

impl ToJson for CustomReward {
    fn to_json(&self) -> (r: Json) {
        let mut entries: Vec<(String, Json)> = Vec::new();
        proof {
            reveal_strlit("id");
            reveal_strlit("title");
            reveal_strlit("cost");
            reveal_strlit("prompt");
            assert("id"@.len() == 2);
            assert("title"@.len() == 5);
            assert("cost"@.len() == 4);
            assert("prompt"@.len() == 6);
        }
        let id_json = Json::Text(self.id.clone());
        let title_json = Json::Text(self.title.clone());
        let cost_json = count_json(self.cost);
        let prompt_json = Json::Text(self.prompt.clone());
        put(&mut entries, "id", id_json);
        put(&mut entries, "title", title_json);
        put(&mut entries, "cost", cost_json);
        put(&mut entries, "prompt", prompt_json);
        proof {
            assert(member(entries@, "id"@) == Some(id_json));
            assert(member(entries@, "title"@) == Some(title_json));
            assert(member(entries@, "cost"@) == Some(cost_json));
            assert(member(entries@, "prompt"@) == Some(prompt_json));
        }
        Json::Object(entries)
    }
}

} // verus!
