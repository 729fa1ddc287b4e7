//! Field names for campaign resources.

use vstd::prelude::*;

verus! {

pub const CREATED_AT: &'static str = "created_at";

pub const CREATION_NAME: &'static str = "creation_name";

pub const DISCORD_SERVER_ID: &'static str = "discord_server_id";

pub const GOOGLE_ANALYTICS_ID: &'static str = "google_analytics_id";

pub const IMAGE_URL: &'static str = "image_url";

pub const IMAGE_SMALL_URL: &'static str = "image_small_url";

pub const IS_CHARGED_IMMEDIATELY: &'static str = "is_charged_immediately";

pub const IS_MONTHLY: &'static str = "is_monthly";

pub const IS_NSFW: &'static str = "is_nsfw";

pub const MAIN_VIDEO_EMBED: &'static str = "main_video_embed";

pub const MAIN_VIDEO_URL: &'static str = "main_video_url";

pub const ONE_LINER: &'static str = "one_liner";

pub const PATRON_COUNT: &'static str = "patron_count";

pub const PAY_PER_NAME: &'static str = "pay_per_name";

pub const PLEDGE_SUM_CENTS: &'static str = "pledge_sum_cents";

pub const PLEDGE_SUM_CURRENCY: &'static str = "pledge_sum_currency";

pub const PUBLISHED_AT: &'static str = "published_at";

pub const SUMMARY: &'static str = "summary";

pub const THANKS_EMBED: &'static str = "thanks_embed";

pub const THANKS_MSG: &'static str = "thanks_msg";

pub const THANKS_VIDEO_URL: &'static str = "thanks_video_url";

pub const URL: &'static str = "url";

pub const VANITY: &'static str = "vanity";

} // verus!
