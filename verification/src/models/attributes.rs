//! The attributes of each kind of resource.
//!
//! Every field tolerates `null` and absence: the service sends an explicit
//! `null` for what was not asked for or is not filled in, and such a field
//! decodes to its zero value (the empty text, zero, `false`, the epoch).

use vstd::prelude::*;
use crate::decode::{
    expect_object, member_or_default, object_mismatch, tolerant_at, tolerant_decodes, Decode,
    Fallback, Otherwise,
};
use crate::error::{unplaced, Expected, Mismatch, SchemaError};
use crate::json::{Json, JsonTree};
use crate::models::serde_helpers::unix_epoch;
use crate::text::str_eq;
use crate::time::Timestamp;

verus! {

/// User attributes.
#[derive(Clone, Debug, PartialEq)]
pub struct UserAttributes {
    /// Email address.
    pub email: String,
    /// Full name.
    pub full_name: String,
    /// First name.
    pub first_name: String,
    /// Last name.
    pub last_name: String,
    /// Vanity username.
    pub vanity: String,
    /// Bio/about text.
    pub about: String,
    /// Avatar image URL.
    pub image_url: String,
    /// Thumbnail URL.
    pub thumb_url: String,
    /// Patreon profile URL.
    pub url: String,
    /// Whether the user is a creator.
    pub is_creator: bool,
    /// Whether the email is verified.
    pub is_email_verified: bool,
    /// Account creation time.
    pub created: Timestamp,
    /// Whether pledges are hidden.
    pub hide_pledges: bool,
    /// Like count.
    pub like_count: i32,
    /// Social connections.
    pub social_connections: Json,
}

impl Decode for UserAttributes {
    open spec fn mismatch(tree: JsonTree) -> Option<Mismatch> {
        object_mismatch(tree)
            .otherwise(tolerant_at::<String>(tree, "email"@))
            .otherwise(tolerant_at::<String>(tree, "full_name"@))
            .otherwise(tolerant_at::<String>(tree, "first_name"@))
            .otherwise(tolerant_at::<String>(tree, "last_name"@))
            .otherwise(tolerant_at::<String>(tree, "vanity"@))
            .otherwise(tolerant_at::<String>(tree, "about"@))
            .otherwise(tolerant_at::<String>(tree, "image_url"@))
            .otherwise(tolerant_at::<String>(tree, "thumb_url"@))
            .otherwise(tolerant_at::<String>(tree, "url"@))
            .otherwise(tolerant_at::<bool>(tree, "is_creator"@))
            .otherwise(tolerant_at::<bool>(tree, "is_email_verified"@))
            .otherwise(tolerant_at::<Timestamp>(tree, "created"@))
            .otherwise(tolerant_at::<bool>(tree, "hide_pledges"@))
            .otherwise(tolerant_at::<i32>(tree, "like_count"@))
            .otherwise(tolerant_at::<Json>(tree, "social_connections"@))
    }

    open spec fn decodes(tree: JsonTree, value: UserAttributes) -> bool {
        &&& tolerant_decodes::<String>(tree.member("email"@), value.email)
        &&& tolerant_decodes::<String>(tree.member("full_name"@), value.full_name)
        &&& tolerant_decodes::<String>(tree.member("first_name"@), value.first_name)
        &&& tolerant_decodes::<String>(tree.member("last_name"@), value.last_name)
        &&& tolerant_decodes::<String>(tree.member("vanity"@), value.vanity)
        &&& tolerant_decodes::<String>(tree.member("about"@), value.about)
        &&& tolerant_decodes::<String>(tree.member("image_url"@), value.image_url)
        &&& tolerant_decodes::<String>(tree.member("thumb_url"@), value.thumb_url)
        &&& tolerant_decodes::<String>(tree.member("url"@), value.url)
        &&& tolerant_decodes::<bool>(tree.member("is_creator"@), value.is_creator)
        &&& tolerant_decodes::<bool>(tree.member("is_email_verified"@), value.is_email_verified)
        &&& tolerant_decodes::<Timestamp>(tree.member("created"@), value.created)
        &&& tolerant_decodes::<bool>(tree.member("hide_pledges"@), value.hide_pledges)
        &&& tolerant_decodes::<i32>(tree.member("like_count"@), value.like_count)
        &&& tolerant_decodes::<Json>(tree.member("social_connections"@), value.social_connections)
    }

    fn decode(json: &Json) -> (r: Result<UserAttributes, SchemaError>) {
        expect_object(json)?;
        let email = member_or_default::<String>(json, "email")?;
        let full_name = member_or_default::<String>(json, "full_name")?;
        let first_name = member_or_default::<String>(json, "first_name")?;
        let last_name = member_or_default::<String>(json, "last_name")?;
        let vanity = member_or_default::<String>(json, "vanity")?;
        let about = member_or_default::<String>(json, "about")?;
        let image_url = member_or_default::<String>(json, "image_url")?;
        let thumb_url = member_or_default::<String>(json, "thumb_url")?;
        let url = member_or_default::<String>(json, "url")?;
        let is_creator = member_or_default::<bool>(json, "is_creator")?;
        let is_email_verified = member_or_default::<bool>(json, "is_email_verified")?;
        let created = member_or_default::<Timestamp>(json, "created")?;
        let hide_pledges = member_or_default::<bool>(json, "hide_pledges")?;
        let like_count = member_or_default::<i32>(json, "like_count")?;
        let social_connections = member_or_default::<Json>(json, "social_connections")?;
        Ok(
            UserAttributes {
                email,
                full_name,
                first_name,
                last_name,
                vanity,
                about,
                image_url,
                thumb_url,
                url,
                is_creator,
                is_email_verified,
                created,
                hide_pledges,
                like_count,
                social_connections,
            },
        )
    }
}

impl Fallback for UserAttributes {
    open spec fn is_fallback(value: UserAttributes) -> bool {
        &&& <String as Fallback>::is_fallback(value.email)
        &&& <String as Fallback>::is_fallback(value.full_name)
        &&& <String as Fallback>::is_fallback(value.first_name)
        &&& <String as Fallback>::is_fallback(value.last_name)
        &&& <String as Fallback>::is_fallback(value.vanity)
        &&& <String as Fallback>::is_fallback(value.about)
        &&& <String as Fallback>::is_fallback(value.image_url)
        &&& <String as Fallback>::is_fallback(value.thumb_url)
        &&& <String as Fallback>::is_fallback(value.url)
        &&& <bool as Fallback>::is_fallback(value.is_creator)
        &&& <bool as Fallback>::is_fallback(value.is_email_verified)
        &&& <Timestamp as Fallback>::is_fallback(value.created)
        &&& <bool as Fallback>::is_fallback(value.hide_pledges)
        &&& <i32 as Fallback>::is_fallback(value.like_count)
        &&& <Json as Fallback>::is_fallback(value.social_connections)
    }

    fn fallback() -> (r: UserAttributes) {
        UserAttributes::default()
    }
}

impl Default for UserAttributes {
    fn default() -> (r: UserAttributes)
        ensures
            UserAttributes::is_fallback(r),
    {
        UserAttributes {
            email: String::new(),
            full_name: String::new(),
            first_name: String::new(),
            last_name: String::new(),
            vanity: String::new(),
            about: String::new(),
            image_url: String::new(),
            thumb_url: String::new(),
            url: String::new(),
            is_creator: false,
            is_email_verified: false,
            created: unix_epoch(),
            hide_pledges: false,
            like_count: 0,
            social_connections: Json::Null,
        }
    }
}

/// Campaign attributes.
#[derive(Clone, Debug, PartialEq)]
pub struct CampaignAttributes {
    /// Campaign creation time.
    pub created_at: Timestamp,
    /// Creation name / what the creator makes.
    pub creation_name: String,
    /// Discord server ID.
    pub discord_server_id: String,
    /// Google Analytics ID
    pub google_analytics_id: String,
    /// Whether the campaign charges immediately.
    pub is_charged_immediately: bool,
    /// Whether the campaign charges monthly.
    pub is_monthly: bool,
    /// Whether the campaign is marked NSFW.
    pub is_nsfw: bool,
    /// Main image URL.
    pub image_url: String,
    /// Small main image URL.
    pub image_small_url: String,
    /// Cover photo URL.
    pub cover_photo_url: String,
    /// Cover photo URL sizes.
    pub cover_photo_url_sizes: Json,
    /// Main video embed HTML.
    pub main_video_embed: String,
    /// Main video URL.
    pub main_video_url: String,
    /// Thanks video URL.
    pub thanks_video_url: String,
    /// Thanks message.
    pub thanks_msg: String,
    /// Thanks embed HTML.
    pub thanks_embed: String,
    /// One-liner.
    pub one_liner: String,
    /// Patron count.
    pub patron_count: i32,
    /// Paid member count.
    pub paid_member_count: i32,
    /// Pledge sum in cents.
    pub pledge_sum_cents: i32,
    /// Currency.
    pub pledge_sum_currency: String,
    /// Published at.
    pub published_at: Timestamp,
    /// Summary.
    pub summary: String,
    /// Campaign URL.
    pub url: String,
    /// Vanity.
    pub vanity: String,
    /// Pay-per name.
    pub pay_per_name: String,
    /// Whether the campaign is published.
    pub is_published: bool,
    /// Whether earnings are visible.
    pub show_earnings: bool,
}

impl Decode for CampaignAttributes {
    open spec fn mismatch(tree: JsonTree) -> Option<Mismatch> {
        object_mismatch(tree)
            .otherwise(tolerant_at::<Timestamp>(tree, "created_at"@))
            .otherwise(tolerant_at::<String>(tree, "creation_name"@))
            .otherwise(tolerant_at::<String>(tree, "discord_server_id"@))
            .otherwise(tolerant_at::<String>(tree, "google_analytics_id"@))
            .otherwise(tolerant_at::<bool>(tree, "is_charged_immediately"@))
            .otherwise(tolerant_at::<bool>(tree, "is_monthly"@))
            .otherwise(tolerant_at::<bool>(tree, "is_nsfw"@))
            .otherwise(tolerant_at::<String>(tree, "image_url"@))
            .otherwise(tolerant_at::<String>(tree, "image_small_url"@))
            .otherwise(tolerant_at::<String>(tree, "cover_photo_url"@))
            .otherwise(tolerant_at::<Json>(tree, "cover_photo_url_sizes"@))
            .otherwise(tolerant_at::<String>(tree, "main_video_embed"@))
            .otherwise(tolerant_at::<String>(tree, "main_video_url"@))
            .otherwise(tolerant_at::<String>(tree, "thanks_video_url"@))
            .otherwise(tolerant_at::<String>(tree, "thanks_msg"@))
            .otherwise(tolerant_at::<String>(tree, "thanks_embed"@))
            .otherwise(tolerant_at::<String>(tree, "one_liner"@))
            .otherwise(tolerant_at::<i32>(tree, "patron_count"@))
            .otherwise(tolerant_at::<i32>(tree, "paid_member_count"@))
            .otherwise(tolerant_at::<i32>(tree, "pledge_sum_cents"@))
            .otherwise(tolerant_at::<String>(tree, "pledge_sum_currency"@))
            .otherwise(tolerant_at::<Timestamp>(tree, "published_at"@))
            .otherwise(tolerant_at::<String>(tree, "summary"@))
            .otherwise(tolerant_at::<String>(tree, "url"@))
            .otherwise(tolerant_at::<String>(tree, "vanity"@))
            .otherwise(tolerant_at::<String>(tree, "pay_per_name"@))
            .otherwise(tolerant_at::<bool>(tree, "is_published"@))
            .otherwise(tolerant_at::<bool>(tree, "show_earnings"@))
    }

    open spec fn decodes(tree: JsonTree, value: CampaignAttributes) -> bool {
        &&& tolerant_decodes::<Timestamp>(tree.member("created_at"@), value.created_at)
        &&& tolerant_decodes::<String>(tree.member("creation_name"@), value.creation_name)
        &&& tolerant_decodes::<String>(tree.member("discord_server_id"@), value.discord_server_id)
        &&& tolerant_decodes::<String>(
            tree.member("google_analytics_id"@),
            value.google_analytics_id,
        )
        &&& tolerant_decodes::<bool>(
            tree.member("is_charged_immediately"@),
            value.is_charged_immediately,
        )
        &&& tolerant_decodes::<bool>(tree.member("is_monthly"@), value.is_monthly)
        &&& tolerant_decodes::<bool>(tree.member("is_nsfw"@), value.is_nsfw)
        &&& tolerant_decodes::<String>(tree.member("image_url"@), value.image_url)
        &&& tolerant_decodes::<String>(tree.member("image_small_url"@), value.image_small_url)
        &&& tolerant_decodes::<String>(tree.member("cover_photo_url"@), value.cover_photo_url)
        &&& tolerant_decodes::<Json>(
            tree.member("cover_photo_url_sizes"@),
            value.cover_photo_url_sizes,
        )
        &&& tolerant_decodes::<String>(tree.member("main_video_embed"@), value.main_video_embed)
        &&& tolerant_decodes::<String>(tree.member("main_video_url"@), value.main_video_url)
        &&& tolerant_decodes::<String>(tree.member("thanks_video_url"@), value.thanks_video_url)
        &&& tolerant_decodes::<String>(tree.member("thanks_msg"@), value.thanks_msg)
        &&& tolerant_decodes::<String>(tree.member("thanks_embed"@), value.thanks_embed)
        &&& tolerant_decodes::<String>(tree.member("one_liner"@), value.one_liner)
        &&& tolerant_decodes::<i32>(tree.member("patron_count"@), value.patron_count)
        &&& tolerant_decodes::<i32>(tree.member("paid_member_count"@), value.paid_member_count)
        &&& tolerant_decodes::<i32>(tree.member("pledge_sum_cents"@), value.pledge_sum_cents)
        &&& tolerant_decodes::<String>(
            tree.member("pledge_sum_currency"@),
            value.pledge_sum_currency,
        )
        &&& tolerant_decodes::<Timestamp>(tree.member("published_at"@), value.published_at)
        &&& tolerant_decodes::<String>(tree.member("summary"@), value.summary)
        &&& tolerant_decodes::<String>(tree.member("url"@), value.url)
        &&& tolerant_decodes::<String>(tree.member("vanity"@), value.vanity)
        &&& tolerant_decodes::<String>(tree.member("pay_per_name"@), value.pay_per_name)
        &&& tolerant_decodes::<bool>(tree.member("is_published"@), value.is_published)
        &&& tolerant_decodes::<bool>(tree.member("show_earnings"@), value.show_earnings)
    }

    fn decode(json: &Json) -> (r: Result<CampaignAttributes, SchemaError>) {
        expect_object(json)?;
        let created_at = member_or_default::<Timestamp>(json, "created_at")?;
        let creation_name = member_or_default::<String>(json, "creation_name")?;
        let discord_server_id = member_or_default::<String>(json, "discord_server_id")?;
        let google_analytics_id = member_or_default::<String>(json, "google_analytics_id")?;
        let is_charged_immediately = member_or_default::<bool>(json, "is_charged_immediately")?;
        let is_monthly = member_or_default::<bool>(json, "is_monthly")?;
        let is_nsfw = member_or_default::<bool>(json, "is_nsfw")?;
        let image_url = member_or_default::<String>(json, "image_url")?;
        let image_small_url = member_or_default::<String>(json, "image_small_url")?;
        let cover_photo_url = member_or_default::<String>(json, "cover_photo_url")?;
        let cover_photo_url_sizes = member_or_default::<Json>(json, "cover_photo_url_sizes")?;
        let main_video_embed = member_or_default::<String>(json, "main_video_embed")?;
        let main_video_url = member_or_default::<String>(json, "main_video_url")?;
        let thanks_video_url = member_or_default::<String>(json, "thanks_video_url")?;
        let thanks_msg = member_or_default::<String>(json, "thanks_msg")?;
        let thanks_embed = member_or_default::<String>(json, "thanks_embed")?;
        let one_liner = member_or_default::<String>(json, "one_liner")?;
        let patron_count = member_or_default::<i32>(json, "patron_count")?;
        let paid_member_count = member_or_default::<i32>(json, "paid_member_count")?;
        let pledge_sum_cents = member_or_default::<i32>(json, "pledge_sum_cents")?;
        let pledge_sum_currency = member_or_default::<String>(json, "pledge_sum_currency")?;
        let published_at = member_or_default::<Timestamp>(json, "published_at")?;
        let summary = member_or_default::<String>(json, "summary")?;
        let url = member_or_default::<String>(json, "url")?;
        let vanity = member_or_default::<String>(json, "vanity")?;
        let pay_per_name = member_or_default::<String>(json, "pay_per_name")?;
        let is_published = member_or_default::<bool>(json, "is_published")?;
        let show_earnings = member_or_default::<bool>(json, "show_earnings")?;
        Ok(
            CampaignAttributes {
                created_at,
                creation_name,
                discord_server_id,
                google_analytics_id,
                is_charged_immediately,
                is_monthly,
                is_nsfw,
                image_url,
                image_small_url,
                cover_photo_url,
                cover_photo_url_sizes,
                main_video_embed,
                main_video_url,
                thanks_video_url,
                thanks_msg,
                thanks_embed,
                one_liner,
                patron_count,
                paid_member_count,
                pledge_sum_cents,
                pledge_sum_currency,
                published_at,
                summary,
                url,
                vanity,
                pay_per_name,
                is_published,
                show_earnings,
            },
        )
    }
}

impl Fallback for CampaignAttributes {
    open spec fn is_fallback(value: CampaignAttributes) -> bool {
        &&& <Timestamp as Fallback>::is_fallback(value.created_at)
        &&& <String as Fallback>::is_fallback(value.creation_name)
        &&& <String as Fallback>::is_fallback(value.discord_server_id)
        &&& <String as Fallback>::is_fallback(value.google_analytics_id)
        &&& <bool as Fallback>::is_fallback(value.is_charged_immediately)
        &&& <bool as Fallback>::is_fallback(value.is_monthly)
        &&& <bool as Fallback>::is_fallback(value.is_nsfw)
        &&& <String as Fallback>::is_fallback(value.image_url)
        &&& <String as Fallback>::is_fallback(value.image_small_url)
        &&& <String as Fallback>::is_fallback(value.cover_photo_url)
        &&& <Json as Fallback>::is_fallback(value.cover_photo_url_sizes)
        &&& <String as Fallback>::is_fallback(value.main_video_embed)
        &&& <String as Fallback>::is_fallback(value.main_video_url)
        &&& <String as Fallback>::is_fallback(value.thanks_video_url)
        &&& <String as Fallback>::is_fallback(value.thanks_msg)
        &&& <String as Fallback>::is_fallback(value.thanks_embed)
        &&& <String as Fallback>::is_fallback(value.one_liner)
        &&& <i32 as Fallback>::is_fallback(value.patron_count)
        &&& <i32 as Fallback>::is_fallback(value.paid_member_count)
        &&& <i32 as Fallback>::is_fallback(value.pledge_sum_cents)
        &&& <String as Fallback>::is_fallback(value.pledge_sum_currency)
        &&& <Timestamp as Fallback>::is_fallback(value.published_at)
        &&& <String as Fallback>::is_fallback(value.summary)
        &&& <String as Fallback>::is_fallback(value.url)
        &&& <String as Fallback>::is_fallback(value.vanity)
        &&& <String as Fallback>::is_fallback(value.pay_per_name)
        &&& <bool as Fallback>::is_fallback(value.is_published)
        &&& <bool as Fallback>::is_fallback(value.show_earnings)
    }

    fn fallback() -> (r: CampaignAttributes) {
        CampaignAttributes::default()
    }
}

impl Default for CampaignAttributes {
    fn default() -> (r: CampaignAttributes)
        ensures
            CampaignAttributes::is_fallback(r),
    {
        CampaignAttributes {
            created_at: unix_epoch(),
            creation_name: String::new(),
            discord_server_id: String::new(),
            google_analytics_id: String::new(),
            is_charged_immediately: false,
            is_monthly: false,
            is_nsfw: false,
            image_url: String::new(),
            image_small_url: String::new(),
            cover_photo_url: String::new(),
            cover_photo_url_sizes: Json::Null,
            main_video_embed: String::new(),
            main_video_url: String::new(),
            thanks_video_url: String::new(),
            thanks_msg: String::new(),
            thanks_embed: String::new(),
            one_liner: String::new(),
            patron_count: 0,
            paid_member_count: 0,
            pledge_sum_cents: 0,
            pledge_sum_currency: String::new(),
            published_at: unix_epoch(),
            summary: String::new(),
            url: String::new(),
            vanity: String::new(),
            pay_per_name: String::new(),
            is_published: false,
            show_earnings: false,
        }
    }
}

/// Member attributes.
#[derive(Clone, Debug, PartialEq)]
pub struct MemberAttributes {
    /// Patron status.
    pub patron_status: PatronStatus,
    /// Whether this member is following.
    pub is_follower: bool,
    /// Full name.
    pub full_name: String,
    /// Email.
    pub email: String,
    /// Currently entitled amount (cents).
    pub currently_entitled_amount_cents: i32,
    /// Lifetime support (cents).
    pub lifetime_support_cents: i32,
    /// Last charge date.
    pub last_charge_date: Timestamp,
    /// Last charge status.
    pub last_charge_status: ChargeStatus,
    /// Next charge date.
    pub next_charge_date: Timestamp,
    /// Pledge relationship start.
    pub pledge_relationship_start: Timestamp,
    /// Note.
    pub note: String,
    /// Will pay amount (cents).
    pub will_pay_amount_cents: i32,
    /// Campaign currency.
    pub campaign_currency: String,
    /// Campaign lifetime support (cents).
    pub campaign_lifetime_support_cents: i32,
    /// Campaign pledge amount (cents).
    pub campaign_pledge_amount_cents: i32,
}

impl Decode for MemberAttributes {
    open spec fn mismatch(tree: JsonTree) -> Option<Mismatch> {
        object_mismatch(tree)
            .otherwise(tolerant_at::<PatronStatus>(tree, "patron_status"@))
            .otherwise(tolerant_at::<bool>(tree, "is_follower"@))
            .otherwise(tolerant_at::<String>(tree, "full_name"@))
            .otherwise(tolerant_at::<String>(tree, "email"@))
            .otherwise(tolerant_at::<i32>(tree, "currently_entitled_amount_cents"@))
            .otherwise(tolerant_at::<i32>(tree, "lifetime_support_cents"@))
            .otherwise(tolerant_at::<Timestamp>(tree, "last_charge_date"@))
            .otherwise(tolerant_at::<ChargeStatus>(tree, "last_charge_status"@))
            .otherwise(tolerant_at::<Timestamp>(tree, "next_charge_date"@))
            .otherwise(tolerant_at::<Timestamp>(tree, "pledge_relationship_start"@))
            .otherwise(tolerant_at::<String>(tree, "note"@))
            .otherwise(tolerant_at::<i32>(tree, "will_pay_amount_cents"@))
            .otherwise(tolerant_at::<String>(tree, "campaign_currency"@))
            .otherwise(tolerant_at::<i32>(tree, "campaign_lifetime_support_cents"@))
            .otherwise(tolerant_at::<i32>(tree, "campaign_pledge_amount_cents"@))
    }

    open spec fn decodes(tree: JsonTree, value: MemberAttributes) -> bool {
        &&& tolerant_decodes::<PatronStatus>(tree.member("patron_status"@), value.patron_status)
        &&& tolerant_decodes::<bool>(tree.member("is_follower"@), value.is_follower)
        &&& tolerant_decodes::<String>(tree.member("full_name"@), value.full_name)
        &&& tolerant_decodes::<String>(tree.member("email"@), value.email)
        &&& tolerant_decodes::<i32>(
            tree.member("currently_entitled_amount_cents"@),
            value.currently_entitled_amount_cents,
        )
        &&& tolerant_decodes::<i32>(
            tree.member("lifetime_support_cents"@),
            value.lifetime_support_cents,
        )
        &&& tolerant_decodes::<Timestamp>(tree.member("last_charge_date"@), value.last_charge_date)
        &&& tolerant_decodes::<ChargeStatus>(
            tree.member("last_charge_status"@),
            value.last_charge_status,
        )
        &&& tolerant_decodes::<Timestamp>(tree.member("next_charge_date"@), value.next_charge_date)
        &&& tolerant_decodes::<Timestamp>(
            tree.member("pledge_relationship_start"@),
            value.pledge_relationship_start,
        )
        &&& tolerant_decodes::<String>(tree.member("note"@), value.note)
        &&& tolerant_decodes::<i32>(
            tree.member("will_pay_amount_cents"@),
            value.will_pay_amount_cents,
        )
        &&& tolerant_decodes::<String>(tree.member("campaign_currency"@), value.campaign_currency)
        &&& tolerant_decodes::<i32>(
            tree.member("campaign_lifetime_support_cents"@),
            value.campaign_lifetime_support_cents,
        )
        &&& tolerant_decodes::<i32>(
            tree.member("campaign_pledge_amount_cents"@),
            value.campaign_pledge_amount_cents,
        )
    }

    fn decode(json: &Json) -> (r: Result<MemberAttributes, SchemaError>) {
        expect_object(json)?;
        let patron_status = member_or_default::<PatronStatus>(json, "patron_status")?;
        let is_follower = member_or_default::<bool>(json, "is_follower")?;
        let full_name = member_or_default::<String>(json, "full_name")?;
        let email = member_or_default::<String>(json, "email")?;
        let currently_entitled_amount_cents = member_or_default::<i32>(
            json,
            "currently_entitled_amount_cents",
        )?;
        let lifetime_support_cents = member_or_default::<i32>(json, "lifetime_support_cents")?;
        let last_charge_date = member_or_default::<Timestamp>(json, "last_charge_date")?;
        let last_charge_status = member_or_default::<ChargeStatus>(json, "last_charge_status")?;
        let next_charge_date = member_or_default::<Timestamp>(json, "next_charge_date")?;
        let pledge_relationship_start = member_or_default::<Timestamp>(
            json,
            "pledge_relationship_start",
        )?;
        let note = member_or_default::<String>(json, "note")?;
        let will_pay_amount_cents = member_or_default::<i32>(json, "will_pay_amount_cents")?;
        let campaign_currency = member_or_default::<String>(json, "campaign_currency")?;
        let campaign_lifetime_support_cents = member_or_default::<i32>(
            json,
            "campaign_lifetime_support_cents",
        )?;
        let campaign_pledge_amount_cents = member_or_default::<i32>(
            json,
            "campaign_pledge_amount_cents",
        )?;
        Ok(
            MemberAttributes {
                patron_status,
                is_follower,
                full_name,
                email,
                currently_entitled_amount_cents,
                lifetime_support_cents,
                last_charge_date,
                last_charge_status,
                next_charge_date,
                pledge_relationship_start,
                note,
                will_pay_amount_cents,
                campaign_currency,
                campaign_lifetime_support_cents,
                campaign_pledge_amount_cents,
            },
        )
    }
}

impl Fallback for MemberAttributes {
    open spec fn is_fallback(value: MemberAttributes) -> bool {
        &&& <PatronStatus as Fallback>::is_fallback(value.patron_status)
        &&& <bool as Fallback>::is_fallback(value.is_follower)
        &&& <String as Fallback>::is_fallback(value.full_name)
        &&& <String as Fallback>::is_fallback(value.email)
        &&& <i32 as Fallback>::is_fallback(value.currently_entitled_amount_cents)
        &&& <i32 as Fallback>::is_fallback(value.lifetime_support_cents)
        &&& <Timestamp as Fallback>::is_fallback(value.last_charge_date)
        &&& <ChargeStatus as Fallback>::is_fallback(value.last_charge_status)
        &&& <Timestamp as Fallback>::is_fallback(value.next_charge_date)
        &&& <Timestamp as Fallback>::is_fallback(value.pledge_relationship_start)
        &&& <String as Fallback>::is_fallback(value.note)
        &&& <i32 as Fallback>::is_fallback(value.will_pay_amount_cents)
        &&& <String as Fallback>::is_fallback(value.campaign_currency)
        &&& <i32 as Fallback>::is_fallback(value.campaign_lifetime_support_cents)
        &&& <i32 as Fallback>::is_fallback(value.campaign_pledge_amount_cents)
    }

    fn fallback() -> (r: MemberAttributes) {
        MemberAttributes::default()
    }
}

impl Default for MemberAttributes {
    fn default() -> (r: MemberAttributes)
        ensures
            MemberAttributes::is_fallback(r),
    {
        MemberAttributes {
            patron_status: PatronStatus::default(),
            is_follower: false,
            full_name: String::new(),
            email: String::new(),
            currently_entitled_amount_cents: 0,
            lifetime_support_cents: 0,
            last_charge_date: unix_epoch(),
            last_charge_status: ChargeStatus::default(),
            next_charge_date: unix_epoch(),
            pledge_relationship_start: unix_epoch(),
            note: String::new(),
            will_pay_amount_cents: 0,
            campaign_currency: String::new(),
            campaign_lifetime_support_cents: 0,
            campaign_pledge_amount_cents: 0,
        }
    }
}

/// Where a member stands with a campaign.
#[derive(Clone, Copy, Debug, PartialEq, Eq, Structural)]
pub enum PatronStatus {
    /// `active_patron`
    ActivePatron,
    /// `declined_patron`
    DeclinedPatron,
    /// `former_patron`
    FormerPatron,
    /// Any other word.
    Unknown,
}

impl PatronStatus {
    /// The wire word of a known kind; the catch-all has none.
    pub open spec fn word(self) -> Option<Seq<char>> {
        match self {
            PatronStatus::ActivePatron => Some("active_patron"@),
            PatronStatus::DeclinedPatron => Some("declined_patron"@),
            PatronStatus::FormerPatron => Some("former_patron"@),
            PatronStatus::Unknown => None,
        }
    }

    /// The kind that a wire word names: an exact, case-sensitive match, or
    /// the catch-all.
    pub open spec fn of_word(word: Seq<char>) -> PatronStatus {
        if word == "active_patron"@ {
            PatronStatus::ActivePatron
        } else if word == "declined_patron"@ {
            PatronStatus::DeclinedPatron
        } else if word == "former_patron"@ {
            PatronStatus::FormerPatron
        } else {
            PatronStatus::Unknown
        }
    }

    /// Reads a wire word. No word is refused.
    pub fn from_wire(word: &str) -> (r: PatronStatus)
        ensures
            r == PatronStatus::of_word(word@),
    {
        if str_eq(word, "active_patron") {
            PatronStatus::ActivePatron
        } else if str_eq(word, "declined_patron") {
            PatronStatus::DeclinedPatron
        } else if str_eq(word, "former_patron") {
            PatronStatus::FormerPatron
        } else {
            PatronStatus::Unknown
        }
    }

    /// The wire word of a known kind.
    pub fn wire_name(&self) -> (r: Option<&'static str>)
        ensures
            r is Some <==> self.word() is Some,
            r is Some ==> r->0@ == self.word()->0,
    {
        match self {
            PatronStatus::ActivePatron => Some("active_patron"),
            PatronStatus::DeclinedPatron => Some("declined_patron"),
            PatronStatus::FormerPatron => Some("former_patron"),
            PatronStatus::Unknown => None,
        }
    }
}

impl Decode for PatronStatus {
    open spec fn mismatch(tree: JsonTree) -> Option<Mismatch> {
        if tree is Text {
            None
        } else {
            Some(unplaced(Expected::Text))
        }
    }

    open spec fn decodes(tree: JsonTree, value: PatronStatus) -> bool {
        tree is Text && value == PatronStatus::of_word(tree->Text_0)
    }

    fn decode(json: &Json) -> (r: Result<PatronStatus, SchemaError>) {
        match json {
            Json::Text(word) => Ok(PatronStatus::from_wire(word.as_str())),
            _ => Err(SchemaError::unplaced(Expected::Text)),
        }
    }
}

impl Fallback for PatronStatus {
    open spec fn is_fallback(value: PatronStatus) -> bool {
        value == PatronStatus::Unknown
    }

    fn fallback() -> (r: PatronStatus) {
        PatronStatus::Unknown
    }
}

impl Default for PatronStatus {
    fn default() -> (r: PatronStatus)
        ensures
            r == PatronStatus::Unknown,
    {
        PatronStatus::Unknown
    }
}

/// Reading the wire word of a kind gives that kind back.
pub proof fn lemma_patron_status_word_read_back(kind: PatronStatus)
    requires
        kind.word() is Some,
    ensures
        PatronStatus::of_word(kind.word()->0) == kind,
{
    reveal_strlit("active_patron");
    reveal_strlit("declined_patron");
    reveal_strlit("former_patron");
    assert("active_patron"@.len() == 13);
    assert("declined_patron"@.len() == 15);
    assert("former_patron"@.len() == 13);
    assert("active_patron"@[0] != "former_patron"@[0]);
}

/// A word that names a known kind is the wire word of that kind.
pub proof fn lemma_patron_status_word_kept(word: Seq<char>)
    requires
        PatronStatus::of_word(word) != PatronStatus::Unknown,
    ensures
        PatronStatus::of_word(word).word() == Some(word),
{
}

/// How the last charge of a member went.
#[derive(Clone, Copy, Debug, PartialEq, Eq, Structural)]
pub enum ChargeStatus {
    /// `paid`
    Paid,
    /// `declined`
    Declined,
    /// `deleted`
    Deleted,
    /// `pending`
    Pending,
    /// `refunded`
    Refunded,
    /// `fraud`
    Fraud,
    /// Any other word.
    Unknown,
}

impl ChargeStatus {
    /// The wire word of a known kind; the catch-all has none.
    pub open spec fn word(self) -> Option<Seq<char>> {
        match self {
            ChargeStatus::Paid => Some("paid"@),
            ChargeStatus::Declined => Some("declined"@),
            ChargeStatus::Deleted => Some("deleted"@),
            ChargeStatus::Pending => Some("pending"@),
            ChargeStatus::Refunded => Some("refunded"@),
            ChargeStatus::Fraud => Some("fraud"@),
            ChargeStatus::Unknown => None,
        }
    }

    /// The kind that a wire word names: an exact, case-sensitive match, or
    /// the catch-all.
    pub open spec fn of_word(word: Seq<char>) -> ChargeStatus {
        if word == "paid"@ {
            ChargeStatus::Paid
        } else if word == "declined"@ {
            ChargeStatus::Declined
        } else if word == "deleted"@ {
            ChargeStatus::Deleted
        } else if word == "pending"@ {
            ChargeStatus::Pending
        } else if word == "refunded"@ {
            ChargeStatus::Refunded
        } else if word == "fraud"@ {
            ChargeStatus::Fraud
        } else {
            ChargeStatus::Unknown
        }
    }

    /// Reads a wire word. No word is refused.
    pub fn from_wire(word: &str) -> (r: ChargeStatus)
        ensures
            r == ChargeStatus::of_word(word@),
    {
        if str_eq(word, "paid") {
            ChargeStatus::Paid
        } else if str_eq(word, "declined") {
            ChargeStatus::Declined
        } else if str_eq(word, "deleted") {
            ChargeStatus::Deleted
        } else if str_eq(word, "pending") {
            ChargeStatus::Pending
        } else if str_eq(word, "refunded") {
            ChargeStatus::Refunded
        } else if str_eq(word, "fraud") {
            ChargeStatus::Fraud
        } else {
            ChargeStatus::Unknown
        }
    }

    /// The wire word of a known kind.
    pub fn wire_name(&self) -> (r: Option<&'static str>)
        ensures
            r is Some <==> self.word() is Some,
            r is Some ==> r->0@ == self.word()->0,
    {
        match self {
            ChargeStatus::Paid => Some("paid"),
            ChargeStatus::Declined => Some("declined"),
            ChargeStatus::Deleted => Some("deleted"),
            ChargeStatus::Pending => Some("pending"),
            ChargeStatus::Refunded => Some("refunded"),
            ChargeStatus::Fraud => Some("fraud"),
            ChargeStatus::Unknown => None,
        }
    }
}

impl Decode for ChargeStatus {
    open spec fn mismatch(tree: JsonTree) -> Option<Mismatch> {
        if tree is Text {
            None
        } else {
            Some(unplaced(Expected::Text))
        }
    }

    open spec fn decodes(tree: JsonTree, value: ChargeStatus) -> bool {
        tree is Text && value == ChargeStatus::of_word(tree->Text_0)
    }

    fn decode(json: &Json) -> (r: Result<ChargeStatus, SchemaError>) {
        match json {
            Json::Text(word) => Ok(ChargeStatus::from_wire(word.as_str())),
            _ => Err(SchemaError::unplaced(Expected::Text)),
        }
    }
}

impl Fallback for ChargeStatus {
    open spec fn is_fallback(value: ChargeStatus) -> bool {
        value == ChargeStatus::Unknown
    }

    fn fallback() -> (r: ChargeStatus) {
        ChargeStatus::Unknown
    }
}

impl Default for ChargeStatus {
    fn default() -> (r: ChargeStatus)
        ensures
            r == ChargeStatus::Unknown,
    {
        ChargeStatus::Unknown
    }
}

/// Reading the wire word of a kind gives that kind back.
pub proof fn lemma_charge_status_word_read_back(kind: ChargeStatus)
    requires
        kind.word() is Some,
    ensures
        ChargeStatus::of_word(kind.word()->0) == kind,
{
    reveal_strlit("paid");
    reveal_strlit("declined");
    reveal_strlit("deleted");
    reveal_strlit("pending");
    reveal_strlit("refunded");
    reveal_strlit("fraud");
    assert("paid"@.len() == 4);
    assert("declined"@.len() == 8);
    assert("deleted"@.len() == 7);
    assert("pending"@.len() == 7);
    assert("refunded"@.len() == 8);
    assert("fraud"@.len() == 5);
    assert("declined"@[0] != "refunded"@[0]);
    assert("deleted"@[0] != "pending"@[0]);
}

/// A word that names a known kind is the wire word of that kind.
pub proof fn lemma_charge_status_word_kept(word: Seq<char>)
    requires
        ChargeStatus::of_word(word) != ChargeStatus::Unknown,
    ensures
        ChargeStatus::of_word(word).word() == Some(word),
{
}

/// Tier attributes.
#[derive(Clone, Debug, PartialEq)]
pub struct TierAttributes {
    /// Tier amount (cents).
    pub amount_cents: i32,
    /// Created at.
    pub created_at: Timestamp,
    /// Description.
    pub description: String,
    /// Discord role IDs.
    pub discord_role_ids: Vec<String>,
    /// Edited at.
    pub edited_at: Timestamp,
    /// Image URL.
    pub image_url: String,
    /// Patron count.
    pub patron_count: i32,
    /// Post count.
    pub post_count: i32,
    /// Whether published.
    pub published: bool,
    /// Published at.
    pub published_at: Timestamp,
    /// Title.
    pub title: String,
    /// Unpublished at.
    pub unpublished_at: Timestamp,
    /// Tier URL.
    pub url: String,
    /// User limit.
    pub user_limit: i32,
    /// Remaining capacity.
    pub remaining: i32,
}

impl Decode for TierAttributes {
    open spec fn mismatch(tree: JsonTree) -> Option<Mismatch> {
        object_mismatch(tree)
            .otherwise(tolerant_at::<i32>(tree, "amount_cents"@))
            .otherwise(tolerant_at::<Timestamp>(tree, "created_at"@))
            .otherwise(tolerant_at::<String>(tree, "description"@))
            .otherwise(tolerant_at::<Vec<String>>(tree, "discord_role_ids"@))
            .otherwise(tolerant_at::<Timestamp>(tree, "edited_at"@))
            .otherwise(tolerant_at::<String>(tree, "image_url"@))
            .otherwise(tolerant_at::<i32>(tree, "patron_count"@))
            .otherwise(tolerant_at::<i32>(tree, "post_count"@))
            .otherwise(tolerant_at::<bool>(tree, "published"@))
            .otherwise(tolerant_at::<Timestamp>(tree, "published_at"@))
            .otherwise(tolerant_at::<String>(tree, "title"@))
            .otherwise(tolerant_at::<Timestamp>(tree, "unpublished_at"@))
            .otherwise(tolerant_at::<String>(tree, "url"@))
            .otherwise(tolerant_at::<i32>(tree, "user_limit"@))
            .otherwise(tolerant_at::<i32>(tree, "remaining"@))
    }

    open spec fn decodes(tree: JsonTree, value: TierAttributes) -> bool {
        &&& tolerant_decodes::<i32>(tree.member("amount_cents"@), value.amount_cents)
        &&& tolerant_decodes::<Timestamp>(tree.member("created_at"@), value.created_at)
        &&& tolerant_decodes::<String>(tree.member("description"@), value.description)
        &&& tolerant_decodes::<Vec<String>>(
            tree.member("discord_role_ids"@),
            value.discord_role_ids,
        )
        &&& tolerant_decodes::<Timestamp>(tree.member("edited_at"@), value.edited_at)
        &&& tolerant_decodes::<String>(tree.member("image_url"@), value.image_url)
        &&& tolerant_decodes::<i32>(tree.member("patron_count"@), value.patron_count)
        &&& tolerant_decodes::<i32>(tree.member("post_count"@), value.post_count)
        &&& tolerant_decodes::<bool>(tree.member("published"@), value.published)
        &&& tolerant_decodes::<Timestamp>(tree.member("published_at"@), value.published_at)
        &&& tolerant_decodes::<String>(tree.member("title"@), value.title)
        &&& tolerant_decodes::<Timestamp>(tree.member("unpublished_at"@), value.unpublished_at)
        &&& tolerant_decodes::<String>(tree.member("url"@), value.url)
        &&& tolerant_decodes::<i32>(tree.member("user_limit"@), value.user_limit)
        &&& tolerant_decodes::<i32>(tree.member("remaining"@), value.remaining)
    }

    fn decode(json: &Json) -> (r: Result<TierAttributes, SchemaError>) {
        expect_object(json)?;
        let amount_cents = member_or_default::<i32>(json, "amount_cents")?;
        let created_at = member_or_default::<Timestamp>(json, "created_at")?;
        let description = member_or_default::<String>(json, "description")?;
        let discord_role_ids = member_or_default::<Vec<String>>(json, "discord_role_ids")?;
        let edited_at = member_or_default::<Timestamp>(json, "edited_at")?;
        let image_url = member_or_default::<String>(json, "image_url")?;
        let patron_count = member_or_default::<i32>(json, "patron_count")?;
        let post_count = member_or_default::<i32>(json, "post_count")?;
        let published = member_or_default::<bool>(json, "published")?;
        let published_at = member_or_default::<Timestamp>(json, "published_at")?;
        let title = member_or_default::<String>(json, "title")?;
        let unpublished_at = member_or_default::<Timestamp>(json, "unpublished_at")?;
        let url = member_or_default::<String>(json, "url")?;
        let user_limit = member_or_default::<i32>(json, "user_limit")?;
        let remaining = member_or_default::<i32>(json, "remaining")?;
        Ok(
            TierAttributes {
                amount_cents,
                created_at,
                description,
                discord_role_ids,
                edited_at,
                image_url,
                patron_count,
                post_count,
                published,
                published_at,
                title,
                unpublished_at,
                url,
                user_limit,
                remaining,
            },
        )
    }
}

impl Fallback for TierAttributes {
    open spec fn is_fallback(value: TierAttributes) -> bool {
        &&& <i32 as Fallback>::is_fallback(value.amount_cents)
        &&& <Timestamp as Fallback>::is_fallback(value.created_at)
        &&& <String as Fallback>::is_fallback(value.description)
        &&& <Vec<String> as Fallback>::is_fallback(value.discord_role_ids)
        &&& <Timestamp as Fallback>::is_fallback(value.edited_at)
        &&& <String as Fallback>::is_fallback(value.image_url)
        &&& <i32 as Fallback>::is_fallback(value.patron_count)
        &&& <i32 as Fallback>::is_fallback(value.post_count)
        &&& <bool as Fallback>::is_fallback(value.published)
        &&& <Timestamp as Fallback>::is_fallback(value.published_at)
        &&& <String as Fallback>::is_fallback(value.title)
        &&& <Timestamp as Fallback>::is_fallback(value.unpublished_at)
        &&& <String as Fallback>::is_fallback(value.url)
        &&& <i32 as Fallback>::is_fallback(value.user_limit)
        &&& <i32 as Fallback>::is_fallback(value.remaining)
    }

    fn fallback() -> (r: TierAttributes) {
        TierAttributes::default()
    }
}

impl Default for TierAttributes {
    fn default() -> (r: TierAttributes)
        ensures
            TierAttributes::is_fallback(r),
    {
        TierAttributes {
            amount_cents: 0,
            created_at: unix_epoch(),
            description: String::new(),
            discord_role_ids: Vec::new(),
            edited_at: unix_epoch(),
            image_url: String::new(),
            patron_count: 0,
            post_count: 0,
            published: false,
            published_at: unix_epoch(),
            title: String::new(),
            unpublished_at: unix_epoch(),
            url: String::new(),
            user_limit: 0,
            remaining: 0,
        }
    }
}

/// Post attributes.
#[derive(Clone, Debug, PartialEq)]
pub struct PostAttributes {
    /// Title.
    pub title: String,
    /// Content (HTML).
    pub content: String,
    /// Whether public.
    pub is_public: bool,
    /// Whether paid.
    pub is_paid: bool,
    /// Published at.
    pub published_at: Timestamp,
    /// Edited at.
    pub edited_at: Timestamp,
    /// Created at.
    pub created_at: Timestamp,
    /// Embed data.
    pub embed: Json,
    /// Embed URL.
    pub embed_url: String,
    /// App ID.
    pub app_id: i64,
    /// App status.
    pub app_status: String,
    /// Image.
    pub image: Json,
    /// Whether this is a teaser.
    pub is_teaser: bool,
    /// Teaser text.
    pub teaser_text: String,
    /// Like count.
    pub like_count: i32,
    /// Comment count.
    pub comment_count: i32,
    /// Post URL.
    pub url: String,
    /// Post type.
    pub post_type: String,
    /// Post file.
    pub post_file: Json,
    /// Post metadata.
    pub post_metadata: Json,
    /// Minimum cents pledged to view.
    pub min_cents_pledged_to_view: i32,
    /// Thumbnail URL.
    pub thumbnail_url: String,
    /// Thumbnail.
    pub thumbnail: Json,
}

impl Decode for PostAttributes {
    open spec fn mismatch(tree: JsonTree) -> Option<Mismatch> {
        object_mismatch(tree)
            .otherwise(tolerant_at::<String>(tree, "title"@))
            .otherwise(tolerant_at::<String>(tree, "content"@))
            .otherwise(tolerant_at::<bool>(tree, "is_public"@))
            .otherwise(tolerant_at::<bool>(tree, "is_paid"@))
            .otherwise(tolerant_at::<Timestamp>(tree, "published_at"@))
            .otherwise(tolerant_at::<Timestamp>(tree, "edited_at"@))
            .otherwise(tolerant_at::<Timestamp>(tree, "created_at"@))
            .otherwise(tolerant_at::<Json>(tree, "embed"@))
            .otherwise(tolerant_at::<String>(tree, "embed_url"@))
            .otherwise(tolerant_at::<i64>(tree, "app_id"@))
            .otherwise(tolerant_at::<String>(tree, "app_status"@))
            .otherwise(tolerant_at::<Json>(tree, "image"@))
            .otherwise(tolerant_at::<bool>(tree, "is_teaser"@))
            .otherwise(tolerant_at::<String>(tree, "teaser_text"@))
            .otherwise(tolerant_at::<i32>(tree, "like_count"@))
            .otherwise(tolerant_at::<i32>(tree, "comment_count"@))
            .otherwise(tolerant_at::<String>(tree, "url"@))
            .otherwise(tolerant_at::<String>(tree, "post_type"@))
            .otherwise(tolerant_at::<Json>(tree, "post_file"@))
            .otherwise(tolerant_at::<Json>(tree, "post_metadata"@))
            .otherwise(tolerant_at::<i32>(tree, "min_cents_pledged_to_view"@))
            .otherwise(tolerant_at::<String>(tree, "thumbnail_url"@))
            .otherwise(tolerant_at::<Json>(tree, "thumbnail"@))
    }

    open spec fn decodes(tree: JsonTree, value: PostAttributes) -> bool {
        &&& tolerant_decodes::<String>(tree.member("title"@), value.title)
        &&& tolerant_decodes::<String>(tree.member("content"@), value.content)
        &&& tolerant_decodes::<bool>(tree.member("is_public"@), value.is_public)
        &&& tolerant_decodes::<bool>(tree.member("is_paid"@), value.is_paid)
        &&& tolerant_decodes::<Timestamp>(tree.member("published_at"@), value.published_at)
        &&& tolerant_decodes::<Timestamp>(tree.member("edited_at"@), value.edited_at)
        &&& tolerant_decodes::<Timestamp>(tree.member("created_at"@), value.created_at)
        &&& tolerant_decodes::<Json>(tree.member("embed"@), value.embed)
        &&& tolerant_decodes::<String>(tree.member("embed_url"@), value.embed_url)
        &&& tolerant_decodes::<i64>(tree.member("app_id"@), value.app_id)
        &&& tolerant_decodes::<String>(tree.member("app_status"@), value.app_status)
        &&& tolerant_decodes::<Json>(tree.member("image"@), value.image)
        &&& tolerant_decodes::<bool>(tree.member("is_teaser"@), value.is_teaser)
        &&& tolerant_decodes::<String>(tree.member("teaser_text"@), value.teaser_text)
        &&& tolerant_decodes::<i32>(tree.member("like_count"@), value.like_count)
        &&& tolerant_decodes::<i32>(tree.member("comment_count"@), value.comment_count)
        &&& tolerant_decodes::<String>(tree.member("url"@), value.url)
        &&& tolerant_decodes::<String>(tree.member("post_type"@), value.post_type)
        &&& tolerant_decodes::<Json>(tree.member("post_file"@), value.post_file)
        &&& tolerant_decodes::<Json>(tree.member("post_metadata"@), value.post_metadata)
        &&& tolerant_decodes::<i32>(
            tree.member("min_cents_pledged_to_view"@),
            value.min_cents_pledged_to_view,
        )
        &&& tolerant_decodes::<String>(tree.member("thumbnail_url"@), value.thumbnail_url)
        &&& tolerant_decodes::<Json>(tree.member("thumbnail"@), value.thumbnail)
    }

    fn decode(json: &Json) -> (r: Result<PostAttributes, SchemaError>) {
        expect_object(json)?;
        let title = member_or_default::<String>(json, "title")?;
        let content = member_or_default::<String>(json, "content")?;
        let is_public = member_or_default::<bool>(json, "is_public")?;
        let is_paid = member_or_default::<bool>(json, "is_paid")?;
        let published_at = member_or_default::<Timestamp>(json, "published_at")?;
        let edited_at = member_or_default::<Timestamp>(json, "edited_at")?;
        let created_at = member_or_default::<Timestamp>(json, "created_at")?;
        let embed = member_or_default::<Json>(json, "embed")?;
        let embed_url = member_or_default::<String>(json, "embed_url")?;
        let app_id = member_or_default::<i64>(json, "app_id")?;
        let app_status = member_or_default::<String>(json, "app_status")?;
        let image = member_or_default::<Json>(json, "image")?;
        let is_teaser = member_or_default::<bool>(json, "is_teaser")?;
        let teaser_text = member_or_default::<String>(json, "teaser_text")?;
        let like_count = member_or_default::<i32>(json, "like_count")?;
        let comment_count = member_or_default::<i32>(json, "comment_count")?;
        let url = member_or_default::<String>(json, "url")?;
        let post_type = member_or_default::<String>(json, "post_type")?;
        let post_file = member_or_default::<Json>(json, "post_file")?;
        let post_metadata = member_or_default::<Json>(json, "post_metadata")?;
        let min_cents_pledged_to_view = member_or_default::<i32>(
            json,
            "min_cents_pledged_to_view",
        )?;
        let thumbnail_url = member_or_default::<String>(json, "thumbnail_url")?;
        let thumbnail = member_or_default::<Json>(json, "thumbnail")?;
        Ok(
            PostAttributes {
                title,
                content,
                is_public,
                is_paid,
                published_at,
                edited_at,
                created_at,
                embed,
                embed_url,
                app_id,
                app_status,
                image,
                is_teaser,
                teaser_text,
                like_count,
                comment_count,
                url,
                post_type,
                post_file,
                post_metadata,
                min_cents_pledged_to_view,
                thumbnail_url,
                thumbnail,
            },
        )
    }
}

impl Fallback for PostAttributes {
    open spec fn is_fallback(value: PostAttributes) -> bool {
        &&& <String as Fallback>::is_fallback(value.title)
        &&& <String as Fallback>::is_fallback(value.content)
        &&& <bool as Fallback>::is_fallback(value.is_public)
        &&& <bool as Fallback>::is_fallback(value.is_paid)
        &&& <Timestamp as Fallback>::is_fallback(value.published_at)
        &&& <Timestamp as Fallback>::is_fallback(value.edited_at)
        &&& <Timestamp as Fallback>::is_fallback(value.created_at)
        &&& <Json as Fallback>::is_fallback(value.embed)
        &&& <String as Fallback>::is_fallback(value.embed_url)
        &&& <i64 as Fallback>::is_fallback(value.app_id)
        &&& <String as Fallback>::is_fallback(value.app_status)
        &&& <Json as Fallback>::is_fallback(value.image)
        &&& <bool as Fallback>::is_fallback(value.is_teaser)
        &&& <String as Fallback>::is_fallback(value.teaser_text)
        &&& <i32 as Fallback>::is_fallback(value.like_count)
        &&& <i32 as Fallback>::is_fallback(value.comment_count)
        &&& <String as Fallback>::is_fallback(value.url)
        &&& <String as Fallback>::is_fallback(value.post_type)
        &&& <Json as Fallback>::is_fallback(value.post_file)
        &&& <Json as Fallback>::is_fallback(value.post_metadata)
        &&& <i32 as Fallback>::is_fallback(value.min_cents_pledged_to_view)
        &&& <String as Fallback>::is_fallback(value.thumbnail_url)
        &&& <Json as Fallback>::is_fallback(value.thumbnail)
    }

    fn fallback() -> (r: PostAttributes) {
        PostAttributes::default()
    }
}

impl Default for PostAttributes {
    fn default() -> (r: PostAttributes)
        ensures
            PostAttributes::is_fallback(r),
    {
        PostAttributes {
            title: String::new(),
            content: String::new(),
            is_public: false,
            is_paid: false,
            published_at: unix_epoch(),
            edited_at: unix_epoch(),
            created_at: unix_epoch(),
            embed: Json::Null,
            embed_url: String::new(),
            app_id: 0,
            app_status: String::new(),
            image: Json::Null,
            is_teaser: false,
            teaser_text: String::new(),
            like_count: 0,
            comment_count: 0,
            url: String::new(),
            post_type: String::new(),
            post_file: Json::Null,
            post_metadata: Json::Null,
            min_cents_pledged_to_view: 0,
            thumbnail_url: String::new(),
            thumbnail: Json::Null,
        }
    }
}

/// Benefit attributes.
#[derive(Clone, Debug, PartialEq)]
pub struct BenefitAttributes {
    /// Title.
    pub title: String,
    /// Description.
    pub description: String,
    /// Benefit type.
    pub benefit_type: String,
    /// Rule type.
    pub rule_type: String,
    /// Created at.
    pub created_at: Timestamp,
    /// Whether published.
    pub is_published: bool,
    /// Whether deleted.
    pub is_deleted: bool,
    /// Whether deliverable.
    pub is_deliverable: bool,
    /// Deliverables due today count.
    pub deliverables_due_today_count: i32,
    /// Delivered deliverables count.
    pub delivered_deliverables_count: i32,
    /// Not delivered deliverables count.
    pub not_delivered_deliverables_count: i32,
    /// Next deliverable due date.
    pub next_deliverable_due_date: Timestamp,
    /// Tiers count.
    pub tiers_count: i32,
    /// App external ID.
    pub app_external_id: String,
    /// App metadata.
    pub app_meta: Json,
}

impl Decode for BenefitAttributes {
    open spec fn mismatch(tree: JsonTree) -> Option<Mismatch> {
        object_mismatch(tree)
            .otherwise(tolerant_at::<String>(tree, "title"@))
            .otherwise(tolerant_at::<String>(tree, "description"@))
            .otherwise(tolerant_at::<String>(tree, "benefit_type"@))
            .otherwise(tolerant_at::<String>(tree, "rule_type"@))
            .otherwise(tolerant_at::<Timestamp>(tree, "created_at"@))
            .otherwise(tolerant_at::<bool>(tree, "is_published"@))
            .otherwise(tolerant_at::<bool>(tree, "is_deleted"@))
            .otherwise(tolerant_at::<bool>(tree, "is_deliverable"@))
            .otherwise(tolerant_at::<i32>(tree, "deliverables_due_today_count"@))
            .otherwise(tolerant_at::<i32>(tree, "delivered_deliverables_count"@))
            .otherwise(tolerant_at::<i32>(tree, "not_delivered_deliverables_count"@))
            .otherwise(tolerant_at::<Timestamp>(tree, "next_deliverable_due_date"@))
            .otherwise(tolerant_at::<i32>(tree, "tiers_count"@))
            .otherwise(tolerant_at::<String>(tree, "app_external_id"@))
            .otherwise(tolerant_at::<Json>(tree, "app_meta"@))
    }

    open spec fn decodes(tree: JsonTree, value: BenefitAttributes) -> bool {
        &&& tolerant_decodes::<String>(tree.member("title"@), value.title)
        &&& tolerant_decodes::<String>(tree.member("description"@), value.description)
        &&& tolerant_decodes::<String>(tree.member("benefit_type"@), value.benefit_type)
        &&& tolerant_decodes::<String>(tree.member("rule_type"@), value.rule_type)
        &&& tolerant_decodes::<Timestamp>(tree.member("created_at"@), value.created_at)
        &&& tolerant_decodes::<bool>(tree.member("is_published"@), value.is_published)
        &&& tolerant_decodes::<bool>(tree.member("is_deleted"@), value.is_deleted)
        &&& tolerant_decodes::<bool>(tree.member("is_deliverable"@), value.is_deliverable)
        &&& tolerant_decodes::<i32>(
            tree.member("deliverables_due_today_count"@),
            value.deliverables_due_today_count,
        )
        &&& tolerant_decodes::<i32>(
            tree.member("delivered_deliverables_count"@),
            value.delivered_deliverables_count,
        )
        &&& tolerant_decodes::<i32>(
            tree.member("not_delivered_deliverables_count"@),
            value.not_delivered_deliverables_count,
        )
        &&& tolerant_decodes::<Timestamp>(
            tree.member("next_deliverable_due_date"@),
            value.next_deliverable_due_date,
        )
        &&& tolerant_decodes::<i32>(tree.member("tiers_count"@), value.tiers_count)
        &&& tolerant_decodes::<String>(tree.member("app_external_id"@), value.app_external_id)
        &&& tolerant_decodes::<Json>(tree.member("app_meta"@), value.app_meta)
    }

    fn decode(json: &Json) -> (r: Result<BenefitAttributes, SchemaError>) {
        expect_object(json)?;
        let title = member_or_default::<String>(json, "title")?;
        let description = member_or_default::<String>(json, "description")?;
        let benefit_type = member_or_default::<String>(json, "benefit_type")?;
        let rule_type = member_or_default::<String>(json, "rule_type")?;
        let created_at = member_or_default::<Timestamp>(json, "created_at")?;
        let is_published = member_or_default::<bool>(json, "is_published")?;
        let is_deleted = member_or_default::<bool>(json, "is_deleted")?;
        let is_deliverable = member_or_default::<bool>(json, "is_deliverable")?;
        let deliverables_due_today_count = member_or_default::<i32>(
            json,
            "deliverables_due_today_count",
        )?;
        let delivered_deliverables_count = member_or_default::<i32>(
            json,
            "delivered_deliverables_count",
        )?;
        let not_delivered_deliverables_count = member_or_default::<i32>(
            json,
            "not_delivered_deliverables_count",
        )?;
        let next_deliverable_due_date = member_or_default::<Timestamp>(
            json,
            "next_deliverable_due_date",
        )?;
        let tiers_count = member_or_default::<i32>(json, "tiers_count")?;
        let app_external_id = member_or_default::<String>(json, "app_external_id")?;
        let app_meta = member_or_default::<Json>(json, "app_meta")?;
        Ok(
            BenefitAttributes {
                title,
                description,
                benefit_type,
                rule_type,
                created_at,
                is_published,
                is_deleted,
                is_deliverable,
                deliverables_due_today_count,
                delivered_deliverables_count,
                not_delivered_deliverables_count,
                next_deliverable_due_date,
                tiers_count,
                app_external_id,
                app_meta,
            },
        )
    }
}

impl Fallback for BenefitAttributes {
    open spec fn is_fallback(value: BenefitAttributes) -> bool {
        &&& <String as Fallback>::is_fallback(value.title)
        &&& <String as Fallback>::is_fallback(value.description)
        &&& <String as Fallback>::is_fallback(value.benefit_type)
        &&& <String as Fallback>::is_fallback(value.rule_type)
        &&& <Timestamp as Fallback>::is_fallback(value.created_at)
        &&& <bool as Fallback>::is_fallback(value.is_published)
        &&& <bool as Fallback>::is_fallback(value.is_deleted)
        &&& <bool as Fallback>::is_fallback(value.is_deliverable)
        &&& <i32 as Fallback>::is_fallback(value.deliverables_due_today_count)
        &&& <i32 as Fallback>::is_fallback(value.delivered_deliverables_count)
        &&& <i32 as Fallback>::is_fallback(value.not_delivered_deliverables_count)
        &&& <Timestamp as Fallback>::is_fallback(value.next_deliverable_due_date)
        &&& <i32 as Fallback>::is_fallback(value.tiers_count)
        &&& <String as Fallback>::is_fallback(value.app_external_id)
        &&& <Json as Fallback>::is_fallback(value.app_meta)
    }

    fn fallback() -> (r: BenefitAttributes) {
        BenefitAttributes::default()
    }
}

impl Default for BenefitAttributes {
    fn default() -> (r: BenefitAttributes)
        ensures
            BenefitAttributes::is_fallback(r),
    {
        BenefitAttributes {
            title: String::new(),
            description: String::new(),
            benefit_type: String::new(),
            rule_type: String::new(),
            created_at: unix_epoch(),
            is_published: false,
            is_deleted: false,
            is_deliverable: false,
            deliverables_due_today_count: 0,
            delivered_deliverables_count: 0,
            not_delivered_deliverables_count: 0,
            next_deliverable_due_date: unix_epoch(),
            tiers_count: 0,
            app_external_id: String::new(),
            app_meta: Json::Null,
        }
    }
}

/// Address attributes.
#[derive(Clone, Debug, PartialEq)]
pub struct AddressAttributes {
    /// Addressee.
    pub addressee: String,
    /// City.
    pub city: String,
    /// Country.
    pub country: String,
    /// Created at.
    pub created_at: Timestamp,
    /// Line 1.
    pub line_1: String,
    /// Line 2.
    pub line_2: String,
    /// Phone number.
    pub phone_number: String,
    /// Postal code.
    pub postal_code: String,
    /// State/region.
    pub state: String,
    /// Whether confirmed.
    pub confirmed: bool,
    /// Confirmed at.
    pub confirmed_at: Timestamp,
}

impl Decode for AddressAttributes {
    open spec fn mismatch(tree: JsonTree) -> Option<Mismatch> {
        object_mismatch(tree)
            .otherwise(tolerant_at::<String>(tree, "addressee"@))
            .otherwise(tolerant_at::<String>(tree, "city"@))
            .otherwise(tolerant_at::<String>(tree, "country"@))
            .otherwise(tolerant_at::<Timestamp>(tree, "created_at"@))
            .otherwise(tolerant_at::<String>(tree, "line_1"@))
            .otherwise(tolerant_at::<String>(tree, "line_2"@))
            .otherwise(tolerant_at::<String>(tree, "phone_number"@))
            .otherwise(tolerant_at::<String>(tree, "postal_code"@))
            .otherwise(tolerant_at::<String>(tree, "state"@))
            .otherwise(tolerant_at::<bool>(tree, "confirmed"@))
            .otherwise(tolerant_at::<Timestamp>(tree, "confirmed_at"@))
    }

    open spec fn decodes(tree: JsonTree, value: AddressAttributes) -> bool {
        &&& tolerant_decodes::<String>(tree.member("addressee"@), value.addressee)
        &&& tolerant_decodes::<String>(tree.member("city"@), value.city)
        &&& tolerant_decodes::<String>(tree.member("country"@), value.country)
        &&& tolerant_decodes::<Timestamp>(tree.member("created_at"@), value.created_at)
        &&& tolerant_decodes::<String>(tree.member("line_1"@), value.line_1)
        &&& tolerant_decodes::<String>(tree.member("line_2"@), value.line_2)
        &&& tolerant_decodes::<String>(tree.member("phone_number"@), value.phone_number)
        &&& tolerant_decodes::<String>(tree.member("postal_code"@), value.postal_code)
        &&& tolerant_decodes::<String>(tree.member("state"@), value.state)
        &&& tolerant_decodes::<bool>(tree.member("confirmed"@), value.confirmed)
        &&& tolerant_decodes::<Timestamp>(tree.member("confirmed_at"@), value.confirmed_at)
    }

    fn decode(json: &Json) -> (r: Result<AddressAttributes, SchemaError>) {
        expect_object(json)?;
        let addressee = member_or_default::<String>(json, "addressee")?;
        let city = member_or_default::<String>(json, "city")?;
        let country = member_or_default::<String>(json, "country")?;
        let created_at = member_or_default::<Timestamp>(json, "created_at")?;
        let line_1 = member_or_default::<String>(json, "line_1")?;
        let line_2 = member_or_default::<String>(json, "line_2")?;
        let phone_number = member_or_default::<String>(json, "phone_number")?;
        let postal_code = member_or_default::<String>(json, "postal_code")?;
        let state = member_or_default::<String>(json, "state")?;
        let confirmed = member_or_default::<bool>(json, "confirmed")?;
        let confirmed_at = member_or_default::<Timestamp>(json, "confirmed_at")?;
        Ok(
            AddressAttributes {
                addressee,
                city,
                country,
                created_at,
                line_1,
                line_2,
                phone_number,
                postal_code,
                state,
                confirmed,
                confirmed_at,
            },
        )
    }
}

impl Fallback for AddressAttributes {
    open spec fn is_fallback(value: AddressAttributes) -> bool {
        &&& <String as Fallback>::is_fallback(value.addressee)
        &&& <String as Fallback>::is_fallback(value.city)
        &&& <String as Fallback>::is_fallback(value.country)
        &&& <Timestamp as Fallback>::is_fallback(value.created_at)
        &&& <String as Fallback>::is_fallback(value.line_1)
        &&& <String as Fallback>::is_fallback(value.line_2)
        &&& <String as Fallback>::is_fallback(value.phone_number)
        &&& <String as Fallback>::is_fallback(value.postal_code)
        &&& <String as Fallback>::is_fallback(value.state)
        &&& <bool as Fallback>::is_fallback(value.confirmed)
        &&& <Timestamp as Fallback>::is_fallback(value.confirmed_at)
    }

    fn fallback() -> (r: AddressAttributes) {
        AddressAttributes::default()
    }
}

impl Default for AddressAttributes {
    fn default() -> (r: AddressAttributes)
        ensures
            AddressAttributes::is_fallback(r),
    {
        AddressAttributes {
            addressee: String::new(),
            city: String::new(),
            country: String::new(),
            created_at: unix_epoch(),
            line_1: String::new(),
            line_2: String::new(),
            phone_number: String::new(),
            postal_code: String::new(),
            state: String::new(),
            confirmed: false,
            confirmed_at: unix_epoch(),
        }
    }
}

/// Goal attributes.
#[derive(Clone, Debug, PartialEq)]
pub struct GoalAttributes {
    /// Amount (cents).
    pub amount_cents: i32,
    /// Completed percentage.
    pub completed_percentage: i32,
    /// Created at.
    pub created_at: Timestamp,
    /// Description.
    pub description: String,
    /// Reached at.
    pub reached_at: Timestamp,
    /// Title.
    pub title: String,
}

impl Decode for GoalAttributes {
    open spec fn mismatch(tree: JsonTree) -> Option<Mismatch> {
        object_mismatch(tree)
            .otherwise(tolerant_at::<i32>(tree, "amount_cents"@))
            .otherwise(tolerant_at::<i32>(tree, "completed_percentage"@))
            .otherwise(tolerant_at::<Timestamp>(tree, "created_at"@))
            .otherwise(tolerant_at::<String>(tree, "description"@))
            .otherwise(tolerant_at::<Timestamp>(tree, "reached_at"@))
            .otherwise(tolerant_at::<String>(tree, "title"@))
    }

    open spec fn decodes(tree: JsonTree, value: GoalAttributes) -> bool {
        &&& tolerant_decodes::<i32>(tree.member("amount_cents"@), value.amount_cents)
        &&& tolerant_decodes::<i32>(
            tree.member("completed_percentage"@),
            value.completed_percentage,
        )
        &&& tolerant_decodes::<Timestamp>(tree.member("created_at"@), value.created_at)
        &&& tolerant_decodes::<String>(tree.member("description"@), value.description)
        &&& tolerant_decodes::<Timestamp>(tree.member("reached_at"@), value.reached_at)
        &&& tolerant_decodes::<String>(tree.member("title"@), value.title)
    }

    fn decode(json: &Json) -> (r: Result<GoalAttributes, SchemaError>) {
        expect_object(json)?;
        let amount_cents = member_or_default::<i32>(json, "amount_cents")?;
        let completed_percentage = member_or_default::<i32>(json, "completed_percentage")?;
        let created_at = member_or_default::<Timestamp>(json, "created_at")?;
        let description = member_or_default::<String>(json, "description")?;
        let reached_at = member_or_default::<Timestamp>(json, "reached_at")?;
        let title = member_or_default::<String>(json, "title")?;
        Ok(
            GoalAttributes {
                amount_cents,
                completed_percentage,
                created_at,
                description,
                reached_at,
                title,
            },
        )
    }
}

impl Fallback for GoalAttributes {
    open spec fn is_fallback(value: GoalAttributes) -> bool {
        &&& <i32 as Fallback>::is_fallback(value.amount_cents)
        &&& <i32 as Fallback>::is_fallback(value.completed_percentage)
        &&& <Timestamp as Fallback>::is_fallback(value.created_at)
        &&& <String as Fallback>::is_fallback(value.description)
        &&& <Timestamp as Fallback>::is_fallback(value.reached_at)
        &&& <String as Fallback>::is_fallback(value.title)
    }

    fn fallback() -> (r: GoalAttributes) {
        GoalAttributes::default()
    }
}

impl Default for GoalAttributes {
    fn default() -> (r: GoalAttributes)
        ensures
            GoalAttributes::is_fallback(r),
    {
        GoalAttributes {
            amount_cents: 0,
            completed_percentage: 0,
            created_at: unix_epoch(),
            description: String::new(),
            reached_at: unix_epoch(),
            title: String::new(),
        }
    }
}

/// Media attributes.
#[derive(Clone, Debug, PartialEq)]
pub struct MediaAttributes {
    /// Created at.
    pub created_at: Timestamp,
    /// Download URL.
    pub download_url: String,
    /// File name.
    pub file_name: String,
    /// Image URLs.
    pub image_urls: Json,
    /// Metadata.
    pub metadata: Json,
    /// MIME type.
    pub mimetype: String,
    /// Owner ID.
    pub owner_id: String,
    /// Owner relationship.
    pub owner_relationship: String,
    /// Owner type.
    pub owner_type: String,
    /// Size in bytes.
    pub size_bytes: i64,
    /// State.
    pub state: String,
    /// Upload expires at.
    pub upload_expires_at: Timestamp,
    /// Upload parameters.
    pub upload_parameters: Json,
    /// Upload URL.
    pub upload_url: String,
}

impl Decode for MediaAttributes {
    open spec fn mismatch(tree: JsonTree) -> Option<Mismatch> {
        object_mismatch(tree)
            .otherwise(tolerant_at::<Timestamp>(tree, "created_at"@))
            .otherwise(tolerant_at::<String>(tree, "download_url"@))
            .otherwise(tolerant_at::<String>(tree, "file_name"@))
            .otherwise(tolerant_at::<Json>(tree, "image_urls"@))
            .otherwise(tolerant_at::<Json>(tree, "metadata"@))
            .otherwise(tolerant_at::<String>(tree, "mimetype"@))
            .otherwise(tolerant_at::<String>(tree, "owner_id"@))
            .otherwise(tolerant_at::<String>(tree, "owner_relationship"@))
            .otherwise(tolerant_at::<String>(tree, "owner_type"@))
            .otherwise(tolerant_at::<i64>(tree, "size_bytes"@))
            .otherwise(tolerant_at::<String>(tree, "state"@))
            .otherwise(tolerant_at::<Timestamp>(tree, "upload_expires_at"@))
            .otherwise(tolerant_at::<Json>(tree, "upload_parameters"@))
            .otherwise(tolerant_at::<String>(tree, "upload_url"@))
    }

    open spec fn decodes(tree: JsonTree, value: MediaAttributes) -> bool {
        &&& tolerant_decodes::<Timestamp>(tree.member("created_at"@), value.created_at)
        &&& tolerant_decodes::<String>(tree.member("download_url"@), value.download_url)
        &&& tolerant_decodes::<String>(tree.member("file_name"@), value.file_name)
        &&& tolerant_decodes::<Json>(tree.member("image_urls"@), value.image_urls)
        &&& tolerant_decodes::<Json>(tree.member("metadata"@), value.metadata)
        &&& tolerant_decodes::<String>(tree.member("mimetype"@), value.mimetype)
        &&& tolerant_decodes::<String>(tree.member("owner_id"@), value.owner_id)
        &&& tolerant_decodes::<String>(tree.member("owner_relationship"@), value.owner_relationship)
        &&& tolerant_decodes::<String>(tree.member("owner_type"@), value.owner_type)
        &&& tolerant_decodes::<i64>(tree.member("size_bytes"@), value.size_bytes)
        &&& tolerant_decodes::<String>(tree.member("state"@), value.state)
        &&& tolerant_decodes::<Timestamp>(
            tree.member("upload_expires_at"@),
            value.upload_expires_at,
        )
        &&& tolerant_decodes::<Json>(tree.member("upload_parameters"@), value.upload_parameters)
        &&& tolerant_decodes::<String>(tree.member("upload_url"@), value.upload_url)
    }

    fn decode(json: &Json) -> (r: Result<MediaAttributes, SchemaError>) {
        expect_object(json)?;
        let created_at = member_or_default::<Timestamp>(json, "created_at")?;
        let download_url = member_or_default::<String>(json, "download_url")?;
        let file_name = member_or_default::<String>(json, "file_name")?;
        let image_urls = member_or_default::<Json>(json, "image_urls")?;
        let metadata = member_or_default::<Json>(json, "metadata")?;
        let mimetype = member_or_default::<String>(json, "mimetype")?;
        let owner_id = member_or_default::<String>(json, "owner_id")?;
        let owner_relationship = member_or_default::<String>(json, "owner_relationship")?;
        let owner_type = member_or_default::<String>(json, "owner_type")?;
        let size_bytes = member_or_default::<i64>(json, "size_bytes")?;
        let state = member_or_default::<String>(json, "state")?;
        let upload_expires_at = member_or_default::<Timestamp>(json, "upload_expires_at")?;
        let upload_parameters = member_or_default::<Json>(json, "upload_parameters")?;
        let upload_url = member_or_default::<String>(json, "upload_url")?;
        Ok(
            MediaAttributes {
                created_at,
                download_url,
                file_name,
                image_urls,
                metadata,
                mimetype,
                owner_id,
                owner_relationship,
                owner_type,
                size_bytes,
                state,
                upload_expires_at,
                upload_parameters,
                upload_url,
            },
        )
    }
}

impl Fallback for MediaAttributes {
    open spec fn is_fallback(value: MediaAttributes) -> bool {
        &&& <Timestamp as Fallback>::is_fallback(value.created_at)
        &&& <String as Fallback>::is_fallback(value.download_url)
        &&& <String as Fallback>::is_fallback(value.file_name)
        &&& <Json as Fallback>::is_fallback(value.image_urls)
        &&& <Json as Fallback>::is_fallback(value.metadata)
        &&& <String as Fallback>::is_fallback(value.mimetype)
        &&& <String as Fallback>::is_fallback(value.owner_id)
        &&& <String as Fallback>::is_fallback(value.owner_relationship)
        &&& <String as Fallback>::is_fallback(value.owner_type)
        &&& <i64 as Fallback>::is_fallback(value.size_bytes)
        &&& <String as Fallback>::is_fallback(value.state)
        &&& <Timestamp as Fallback>::is_fallback(value.upload_expires_at)
        &&& <Json as Fallback>::is_fallback(value.upload_parameters)
        &&& <String as Fallback>::is_fallback(value.upload_url)
    }

    fn fallback() -> (r: MediaAttributes) {
        MediaAttributes::default()
    }
}

impl Default for MediaAttributes {
    fn default() -> (r: MediaAttributes)
        ensures
            MediaAttributes::is_fallback(r),
    {
        MediaAttributes {
            created_at: unix_epoch(),
            download_url: String::new(),
            file_name: String::new(),
            image_urls: Json::Null,
            metadata: Json::Null,
            mimetype: String::new(),
            owner_id: String::new(),
            owner_relationship: String::new(),
            owner_type: String::new(),
            size_bytes: 0,
            state: String::new(),
            upload_expires_at: unix_epoch(),
            upload_parameters: Json::Null,
            upload_url: String::new(),
        }
    }
}

/// Webhook attributes.
#[derive(Clone, Debug, PartialEq)]
pub struct WebhookAttributes {
    /// Last attempted at.
    pub last_attempted_at: Timestamp,
    /// Consecutive failure count.
    pub num_consecutive_times_failed: i32,
    /// Whether paused.
    pub paused: bool,
    /// Secret.
    pub secret: String,
    /// Trigger list.
    pub triggers: Vec<WebhookTrigger>,
    /// Webhook URL.
    pub uri: String,
}

impl Decode for WebhookAttributes {
    open spec fn mismatch(tree: JsonTree) -> Option<Mismatch> {
        object_mismatch(tree)
            .otherwise(tolerant_at::<Timestamp>(tree, "last_attempted_at"@))
            .otherwise(tolerant_at::<i32>(tree, "num_consecutive_times_failed"@))
            .otherwise(tolerant_at::<bool>(tree, "paused"@))
            .otherwise(tolerant_at::<String>(tree, "secret"@))
            .otherwise(tolerant_at::<Vec<WebhookTrigger>>(tree, "triggers"@))
            .otherwise(tolerant_at::<String>(tree, "uri"@))
    }

    open spec fn decodes(tree: JsonTree, value: WebhookAttributes) -> bool {
        &&& tolerant_decodes::<Timestamp>(
            tree.member("last_attempted_at"@),
            value.last_attempted_at,
        )
        &&& tolerant_decodes::<i32>(
            tree.member("num_consecutive_times_failed"@),
            value.num_consecutive_times_failed,
        )
        &&& tolerant_decodes::<bool>(tree.member("paused"@), value.paused)
        &&& tolerant_decodes::<String>(tree.member("secret"@), value.secret)
        &&& tolerant_decodes::<Vec<WebhookTrigger>>(tree.member("triggers"@), value.triggers)
        &&& tolerant_decodes::<String>(tree.member("uri"@), value.uri)
    }

    fn decode(json: &Json) -> (r: Result<WebhookAttributes, SchemaError>) {
        expect_object(json)?;
        let last_attempted_at = member_or_default::<Timestamp>(json, "last_attempted_at")?;
        let num_consecutive_times_failed = member_or_default::<i32>(
            json,
            "num_consecutive_times_failed",
        )?;
        let paused = member_or_default::<bool>(json, "paused")?;
        let secret = member_or_default::<String>(json, "secret")?;
        let triggers = member_or_default::<Vec<WebhookTrigger>>(json, "triggers")?;
        let uri = member_or_default::<String>(json, "uri")?;
        Ok(
            WebhookAttributes {
                last_attempted_at,
                num_consecutive_times_failed,
                paused,
                secret,
                triggers,
                uri,
            },
        )
    }
}

impl Fallback for WebhookAttributes {
    open spec fn is_fallback(value: WebhookAttributes) -> bool {
        &&& <Timestamp as Fallback>::is_fallback(value.last_attempted_at)
        &&& <i32 as Fallback>::is_fallback(value.num_consecutive_times_failed)
        &&& <bool as Fallback>::is_fallback(value.paused)
        &&& <String as Fallback>::is_fallback(value.secret)
        &&& <Vec<WebhookTrigger> as Fallback>::is_fallback(value.triggers)
        &&& <String as Fallback>::is_fallback(value.uri)
    }

    fn fallback() -> (r: WebhookAttributes) {
        WebhookAttributes::default()
    }
}

impl Default for WebhookAttributes {
    fn default() -> (r: WebhookAttributes)
        ensures
            WebhookAttributes::is_fallback(r),
    {
        WebhookAttributes {
            last_attempted_at: unix_epoch(),
            num_consecutive_times_failed: 0,
            paused: false,
            secret: String::new(),
            triggers: Vec::new(),
            uri: String::new(),
        }
    }
}

/// An event a webhook fires on.
#[derive(Clone, Copy, Debug, PartialEq, Eq, Structural)]
pub enum WebhookTrigger {
    /// `members:create`
    MembersCreate,
    /// `members:update`
    MembersUpdate,
    /// `members:delete`
    MembersDelete,
    /// `members:pledge:create`
    MembersPledgeCreate,
    /// `members:pledge:update`
    MembersPledgeUpdate,
    /// `members:pledge:delete`
    MembersPledgeDelete,
    /// `posts:publish`
    PostsPublish,
    /// `posts:update`
    PostsUpdate,
    /// `posts:delete`
    PostsDelete,
    /// Any other word.
    Unknown,
}

impl WebhookTrigger {
    /// The wire word of a known kind; the catch-all has none.
    pub open spec fn word(self) -> Option<Seq<char>> {
        match self {
            WebhookTrigger::MembersCreate => Some("members:create"@),
            WebhookTrigger::MembersUpdate => Some("members:update"@),
            WebhookTrigger::MembersDelete => Some("members:delete"@),
            WebhookTrigger::MembersPledgeCreate => Some("members:pledge:create"@),
            WebhookTrigger::MembersPledgeUpdate => Some("members:pledge:update"@),
            WebhookTrigger::MembersPledgeDelete => Some("members:pledge:delete"@),
            WebhookTrigger::PostsPublish => Some("posts:publish"@),
            WebhookTrigger::PostsUpdate => Some("posts:update"@),
            WebhookTrigger::PostsDelete => Some("posts:delete"@),
            WebhookTrigger::Unknown => None,
        }
    }

    /// The kind that a wire word names: an exact, case-sensitive match, or
    /// the catch-all.
    pub open spec fn of_word(word: Seq<char>) -> WebhookTrigger {
        if word == "members:create"@ {
            WebhookTrigger::MembersCreate
        } else if word == "members:update"@ {
            WebhookTrigger::MembersUpdate
        } else if word == "members:delete"@ {
            WebhookTrigger::MembersDelete
        } else if word == "members:pledge:create"@ {
            WebhookTrigger::MembersPledgeCreate
        } else if word == "members:pledge:update"@ {
            WebhookTrigger::MembersPledgeUpdate
        } else if word == "members:pledge:delete"@ {
            WebhookTrigger::MembersPledgeDelete
        } else if word == "posts:publish"@ {
            WebhookTrigger::PostsPublish
        } else if word == "posts:update"@ {
            WebhookTrigger::PostsUpdate
        } else if word == "posts:delete"@ {
            WebhookTrigger::PostsDelete
        } else {
            WebhookTrigger::Unknown
        }
    }

    /// Reads a wire word. No word is refused.
    pub fn from_wire(word: &str) -> (r: WebhookTrigger)
        ensures
            r == WebhookTrigger::of_word(word@),
    {
        if str_eq(word, "members:create") {
            WebhookTrigger::MembersCreate
        } else if str_eq(word, "members:update") {
            WebhookTrigger::MembersUpdate
        } else if str_eq(word, "members:delete") {
            WebhookTrigger::MembersDelete
        } else if str_eq(word, "members:pledge:create") {
            WebhookTrigger::MembersPledgeCreate
        } else if str_eq(word, "members:pledge:update") {
            WebhookTrigger::MembersPledgeUpdate
        } else if str_eq(word, "members:pledge:delete") {
            WebhookTrigger::MembersPledgeDelete
        } else if str_eq(word, "posts:publish") {
            WebhookTrigger::PostsPublish
        } else if str_eq(word, "posts:update") {
            WebhookTrigger::PostsUpdate
        } else if str_eq(word, "posts:delete") {
            WebhookTrigger::PostsDelete
        } else {
            WebhookTrigger::Unknown
        }
    }

    /// The wire word of a known kind.
    pub fn wire_name(&self) -> (r: Option<&'static str>)
        ensures
            r is Some <==> self.word() is Some,
            r is Some ==> r->0@ == self.word()->0,
    {
        match self {
            WebhookTrigger::MembersCreate => Some("members:create"),
            WebhookTrigger::MembersUpdate => Some("members:update"),
            WebhookTrigger::MembersDelete => Some("members:delete"),
            WebhookTrigger::MembersPledgeCreate => Some("members:pledge:create"),
            WebhookTrigger::MembersPledgeUpdate => Some("members:pledge:update"),
            WebhookTrigger::MembersPledgeDelete => Some("members:pledge:delete"),
            WebhookTrigger::PostsPublish => Some("posts:publish"),
            WebhookTrigger::PostsUpdate => Some("posts:update"),
            WebhookTrigger::PostsDelete => Some("posts:delete"),
            WebhookTrigger::Unknown => None,
        }
    }
}

impl Decode for WebhookTrigger {
    open spec fn mismatch(tree: JsonTree) -> Option<Mismatch> {
        if tree is Text {
            None
        } else {
            Some(unplaced(Expected::Text))
        }
    }

    open spec fn decodes(tree: JsonTree, value: WebhookTrigger) -> bool {
        tree is Text && value == WebhookTrigger::of_word(tree->Text_0)
    }

    fn decode(json: &Json) -> (r: Result<WebhookTrigger, SchemaError>) {
        match json {
            Json::Text(word) => Ok(WebhookTrigger::from_wire(word.as_str())),
            _ => Err(SchemaError::unplaced(Expected::Text)),
        }
    }
}

impl Fallback for WebhookTrigger {
    open spec fn is_fallback(value: WebhookTrigger) -> bool {
        value == WebhookTrigger::Unknown
    }

    fn fallback() -> (r: WebhookTrigger) {
        WebhookTrigger::Unknown
    }
}

impl Default for WebhookTrigger {
    fn default() -> (r: WebhookTrigger)
        ensures
            r == WebhookTrigger::Unknown,
    {
        WebhookTrigger::Unknown
    }
}

/// The nine trigger labels are nine different texts.
pub proof fn lemma_trigger_labels_differ()
    ensures
        "members:create"@ != "members:update"@,
        "members:create"@ != "members:delete"@,
        "members:create"@ != "members:pledge:create"@,
        "members:create"@ != "members:pledge:update"@,
        "members:create"@ != "members:pledge:delete"@,
        "members:create"@ != "posts:publish"@,
        "members:create"@ != "posts:update"@,
        "members:create"@ != "posts:delete"@,
        "members:update"@ != "members:delete"@,
        "members:update"@ != "members:pledge:create"@,
        "members:update"@ != "members:pledge:update"@,
        "members:update"@ != "members:pledge:delete"@,
        "members:update"@ != "posts:publish"@,
        "members:update"@ != "posts:update"@,
        "members:update"@ != "posts:delete"@,
        "members:delete"@ != "members:pledge:create"@,
        "members:delete"@ != "members:pledge:update"@,
        "members:delete"@ != "members:pledge:delete"@,
        "members:delete"@ != "posts:publish"@,
        "members:delete"@ != "posts:update"@,
        "members:delete"@ != "posts:delete"@,
        "members:pledge:create"@ != "members:pledge:update"@,
        "members:pledge:create"@ != "members:pledge:delete"@,
        "members:pledge:create"@ != "posts:publish"@,
        "members:pledge:create"@ != "posts:update"@,
        "members:pledge:create"@ != "posts:delete"@,
        "members:pledge:update"@ != "members:pledge:delete"@,
        "members:pledge:update"@ != "posts:publish"@,
        "members:pledge:update"@ != "posts:update"@,
        "members:pledge:update"@ != "posts:delete"@,
        "members:pledge:delete"@ != "posts:publish"@,
        "members:pledge:delete"@ != "posts:update"@,
        "members:pledge:delete"@ != "posts:delete"@,
        "posts:publish"@ != "posts:update"@,
        "posts:publish"@ != "posts:delete"@,
        "posts:update"@ != "posts:delete"@,
{
    reveal_strlit("members:create");
    reveal_strlit("members:update");
    reveal_strlit("members:delete");
    reveal_strlit("members:pledge:create");
    reveal_strlit("members:pledge:update");
    reveal_strlit("members:pledge:delete");
    reveal_strlit("posts:publish");
    reveal_strlit("posts:update");
    reveal_strlit("posts:delete");
    assert("members:create"@.len() == 14);
    assert("members:update"@.len() == 14);
    assert("members:delete"@.len() == 14);
    assert("members:pledge:create"@.len() == 21);
    assert("members:pledge:update"@.len() == 21);
    assert("members:pledge:delete"@.len() == 21);
    assert("posts:publish"@.len() == 13);
    assert("posts:update"@.len() == 12);
    assert("posts:delete"@.len() == 12);
    assert("members:create"@[8] != "members:update"@[8]);
    assert("members:create"@[8] != "members:delete"@[8]);
    assert("members:update"@[8] != "members:delete"@[8]);
    assert("members:pledge:create"@[15] != "members:pledge:update"@[15]);
    assert("members:pledge:create"@[15] != "members:pledge:delete"@[15]);
    assert("members:pledge:update"@[15] != "members:pledge:delete"@[15]);
    assert("posts:update"@[6] != "posts:delete"@[6]);
}

/// Reading the wire word of a kind gives that kind back.
pub proof fn lemma_webhook_trigger_word_read_back(kind: WebhookTrigger)
    requires
        kind.word() is Some,
    ensures
        WebhookTrigger::of_word(kind.word()->0) == kind,
{
    lemma_trigger_labels_differ();
}

/// A word that names a known kind is the wire word of that kind.
pub proof fn lemma_webhook_trigger_word_kept(word: Seq<char>)
    requires
        WebhookTrigger::of_word(word) != WebhookTrigger::Unknown,
    ensures
        WebhookTrigger::of_word(word).word() == Some(word),
{
}

/// A member whose `patron_status` is `null` or missing decodes with the
/// status `Unknown`.
pub proof fn lemma_blank_patron_status_is_unknown(tree: JsonTree, value: MemberAttributes)
    requires
        MemberAttributes::decodes(tree, value),
        tree.member("patron_status"@) is None || tree.member("patron_status"@) == Some(
            JsonTree::Null,
        ),
    ensures
        value.patron_status == PatronStatus::Unknown,
{
}

/// A `null` never makes an attribute set fail to decode: where every
/// member of an object is `null` or missing, the object is accepted.
pub proof fn lemma_blank_attributes_are_accepted(tree: JsonTree)
    requires
        tree is Object,
        forall|key: Seq<char>|
            tree.member(key) is None || #[trigger] tree.member(key) == Some(JsonTree::Null),
    ensures
        UserAttributes::mismatch(tree) is None,
        CampaignAttributes::mismatch(tree) is None,
        MemberAttributes::mismatch(tree) is None,
        TierAttributes::mismatch(tree) is None,
        PostAttributes::mismatch(tree) is None,
        BenefitAttributes::mismatch(tree) is None,
        AddressAttributes::mismatch(tree) is None,
        GoalAttributes::mismatch(tree) is None,
        MediaAttributes::mismatch(tree) is None,
        WebhookAttributes::mismatch(tree) is None,
{
}

} // verus!
