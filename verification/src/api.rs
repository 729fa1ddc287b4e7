//! The first generation of the API's documents: every member a document
//! declares has to be there, except the ones that may be `null`.

use vstd::prelude::*;
use vstd::string::*;
use vstd::utf8::encode_utf8;
use crate::decode::{
    decode_document, defaulted_at, defaulted_decodes, document_outcome, expect_object,
    member_defaulted, member_optional, member_required, object_mismatch, optional_decodes,
    required_at, required_decodes, tolerant_at, Decode, Fallback, Otherwise,
};
use crate::error::{unplaced, ApiError, Expected, Mismatch, PatreonError, SchemaError};
use crate::json::{json_document, Json, JsonTree};
use crate::location::{
    append_pair, parse, parsed_url, set_path, to_text, url_or_message, with_pair, with_path,
};
use crate::oauth2::BASE_URI;
use crate::transport::{bearer, bearer_value, is_success, success};
use crate::models::serde_helpers::unix_epoch;
use crate::text::str_eq;
use crate::time::Timestamp;

verus! {

/// The envelope of a document that carries nothing but its data.
#[derive(Clone, Debug, PartialEq)]
pub struct DocResponse<D> {
    pub data: D,
}

impl<D: Decode> Decode for DocResponse<D> {
    open spec fn mismatch(tree: JsonTree) -> Option<Mismatch> {
        object_mismatch(tree).otherwise(required_at::<D>(tree, "data"@))
    }

    open spec fn decodes(tree: JsonTree, value: DocResponse<D>) -> bool {
        required_decodes::<D>(tree.member("data"@), value.data)
    }

    fn decode(json: &Json) -> (r: Result<DocResponse<D>, SchemaError>) {
        expect_object(json)?;
        let data = member_required::<D>(json, "data")?;
        Ok(DocResponse { data })
    }
}

/// Whether `r` is what reading the `data` of the document in `bytes` gives.
pub open spec fn data_outcome<D: Decode>(bytes: Seq<u8>, r: Result<D, PatreonError>) -> bool {
    match r {
        Ok(data) => document_outcome::<DocResponse<D>>(bytes, Ok(DocResponse { data })),
        Err(e) => document_outcome::<DocResponse<D>>(bytes, Err(e)),
    }
}

impl<D: Decode> DocResponse<D> {
    /// Reads the `data` of the document in `response`.
    pub fn parse(response: &[u8]) -> (r: Result<D, PatreonError>)
        ensures
            data_outcome::<D>(response@, r),
    {
        match decode_document::<DocResponse<D>>(response) {
            Ok(document) => Ok(document.data),
            Err(e) => Err(e),
        }
    }
}

/// The envelope of a document that carries its data and the resources
/// included with it. A document without `included` has none.
#[derive(Clone, Debug, PartialEq)]
pub struct DocResponseInclude<D, I> {
    pub data: D,
    pub included: Vec<I>,
}

impl<D: Decode, I: Decode> Decode for DocResponseInclude<D, I> {
    open spec fn mismatch(tree: JsonTree) -> Option<Mismatch> {
        object_mismatch(tree)
            .otherwise(required_at::<D>(tree, "data"@))
            .otherwise(defaulted_at::<Vec<I>>(tree, "included"@))
    }

    open spec fn decodes(tree: JsonTree, value: DocResponseInclude<D, I>) -> bool {
        &&& required_decodes::<D>(tree.member("data"@), value.data)
        &&& defaulted_decodes::<Vec<I>>(tree.member("included"@), value.included)
    }

    fn decode(json: &Json) -> (r: Result<DocResponseInclude<D, I>, SchemaError>) {
        expect_object(json)?;
        let data = member_required::<D>(json, "data")?;
        let included = member_defaulted::<Vec<I>>(json, "included")?;
        Ok(DocResponseInclude { data, included })
    }
}

/// One document: its kind, its id and its attributes.
#[derive(Clone, Debug, PartialEq)]
pub struct ApiDocument<A> {
    pub document_type: String,
    pub id: String,
    pub attributes: A,
}

impl<A: Decode> Decode for ApiDocument<A> {
    open spec fn mismatch(tree: JsonTree) -> Option<Mismatch> {
        object_mismatch(tree)
            .otherwise(required_at::<String>(tree, "type"@))
            .otherwise(required_at::<String>(tree, "id"@))
            .otherwise(required_at::<A>(tree, "attributes"@))
    }

    open spec fn decodes(tree: JsonTree, value: ApiDocument<A>) -> bool {
        &&& required_decodes::<String>(tree.member("type"@), value.document_type)
        &&& required_decodes::<String>(tree.member("id"@), value.id)
        &&& required_decodes::<A>(tree.member("attributes"@), value.attributes)
    }

    fn decode(json: &Json) -> (r: Result<ApiDocument<A>, SchemaError>) {
        expect_object(json)?;
        let document_type = member_required::<String>(json, "type")?;
        let id = member_required::<String>(json, "id")?;
        let attributes = member_required::<A>(json, "attributes")?;
        Ok(ApiDocument { document_type, id, attributes })
    }
}

impl<A: Fallback> Default for ApiDocument<A> {
    fn default() -> (r: ApiDocument<A>)
        ensures
            r.document_type@.len() == 0,
            r.id@.len() == 0,
            A::is_fallback(r.attributes),
    {
        ApiDocument { document_type: String::new(), id: String::new(), attributes: A::fallback() }
    }
}

pub type User = ApiDocument<UserAttributes>;

pub type Member = ApiDocument<MemberAttributes>;

pub type Campaign = ApiDocument<CampaignAttributes>;

pub type Pledge = ApiDocument<PledgeAttributes>;

/// What the service reports of a user.
#[derive(Clone, Debug, PartialEq)]
pub struct UserAttributes {
    pub first_name: String,
    pub last_name: String,
    pub full_name: String,
    pub vanity: Option<String>,
    pub email: String,
    pub about: Option<String>,
    pub facebook_id: Option<String>,
    pub image_url: String,
    pub thumb_url: String,
    pub youtube: Option<String>,
    pub twitter: Option<String>,
    pub facebook: Option<String>,
    pub created: Timestamp,
    pub url: String,
}

impl Decode for UserAttributes {
    open spec fn mismatch(tree: JsonTree) -> Option<Mismatch> {
        object_mismatch(tree)
            .otherwise(required_at::<String>(tree, "first_name"@))
            .otherwise(required_at::<String>(tree, "last_name"@))
            .otherwise(required_at::<String>(tree, "full_name"@))
            .otherwise(tolerant_at::<String>(tree, "vanity"@))
            .otherwise(required_at::<String>(tree, "email"@))
            .otherwise(tolerant_at::<String>(tree, "about"@))
            .otherwise(tolerant_at::<String>(tree, "facebook_id"@))
            .otherwise(required_at::<String>(tree, "image_url"@))
            .otherwise(required_at::<String>(tree, "thumb_url"@))
            .otherwise(tolerant_at::<String>(tree, "youtube"@))
            .otherwise(tolerant_at::<String>(tree, "twitter"@))
            .otherwise(tolerant_at::<String>(tree, "facebook"@))
            .otherwise(required_at::<Timestamp>(tree, "created"@))
            .otherwise(required_at::<String>(tree, "url"@))
    }

    open spec fn decodes(tree: JsonTree, value: UserAttributes) -> bool {
        &&& required_decodes::<String>(tree.member("first_name"@), value.first_name)
        &&& required_decodes::<String>(tree.member("last_name"@), value.last_name)
        &&& required_decodes::<String>(tree.member("full_name"@), value.full_name)
        &&& optional_decodes::<String>(tree.member("vanity"@), value.vanity)
        &&& required_decodes::<String>(tree.member("email"@), value.email)
        &&& optional_decodes::<String>(tree.member("about"@), value.about)
        &&& optional_decodes::<String>(tree.member("facebook_id"@), value.facebook_id)
        &&& required_decodes::<String>(tree.member("image_url"@), value.image_url)
        &&& required_decodes::<String>(tree.member("thumb_url"@), value.thumb_url)
        &&& optional_decodes::<String>(tree.member("youtube"@), value.youtube)
        &&& optional_decodes::<String>(tree.member("twitter"@), value.twitter)
        &&& optional_decodes::<String>(tree.member("facebook"@), value.facebook)
        &&& required_decodes::<Timestamp>(tree.member("created"@), value.created)
        &&& required_decodes::<String>(tree.member("url"@), value.url)
    }

    fn decode(json: &Json) -> (r: Result<UserAttributes, SchemaError>) {
        expect_object(json)?;
        let first_name = member_required::<String>(json, "first_name")?;
        let last_name = member_required::<String>(json, "last_name")?;
        let full_name = member_required::<String>(json, "full_name")?;
        let vanity = member_optional::<String>(json, "vanity")?;
        let email = member_required::<String>(json, "email")?;
        let about = member_optional::<String>(json, "about")?;
        let facebook_id = member_optional::<String>(json, "facebook_id")?;
        let image_url = member_required::<String>(json, "image_url")?;
        let thumb_url = member_required::<String>(json, "thumb_url")?;
        let youtube = member_optional::<String>(json, "youtube")?;
        let twitter = member_optional::<String>(json, "twitter")?;
        let facebook = member_optional::<String>(json, "facebook")?;
        let created = member_required::<Timestamp>(json, "created")?;
        let url = member_required::<String>(json, "url")?;
        Ok(
            UserAttributes {
                first_name,
                last_name,
                full_name,
                vanity,
                email,
                about,
                facebook_id,
                image_url,
                thumb_url,
                youtube,
                twitter,
                facebook,
                created,
                url,
            },
        )
    }
}

impl Fallback for UserAttributes {
    open spec fn is_fallback(value: UserAttributes) -> bool {
        &&& <String as Fallback>::is_fallback(value.first_name)
        &&& <String as Fallback>::is_fallback(value.last_name)
        &&& <String as Fallback>::is_fallback(value.full_name)
        &&& value.vanity is None
        &&& <String as Fallback>::is_fallback(value.email)
        &&& value.about is None
        &&& value.facebook_id is None
        &&& <String as Fallback>::is_fallback(value.image_url)
        &&& <String as Fallback>::is_fallback(value.thumb_url)
        &&& value.youtube is None
        &&& value.twitter is None
        &&& value.facebook is None
        &&& <Timestamp as Fallback>::is_fallback(value.created)
        &&& <String as Fallback>::is_fallback(value.url)
    }

    fn fallback() -> (r: UserAttributes) {
        UserAttributes::default()
    }
}

impl Default for UserAttributes {
    fn default() -> (r: UserAttributes)
        ensures
            UserAttributes::is_fallback(r),
    {
        UserAttributes {
            first_name: String::new(),
            last_name: String::new(),
            full_name: String::new(),
            vanity: None,
            email: String::new(),
            about: None,
            facebook_id: None,
            image_url: String::new(),
            thumb_url: String::new(),
            youtube: None,
            twitter: None,
            facebook: None,
            created: unix_epoch(),
            url: String::new(),
        }
    }
}

/// What the service reports of a membership.
#[derive(Clone, Debug, PartialEq)]
pub struct MemberAttributes {
    pub campaign_lifetime_support_cents: i64,
    pub currently_entitled_amount_cents: i64,
    pub email: Option<String>,
    pub full_name: String,
    pub is_follower: bool,
    pub last_charge_date: Timestamp,
    pub last_charge_status: Option<LastChrgeStatus>,
    pub lifetime_support_cents: i64,
    pub next_charge_date: Timestamp,
    pub note: String,
    pub patron_status: Option<PatronStatus>,
    pub pledge_cadence: i64,
    pub pledge_relationship_start: Timestamp,
    pub will_pay_amount_cents: i64,
}

impl Decode for MemberAttributes {
    open spec fn mismatch(tree: JsonTree) -> Option<Mismatch> {
        object_mismatch(tree)
            .otherwise(required_at::<i64>(tree, "campaign_lifetime_support_cents"@))
            .otherwise(required_at::<i64>(tree, "currently_entitled_amount_cents"@))
            .otherwise(tolerant_at::<String>(tree, "email"@))
            .otherwise(required_at::<String>(tree, "full_name"@))
            .otherwise(required_at::<bool>(tree, "is_follower"@))
            .otherwise(required_at::<Timestamp>(tree, "last_charge_date"@))
            .otherwise(tolerant_at::<LastChrgeStatus>(tree, "last_charge_status"@))
            .otherwise(required_at::<i64>(tree, "lifetime_support_cents"@))
            .otherwise(required_at::<Timestamp>(tree, "next_charge_date"@))
            .otherwise(required_at::<String>(tree, "note"@))
            .otherwise(tolerant_at::<PatronStatus>(tree, "patron_status"@))
            .otherwise(required_at::<i64>(tree, "pledge_cadence"@))
            .otherwise(required_at::<Timestamp>(tree, "pledge_relationship_start"@))
            .otherwise(required_at::<i64>(tree, "will_pay_amount_cents"@))
    }

    open spec fn decodes(tree: JsonTree, value: MemberAttributes) -> bool {
        &&& required_decodes::<i64>(
            tree.member("campaign_lifetime_support_cents"@),
            value.campaign_lifetime_support_cents,
        )
        &&& required_decodes::<i64>(
            tree.member("currently_entitled_amount_cents"@),
            value.currently_entitled_amount_cents,
        )
        &&& optional_decodes::<String>(tree.member("email"@), value.email)
        &&& required_decodes::<String>(tree.member("full_name"@), value.full_name)
        &&& required_decodes::<bool>(tree.member("is_follower"@), value.is_follower)
        &&& required_decodes::<Timestamp>(tree.member("last_charge_date"@), value.last_charge_date)
        &&& optional_decodes::<LastChrgeStatus>(
            tree.member("last_charge_status"@),
            value.last_charge_status,
        )
        &&& required_decodes::<i64>(
            tree.member("lifetime_support_cents"@),
            value.lifetime_support_cents,
        )
        &&& required_decodes::<Timestamp>(tree.member("next_charge_date"@), value.next_charge_date)
        &&& required_decodes::<String>(tree.member("note"@), value.note)
        &&& optional_decodes::<PatronStatus>(tree.member("patron_status"@), value.patron_status)
        &&& required_decodes::<i64>(tree.member("pledge_cadence"@), value.pledge_cadence)
        &&& required_decodes::<Timestamp>(
            tree.member("pledge_relationship_start"@),
            value.pledge_relationship_start,
        )
        &&& required_decodes::<i64>(
            tree.member("will_pay_amount_cents"@),
            value.will_pay_amount_cents,
        )
    }

    fn decode(json: &Json) -> (r: Result<MemberAttributes, SchemaError>) {
        expect_object(json)?;
        let campaign_lifetime_support_cents = member_required::<i64>(
            json,
            "campaign_lifetime_support_cents",
        )?;
        let currently_entitled_amount_cents = member_required::<i64>(
            json,
            "currently_entitled_amount_cents",
        )?;
        let email = member_optional::<String>(json, "email")?;
        let full_name = member_required::<String>(json, "full_name")?;
        let is_follower = member_required::<bool>(json, "is_follower")?;
        let last_charge_date = member_required::<Timestamp>(json, "last_charge_date")?;
        let last_charge_status = member_optional::<LastChrgeStatus>(json, "last_charge_status")?;
        let lifetime_support_cents = member_required::<i64>(json, "lifetime_support_cents")?;
        let next_charge_date = member_required::<Timestamp>(json, "next_charge_date")?;
        let note = member_required::<String>(json, "note")?;
        let patron_status = member_optional::<PatronStatus>(json, "patron_status")?;
        let pledge_cadence = member_required::<i64>(json, "pledge_cadence")?;
        let pledge_relationship_start = member_required::<Timestamp>(
            json,
            "pledge_relationship_start",
        )?;
        let will_pay_amount_cents = member_required::<i64>(json, "will_pay_amount_cents")?;
        Ok(
            MemberAttributes {
                campaign_lifetime_support_cents,
                currently_entitled_amount_cents,
                email,
                full_name,
                is_follower,
                last_charge_date,
                last_charge_status,
                lifetime_support_cents,
                next_charge_date,
                note,
                patron_status,
                pledge_cadence,
                pledge_relationship_start,
                will_pay_amount_cents,
            },
        )
    }
}

impl Fallback for MemberAttributes {
    open spec fn is_fallback(value: MemberAttributes) -> bool {
        &&& <i64 as Fallback>::is_fallback(value.campaign_lifetime_support_cents)
        &&& <i64 as Fallback>::is_fallback(value.currently_entitled_amount_cents)
        &&& value.email is None
        &&& <String as Fallback>::is_fallback(value.full_name)
        &&& <bool as Fallback>::is_fallback(value.is_follower)
        &&& <Timestamp as Fallback>::is_fallback(value.last_charge_date)
        &&& value.last_charge_status is None
        &&& <i64 as Fallback>::is_fallback(value.lifetime_support_cents)
        &&& <Timestamp as Fallback>::is_fallback(value.next_charge_date)
        &&& <String as Fallback>::is_fallback(value.note)
        &&& value.patron_status is None
        &&& <i64 as Fallback>::is_fallback(value.pledge_cadence)
        &&& <Timestamp as Fallback>::is_fallback(value.pledge_relationship_start)
        &&& <i64 as Fallback>::is_fallback(value.will_pay_amount_cents)
    }

    fn fallback() -> (r: MemberAttributes) {
        MemberAttributes::default()
    }
}

impl Default for MemberAttributes {
    fn default() -> (r: MemberAttributes)
        ensures
            MemberAttributes::is_fallback(r),
    {
        MemberAttributes {
            campaign_lifetime_support_cents: 0,
            currently_entitled_amount_cents: 0,
            email: None,
            full_name: String::new(),
            is_follower: false,
            last_charge_date: unix_epoch(),
            last_charge_status: None,
            lifetime_support_cents: 0,
            next_charge_date: unix_epoch(),
            note: String::new(),
            patron_status: None,
            pledge_cadence: 0,
            pledge_relationship_start: unix_epoch(),
            will_pay_amount_cents: 0,
        }
    }
}

/// What the service reports of a campaign.
#[derive(Clone, Debug, PartialEq)]
pub struct CampaignAttributes {
    pub created_at: Timestamp,
    pub creation_name: String,
    pub discord_server_id: Option<String>,
    pub google_analytics_id: Option<String>,
    pub has_rss: bool,
    pub has_sent_rss_notify: bool,
    pub image_small_url: String,
    pub image_url: Option<String>,
    pub is_charged_immediately: bool,
    pub is_monthly: bool,
    pub is_nsfw: bool,
    pub main_video_embed: Option<String>,
    pub main_video_url: Option<String>,
    pub one_liner: Option<String>,
    pub patron_count: i64,
    pub pay_per_name: String,
    pub pledge_url: String,
    pub published_at: Option<Timestamp>,
    pub rss_artwork_url: Option<String>,
    pub rss_feed_title: Option<String>,
    pub show_earnings: Option<bool>,
    pub summary: Option<String>,
    pub thanks_embed: Option<String>,
    pub thanks_msg: Option<String>,
    pub thanks_video_url: Option<String>,
    pub url: String,
    pub vanity: String,
}

impl Decode for CampaignAttributes {
    open spec fn mismatch(tree: JsonTree) -> Option<Mismatch> {
        object_mismatch(tree)
            .otherwise(required_at::<Timestamp>(tree, "created_at"@))
            .otherwise(required_at::<String>(tree, "creation_name"@))
            .otherwise(tolerant_at::<String>(tree, "discord_server_id"@))
            .otherwise(tolerant_at::<String>(tree, "google_analytics_id"@))
            .otherwise(required_at::<bool>(tree, "has_rss"@))
            .otherwise(required_at::<bool>(tree, "has_sent_rss_notify"@))
            .otherwise(required_at::<String>(tree, "image_small_url"@))
            .otherwise(tolerant_at::<String>(tree, "image_url"@))
            .otherwise(required_at::<bool>(tree, "is_charged_immediately"@))
            .otherwise(required_at::<bool>(tree, "is_monthly"@))
            .otherwise(required_at::<bool>(tree, "is_nsfw"@))
            .otherwise(tolerant_at::<String>(tree, "main_video_embed"@))
            .otherwise(tolerant_at::<String>(tree, "main_video_url"@))
            .otherwise(tolerant_at::<String>(tree, "one_liner"@))
            .otherwise(required_at::<i64>(tree, "patron_count"@))
            .otherwise(required_at::<String>(tree, "pay_per_name"@))
            .otherwise(required_at::<String>(tree, "pledge_url"@))
            .otherwise(tolerant_at::<Timestamp>(tree, "published_at"@))
            .otherwise(tolerant_at::<String>(tree, "rss_artwork_url"@))
            .otherwise(tolerant_at::<String>(tree, "rss_feed_title"@))
            .otherwise(tolerant_at::<bool>(tree, "show_earnings"@))
            .otherwise(tolerant_at::<String>(tree, "summary"@))
            .otherwise(tolerant_at::<String>(tree, "thanks_embed"@))
            .otherwise(tolerant_at::<String>(tree, "thanks_msg"@))
            .otherwise(tolerant_at::<String>(tree, "thanks_video_url"@))
            .otherwise(required_at::<String>(tree, "url"@))
            .otherwise(required_at::<String>(tree, "vanity"@))
    }

    open spec fn decodes(tree: JsonTree, value: CampaignAttributes) -> bool {
        &&& required_decodes::<Timestamp>(tree.member("created_at"@), value.created_at)
        &&& required_decodes::<String>(tree.member("creation_name"@), value.creation_name)
        &&& optional_decodes::<String>(tree.member("discord_server_id"@), value.discord_server_id)
        &&& optional_decodes::<String>(
            tree.member("google_analytics_id"@),
            value.google_analytics_id,
        )
        &&& required_decodes::<bool>(tree.member("has_rss"@), value.has_rss)
        &&& required_decodes::<bool>(tree.member("has_sent_rss_notify"@), value.has_sent_rss_notify)
        &&& required_decodes::<String>(tree.member("image_small_url"@), value.image_small_url)
        &&& optional_decodes::<String>(tree.member("image_url"@), value.image_url)
        &&& required_decodes::<bool>(
            tree.member("is_charged_immediately"@),
            value.is_charged_immediately,
        )
        &&& required_decodes::<bool>(tree.member("is_monthly"@), value.is_monthly)
        &&& required_decodes::<bool>(tree.member("is_nsfw"@), value.is_nsfw)
        &&& optional_decodes::<String>(tree.member("main_video_embed"@), value.main_video_embed)
        &&& optional_decodes::<String>(tree.member("main_video_url"@), value.main_video_url)
        &&& optional_decodes::<String>(tree.member("one_liner"@), value.one_liner)
        &&& required_decodes::<i64>(tree.member("patron_count"@), value.patron_count)
        &&& required_decodes::<String>(tree.member("pay_per_name"@), value.pay_per_name)
        &&& required_decodes::<String>(tree.member("pledge_url"@), value.pledge_url)
        &&& optional_decodes::<Timestamp>(tree.member("published_at"@), value.published_at)
        &&& optional_decodes::<String>(tree.member("rss_artwork_url"@), value.rss_artwork_url)
        &&& optional_decodes::<String>(tree.member("rss_feed_title"@), value.rss_feed_title)
        &&& optional_decodes::<bool>(tree.member("show_earnings"@), value.show_earnings)
        &&& optional_decodes::<String>(tree.member("summary"@), value.summary)
        &&& optional_decodes::<String>(tree.member("thanks_embed"@), value.thanks_embed)
        &&& optional_decodes::<String>(tree.member("thanks_msg"@), value.thanks_msg)
        &&& optional_decodes::<String>(tree.member("thanks_video_url"@), value.thanks_video_url)
        &&& required_decodes::<String>(tree.member("url"@), value.url)
        &&& required_decodes::<String>(tree.member("vanity"@), value.vanity)
    }

    fn decode(json: &Json) -> (r: Result<CampaignAttributes, SchemaError>) {
        expect_object(json)?;
        let created_at = member_required::<Timestamp>(json, "created_at")?;
        let creation_name = member_required::<String>(json, "creation_name")?;
        let discord_server_id = member_optional::<String>(json, "discord_server_id")?;
        let google_analytics_id = member_optional::<String>(json, "google_analytics_id")?;
        let has_rss = member_required::<bool>(json, "has_rss")?;
        let has_sent_rss_notify = member_required::<bool>(json, "has_sent_rss_notify")?;
        let image_small_url = member_required::<String>(json, "image_small_url")?;
        let image_url = member_optional::<String>(json, "image_url")?;
        let is_charged_immediately = member_required::<bool>(json, "is_charged_immediately")?;
        let is_monthly = member_required::<bool>(json, "is_monthly")?;
        let is_nsfw = member_required::<bool>(json, "is_nsfw")?;
        let main_video_embed = member_optional::<String>(json, "main_video_embed")?;
        let main_video_url = member_optional::<String>(json, "main_video_url")?;
        let one_liner = member_optional::<String>(json, "one_liner")?;
        let patron_count = member_required::<i64>(json, "patron_count")?;
        let pay_per_name = member_required::<String>(json, "pay_per_name")?;
        let pledge_url = member_required::<String>(json, "pledge_url")?;
        let published_at = member_optional::<Timestamp>(json, "published_at")?;
        let rss_artwork_url = member_optional::<String>(json, "rss_artwork_url")?;
        let rss_feed_title = member_optional::<String>(json, "rss_feed_title")?;
        let show_earnings = member_optional::<bool>(json, "show_earnings")?;
        let summary = member_optional::<String>(json, "summary")?;
        let thanks_embed = member_optional::<String>(json, "thanks_embed")?;
        let thanks_msg = member_optional::<String>(json, "thanks_msg")?;
        let thanks_video_url = member_optional::<String>(json, "thanks_video_url")?;
        let url = member_required::<String>(json, "url")?;
        let vanity = member_required::<String>(json, "vanity")?;
        Ok(
            CampaignAttributes {
                created_at,
                creation_name,
                discord_server_id,
                google_analytics_id,
                has_rss,
                has_sent_rss_notify,
                image_small_url,
                image_url,
                is_charged_immediately,
                is_monthly,
                is_nsfw,
                main_video_embed,
                main_video_url,
                one_liner,
                patron_count,
                pay_per_name,
                pledge_url,
                published_at,
                rss_artwork_url,
                rss_feed_title,
                show_earnings,
                summary,
                thanks_embed,
                thanks_msg,
                thanks_video_url,
                url,
                vanity,
            },
        )
    }
}

impl Fallback for CampaignAttributes {
    open spec fn is_fallback(value: CampaignAttributes) -> bool {
        &&& <Timestamp as Fallback>::is_fallback(value.created_at)
        &&& <String as Fallback>::is_fallback(value.creation_name)
        &&& value.discord_server_id is None
        &&& value.google_analytics_id is None
        &&& <bool as Fallback>::is_fallback(value.has_rss)
        &&& <bool as Fallback>::is_fallback(value.has_sent_rss_notify)
        &&& <String as Fallback>::is_fallback(value.image_small_url)
        &&& value.image_url is None
        &&& <bool as Fallback>::is_fallback(value.is_charged_immediately)
        &&& <bool as Fallback>::is_fallback(value.is_monthly)
        &&& <bool as Fallback>::is_fallback(value.is_nsfw)
        &&& value.main_video_embed is None
        &&& value.main_video_url is None
        &&& value.one_liner is None
        &&& <i64 as Fallback>::is_fallback(value.patron_count)
        &&& <String as Fallback>::is_fallback(value.pay_per_name)
        &&& <String as Fallback>::is_fallback(value.pledge_url)
        &&& value.published_at is None
        &&& value.rss_artwork_url is None
        &&& value.rss_feed_title is None
        &&& value.show_earnings is None
        &&& value.summary is None
        &&& value.thanks_embed is None
        &&& value.thanks_msg is None
        &&& value.thanks_video_url is None
        &&& <String as Fallback>::is_fallback(value.url)
        &&& <String as Fallback>::is_fallback(value.vanity)
    }

    fn fallback() -> (r: CampaignAttributes) {
        CampaignAttributes::default()
    }
}

impl Default for CampaignAttributes {
    fn default() -> (r: CampaignAttributes)
        ensures
            CampaignAttributes::is_fallback(r),
    {
        CampaignAttributes {
            created_at: unix_epoch(),
            creation_name: String::new(),
            discord_server_id: None,
            google_analytics_id: None,
            has_rss: false,
            has_sent_rss_notify: false,
            image_small_url: String::new(),
            image_url: None,
            is_charged_immediately: false,
            is_monthly: false,
            is_nsfw: false,
            main_video_embed: None,
            main_video_url: None,
            one_liner: None,
            patron_count: 0,
            pay_per_name: String::new(),
            pledge_url: String::new(),
            published_at: None,
            rss_artwork_url: None,
            rss_feed_title: None,
            show_earnings: None,
            summary: None,
            thanks_embed: None,
            thanks_msg: None,
            thanks_video_url: None,
            url: String::new(),
            vanity: String::new(),
        }
    }
}

/// What the service reports of a pledge.
#[derive(Clone, Debug, PartialEq)]
pub struct PledgeAttributes {
    pub amount_cents: i64,
    pub created_at: Timestamp,
    pub currency: String,
    pub declined_since: Option<Timestamp>,
    pub patron_pays_fees: bool,
    pub pledge_cap_cents: i64,
}

impl Decode for PledgeAttributes {
    open spec fn mismatch(tree: JsonTree) -> Option<Mismatch> {
        object_mismatch(tree)
            .otherwise(required_at::<i64>(tree, "amount_cents"@))
            .otherwise(required_at::<Timestamp>(tree, "created_at"@))
            .otherwise(required_at::<String>(tree, "currency"@))
            .otherwise(tolerant_at::<Timestamp>(tree, "declined_since"@))
            .otherwise(required_at::<bool>(tree, "patron_pays_fees"@))
            .otherwise(required_at::<i64>(tree, "pledge_cap_cents"@))
    }

    open spec fn decodes(tree: JsonTree, value: PledgeAttributes) -> bool {
        &&& required_decodes::<i64>(tree.member("amount_cents"@), value.amount_cents)
        &&& required_decodes::<Timestamp>(tree.member("created_at"@), value.created_at)
        &&& required_decodes::<String>(tree.member("currency"@), value.currency)
        &&& optional_decodes::<Timestamp>(tree.member("declined_since"@), value.declined_since)
        &&& required_decodes::<bool>(tree.member("patron_pays_fees"@), value.patron_pays_fees)
        &&& required_decodes::<i64>(tree.member("pledge_cap_cents"@), value.pledge_cap_cents)
    }

    fn decode(json: &Json) -> (r: Result<PledgeAttributes, SchemaError>) {
        expect_object(json)?;
        let amount_cents = member_required::<i64>(json, "amount_cents")?;
        let created_at = member_required::<Timestamp>(json, "created_at")?;
        let currency = member_required::<String>(json, "currency")?;
        let declined_since = member_optional::<Timestamp>(json, "declined_since")?;
        let patron_pays_fees = member_required::<bool>(json, "patron_pays_fees")?;
        let pledge_cap_cents = member_required::<i64>(json, "pledge_cap_cents")?;
        Ok(
            PledgeAttributes {
                amount_cents,
                created_at,
                currency,
                declined_since,
                patron_pays_fees,
                pledge_cap_cents,
            },
        )
    }
}

impl Fallback for PledgeAttributes {
    open spec fn is_fallback(value: PledgeAttributes) -> bool {
        &&& <i64 as Fallback>::is_fallback(value.amount_cents)
        &&& <Timestamp as Fallback>::is_fallback(value.created_at)
        &&& <String as Fallback>::is_fallback(value.currency)
        &&& value.declined_since is None
        &&& <bool as Fallback>::is_fallback(value.patron_pays_fees)
        &&& <i64 as Fallback>::is_fallback(value.pledge_cap_cents)
    }

    fn fallback() -> (r: PledgeAttributes) {
        PledgeAttributes::default()
    }
}

impl Default for PledgeAttributes {
    fn default() -> (r: PledgeAttributes)
        ensures
            PledgeAttributes::is_fallback(r),
    {
        PledgeAttributes {
            amount_cents: 0,
            created_at: unix_epoch(),
            currency: String::new(),
            declined_since: None,
            patron_pays_fees: false,
            pledge_cap_cents: 0,
        }
    }
}

/// The body of a failed request.
#[derive(Clone, Debug, PartialEq)]
pub struct ApiErrorResponse {
    pub errors: Vec<ApiError>,
}

impl Decode for ApiErrorResponse {
    open spec fn mismatch(tree: JsonTree) -> Option<Mismatch> {
        object_mismatch(tree)
            .otherwise(required_at::<Vec<ApiError>>(tree, "errors"@))
    }

    open spec fn decodes(tree: JsonTree, value: ApiErrorResponse) -> bool {
        &&& required_decodes::<Vec<ApiError>>(tree.member("errors"@), value.errors)
    }

    fn decode(json: &Json) -> (r: Result<ApiErrorResponse, SchemaError>) {
        expect_object(json)?;
        let errors = member_required::<Vec<ApiError>>(json, "errors")?;
        Ok(
            ApiErrorResponse {
                errors,
            },
        )
    }
}

/// What an identity request asks to have included.
#[derive(Clone, Copy, Debug, PartialEq, Eq, Structural)]
pub enum IdentityIncldue {
    /// `memberships`
    Memberships,
    /// `campaign`
    Campaign,
}

impl IdentityIncldue {
    /// The wire word.
    pub open spec fn word(self) -> Seq<char> {
        match self {
            IdentityIncldue::Memberships => "memberships"@,
            IdentityIncldue::Campaign => "campaign"@,
        }
    }

    /// The kind that a wire word names, by exact, case-sensitive match.
    pub open spec fn of_word(word: Seq<char>) -> Option<IdentityIncldue> {
        if word == "memberships"@ {
            Some(IdentityIncldue::Memberships)
        } else if word == "campaign"@ {
            Some(IdentityIncldue::Campaign)
        } else {
            None
        }
    }

    /// Reads a wire word.
    pub fn from_wire(word: &str) -> (r: Option<IdentityIncldue>)
        ensures
            r == IdentityIncldue::of_word(word@),
    {
        if str_eq(word, "memberships") {
            Some(IdentityIncldue::Memberships)
        } else if str_eq(word, "campaign") {
            Some(IdentityIncldue::Campaign)
        } else {
            None
        }
    }

    /// The wire word.
    pub fn as_str(&self) -> (r: &'static str)
        ensures
            r@ == self.word(),
    {
        match self {
            IdentityIncldue::Memberships => "memberships",
            IdentityIncldue::Campaign => "campaign",
        }
    }
}

impl Decode for IdentityIncldue {
    open spec fn mismatch(tree: JsonTree) -> Option<Mismatch> {
        match tree {
            JsonTree::Text(word) => if IdentityIncldue::of_word(word) is Some {
                None
            } else {
                Some(unplaced(Expected::Variant))
            },
            _ => Some(unplaced(Expected::Text)),
        }
    }

    open spec fn decodes(tree: JsonTree, value: IdentityIncldue) -> bool {
        tree is Text && IdentityIncldue::of_word(tree->Text_0) == Some(value)
    }

    fn decode(json: &Json) -> (r: Result<IdentityIncldue, SchemaError>) {
        match json {
            Json::Text(word) => match IdentityIncldue::from_wire(word.as_str()) {
                Some(kind) => Ok(kind),
                None => Err(SchemaError::unplaced(Expected::Variant)),
            },
            _ => Err(SchemaError::unplaced(Expected::Text)),
        }
    }
}

/// Reading the wire word of a kind gives that kind back.
pub proof fn lemma_identity_incldue_word_read_back(kind: IdentityIncldue)
    ensures
        IdentityIncldue::of_word(kind.word()) == Some(kind),
{
    reveal_strlit("memberships");
    reveal_strlit("campaign");
    assert("memberships"@.len() == 11);
    assert("campaign"@.len() == 8);
}

/// A word that names a known kind is the wire word of that kind.
pub proof fn lemma_identity_incldue_word_kept(word: Seq<char>)
    requires
        IdentityIncldue::of_word(word) is Some,
    ensures
        IdentityIncldue::of_word(word)->0.word() == word,
{
}

/// How the last charge of a membership went.
#[derive(Clone, Copy, Debug, PartialEq, Eq, Structural)]
pub enum LastChrgeStatus {
    /// `Paid`
    Paid,
    /// `Declined`
    Declined,
    /// `Deleted`
    Deleted,
    /// `Pending`
    Pending,
    /// `Refunded`
    Refunded,
    /// `Fraud`
    Fraud,
    /// `Other`
    Other,
}

impl LastChrgeStatus {
    /// The wire word.
    pub open spec fn word(self) -> Seq<char> {
        match self {
            LastChrgeStatus::Paid => "Paid"@,
            LastChrgeStatus::Declined => "Declined"@,
            LastChrgeStatus::Deleted => "Deleted"@,
            LastChrgeStatus::Pending => "Pending"@,
            LastChrgeStatus::Refunded => "Refunded"@,
            LastChrgeStatus::Fraud => "Fraud"@,
            LastChrgeStatus::Other => "Other"@,
        }
    }

    /// The kind that a wire word names, by exact, case-sensitive match.
    pub open spec fn of_word(word: Seq<char>) -> Option<LastChrgeStatus> {
        if word == "Paid"@ {
            Some(LastChrgeStatus::Paid)
        } else if word == "Declined"@ {
            Some(LastChrgeStatus::Declined)
        } else if word == "Deleted"@ {
            Some(LastChrgeStatus::Deleted)
        } else if word == "Pending"@ {
            Some(LastChrgeStatus::Pending)
        } else if word == "Refunded"@ {
            Some(LastChrgeStatus::Refunded)
        } else if word == "Fraud"@ {
            Some(LastChrgeStatus::Fraud)
        } else if word == "Other"@ {
            Some(LastChrgeStatus::Other)
        } else {
            None
        }
    }

    /// Reads a wire word.
    pub fn from_wire(word: &str) -> (r: Option<LastChrgeStatus>)
        ensures
            r == LastChrgeStatus::of_word(word@),
    {
        if str_eq(word, "Paid") {
            Some(LastChrgeStatus::Paid)
        } else if str_eq(word, "Declined") {
            Some(LastChrgeStatus::Declined)
        } else if str_eq(word, "Deleted") {
            Some(LastChrgeStatus::Deleted)
        } else if str_eq(word, "Pending") {
            Some(LastChrgeStatus::Pending)
        } else if str_eq(word, "Refunded") {
            Some(LastChrgeStatus::Refunded)
        } else if str_eq(word, "Fraud") {
            Some(LastChrgeStatus::Fraud)
        } else if str_eq(word, "Other") {
            Some(LastChrgeStatus::Other)
        } else {
            None
        }
    }

    /// The wire word.
    pub fn as_str(&self) -> (r: &'static str)
        ensures
            r@ == self.word(),
    {
        match self {
            LastChrgeStatus::Paid => "Paid",
            LastChrgeStatus::Declined => "Declined",
            LastChrgeStatus::Deleted => "Deleted",
            LastChrgeStatus::Pending => "Pending",
            LastChrgeStatus::Refunded => "Refunded",
            LastChrgeStatus::Fraud => "Fraud",
            LastChrgeStatus::Other => "Other",
        }
    }
}

impl Decode for LastChrgeStatus {
    open spec fn mismatch(tree: JsonTree) -> Option<Mismatch> {
        match tree {
            JsonTree::Text(word) => if LastChrgeStatus::of_word(word) is Some {
                None
            } else {
                Some(unplaced(Expected::Variant))
            },
            _ => Some(unplaced(Expected::Text)),
        }
    }

    open spec fn decodes(tree: JsonTree, value: LastChrgeStatus) -> bool {
        tree is Text && LastChrgeStatus::of_word(tree->Text_0) == Some(value)
    }

    fn decode(json: &Json) -> (r: Result<LastChrgeStatus, SchemaError>) {
        match json {
            Json::Text(word) => match LastChrgeStatus::from_wire(word.as_str()) {
                Some(kind) => Ok(kind),
                None => Err(SchemaError::unplaced(Expected::Variant)),
            },
            _ => Err(SchemaError::unplaced(Expected::Text)),
        }
    }
}

/// Reading the wire word of a kind gives that kind back.
pub proof fn lemma_last_chrge_status_word_read_back(kind: LastChrgeStatus)
    ensures
        LastChrgeStatus::of_word(kind.word()) == Some(kind),
{
    reveal_strlit("Paid");
    reveal_strlit("Declined");
    reveal_strlit("Deleted");
    reveal_strlit("Pending");
    reveal_strlit("Refunded");
    reveal_strlit("Fraud");
    reveal_strlit("Other");
    assert("Paid"@.len() == 4);
    assert("Declined"@.len() == 8);
    assert("Deleted"@.len() == 7);
    assert("Pending"@.len() == 7);
    assert("Refunded"@.len() == 8);
    assert("Fraud"@.len() == 5);
    assert("Other"@.len() == 5);
    assert("Declined"@[0] != "Refunded"@[0]);
    assert("Deleted"@[0] != "Pending"@[0]);
    assert("Fraud"@[0] != "Other"@[0]);
}

/// A word that names a known kind is the wire word of that kind.
pub proof fn lemma_last_chrge_status_word_kept(word: Seq<char>)
    requires
        LastChrgeStatus::of_word(word) is Some,
    ensures
        LastChrgeStatus::of_word(word)->0.word() == word,
{
}

/// Where a membership stands.
#[derive(Clone, Copy, Debug, PartialEq, Eq, Structural)]
pub enum PatronStatus {
    /// `active_patron`
    ActivePatron,
    /// `declined_patron`
    DeclinedPatron,
    /// `former_patron`
    FormerPatron,
}

impl PatronStatus {
    /// The wire word.
    pub open spec fn word(self) -> Seq<char> {
        match self {
            PatronStatus::ActivePatron => "active_patron"@,
            PatronStatus::DeclinedPatron => "declined_patron"@,
            PatronStatus::FormerPatron => "former_patron"@,
        }
    }

    /// The kind that a wire word names, by exact, case-sensitive match.
    pub open spec fn of_word(word: Seq<char>) -> Option<PatronStatus> {
        if word == "active_patron"@ {
            Some(PatronStatus::ActivePatron)
        } else if word == "declined_patron"@ {
            Some(PatronStatus::DeclinedPatron)
        } else if word == "former_patron"@ {
            Some(PatronStatus::FormerPatron)
        } else {
            None
        }
    }

    /// Reads a wire word.
    pub fn from_wire(word: &str) -> (r: Option<PatronStatus>)
        ensures
            r == PatronStatus::of_word(word@),
    {
        if str_eq(word, "active_patron") {
            Some(PatronStatus::ActivePatron)
        } else if str_eq(word, "declined_patron") {
            Some(PatronStatus::DeclinedPatron)
        } else if str_eq(word, "former_patron") {
            Some(PatronStatus::FormerPatron)
        } else {
            None
        }
    }

    /// The wire word.
    pub fn as_str(&self) -> (r: &'static str)
        ensures
            r@ == self.word(),
    {
        match self {
            PatronStatus::ActivePatron => "active_patron",
            PatronStatus::DeclinedPatron => "declined_patron",
            PatronStatus::FormerPatron => "former_patron",
        }
    }
}

impl Decode for PatronStatus {
    open spec fn mismatch(tree: JsonTree) -> Option<Mismatch> {
        match tree {
            JsonTree::Text(word) => if PatronStatus::of_word(word) is Some {
                None
            } else {
                Some(unplaced(Expected::Variant))
            },
            _ => Some(unplaced(Expected::Text)),
        }
    }

    open spec fn decodes(tree: JsonTree, value: PatronStatus) -> bool {
        tree is Text && PatronStatus::of_word(tree->Text_0) == Some(value)
    }

    fn decode(json: &Json) -> (r: Result<PatronStatus, SchemaError>) {
        match json {
            Json::Text(word) => match PatronStatus::from_wire(word.as_str()) {
                Some(kind) => Ok(kind),
                None => Err(SchemaError::unplaced(Expected::Variant)),
            },
            _ => Err(SchemaError::unplaced(Expected::Text)),
        }
    }
}

/// Reading the wire word of a kind gives that kind back.
pub proof fn lemma_patron_status_word_read_back(kind: PatronStatus)
    ensures
        PatronStatus::of_word(kind.word()) == Some(kind),
{
    reveal_strlit("active_patron");
    reveal_strlit("declined_patron");
    reveal_strlit("former_patron");
    assert("active_patron"@.len() == 13);
    assert("declined_patron"@.len() == 15);
    assert("former_patron"@.len() == 13);
    assert("active_patron"@[0] != "former_patron"@[0]);
}

/// A word that names a known kind is the wire word of that kind.
pub proof fn lemma_patron_status_word_kept(word: Seq<char>)
    requires
        PatronStatus::of_word(word) is Some,
    ensures
        PatronStatus::of_word(word)->0.word() == word,
{
}

/// The user fields an identity request asks for.
pub const IDENTITY_USER_FIELDS: &'static str =
    "first_name,last_name,full_name,vanity,email,about,image_url,thumb_url,created,url";

/// The member fields an identity request asks for with memberships.
pub const IDENTITY_MEMBER_FIELDS: &'static str =
    "campaign_lifetime_support_cents,currently_entitled_amount_cents,email,full_name,is_follower,last_charge_date,last_charge_status,lifetime_support_cents,next_charge_date,note,patron_status,pledge_cadence,pledge_relationship_start,will_pay_amount_cents";

/// The campaign fields an identity request asks for with the campaign.
pub const IDENTITY_CAMPAIGN_FIELDS: &'static str =
    "created_at,creation_name,discord_server_id,google_analytics_id,has_rss,has_sent_rss_notify,image_small_url,image_url,is_charged_immediately,is_monthly,is_nsfw,main_video_embed,main_video_url,one_liner,patron_count,pay_per_name,pledge_url,published_at,rss_artwork_url,rss_feed_title,show_earnings,summary,thanks_embed,thanks_msg,thanks_video_url,url,vanity";

/// A user's access to the first generation of the API.
#[derive(Debug)]
pub struct PatreonApi {
    pub access_token: String,
}

impl Default for PatreonApi {
    fn default() -> (r: PatreonApi)
        ensures
            r.access_token@.len() == 0,
    {
        PatreonApi { access_token: String::new() }
    }
}

/// The text of the URL that asks for the current user.
pub open spec fn current_user_url_text() -> Option<Seq<char>> {
    with_path(parsed_url(BASE_URI@), "/api/oauth2/api/current_user"@)
}

/// The text of the URL that asks for the identity, with what is to be
/// included and the fields of it.
pub open spec fn identity_url_text(wanted: Option<IdentityIncldue>) -> Option<Seq<char>> {
    let plain = with_pair(
        with_path(parsed_url(BASE_URI@), "api/oauth2/v2/identity"@),
        "fields[user]"@,
        IDENTITY_USER_FIELDS@,
    );
    match wanted {
        None => plain,
        Some(IdentityIncldue::Memberships) => with_pair(
            with_pair(plain, "include"@, IdentityIncldue::Memberships.word()),
            "fields[member]"@,
            IDENTITY_MEMBER_FIELDS@,
        ),
        Some(IdentityIncldue::Campaign) => with_pair(
            with_pair(plain, "include"@, IdentityIncldue::Campaign.word()),
            "fields[campaign]"@,
            IDENTITY_CAMPAIGN_FIELDS@,
        ),
    }
}

/// Whether `e` is the failure that the error list in `body` reports under
/// `status`, or the failure of reading it.
pub open spec fn is_api_refusal(status: u16, body: Seq<u8>, e: PatreonError) -> bool {
    match json_document(body) {
        None => e is SerdeJson,
        Some(tree) => match ApiErrorResponse::mismatch(tree) {
            Some(m) => e is Schema && e->Schema_0@ == m,
            None => {
                &&& e is PatreonApi
                &&& e->PatreonApi_0 == status
                &&& required_decodes::<Vec<ApiError>>(tree.member("errors"@), e->PatreonApi_1)
            },
        },
    }
}

/// Whether `r` is what a call comes to that reads the `data` of its
/// answer.
pub open spec fn call_data_outcome<T: Decode>(
    status: u16,
    body: Seq<u8>,
    r: Result<T, PatreonError>,
) -> bool {
    if success(status) {
        data_outcome::<T>(body, r)
    } else {
        r is Err && is_api_refusal(status, body, r->Err_0)
    }
}

/// Whether `r` is what a call comes to that reads the `data` of its answer
/// and what is included with it.
pub open spec fn call_data_and_include_outcome<D: Decode, I: Decode>(
    status: u16,
    body: Seq<u8>,
    r: Result<(D, Vec<I>), PatreonError>,
) -> bool {
    if success(status) {
        match r {
            Ok(pair) => document_outcome::<DocResponseInclude<D, I>>(
                body,
                Ok(DocResponseInclude { data: pair.0, included: pair.1 }),
            ),
            Err(e) => document_outcome::<DocResponseInclude<D, I>>(body, Err(e)),
        }
    } else {
        r is Err && is_api_refusal(status, body, r->Err_0)
    }
}

impl PatreonApi {
    /// The URL that asks for the current user.
    pub fn current_user_url() -> (r: Result<String, PatreonError>)
        ensures
            r is Ok <==> current_user_url_text() is Some,
            r is Ok ==> Some(r->Ok_0@) == current_user_url_text(),
            r is Err ==> r->Err_0 is Message,
    {
        url_or_message(to_text(set_path(parse(BASE_URI), "/api/oauth2/api/current_user")))
    }

    /// The URL that asks for the identity: always with the user's fields,
    /// and with what is to be included and the fields of that.
    pub fn identity_request(wanted: Option<IdentityIncldue>) -> (r: Result<String, PatreonError>)
        ensures
            r is Ok <==> identity_url_text(wanted) is Some,
            r is Ok ==> Some(r->Ok_0@) == identity_url_text(wanted),
            r is Err ==> r->Err_0 is Message,
    {
        let url = set_path(parse(BASE_URI), "api/oauth2/v2/identity");
        let url = append_pair(url, "fields[user]", IDENTITY_USER_FIELDS);
        let url = match wanted {
            None => url,
            Some(what) => {
                let url = append_pair(url, "include", what.as_str());
                match what {
                    IdentityIncldue::Memberships => append_pair(
                        url,
                        "fields[member]",
                        IDENTITY_MEMBER_FIELDS,
                    ),
                    IdentityIncldue::Campaign => append_pair(
                        url,
                        "fields[campaign]",
                        IDENTITY_CAMPAIGN_FIELDS,
                    ),
                }
            },
        };
        url_or_message(to_text(url))
    }

    /// The headers every call carries, in order: `Authorization` with the
    /// bearer token, then `User-Agent`.
    pub fn request_headers(&self) -> (r: Vec<(String, String)>)
        ensures
            r@.len() == 2,
            r@[0].0@ == "Authorization"@,
            r@[0].1@ == bearer(self.access_token@),
            r@[1].0@ == "User-Agent"@,
            r@[1].1@ == "Patreon-rust"@,
    {
        let mut r: Vec<(String, String)> = Vec::new();
        r.push(("Authorization".to_owned(), bearer_value(self.access_token.as_str())));
        r.push(("User-Agent".to_owned(), "Patreon-rust".to_owned()));
        r
    }

    /// What a call comes to: the text of a success as it is, the error list
    /// of anything else.
    pub fn api_call(status: u16, text: String) -> (r: Result<String, PatreonError>)
        ensures
            success(status) ==> r == Ok::<String, PatreonError>(text),
            !success(status) ==> r is Err && is_api_refusal(status, encode_utf8(text@), r->Err_0),
    {
        if is_success(status) {
            Ok(text)
        } else {
            match decode_document::<ApiErrorResponse>(text.as_str().as_bytes()) {
                Ok(refusal) => Err(PatreonError::PatreonApi(status, refusal.errors)),
                Err(e) => Err(e),
            }
        }
    }

    /// What a call comes to that reads the `data` of its answer.
    pub fn call_data<T: Decode>(status: u16, text: String) -> (r: Result<T, PatreonError>)
        ensures
            call_data_outcome::<T>(status, encode_utf8(text@), r),
    {
        match PatreonApi::api_call(status, text) {
            Ok(json) => DocResponse::<T>::parse(json.as_str().as_bytes()),
            Err(e) => Err(e),
        }
    }

    /// What a call comes to that reads the `data` of its answer and what
    /// is included with it.
    pub fn call_data_and_include<D: Decode, I: Decode>(status: u16, text: String) -> (r: Result<
        (D, Vec<I>),
        PatreonError,
    >)
        ensures
            call_data_and_include_outcome::<D, I>(status, encode_utf8(text@), r),
    {
        match PatreonApi::api_call(status, text) {
            Ok(json) => match decode_document::<DocResponseInclude<D, I>>(json.as_str().as_bytes()) {
                Ok(response) => Ok((response.data, response.included)),
                Err(e) => Err(e),
            },
            Err(e) => Err(e),
        }
    }
}

} // verus!
