//! The creator's side of the API: campaigns, members, posts and webhooks.
//!
//! This module builds the requests and reads the responses; sending is the
//! caller's part.

use vstd::prelude::*;
use vstd::string::*;
use crate::json::{string_trees, text_trees, Json, JsonTree};
use crate::text::{chain2, chain3, decimal, decimal_text};
use crate::transport::{bearer, json_headers};

pub mod campaign_fields;
pub mod member_fields;
pub mod webhook_triggers;

verus! {

/// Where the API lives unless a client is told otherwise.
pub const API_BASE_URL: &'static str = "https://www.patreon.com/api/oauth2/v2";

/// The most members one page holds.
pub const MEMBERS_PAGE_LIMIT: u32 = 1000;

/// The most posts one page holds.
pub const POSTS_PAGE_LIMIT: u32 = 100;

pub const CAMPAIGNS_WITH_DETAILS: &'static str =
    "/campaigns?include=creator&fields[campaign]=created_at,creation_name,discord_server_id,image_url,image_small_url,is_charged_immediately,is_monthly,is_nsfw,main_video_embed,main_video_url,one_liner,patron_count,pay_per_name,pledge_sum_cents,pledge_sum_currency,published_at,summary,thanks_embed,thanks_msg,thanks_video_url,url,vanity&fields[user]=full_name,image_url,url";

pub const CAMPAIGN_DETAILS: &'static str =
    "?include=tiers,tiers.benefits,creator,goals&fields[campaign]=created_at,creation_name,discord_server_id,image_url,image_small_url,is_charged_immediately,is_monthly,is_nsfw,main_video_embed,main_video_url,one_liner,patron_count,pay_per_name,pledge_sum_cents,pledge_sum_currency,published_at,summary,thanks_embed,thanks_msg,thanks_video_url,url,vanity,show_earnings&fields[tier]=amount_cents,created_at,description,discord_role_ids,edited_at,image_url,patron_count,post_count,published,published_at,title,unpublished_at,url,user_limit&fields[benefit]=benefit_type,created_at,deliverables_due_today_count,delivered_deliverables_count,description,is_deleted,is_published,next_deliverable_due_date,not_delivered_deliverables_count,rule_type,tiers_count,title&fields[goal]=amount_cents,completed_percentage,created_at,description,reached_at,title&fields[user]=full_name,image_url,url";

pub const MEMBERS_DETAILS: &'static str =
    "/members?include=user,currently_entitled_tiers,address&fields[member]=campaign_lifetime_support_cents,currently_entitled_amount_cents,email,full_name,is_follower,last_charge_date,last_charge_status,lifetime_support_cents,next_charge_date,note,patron_status,pledge_relationship_start,will_pay_amount_cents&fields[user]=email,full_name,image_url,url,vanity&fields[tier]=amount_cents,title,url&fields[address]=addressee,city,country,line_1,line_2,phone_number,postal_code,state";

pub const MEMBER_DETAILS: &'static str =
    "?include=user,currently_entitled_tiers,address,campaign&fields[member]=campaign_lifetime_support_cents,currently_entitled_amount_cents,email,full_name,is_follower,last_charge_date,last_charge_status,lifetime_support_cents,next_charge_date,note,patron_status,pledge_relationship_start,will_pay_amount_cents&fields[user]=email,full_name,image_url,url,vanity&fields[tier]=amount_cents,title,url&fields[address]=addressee,city,country,line_1,line_2,phone_number,postal_code,state&fields[campaign]=creation_name,image_url,url,vanity";

pub const POSTS_DETAILS: &'static str =
    "/posts?include=user,campaign&fields[post]=app_id,app_status,content,embed_data,embed_url,is_paid,is_public,published_at,title,url,was_posted_by_campaign_owner,comment_count,like_count,teaser_text&fields[user]=full_name,image_url,url,vanity&fields[campaign]=creation_name,url,vanity";

pub const POST_DETAILS: &'static str =
    "?include=user,campaign&fields[post]=app_id,app_status,content,embed_data,embed_url,is_paid,is_public,published_at,title,url,was_posted_by_campaign_owner,comment_count,like_count,teaser_text&fields[user]=full_name,image_url,url,vanity&fields[campaign]=creation_name,url,vanity";

/// A creator's access to the API.
#[derive(Clone, Debug)]
pub struct PatreonCreatorClient {
    pub access_token: String,
    pub base_url: String,
}

/// Query parameters for listing members.
#[derive(Clone, Debug)]
pub struct MembersQuery {
    /// Cursor (for pagination).
    pub cursor: Option<String>,
    /// Page size (max 1000).
    pub page_size: Option<u32>,
}

impl Default for MembersQuery {
    fn default() -> (r: MembersQuery)
        ensures
            r.cursor is None,
            r.page_size is None,
    {
        MembersQuery { cursor: None, page_size: None }
    }
}

/// Query parameters for listing posts.
#[derive(Clone, Debug)]
pub struct PostsQuery {
    /// Cursor (for pagination).
    pub cursor: Option<String>,
    /// Page size (max 100).
    pub page_size: Option<u32>,
}

impl Default for PostsQuery {
    fn default() -> (r: PostsQuery)
        ensures
            r.cursor is None,
            r.page_size is None,
    {
        PostsQuery { cursor: None, page_size: None }
    }
}

/// Parameters for creating a webhook.
#[derive(Clone, Debug)]
pub struct CreateWebhookRequest {
    /// Webhook URL.
    pub uri: String,
    /// Campaign ID.
    pub campaign_id: String,
    /// Trigger list.
    pub triggers: Vec<String>,
}

/// The body that asks for a webhook at `uri`, for the campaign
/// `campaign_id`, on `triggers`.
pub open spec fn create_webhook_tree(
    uri: Seq<char>,
    campaign_id: Seq<char>,
    triggers: Seq<String>,
) -> JsonTree {
    let attributes = JsonTree::empty_object().with("uri"@, JsonTree::Text(uri)).with(
        "triggers"@,
        JsonTree::Array(string_trees(triggers)),
    );
    let campaign = JsonTree::empty_object().with("type"@, JsonTree::Text("campaign"@)).with(
        "id"@,
        JsonTree::Text(campaign_id),
    );
    let relationships = JsonTree::empty_object().with(
        "campaign"@,
        JsonTree::empty_object().with("data"@, campaign),
    );
    let data = JsonTree::empty_object().with("type"@, JsonTree::Text("webhook"@)).with(
        "attributes"@,
        attributes,
    ).with("relationships"@, relationships);
    JsonTree::empty_object().with("data"@, data)
}

/// The triggers of an update, as a JSON array.
pub open spec fn triggers_tree(triggers: Option<&[&str]>) -> Option<JsonTree> {
    match triggers {
        Some(list) => Some(JsonTree::Array(text_trees(list@))),
        None => None,
    }
}

/// The URI of an update, as a JSON string.
pub open spec fn uri_tree(uri: Option<&str>) -> Option<JsonTree> {
    match uri {
        Some(text) => Some(JsonTree::Text(text@)),
        None => None,
    }
}

/// The pause flag of an update, as a JSON boolean.
pub open spec fn paused_tree(paused: Option<bool>) -> Option<JsonTree> {
    match paused {
        Some(flag) => Some(JsonTree::Bool(flag)),
        None => None,
    }
}

/// The body that updates the webhook `webhook_id`: of `uri`, `triggers`
/// and `paused` only those that are given, in this order.
pub open spec fn update_webhook_tree(
    webhook_id: Seq<char>,
    uri: Option<&str>,
    triggers: Option<&[&str]>,
    paused: Option<bool>,
) -> JsonTree {
    let attributes = JsonTree::empty_object().with_optional("uri"@, uri_tree(uri)).with_optional(
        "triggers"@,
        triggers_tree(triggers),
    ).with_optional("paused"@, paused_tree(paused));
    let data = JsonTree::empty_object().with("type"@, JsonTree::Text("webhook"@)).with(
        "id"@,
        JsonTree::Text(webhook_id),
    ).with("attributes"@, attributes);
    JsonTree::empty_object().with("data"@, data)
}

/// The smaller of two page sizes.
pub open spec fn capped(size: u32, limit: u32) -> u32 {
    if size < limit {
        size
    } else {
        limit
    }
}

/// The cursor parameter, written before the other parameters of a query.
pub open spec fn leading_cursor(cursor: Option<String>) -> Seq<char> {
    match cursor {
        Some(c) => "page[cursor]="@ + c@ + "&"@,
        None => Seq::empty(),
    }
}

/// The page size parameter, written before the other parameters of a query.
pub open spec fn leading_count(page_size: Option<u32>, limit: u32) -> Seq<char> {
    match page_size {
        Some(n) => "page[count]="@ + decimal(capped(n, limit) as nat) + "&"@,
        None => Seq::empty(),
    }
}

/// The cursor parameter, written after the other parameters of a query.
pub open spec fn trailing_cursor(cursor: Option<String>) -> Seq<char> {
    match cursor {
        Some(c) => "&page[cursor]="@ + c@,
        None => Seq::empty(),
    }
}

/// The page size parameter, written after the other parameters of a query.
pub open spec fn trailing_count(page_size: Option<u32>, limit: u32) -> Seq<char> {
    match page_size {
        Some(n) => "&page[count]="@ + decimal(capped(n, limit) as nat),
        None => Seq::empty(),
    }
}

/// A page size, held to `limit`.
pub fn cap(size: u32, limit: u32) -> (r: u32)
    ensures
        r == capped(size, limit),
{
    if size < limit {
        size
    } else {
        limit
    }
}

fn push_leading_page(endpoint: &mut String, cursor: &Option<String>, page_size: Option<u32>, limit: u32)
    ensures
        final(endpoint)@ == old(endpoint)@ + leading_cursor(*cursor) + leading_count(page_size, limit),
{
    let ghost start = endpoint@;
    match cursor {
        Some(c) => {
            endpoint.append("page[cursor]=");
            endpoint.append(c.as_str());
            endpoint.append("&");
            proof {
                assert(endpoint@ =~= start + leading_cursor(*cursor));
            }
        },
        None => {
            proof {
                assert(endpoint@ =~= start + leading_cursor(*cursor));
            }
        },
    }
    let ghost middle = endpoint@;
    match page_size {
        Some(n) => {
            endpoint.append("page[count]=");
            let digits = decimal_text(cap(n, limit) as u64);
            endpoint.append(digits.as_str());
            endpoint.append("&");
            proof {
                assert(endpoint@ =~= middle + leading_count(page_size, limit));
            }
        },
        None => {
            proof {
                assert(endpoint@ =~= middle + leading_count(page_size, limit));
            }
        },
    }
}

fn push_trailing_page(endpoint: &mut String, cursor: &Option<String>, page_size: Option<u32>, limit: u32)
    ensures
        final(endpoint)@ == old(endpoint)@ + trailing_cursor(*cursor) + trailing_count(
            page_size,
            limit,
        ),
{
    let ghost start = endpoint@;
    match cursor {
        Some(c) => {
            endpoint.append("&page[cursor]=");
            endpoint.append(c.as_str());
            proof {
                assert(endpoint@ =~= start + trailing_cursor(*cursor));
            }
        },
        None => {
            proof {
                assert(endpoint@ =~= start + trailing_cursor(*cursor));
            }
        },
    }
    let ghost middle = endpoint@;
    match page_size {
        Some(n) => {
            endpoint.append("&page[count]=");
            let digits = decimal_text(cap(n, limit) as u64);
            endpoint.append(digits.as_str());
            proof {
                assert(endpoint@ =~= middle + trailing_count(page_size, limit));
            }
        },
        None => {
            proof {
                assert(endpoint@ =~= middle + trailing_count(page_size, limit));
            }
        },
    }
}

impl PatreonCreatorClient {
    /// A client for the creator whose token this is.
    pub fn new(access_token: &str) -> (r: PatreonCreatorClient)
        ensures
            r.access_token@ == access_token@,
            r.base_url@ == API_BASE_URL@,
    {
        PatreonCreatorClient {
            access_token: access_token.to_owned(),
            base_url: API_BASE_URL.to_owned(),
        }
    }

    /// The same client against another base URL.
    pub fn with_base_url(self, base_url: &str) -> (r: PatreonCreatorClient)
        ensures
            r.access_token == self.access_token,
            r.base_url@ == base_url@,
    {
        PatreonCreatorClient { access_token: self.access_token, base_url: base_url.to_owned() }
    }

    /// The headers every request carries: the bearer token and the JSON
    /// content type.
    pub fn auth_headers(&self) -> (r: Vec<(String, String)>)
        ensures
            r@.len() == 2,
            r@[0].0@ == "authorization"@,
            r@[0].1@ == bearer(self.access_token@),
            r@[1].0@ == "content-type"@,
            r@[1].1@ == "application/json"@,
    {
        json_headers(self.access_token.as_str())
    }

    /// The URL of an endpoint.
    pub fn url(&self, endpoint: &str) -> (r: String)
        ensures
            r@ == self.base_url@ + endpoint@,
    {
        chain2(self.base_url.as_str(), endpoint)
    }

    /// The endpoint that lists the creator's campaigns.
    pub fn campaigns_endpoint() -> (r: &'static str)
        ensures
            r@ == "/campaigns"@,
    {
        "/campaigns"
    }

    /// The endpoint that lists the creator's campaigns with their details.
    pub fn campaigns_with_details_endpoint() -> (r: &'static str)
        ensures
            r@ == CAMPAIGNS_WITH_DETAILS@,
    {
        CAMPAIGNS_WITH_DETAILS
    }

    /// The endpoint of one campaign.
    pub fn campaign_endpoint(campaign_id: &str) -> (r: String)
        ensures
            r@ == "/campaigns/"@ + campaign_id@,
    {
        chain2("/campaigns/", campaign_id)
    }

    /// The endpoint of one campaign with its tiers, benefits, creator and
    /// goals.
    pub fn campaign_with_tiers_and_benefits_endpoint(campaign_id: &str) -> (r: String)
        ensures
            r@ == "/campaigns/"@ + campaign_id@ + CAMPAIGN_DETAILS@,
    {
        chain3("/campaigns/", campaign_id, CAMPAIGN_DETAILS)
    }

    /// The endpoint that lists the members of a campaign.
    pub fn campaign_members_endpoint(campaign_id: &str) -> (r: String)
        ensures
            r@ == "/campaigns/"@ + campaign_id@ + "/members"@,
    {
        chain3("/campaigns/", campaign_id, "/members")
    }

    /// The endpoint that lists one page of the members of a campaign. A
    /// page holds at most 1000 members.
    pub fn campaign_members_with_query_endpoint(campaign_id: &str, query: &MembersQuery) -> (r:
        String)
        ensures
            r@ == "/campaigns/"@ + campaign_id@ + "/members?"@ + leading_cursor(query.cursor)
                + leading_count(query.page_size, MEMBERS_PAGE_LIMIT),
    {
        let mut endpoint = chain3("/campaigns/", campaign_id, "/members?");
        push_leading_page(&mut endpoint, &query.cursor, query.page_size, MEMBERS_PAGE_LIMIT);
        endpoint
    }

    /// The endpoint that lists the members of a campaign with their user,
    /// tiers and address.
    pub fn campaign_members_with_details_endpoint(campaign_id: &str) -> (r: String)
        ensures
            r@ == "/campaigns/"@ + campaign_id@ + MEMBERS_DETAILS@,
    {
        chain3("/campaigns/", campaign_id, MEMBERS_DETAILS)
    }

    /// The endpoint that lists one page of the members of a campaign with
    /// their user, tiers and address.
    pub fn campaign_members_with_details_and_query_endpoint(
        campaign_id: &str,
        query: &MembersQuery,
    ) -> (r: String)
        ensures
            r@ == "/campaigns/"@ + campaign_id@ + MEMBERS_DETAILS@ + trailing_cursor(query.cursor)
                + trailing_count(query.page_size, MEMBERS_PAGE_LIMIT),
    {
        let mut endpoint = chain3("/campaigns/", campaign_id, MEMBERS_DETAILS);
        push_trailing_page(&mut endpoint, &query.cursor, query.page_size, MEMBERS_PAGE_LIMIT);
        endpoint
    }

    /// The endpoint of one member.
    pub fn member_endpoint(member_id: &str) -> (r: String)
        ensures
            r@ == "/members/"@ + member_id@,
    {
        chain2("/members/", member_id)
    }

    /// The endpoint of one member with user, tiers, address and campaign.
    pub fn member_with_details_endpoint(member_id: &str) -> (r: String)
        ensures
            r@ == "/members/"@ + member_id@ + MEMBER_DETAILS@,
    {
        chain3("/members/", member_id, MEMBER_DETAILS)
    }

    /// The endpoint that lists the posts of a campaign.
    pub fn campaign_posts_endpoint(campaign_id: &str) -> (r: String)
        ensures
            r@ == "/campaigns/"@ + campaign_id@ + "/posts"@,
    {
        chain3("/campaigns/", campaign_id, "/posts")
    }

    /// The endpoint that lists one page of the posts of a campaign. A page
    /// holds at most 100 posts.
    pub fn campaign_posts_with_query_endpoint(campaign_id: &str, query: &PostsQuery) -> (r: String)
        ensures
            r@ == "/campaigns/"@ + campaign_id@ + "/posts?"@ + leading_cursor(query.cursor)
                + leading_count(query.page_size, POSTS_PAGE_LIMIT),
    {
        let mut endpoint = chain3("/campaigns/", campaign_id, "/posts?");
        push_leading_page(&mut endpoint, &query.cursor, query.page_size, POSTS_PAGE_LIMIT);
        endpoint
    }

    /// The endpoint that lists the posts of a campaign with user and
    /// campaign.
    pub fn campaign_posts_with_details_endpoint(campaign_id: &str) -> (r: String)
        ensures
            r@ == "/campaigns/"@ + campaign_id@ + POSTS_DETAILS@,
    {
        chain3("/campaigns/", campaign_id, POSTS_DETAILS)
    }

    /// The endpoint of one post.
    pub fn post_endpoint(post_id: &str) -> (r: String)
        ensures
            r@ == "/posts/"@ + post_id@,
    {
        chain2("/posts/", post_id)
    }

    /// The endpoint of one post with user and campaign.
    pub fn post_with_details_endpoint(post_id: &str) -> (r: String)
        ensures
            r@ == "/posts/"@ + post_id@ + POST_DETAILS@,
    {
        chain3("/posts/", post_id, POST_DETAILS)
    }

    /// The body of the request that creates a webhook.
    pub fn create_webhook_body(request: &CreateWebhookRequest) -> (r: Json)
        ensures
            r@ == create_webhook_tree(request.uri@, request.campaign_id@, request.triggers@),
    {
        let attributes = Json::empty_object().with("uri", Json::text(request.uri.as_str())).with(
            "triggers",
            Json::string_array(&request.triggers),
        );
        let campaign = Json::empty_object().with("type", Json::text("campaign")).with(
            "id",
            Json::text(request.campaign_id.as_str()),
        );
        let relationships = Json::empty_object().with(
            "campaign",
            Json::empty_object().with("data", campaign),
        );
        let data = Json::empty_object().with("type", Json::text("webhook")).with(
            "attributes",
            attributes,
        ).with("relationships", relationships);
        Json::empty_object().with("data", data)
    }

    /// The body of the request that updates a webhook: only what is given
    /// is written.
    pub fn update_webhook_body(
        webhook_id: &str,
        uri: Option<&str>,
        triggers: Option<&[&str]>,
        paused: Option<bool>,
    ) -> (r: Json)
        ensures
            r@ == update_webhook_tree(webhook_id@, uri, triggers, paused),
    {
        let uri_value = match uri {
            Some(text) => Some(Json::text(text)),
            None => None,
        };
        let triggers_value = match triggers {
            Some(list) => Some(Json::text_array(list)),
            None => None,
        };
        let paused_value = match paused {
            Some(flag) => Some(Json::Bool(flag)),
            None => None,
        };
        let attributes = Json::empty_object().with_optional("uri", uri_value).with_optional(
            "triggers",
            triggers_value,
        ).with_optional("paused", paused_value);
        let data = Json::empty_object().with("type", Json::text("webhook")).with(
            "id",
            Json::text(webhook_id),
        ).with("attributes", attributes);
        Json::empty_object().with("data", data)
    }

    /// The endpoint that lists and creates webhooks.
    pub fn webhooks_endpoint() -> (r: &'static str)
        ensures
            r@ == "/webhooks"@,
    {
        "/webhooks"
    }

    /// The endpoint of one webhook.
    pub fn webhook_endpoint(webhook_id: &str) -> (r: String)
        ensures
            r@ == "/webhooks/"@ + webhook_id@,
    {
        chain2("/webhooks/", webhook_id)
    }
}

} // verus!
