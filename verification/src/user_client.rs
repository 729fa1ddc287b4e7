//! The user's side of the API: who the authorized user is and what they
//! are a member of.
//!
//! This module builds the requests; sending is the caller's part.

use vstd::prelude::*;
use crate::creator_client::API_BASE_URL;
use crate::text::{chain2, join, joined};
use crate::transport::{bearer, json_headers};

pub mod identity_fields;

verus! {

pub const IDENTITY_WITH_MEMBERSHIPS: &'static str =
    "/identity?include=memberships&fields[user]=email,first_name,full_name,image_url,last_name,vanity,url&fields[member]=campaign_lifetime_support_cents,currently_entitled_amount_cents,email,full_name,is_follower,last_charge_date,last_charge_status,lifetime_support_cents,next_charge_date,note,patron_status,pledge_relationship_start";

pub const IDENTITY_WITH_MEMBERSHIPS_AND_CAMPAIGN: &'static str =
    "/identity?include=memberships,memberships.campaign&fields[user]=email,first_name,full_name,image_url,last_name,vanity,url&fields[member]=currently_entitled_amount_cents,lifetime_support_cents,patron_status&fields[campaign]=creation_name,image_url,url,vanity";

pub const IDENTITY_FULL: &'static str =
    "/identity?include=memberships,memberships.campaign,memberships.currently_entitled_tiers&fields[user]=about,created,email,first_name,full_name,hide_pledges,image_url,is_creator,is_email_verified,last_name,like_count,social_connections,thumb_url,url,vanity&fields[member]=campaign_lifetime_support_cents,currently_entitled_amount_cents,email,full_name,is_follower,last_charge_date,last_charge_status,lifetime_support_cents,next_charge_date,note,patron_status,pledge_relationship_start,will_pay_amount_cents&fields[campaign]=creation_name,image_url,url,vanity&fields[tier]=amount_cents,description,title,url";

/// An authorized user's access to the API.
#[derive(Clone, Debug)]
pub struct PatreonUserClient {
    pub access_token: String,
    pub base_url: String,
}

impl PatreonUserClient {
    /// A client for the user whose token this is.
    pub fn new(access_token: &str) -> (r: PatreonUserClient)
        ensures
            r.access_token@ == access_token@,
            r.base_url@ == API_BASE_URL@,
    {
        PatreonUserClient { access_token: access_token.to_owned(), base_url: API_BASE_URL.to_owned() }
    }

    /// The same client against another base URL.
    pub fn with_base_url(self, base_url: &str) -> (r: PatreonUserClient)
        ensures
            r.access_token == self.access_token,
            r.base_url@ == base_url@,
    {
        PatreonUserClient { access_token: self.access_token, base_url: base_url.to_owned() }
    }

    /// The headers every request carries: the bearer token and the JSON
    /// content type.
    pub fn auth_headers(&self) -> (r: Vec<(String, String)>)
        ensures
            r@.len() == 2,
            r@[0].0@ == "authorization"@,
            r@[0].1@ == bearer(self.access_token@),
            r@[1].0@ == "content-type"@,
            r@[1].1@ == "application/json"@,
    {
        json_headers(self.access_token.as_str())
    }

    /// The URL of an endpoint.
    pub fn url(&self, endpoint: &str) -> (r: String)
        ensures
            r@ == self.base_url@ + endpoint@,
    {
        chain2(self.base_url.as_str(), endpoint)
    }

    /// The endpoint of the authorized user's identity.
    pub fn identity_endpoint() -> (r: &'static str)
        ensures
            r@ == "/identity"@,
    {
        "/identity"
    }

    /// The endpoint of the identity with the given user fields, separated
    /// by commas.
    pub fn identity_with_fields_endpoint(fields: &[&str]) -> (r: String)
        ensures
            r@ == "/identity?fields[user]="@ + joined(fields@, ","@),
    {
        let fields_param = join(fields, ",");
        chain2("/identity?fields[user]=", fields_param.as_str())
    }

    /// The endpoint of the identity with the user's memberships.
    pub fn identity_with_memberships_endpoint() -> (r: &'static str)
        ensures
            r@ == IDENTITY_WITH_MEMBERSHIPS@,
    {
        IDENTITY_WITH_MEMBERSHIPS
    }

    /// The endpoint of the identity with the user's memberships and their
    /// campaigns.
    pub fn identity_with_memberships_and_campaign_endpoint() -> (r: &'static str)
        ensures
            r@ == IDENTITY_WITH_MEMBERSHIPS_AND_CAMPAIGN@,
    {
        IDENTITY_WITH_MEMBERSHIPS_AND_CAMPAIGN
    }

    /// The endpoint of the identity with everything that can come with it.
    pub fn identity_full_endpoint() -> (r: &'static str)
        ensures
            r@ == IDENTITY_FULL@,
    {
        IDENTITY_FULL
    }
}

} // verus!
