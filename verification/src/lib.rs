//! Typed client core for the Patreon API: webhook signature verification,
//! event typing and the JSON:API decoding layer, with the request building
//! and response reading of the clients around it.
//!
//! Nothing here touches the network. A caller sends what the request
//! builders hand out and gives the answer back as a status and bytes.

pub mod api;
pub mod creator_client;
pub mod decode;
pub mod error;
pub mod json;
pub mod location;
pub mod models;
pub mod oauth;
pub mod oauth2;
pub mod signature;
pub mod text;
pub mod time;
pub mod transport;
pub mod user_client;
pub mod webhook;

pub use crate::creator_client::{
    CreateWebhookRequest, MembersQuery, PatreonCreatorClient, PostsQuery, API_BASE_URL,
};
pub use crate::decode::{decode_document, Decode, Fallback};
pub use crate::error::{Expected, PatreonError, PatreonResult, SchemaError};
pub use crate::json::{Json, JsonNumber};
pub use crate::models::attributes::{
    AddressAttributes, BenefitAttributes, CampaignAttributes, ChargeStatus, GoalAttributes,
    MediaAttributes, MemberAttributes, PatronStatus, PostAttributes, TierAttributes,
    UserAttributes, WebhookAttributes, WebhookTrigger,
};
pub use crate::models::resources::{
    AddressResource, BenefitResource, CampaignResource, GoalResource, MediaResource,
    MemberResource, PostResource, RelationshipData, RelationshipDataValue, Resource, ResourceRef,
    ResourceType, TierResource, UserResource, WebhookResource,
};
pub use crate::models::response::{
    ApiErrorDetail, ApiResponse, ListResponse, PaginationLinks, PaginationMeta, SingleResponse,
};
pub use crate::oauth::{
    OAuthClient, OAuthErrorResponse, OAuthToken, TokenResponse, OAUTH_AUTHORIZE_URL,
    OAUTH_TOKEN_URL,
};
pub use crate::signature::{compute_signature, compute_signature_with, DigestAlgorithm};
pub use crate::time::Timestamp;
pub use crate::user_client::PatreonUserClient;
pub use crate::webhook::{Event, Webhook, WebhookEvent, WebhookEventType, WebhookValidator};
