use patreon::api::{
    ApiDocument, Campaign, IdentityIncldue, LastChrgeStatus, Member, PatreonApi,
    PatronStatus as StrictPatronStatus, User,
};
use patreon::creator_client::{
    campaign_fields, member_fields, webhook_triggers, CreateWebhookRequest, MembersQuery,
    PatreonCreatorClient, PostsQuery, API_BASE_URL, CAMPAIGN_DETAILS, MEMBERS_DETAILS,
};
use patreon::error::{status_shown, ApiError, Expected, PatreonError, SchemaError};
use patreon::json::Json;
use patreon::models::resources::{CampaignResource, MemberResource};
use patreon::models::response::{ListResponse, SingleResponse};
use patreon::oauth::{scopes, OAuthClient, OAuthToken, TokenResponse};
use patreon::oauth2::{de_response, PatreonOAuth, TokensResponse};
use patreon::text::{chain2, chain3, decimal_text, join, signed_decimal_text, str_eq};
use patreon::time::{span_of, Timestamp};
use patreon::transport::{is_success, read_empty_response, read_response};
use patreon::user_client::{identity_fields, PatreonUserClient};

#[test]
fn test_new_creator_client() {
    let client = PatreonCreatorClient::new("test_token");
    assert_eq!(client.access_token, "test_token");
}

#[test]
fn test_new_client() {
    let client = PatreonUserClient::new("test_token");
    assert_eq!(client.access_token, "test_token");
}

#[test]
fn test_auth_headers() {
    let client = PatreonUserClient::new("test_token");
    let headers = client.auth_headers();
    let authorization = headers.iter().find(|(name, _)| name == "authorization");
    assert!(authorization.is_some());
    assert_eq!(authorization.unwrap().1, "Bearer test_token");
}

#[test]
fn test_authorization_url() {
    let client = OAuthClient::new("test_client_id", "test_secret", "https://example.com/callback");
    let url = client.authorization_url(&[scopes::IDENTITY, scopes::IDENTITY_MEMBERSHIPS]);

    assert!(url.contains("client_id=test_client_id"));
    assert!(url.contains("redirect_uri=https%3A%2F%2Fexample.com%2Fcallback"));
    assert!(url.contains("scope=identity%20identity.memberships"));
}

#[test]
fn test_authorization_url_with_state() {
    let client = OAuthClient::new("test_client_id", "test_secret", "https://example.com/callback");
    let url = client.authorization_url_with_state(&[scopes::IDENTITY], "random_state");

    assert!(url.contains("state=random_state"));
}

#[test]
fn authorization_url_is_written_out_in_full() {
    let client = OAuthClient::new("id 1", "secret", "https://example.com/cb?x=é");
    assert_eq!(
        client.authorization_url(&[scopes::IDENTITY_EMAIL, scopes::CAMPAIGNS_WEBHOOK]),
        "https://www.patreon.com/oauth2/authorize?response_type=code&client_id=id%201\
         &redirect_uri=https%3A%2F%2Fexample.com%2Fcb%3Fx%3D%C3%A9\
         &scope=identity%5Bemail%5D%20w%3Acampaigns.webhook"
    );
    assert_eq!(
        client.authorization_url_with_state(&[], "a-b_c.d~e/f"),
        "https://www.patreon.com/oauth2/authorize?response_type=code&client_id=id%201\
         &redirect_uri=https%3A%2F%2Fexample.com%2Fcb%3Fx%3D%C3%A9&scope=&state=a-b_c.d~e%2Ff"
    );
}

#[test]
fn clients_start_at_the_default_base_url() {
    assert_eq!(PatreonCreatorClient::new("t").base_url, API_BASE_URL);
    assert_eq!(PatreonUserClient::new("t").base_url, "https://www.patreon.com/api/oauth2/v2");
    let local = PatreonCreatorClient::new("t").with_base_url("http://localhost:1");
    assert_eq!(local.access_token, "t");
    assert_eq!(local.url("/campaigns"), "http://localhost:1/campaigns");
    let user = PatreonUserClient::new("t").with_base_url("http://localhost:2");
    assert_eq!(user.url(PatreonUserClient::identity_endpoint()), "http://localhost:2/identity");
    assert_eq!(
        PatreonCreatorClient::new("tok").auth_headers(),
        vec![
            ("authorization".to_string(), "Bearer tok".to_string()),
            ("content-type".to_string(), "application/json".to_string()),
        ]
    );
}

#[test]
fn creator_endpoints() {
    assert_eq!(PatreonCreatorClient::campaigns_endpoint(), "/campaigns");
    assert!(PatreonCreatorClient::campaigns_with_details_endpoint()
        .starts_with("/campaigns?include=creator&fields[campaign]=created_at,"));
    assert_eq!(PatreonCreatorClient::campaign_endpoint("42"), "/campaigns/42");
    assert_eq!(
        PatreonCreatorClient::campaign_with_tiers_and_benefits_endpoint("42"),
        format!("/campaigns/42{CAMPAIGN_DETAILS}")
    );
    assert_eq!(PatreonCreatorClient::campaign_members_endpoint("42"), "/campaigns/42/members");
    assert_eq!(
        PatreonCreatorClient::campaign_members_with_details_endpoint("42"),
        format!("/campaigns/42{MEMBERS_DETAILS}")
    );
    assert_eq!(PatreonCreatorClient::member_endpoint("m"), "/members/m");
    assert!(PatreonCreatorClient::member_with_details_endpoint("m")
        .starts_with("/members/m?include=user,currently_entitled_tiers,address,campaign&"));
    assert_eq!(PatreonCreatorClient::campaign_posts_endpoint("42"), "/campaigns/42/posts");
    assert!(PatreonCreatorClient::campaign_posts_with_details_endpoint("42")
        .starts_with("/campaigns/42/posts?include=user,campaign&fields[post]=app_id,"));
    assert_eq!(PatreonCreatorClient::post_endpoint("p"), "/posts/p");
    assert!(PatreonCreatorClient::post_with_details_endpoint("p")
        .starts_with("/posts/p?include=user,campaign&fields[post]="));
    assert_eq!(PatreonCreatorClient::webhooks_endpoint(), "/webhooks");
    assert_eq!(PatreonCreatorClient::webhook_endpoint("w"), "/webhooks/w");
}

#[test]
fn page_sizes_are_held_to_the_limit() {
    let query = |cursor: Option<&str>, page_size| MembersQuery {
        cursor: cursor.map(str::to_string),
        page_size,
    };
    assert_eq!(
        PatreonCreatorClient::campaign_members_with_query_endpoint("c", &MembersQuery::default()),
        "/campaigns/c/members?"
    );
    assert_eq!(
        PatreonCreatorClient::campaign_members_with_query_endpoint("c", &query(Some("abc"), None)),
        "/campaigns/c/members?page[cursor]=abc&"
    );
    assert_eq!(
        PatreonCreatorClient::campaign_members_with_query_endpoint("c", &query(None, Some(25))),
        "/campaigns/c/members?page[count]=25&"
    );
    assert_eq!(
        PatreonCreatorClient::campaign_members_with_query_endpoint(
            "c",
            &query(Some("abc"), Some(1000))
        ),
        "/campaigns/c/members?page[cursor]=abc&page[count]=1000&"
    );
    assert_eq!(
        PatreonCreatorClient::campaign_members_with_query_endpoint("c", &query(None, Some(1001))),
        "/campaigns/c/members?page[count]=1000&"
    );
    assert_eq!(
        PatreonCreatorClient::campaign_members_with_query_endpoint(
            "c",
            &query(None, Some(u32::MAX))
        ),
        "/campaigns/c/members?page[count]=1000&"
    );
    assert_eq!(
        PatreonCreatorClient::campaign_members_with_query_endpoint("c", &query(None, Some(0))),
        "/campaigns/c/members?page[count]=0&"
    );
    assert_eq!(
        PatreonCreatorClient::campaign_members_with_details_and_query_endpoint(
            "c",
            &query(Some("abc"), Some(5000))
        ),
        format!("/campaigns/c{MEMBERS_DETAILS}&page[cursor]=abc&page[count]=1000")
    );
    assert_eq!(
        PatreonCreatorClient::campaign_members_with_details_and_query_endpoint(
            "c",
            &MembersQuery::default()
        ),
        format!("/campaigns/c{MEMBERS_DETAILS}")
    );
    let posts = PostsQuery { cursor: Some("n".to_string()), page_size: Some(101) };
    assert_eq!(
        PatreonCreatorClient::campaign_posts_with_query_endpoint("c", &posts),
        "/campaigns/c/posts?page[cursor]=n&page[count]=100&"
    );
    let few = PostsQuery { cursor: None, page_size: Some(99) };
    assert_eq!(
        PatreonCreatorClient::campaign_posts_with_query_endpoint("c", &few),
        "/campaigns/c/posts?page[count]=99&"
    );
    assert_eq!(
        PatreonCreatorClient::campaign_posts_with_query_endpoint("c", &PostsQuery::default()),
        "/campaigns/c/posts?"
    );
}

#[test]
fn webhook_bodies() {
    let request = CreateWebhookRequest {
        uri: "https://hook".to_string(),
        campaign_id: "42".to_string(),
        triggers: vec![
            webhook_triggers::MEMBERS_CREATE.to_string(),
            webhook_triggers::POSTS_PUBLISH.to_string(),
        ],
    };
    let text = |s: &str| Json::Text(s.to_string());
    let object = |members: Vec<(&str, Json)>| {
        Json::Object(members.into_iter().map(|(k, v)| (k.to_string(), v)).collect())
    };
    assert_eq!(
        PatreonCreatorClient::create_webhook_body(&request),
        object(vec![(
            "data",
            object(vec![
                ("type", text("webhook")),
                (
                    "attributes",
                    object(vec![
                        ("uri", text("https://hook")),
                        (
                            "triggers",
                            Json::Array(vec![text("members:create"), text("posts:publish")])
                        ),
                    ])
                ),
                (
                    "relationships",
                    object(vec![(
                        "campaign",
                        object(vec![(
                            "data",
                            object(vec![("type", text("campaign")), ("id", text("42"))])
                        )])
                    )])
                ),
            ])
        )])
    );
    assert_eq!(
        PatreonCreatorClient::update_webhook_body("w", None, None, None),
        object(vec![(
            "data",
            object(vec![
                ("type", text("webhook")),
                ("id", text("w")),
                ("attributes", object(vec![])),
            ])
        )])
    );
    assert_eq!(
        PatreonCreatorClient::update_webhook_body(
            "w",
            Some("https://new"),
            Some(&[webhook_triggers::MEMBERS_DELETE]),
            Some(true)
        ),
        object(vec![(
            "data",
            object(vec![
                ("type", text("webhook")),
                ("id", text("w")),
                (
                    "attributes",
                    object(vec![
                        ("uri", text("https://new")),
                        ("triggers", Json::Array(vec![text("members:delete")])),
                        ("paused", Json::Bool(true)),
                    ])
                ),
            ])
        )])
    );
    assert_eq!(
        PatreonCreatorClient::update_webhook_body("w", None, Some(&[]), Some(false)),
        object(vec![(
            "data",
            object(vec![
                ("type", text("webhook")),
                ("id", text("w")),
                (
                    "attributes",
                    object(vec![("triggers", Json::Array(vec![])), ("paused", Json::Bool(false))])
                ),
            ])
        )])
    );
}

#[test]
fn field_and_scope_constants() {
    assert_eq!(campaign_fields::PLEDGE_SUM_CURRENCY, "pledge_sum_currency");
    assert_eq!(member_fields::PATRON_STATUS, "patron_status");
    assert_eq!(webhook_triggers::MEMBERS_PLEDGE_UPDATE, "members:pledge:update");
    assert_eq!(identity_fields::IS_EMAIL_VERIFIED, "is_email_verified");
    assert_eq!(scopes::CAMPAIGNS_MEMBERS_EMAIL, "campaigns.members[email]");
    assert_eq!(scopes::CAMPAIGNS_WEBHOOK, "w:campaigns.webhook");
}

#[test]
fn user_endpoints() {
    assert_eq!(PatreonUserClient::identity_endpoint(), "/identity");
    assert_eq!(
        PatreonUserClient::identity_with_fields_endpoint(&[
            identity_fields::EMAIL,
            identity_fields::FULL_NAME
        ]),
        "/identity?fields[user]=email,full_name"
    );
    assert_eq!(
        PatreonUserClient::identity_with_fields_endpoint(&[identity_fields::URL]),
        "/identity?fields[user]=url"
    );
    assert_eq!(PatreonUserClient::identity_with_fields_endpoint(&[]), "/identity?fields[user]=");
    assert!(PatreonUserClient::identity_with_memberships_endpoint()
        .starts_with("/identity?include=memberships&fields[user]=email,"));
    assert!(PatreonUserClient::identity_with_memberships_and_campaign_endpoint()
        .starts_with("/identity?include=memberships,memberships.campaign&"));
    assert!(PatreonUserClient::identity_full_endpoint().ends_with(
        "&fields[tier]=amount_cents,description,title,url"
    ));
}

#[test]
fn responses_are_read_by_their_status() {
    assert!(is_success(200));
    assert!(is_success(204));
    assert!(is_success(299));
    assert!(!is_success(199));
    assert!(!is_success(300));
    assert!(!is_success(404));
    let body = br#"{"data": [{"type": "campaign", "id": "1"}]}"#;
    let list: ListResponse<CampaignResource> = read_response(200, body).unwrap();
    assert_eq!(list.data[0].id, "1");
    assert!(matches!(
        read_response::<ListResponse<CampaignResource>>(404, body),
        Err(PatreonError::Api { status: 404, message }) if message.as_bytes() == body
    ));
    assert!(matches!(
        read_response::<SingleResponse<MemberResource>>(201, b"<html>"),
        Err(PatreonError::SerdeJson(_))
    ));
    assert!(matches!(
        read_response::<SingleResponse<MemberResource>>(200, b"{}"),
        Err(PatreonError::Schema(SchemaError { expected: Expected::Present, .. }))
    ));
    assert!(read_empty_response(204, b"").is_ok());
    assert!(matches!(
        read_empty_response(500, b"down"),
        Err(PatreonError::Api { status: 500, message }) if message == "down"
    ));
}

fn grant() -> TokenResponse {
    TokenResponse {
        access_token: "a".to_string(),
        refresh_token: "r".to_string(),
        expires_in: 3600,
        token_type: "Bearer".to_string(),
        scope: "identity".to_string(),
        version: None,
    }
}

#[test]
fn tokens_expire_after_their_lifetime() {
    let now = Timestamp { seconds: 1_000_000, nanos: 7 };
    let token = OAuthToken::from_response(grant(), now);
    assert_eq!(token.access_token, "a");
    assert_eq!(token.refresh_token, "r");
    assert_eq!(token.token_type, "Bearer");
    assert_eq!(token.scope, "identity");
    assert_eq!(token.expires_at, Timestamp { seconds: 1_003_600, nanos: 7 });
    assert!(!token.is_expired(now));
    assert!(!token.is_expired(Timestamp { seconds: 1_003_600, nanos: 6 }));
    assert!(token.is_expired(Timestamp { seconds: 1_003_600, nanos: 7 }));
    assert!(token.is_expired(Timestamp { seconds: 1_003_601, nanos: 0 }));
    assert!(!token.is_expiring_within(300, now));
    assert!(!token.is_expiring_within(3599, now));
    assert!(token.is_expiring_within(3600, now));
    assert!(token.is_expiring_within(300, Timestamp { seconds: 1_003_300, nanos: 7 }));
    assert!(!token.is_expiring_within(300, Timestamp { seconds: 1_003_299, nanos: 9 }));
}

#[test]
fn token_lifetimes_stop_at_the_end_of_time() {
    let late = Timestamp { seconds: i64::MAX - 5, nanos: 0 };
    let mut response = grant();
    response.expires_in = 10;
    assert_eq!(OAuthToken::from_response(response, late).expires_at.seconds, i64::MAX);
    let early = Timestamp { seconds: i64::MIN + 5, nanos: 1 };
    let mut response = grant();
    response.expires_in = -10;
    assert_eq!(
        OAuthToken::from_response(response, early).expires_at,
        Timestamp { seconds: i64::MIN, nanos: 1 }
    );
    assert_eq!(early.plus_seconds(i64::MAX).seconds, 4);
}

fn clock() -> Timestamp {
    let now = chrono::Utc::now();
    Timestamp { seconds: now.timestamp(), nanos: now.timestamp_subsec_nanos() }
}

#[test]
fn tokens_granted_now_are_not_expired() {
    let token = OAuthToken::from_response(grant(), clock());
    assert!(!token.is_expired(clock()));
    assert!(!token.is_expiring_soon(clock()));
    assert!(token.is_expiring_within(7200, clock()));
    let mut short = grant();
    short.expires_in = 60;
    let token = OAuthToken::from_response(short, clock());
    assert!(!token.is_expired(clock()));
    assert!(token.is_expiring_soon(clock()));
    let mut past = grant();
    past.expires_in = -1;
    assert!(OAuthToken::from_response(past, clock()).is_expired(clock()));
}

#[test]
fn expiring_soon_is_within_five_minutes() {
    let now = Timestamp { seconds: 1_000, nanos: 0 };
    let token = OAuthToken::from_response(grant(), now);
    assert!(!token.is_expiring_soon(now));
    assert!(!token.is_expiring_soon(Timestamp { seconds: 4_299, nanos: 999_999_999 }));
    assert!(token.is_expiring_soon(Timestamp { seconds: 4_300, nanos: 0 }));
    assert!(token.is_expiring_soon(Timestamp { seconds: 4_600, nanos: 0 }));
}

#[test]
fn spans_are_rounded_down_to_the_second() {
    assert_eq!(span_of(0, 0), (0, 0));
    assert_eq!(span_of(5, 0), (5, 0));
    assert_eq!(span_of(5, 250_000_000), (5, 250_000_000));
    assert_eq!(span_of(5, 999_999_999), (5, 999_999_999));
    assert_eq!(span_of(-5, -250_000_000), (-6, 750_000_000));
    assert_eq!(span_of(0, -1), (-1, 999_999_999));
    assert_eq!(span_of(0, -999_999_999), (-1, 1));
    assert_eq!(span_of(0, -1_000_000_000), (-1, 0));
    assert_eq!(span_of(0, 1_000_000_000), (1, 0));
    assert_eq!(span_of(3, i32::MAX), (5, 147_483_647));
    assert_eq!(span_of(3, i32::MIN), (0, 852_516_352));
    assert_eq!(span_of(i64::MIN, -1), (i64::MIN, 999_999_999));
    assert_eq!(span_of(i64::MAX, 1_000_000_000), (i64::MAX, 0));
    let half = chrono::Duration::milliseconds(-1500);
    assert_eq!(span_of(half.num_seconds(), half.subsec_nanos()), (-2, 500_000_000));
    let long = chrono::Duration::milliseconds(2750);
    assert_eq!(span_of(long.num_seconds(), long.subsec_nanos()), (2, 750_000_000));
}

#[test]
fn token_endpoint_answers() {
    let now = Timestamp { seconds: 10, nanos: 0 };
    let granted = OAuthClient::read_token_response(
        200,
        br#"{"access_token": "a", "refresh_token": "r", "expires_in": 5, "token_type": "Bearer",
            "scope": "identity campaigns", "version": "0.0.1"}"#,
        now,
    )
    .unwrap();
    assert_eq!(granted.expires_at, Timestamp { seconds: 15, nanos: 0 });
    assert_eq!(granted.scope, "identity campaigns");
    assert!(matches!(
        OAuthClient::read_token_response(
            401,
            br#"{"error": "invalid_grant", "error_description": "expired"}"#,
            now
        ),
        Err(PatreonError::OAuth { error, description })
            if error == "invalid_grant" && description == "expired"
    ));
    assert!(matches!(
        OAuthClient::read_token_response(400, br#"{"error": "invalid_request"}"#, now),
        Err(PatreonError::OAuth { error, description })
            if error == "invalid_request" && description.is_empty()
    ));
    assert!(matches!(
        OAuthClient::read_token_response(200, br#"{"access_token": "a"}"#, now),
        Err(PatreonError::Schema(SchemaError { field, expected: Expected::Present }))
            if field == "refresh_token"
    ));
    assert!(matches!(
        OAuthClient::read_token_response(500, b"oops", now),
        Err(PatreonError::SerdeJson(_))
    ));
    assert!(matches!(
        OAuthClient::read_token_response(400, br#"{"error": "e"}"#, clock()),
        Err(PatreonError::OAuth { .. })
    ));
}

#[test]
fn token_forms() {
    let client = OAuthClient::new("id", "secret", "https://cb");
    let pair = |a: &str, b: &str| (a.to_string(), b.to_string());
    assert_eq!(
        client.exchange_code_form("c0de"),
        vec![
            pair("code", "c0de"),
            pair("grant_type", "authorization_code"),
            pair("client_id", "id"),
            pair("client_secret", "secret"),
            pair("redirect_uri", "https://cb"),
        ]
    );
    assert_eq!(
        client.refresh_token_form("r3"),
        vec![
            pair("grant_type", "refresh_token"),
            pair("refresh_token", "r3"),
            pair("client_id", "id"),
            pair("client_secret", "secret"),
        ]
    );
    let old = PatreonOAuth {
        client_id: "id".to_string(),
        client_secret: "secret".to_string(),
        redirect_uri: "https://cb".to_string(),
    };
    assert_eq!(
        old.get_tokens_form("c0de"),
        vec![
            pair("grant_type", "authorization_code"),
            pair("code", "c0de"),
            pair("client_id", "id"),
            pair("client_secret", "secret"),
            pair("redirect_uri", "https://cb"),
        ]
    );
    assert_eq!(
        old.refresh_tokens_form("r3"),
        vec![
            pair("grant_type", "refresh_token"),
            pair("client_id", "id"),
            pair("client_secret", "secret"),
            pair("refresh_token", "r3"),
        ]
    );
}

#[test]
fn first_generation_urls() {
    let oauth = PatreonOAuth {
        client_id: "my id".to_string(),
        client_secret: "s".to_string(),
        redirect_uri: "https://example.com/cb".to_string(),
    };
    assert_eq!(
        oauth.get_authorization_url("identity", "st&te").unwrap(),
        "https://www.patreon.com/oauth2/authorize?scope=identity&state=st%26te\
         &scope+=campaigns&response_type=code&client_id=my+id\
         &redirect_uri=https%3A%2F%2Fexample.com%2Fcb"
    );
    assert_eq!(
        oauth.get_authorization_url("", "").unwrap(),
        "https://www.patreon.com/oauth2/authorize?scope+=campaigns&response_type=code\
         &client_id=my+id&redirect_uri=https%3A%2F%2Fexample.com%2Fcb"
    );
    assert_eq!(
        oauth.get_authorization_url("", "x").unwrap(),
        "https://www.patreon.com/oauth2/authorize?state=x&scope+=campaigns&response_type=code\
         &client_id=my+id&redirect_uri=https%3A%2F%2Fexample.com%2Fcb"
    );
    assert_eq!(PatreonOAuth::token_url().unwrap(), "https://www.patreon.com/api/oauth2/token");
    assert_eq!(
        PatreonApi::current_user_url().unwrap(),
        "https://www.patreon.com/api/oauth2/api/current_user"
    );
    assert_eq!(
        PatreonApi::identity_request(None).unwrap(),
        "https://www.patreon.com/api/oauth2/v2/identity?fields%5Buser%5D=first_name%2Clast_name\
         %2Cfull_name%2Cvanity%2Cemail%2Cabout%2Cimage_url%2Cthumb_url%2Ccreated%2Curl"
    );
    let with_memberships = PatreonApi::identity_request(Some(IdentityIncldue::Memberships)).unwrap();
    assert!(with_memberships.contains("&include=memberships&fields%5Bmember%5D=campaign_lifetime"));
    assert!(with_memberships.ends_with("%2Cwill_pay_amount_cents"));
    let with_campaign = PatreonApi::identity_request(Some(IdentityIncldue::Campaign)).unwrap();
    assert!(with_campaign.contains("&include=campaign&fields%5Bcampaign%5D=created_at%2C"));
    assert!(with_campaign.ends_with("%2Curl%2Cvanity"));
}

#[test]
fn first_generation_words() {
    assert_eq!(IdentityIncldue::Memberships.as_str(), "memberships");
    assert_eq!(IdentityIncldue::Campaign.as_str(), "campaign");
    assert_eq!(IdentityIncldue::from_wire("campaign"), Some(IdentityIncldue::Campaign));
    assert_eq!(IdentityIncldue::from_wire("campaigns"), None);
    for status in [
        LastChrgeStatus::Paid,
        LastChrgeStatus::Declined,
        LastChrgeStatus::Deleted,
        LastChrgeStatus::Pending,
        LastChrgeStatus::Refunded,
        LastChrgeStatus::Fraud,
        LastChrgeStatus::Other,
    ] {
        assert_eq!(LastChrgeStatus::from_wire(status.as_str()), Some(status));
    }
    assert_eq!(LastChrgeStatus::Paid.as_str(), "Paid");
    assert_eq!(LastChrgeStatus::from_wire("paid"), None);
    assert_eq!(StrictPatronStatus::FormerPatron.as_str(), "former_patron");
    assert_eq!(StrictPatronStatus::from_wire("former_patron"), Some(StrictPatronStatus::FormerPatron));
    assert_eq!(StrictPatronStatus::from_wire("unknown"), None);
}

const USER: &str = r#"{"data": {"type": "user", "id": "u1", "attributes": {
    "first_name": "A", "last_name": "B", "full_name": "A B", "vanity": null, "email": "a@b",
    "about": null, "image_url": "i", "thumb_url": "t", "created": "2020-01-02T03:04:05Z",
    "url": "https://u"}},
    "included": [{"type": "campaign", "id": "c1", "attributes": {
        "created_at": "2020-01-02T03:04:05Z", "creation_name": "things",
        "has_rss": false, "has_sent_rss_notify": false, "image_small_url": "s",
        "is_charged_immediately": true, "is_monthly": true, "is_nsfw": false,
        "patron_count": 12, "pay_per_name": "month", "pledge_url": "/p", "url": "https://c",
        "vanity": "v"}}]}"#;

#[test]
fn first_generation_calls() {
    let header_owner = PatreonApi { access_token: "tok".to_string() };
    assert_eq!(
        header_owner.request_headers(),
        vec![
            ("Authorization".to_string(), "Bearer tok".to_string()),
            ("User-Agent".to_string(), "Patreon-rust".to_string()),
        ]
    );
    assert_eq!(PatreonApi::api_call(200, "anything".to_string()).unwrap(), "anything");
    let user: User = PatreonApi::call_data(200, USER.to_string()).unwrap();
    assert_eq!(user.id, "u1");
    assert_eq!(user.attributes.vanity, None);
    assert_eq!(user.attributes.facebook, None);
    assert_eq!(user.attributes.email, "a@b");
    let (user, campaigns): (User, Vec<Campaign>) =
        PatreonApi::call_data_and_include(200, USER.to_string()).unwrap();
    assert_eq!(user.attributes.full_name, "A B");
    assert_eq!(campaigns.len(), 1);
    assert_eq!(campaigns[0].attributes.patron_count, 12);
    assert_eq!(campaigns[0].attributes.published_at, None);
    let (_, members): (User, Vec<Member>) = PatreonApi::call_data_and_include(
        200,
        r#"{"data": {"type": "user", "id": "u1", "attributes": {
            "first_name": "A", "last_name": "B", "full_name": "A B", "email": "a@b",
            "image_url": "i", "thumb_url": "t", "created": "2020-01-02T03:04:05Z",
            "url": "https://u"}}}"#
            .to_string(),
    )
    .unwrap();
    assert!(members.is_empty());
    let refused = PatreonApi::call_data::<ApiDocument<patreon::api::UserAttributes>>(
        401,
        r#"{"errors": [{"code": 1, "code_name": "Unauthorized", "detail": "d", "id": "i",
            "status": "401", "title": "t"}, {"code": null, "code_name": "", "detail": "",
            "id": "", "status": "", "title": ""}]}"#
            .to_string(),
    );
    match refused {
        Err(PatreonError::PatreonApi(401, errors)) => {
            assert_eq!(errors.len(), 2);
            assert_eq!(errors[0].code, Some(1));
            assert_eq!(errors[0].code_name, "Unauthorized");
            assert_eq!(errors[1].code, None);
        }
        other => panic!("unexpected: {other:?}"),
    }
    assert!(matches!(
        PatreonApi::api_call(500, "<html>".to_string()),
        Err(PatreonError::SerdeJson(_))
    ));
    assert!(matches!(
        PatreonApi::call_data::<User>(200, "{}".to_string()),
        Err(PatreonError::Schema(_))
    ));
}

#[test]
fn first_generation_token_answers() {
    let tokens: TokensResponse = de_response(
        200,
        r#"{"access_token": "a", "expires_in": 2678400, "token_type": "Bearer",
            "scope": "my-api", "refresh_token": "r"}"#,
    )
    .unwrap();
    assert_eq!(tokens.expires_in, 2_678_400);
    assert_eq!(tokens.version, "");
    assert_eq!(tokens.refresh_token, "r");
    let versioned: TokensResponse = de_response(
        201,
        r#"{"access_token": "a", "expires_in": 1, "token_type": "Bearer",
            "scope": "my-api", "refresh_token": "r", "version": "0.0.1"}"#,
    )
    .unwrap();
    assert_eq!(versioned.version, "0.0.1");
    assert!(matches!(
        de_response::<TokensResponse>(
            200,
            r#"{"access_token": "a", "expires_in": 1, "token_type": "Bearer",
                "scope": "my-api", "refresh_token": "r", "version": null}"#
        ),
        Err(PatreonError::Schema(SchemaError { field, expected: Expected::Text }))
            if field == "version"
    ));
    assert!(matches!(
        de_response::<TokensResponse>(200, r#"{"access_token": "a", "expires_in": -1}"#),
        Err(PatreonError::Schema(SchemaError { field, expected: Expected::Integer }))
            if field == "expires_in"
    ));
    assert!(matches!(
        de_response::<TokensResponse>(401, r#"{"error": "invalid_client"}"#),
        Err(PatreonError::PatreonOAuth(401, word)) if word == "invalid_client"
    ));
    assert!(matches!(
        de_response::<TokensResponse>(401, "denied"),
        Err(PatreonError::SerdeJson(_))
    ));
    assert!(matches!(
        de_response::<TokensResponse>(401, "{}"),
        Err(PatreonError::Schema(_))
    ));
    assert_eq!(TokensResponse::default().expires_in, 0);
    assert_eq!(PatreonOAuth::default().client_id, "");
}

#[test]
fn errors_describe_themselves() {
    assert_eq!(PatreonError::InvalidSignature.to_text(), "signature invalid");
    assert_eq!(
        PatreonError::UnknownTrigger("posts:later".to_string()).to_text(),
        "unknown trigger: posts:later"
    );
    assert_eq!(PatreonError::Message("m".to_string()).to_text(), "Message ( m ) ,");
    assert_eq!(
        PatreonError::PatreonOAuth(401, "invalid_client".to_string()).to_text(),
        "PatreonOAuth{ 401 Unauthorized : invalid_client }"
    );
    assert_eq!(
        PatreonError::PatreonOAuth(200, "m".to_string()).to_text(),
        "PatreonOAuth{ 200 OK : m }"
    );
    assert_eq!(
        PatreonError::PatreonOAuth(599, "m".to_string()).to_text(),
        "PatreonOAuth{ 599 <unknown status code> : m }"
    );
    assert_eq!(
        PatreonError::PatreonOAuth(999, "m".to_string()).to_text(),
        "PatreonOAuth{ 999 <unknown status code> : m }"
    );
    assert_eq!(
        PatreonError::PatreonOAuth(100, "m".to_string()).to_text(),
        "PatreonOAuth{ 100 Continue : m }"
    );
    let error = ApiError {
        code: Some(-3),
        code_name: "n".to_string(),
        detail: "d".to_string(),
        id: "i".to_string(),
        status: "s".to_string(),
        title: "t".to_string(),
    };
    assert_eq!(
        error.to_text(),
        "ApiError(code : Some(-3), code_name : n, detail : d, id : i, status : s, title : t, )"
    );
    assert_eq!(
        ApiError::default().to_text(),
        "ApiError(code : None, code_name : , detail : , id : , status : , title : , )"
    );
    assert_eq!(
        PatreonError::PatreonApi(404, vec![error.clone(), ApiError::default()]).to_text(),
        format!(
            "PatreonApi {{ code : 404 Not Found, errors : [ {}, {},  ] }}",
            error.to_text(),
            ApiError::default().to_text()
        )
    );
    assert_eq!(
        PatreonError::PatreonApi(500, vec![]).to_text(),
        "PatreonApi { code : 500 Internal Server Error, errors : [  ] }"
    );
    assert_eq!(
        PatreonError::Schema(SchemaError { field: "id".to_string(), expected: Expected::Present })
            .to_text(),
        "expected a value at `id`"
    );
    assert_eq!(
        PatreonError::Api { status: 503, message: "down".to_string() }.to_text(),
        "API error 503: down"
    );
    assert_eq!(
        PatreonError::OAuth { error: "e".to_string(), description: "d".to_string() }.to_text(),
        "OAuth error e: d"
    );
    let said = Json::parse(b"{").unwrap_err().to_string();
    let parse_failure = PatreonError::from(Json::parse(b"{").unwrap_err());
    assert!(matches!(parse_failure, PatreonError::SerdeJson(_)));
    assert!(parse_failure.to_text().contains("EOF"));
    assert_eq!(parse_failure.to_text(), said);
    let schema = PatreonError::from(SchemaError::unplaced(Expected::Object));
    assert_eq!(schema.to_text(), "expected an object at ``");
    assert_eq!(SchemaError::unplaced(Expected::Array).at("items").to_text(), "expected an array at `items`");
    assert_eq!(
        SchemaError { field: "a".to_string(), expected: Expected::Text }.at("b").field,
        "a"
    );
}

#[test]
fn numbers_that_are_no_status_code_are_shown_in_decimal() {
    assert_eq!(status_shown(0), "0");
    assert_eq!(status_shown(99), "99");
    assert_eq!(status_shown(1000), "1000");
    assert_eq!(status_shown(u16::MAX), "65535");
    assert_eq!(status_shown(100), "100 Continue");
    assert_eq!(status_shown(204), "204 No Content");
    assert_eq!(status_shown(418), "418 I'm a teapot");
    assert_eq!(status_shown(999), "999 <unknown status code>");
    assert_eq!(
        PatreonError::PatreonOAuth(99, "m".to_string()).to_text(),
        "PatreonOAuth{ 99 : m }"
    );
    assert_eq!(
        PatreonError::PatreonApi(1000, vec![]).to_text(),
        "PatreonApi { code : 1000, errors : [  ] }"
    );
}

#[test]
fn spans_are_kept_to_the_nanosecond() {
    let now = Timestamp { seconds: 100, nanos: 600_000_000 };
    assert_eq!(now.plus(0, 0), now);
    assert_eq!(now.plus(1, 0), Timestamp { seconds: 101, nanos: 600_000_000 });
    assert_eq!(now.plus(0, 399_999_999), Timestamp { seconds: 100, nanos: 999_999_999 });
    assert_eq!(now.plus(0, 400_000_000), Timestamp { seconds: 101, nanos: 0 });
    assert_eq!(now.plus(-1, 500_000_000), Timestamp { seconds: 100, nanos: 100_000_000 });
    assert_eq!(now.plus(2, 999_999_999), Timestamp { seconds: 103, nanos: 599_999_999 });
    assert_eq!(now.plus(i64::MAX, 0), Timestamp { seconds: i64::MAX, nanos: 600_000_000 });
    assert_eq!(now.plus(i64::MAX - 100, 400_000_000), Timestamp { seconds: i64::MAX, nanos: 0 });
    assert_eq!(
        Timestamp { seconds: i64::MIN, nanos: 0 }.plus(-1, 1),
        Timestamp { seconds: i64::MIN, nanos: 1 }
    );
    assert_eq!(
        Timestamp { seconds: 0, nanos: u32::MAX }.plus(0, u32::MAX),
        Timestamp { seconds: 8, nanos: 589_934_590 }
    );
    assert_eq!(now.plus(7, 0), now.plus_seconds(7));
    let mut response = grant();
    response.expires_in = 10;
    let token = OAuthToken::from_response(response, now);
    assert_eq!(token.expires_at, Timestamp { seconds: 110, nanos: 600_000_000 });
    assert!(!token.is_expiring_within_span(9, 999_999_999, now));
    assert!(token.is_expiring_within_span(10, 0, now));
    assert!(token.is_expiring_within_span(10, 1, now));
    let later = Timestamp { seconds: 105, nanos: 0 };
    assert!(!token.is_expiring_within_span(5, 599_999_999, later));
    assert!(token.is_expiring_within_span(5, 600_000_000, later));
    assert!(!token.is_expiring_within(5, later));
    assert!(token.is_expiring_within(6, later));
    assert!(token.is_expiring_within_span(-1, 0, Timestamp { seconds: 112, nanos: 0 }));
    let fresh = OAuthToken::from_response(grant(), clock());
    assert!(!fresh.is_expiring_within_span(3598, 0, clock()));
    assert!(fresh.is_expiring_within_span(3600, 999_999_999, clock()));
}

#[test]
fn text_helpers() {
    assert!(str_eq("", ""));
    assert!(str_eq("é", "é"));
    assert!(!str_eq("a", "A"));
    assert!(!str_eq("a", "ab"));
    assert_eq!(chain2("a", "b"), "ab");
    assert_eq!(chain3("a", "", "c"), "ac");
    assert_eq!(join(&[], ","), "");
    assert_eq!(join(&["a"], ","), "a");
    assert_eq!(join(&["a", "b", "c"], ", "), "a, b, c");
    assert_eq!(join(&["", ""], "-"), "-");
    assert_eq!(decimal_text(0), "0");
    assert_eq!(decimal_text(9), "9");
    assert_eq!(decimal_text(10), "10");
    assert_eq!(decimal_text(1000), "1000");
    assert_eq!(decimal_text(u64::MAX), "18446744073709551615");
    assert_eq!(signed_decimal_text(0), "0");
    assert_eq!(signed_decimal_text(-1), "-1");
    assert_eq!(signed_decimal_text(i64::MAX), "9223372036854775807");
    assert_eq!(signed_decimal_text(i64::MIN), "-9223372036854775808");
}
