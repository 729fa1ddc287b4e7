//! The OAuth 2.0 authorization flow: the URL a user is sent to, the forms
//! that trade a code or a refresh token for tokens, and the tokens.
//!
//! This module builds the requests and reads the responses; sending is the
//! caller's part.

use vstd::prelude::*;
use vstd::string::*;
use vstd::utf8::encode_utf8;
use crate::decode::{
    expect_object, integer_of, member_optional, member_required, object_mismatch,
    optional_decodes, required_at, required_decodes, tolerant_at, tolerant_decodes, Decode,
    Otherwise,
};
use crate::error::{Mismatch, PatreonError, SchemaError};
use crate::json::{json_document, Json, JsonTree};
use crate::text::{join, joined};
use crate::time::Timestamp;
use crate::transport::{is_success, success};

pub mod scopes;

verus! {

/// Where a user is sent to authorize an application.
pub const OAUTH_AUTHORIZE_URL: &'static str = "https://www.patreon.com/oauth2/authorize";

/// Where codes and refresh tokens are traded for tokens.
pub const OAUTH_TOKEN_URL: &'static str = "https://www.patreon.com/api/oauth2/token";

/// How long before its expiry a token counts as expiring soon: five
/// minutes, in seconds.
pub const EXPIRING_SOON_SECONDS: i64 = 300;

/// Whether a byte stands for itself in a percent-encoded text: the ASCII
/// letters and digits, `-`, `.`, `_` and `~`.
pub open spec fn is_unreserved(b: u8) -> bool {
    ||| 0x30 <= b <= 0x39
    ||| 0x41 <= b <= 0x5a
    ||| 0x61 <= b <= 0x7a
    ||| b == 0x2d
    ||| b == 0x2e
    ||| b == 0x5f
    ||| b == 0x7e
}

/// The upper-case hex digit for a value below sixteen.
pub open spec fn upper_hex_digit(n: u8) -> char {
    if n < 10 {
        ((n + 48) as u8) as char
    } else {
        ((n + 55) as u8) as char
    }
}

/// One byte, percent-encoded: itself, or `%` and its two hex digits.
pub open spec fn percent_byte(b: u8) -> Seq<char> {
    if is_unreserved(b) {
        seq![b as char]
    } else {
        seq!['%', upper_hex_digit(b >> 4), upper_hex_digit(b & 15)]
    }
}

/// A byte string, percent-encoded byte by byte.
pub open spec fn percent_bytes(bytes: Seq<u8>) -> Seq<char>
    decreases bytes.len(),
{
    if bytes.len() == 0 {
        Seq::empty()
    } else {
        percent_bytes(bytes.drop_last()) + percent_byte(bytes.last())
    }
}

/// A text, percent-encoded over its UTF-8 bytes.
pub open spec fn percent_encoded(text: Seq<char>) -> Seq<char> {
    percent_bytes(encode_utf8(text))
}

/// `urlencoding::encode`: every byte of the text's UTF-8 form except ASCII
/// letters, digits, `-`, `.`, `_` and `~` becomes `%` and two upper-case
/// hex digits.
#[verifier::external_body]
fn percent_encode(text: &str) -> (r: String)
    ensures
        r@ == percent_encoded(text@),
{
    urlencoding::encode(text).into_owned()
}

/// An application's side of the authorization flow.
#[derive(Clone, Debug)]
pub struct OAuthClient {
    pub client_id: String,
    pub client_secret: String,
    pub redirect_uri: String,
}

/// OAuth token response.
#[derive(Clone, Debug, PartialEq)]
pub struct TokenResponse {
    /// Access token.
    pub access_token: String,
    /// Refresh token.
    pub refresh_token: String,
    /// Expires in seconds.
    pub expires_in: i64,
    /// Token type.
    pub token_type: String,
    /// Granted scopes (space-separated).
    pub scope: String,
    /// Token version.
    pub version: Option<String>,
}

impl Decode for TokenResponse {
    open spec fn mismatch(tree: JsonTree) -> Option<Mismatch> {
        object_mismatch(tree)
            .otherwise(required_at::<String>(tree, "access_token"@))
            .otherwise(required_at::<String>(tree, "refresh_token"@))
            .otherwise(required_at::<i64>(tree, "expires_in"@))
            .otherwise(required_at::<String>(tree, "token_type"@))
            .otherwise(required_at::<String>(tree, "scope"@))
            .otherwise(tolerant_at::<String>(tree, "version"@))
    }

    open spec fn decodes(tree: JsonTree, value: TokenResponse) -> bool {
        &&& required_decodes::<String>(tree.member("access_token"@), value.access_token)
        &&& required_decodes::<String>(tree.member("refresh_token"@), value.refresh_token)
        &&& required_decodes::<i64>(tree.member("expires_in"@), value.expires_in)
        &&& required_decodes::<String>(tree.member("token_type"@), value.token_type)
        &&& required_decodes::<String>(tree.member("scope"@), value.scope)
        &&& optional_decodes::<String>(tree.member("version"@), value.version)
    }

    fn decode(json: &Json) -> (r: Result<TokenResponse, SchemaError>) {
        expect_object(json)?;
        let access_token = member_required::<String>(json, "access_token")?;
        let refresh_token = member_required::<String>(json, "refresh_token")?;
        let expires_in = member_required::<i64>(json, "expires_in")?;
        let token_type = member_required::<String>(json, "token_type")?;
        let scope = member_required::<String>(json, "scope")?;
        let version = member_optional::<String>(json, "version")?;
        Ok(
            TokenResponse {
                access_token,
                refresh_token,
                expires_in,
                token_type,
                scope,
                version,
            },
        )
    }
}

/// OAuth error response.
#[derive(Clone, Debug, PartialEq)]
pub struct OAuthErrorResponse {
    /// Error type.
    pub error: String,
    /// Optional error description.
    pub error_description: Option<String>,
}

impl Decode for OAuthErrorResponse {
    open spec fn mismatch(tree: JsonTree) -> Option<Mismatch> {
        object_mismatch(tree)
            .otherwise(required_at::<String>(tree, "error"@))
            .otherwise(tolerant_at::<String>(tree, "error_description"@))
    }

    open spec fn decodes(tree: JsonTree, value: OAuthErrorResponse) -> bool {
        &&& required_decodes::<String>(tree.member("error"@), value.error)
        &&& optional_decodes::<String>(tree.member("error_description"@), value.error_description)
    }

    fn decode(json: &Json) -> (r: Result<OAuthErrorResponse, SchemaError>) {
        expect_object(json)?;
        let error = member_required::<String>(json, "error")?;
        let error_description = member_optional::<String>(json, "error_description")?;
        Ok(
            OAuthErrorResponse {
                error,
                error_description,
            },
        )
    }
}

/// OAuth token with an absolute expiration time.
#[derive(Clone, Debug, PartialEq)]
pub struct OAuthToken {
    /// Access token.
    pub access_token: String,
    /// Refresh token.
    pub refresh_token: String,
    /// Expiration timestamp.
    pub expires_at: Timestamp,
    /// Token type.
    pub token_type: String,
    /// Granted scopes (space-separated).
    pub scope: String,
}

impl OAuthToken {
    /// The token that `response` grants when it arrives at `now`.
    pub open spec fn granted(response: TokenResponse, now: Timestamp) -> OAuthToken {
        OAuthToken {
            access_token: response.access_token,
            refresh_token: response.refresh_token,
            expires_at: now.shifted(response.expires_in),
            token_type: response.token_type,
            scope: response.scope,
        }
    }

    /// The token that `response` grants when it arrives at `now`: it
    /// expires `expires_in` seconds later.
    pub fn from_response(response: TokenResponse, now: Timestamp) -> (r: OAuthToken)
        ensures
            r == OAuthToken::granted(response, now),
    {
        OAuthToken {
            access_token: response.access_token,
            refresh_token: response.refresh_token,
            expires_at: now.plus_seconds(response.expires_in),
            token_type: response.token_type,
            scope: response.scope,
        }
    }

    /// Whether the token has expired at `now`.
    pub open spec fn expired_at(self, now: Timestamp) -> bool {
        now.at_or_after(self.expires_at)
    }

    /// Whether the token expires within `seconds` of `now`.
    pub open spec fn expiring_within_at(self, seconds: i64, now: Timestamp) -> bool {
        now.shifted(seconds).at_or_after(self.expires_at)
    }

    /// Whether the token expires within a span of `seconds` and `nanos`
    /// of `now`.
    pub open spec fn expiring_within_span_at(
        self,
        seconds: i64,
        nanos: u32,
        now: Timestamp,
    ) -> bool {
        now.shifted_by(seconds, nanos).at_or_after(self.expires_at)
    }

    /// Whether the token has expired at `now`.
    pub fn is_expired(&self, now: Timestamp) -> (r: bool)
        ensures
            r == self.expired_at(now),
    {
        now.is_at_or_after(self.expires_at)
    }

    /// Whether the token expires within `seconds` of `now`.
    pub fn is_expiring_within(&self, seconds: i64, now: Timestamp) -> (r: bool)
        ensures
            r == self.expiring_within_at(seconds, now),
    {
        now.plus_seconds(seconds).is_at_or_after(self.expires_at)
    }

    /// Whether the token expires soon: within five minutes of `now`.
    pub fn is_expiring_soon(&self, now: Timestamp) -> (r: bool)
        ensures
            r == self.expiring_within_at(EXPIRING_SOON_SECONDS, now),
    {
        self.is_expiring_within(EXPIRING_SOON_SECONDS, now)
    }

    /// Whether the token expires within a span of `seconds` and `nanos`
    /// of `now`: the span is kept to the nanosecond.
    pub fn is_expiring_within_span(&self, seconds: i64, nanos: u32, now: Timestamp) -> (r:
        bool)
        ensures
            r == self.expiring_within_span_at(seconds, nanos, now),
    {
        now.plus(seconds, nanos).is_at_or_after(self.expires_at)
    }

}

/// For an instant whose nanoseconds are below a second, a span
/// without nanoseconds is a span of whole seconds.
pub proof fn lemma_span_of_whole_seconds(token: OAuthToken, seconds: i64, now: Timestamp)
    requires
        now.nanos < 1_000_000_000,
    ensures
        token.expiring_within_span_at(seconds, 0, now) == token.expiring_within_at(seconds, now),
{
}

/// A token that expires within a span also expires within every longer
/// span.
pub proof fn lemma_expiring_is_monotone(token: OAuthToken, shorter: i64, longer: i64, now: Timestamp)
    requires
        shorter <= longer,
        token.expiring_within_at(shorter, now),
    ensures
        token.expiring_within_at(longer, now),
{
}

/// An expired token is expiring within every span that does not reach
/// back in time.
pub proof fn lemma_expired_is_expiring(token: OAuthToken, seconds: i64, now: Timestamp)
    requires
        0 <= seconds,
        token.expired_at(now),
    ensures
        token.expiring_within_at(seconds, now),
{
}

/// Whether `token` is what the token response in `tree` grants at `now`.
pub open spec fn token_reads(tree: JsonTree, now: Timestamp, token: OAuthToken) -> bool {
    &&& required_decodes::<String>(tree.member("access_token"@), token.access_token)
    &&& required_decodes::<String>(tree.member("refresh_token"@), token.refresh_token)
    &&& required_decodes::<String>(tree.member("token_type"@), token.token_type)
    &&& required_decodes::<String>(tree.member("scope"@), token.scope)
    &&& tree.member("expires_in"@) is Some
    &&& integer_of(tree.member("expires_in"@)->0) is Some
    &&& i64::MIN <= integer_of(tree.member("expires_in"@)->0)->0 <= i64::MAX
    &&& token.expires_at == now.shifted(integer_of(tree.member("expires_in"@)->0)->0 as i64)
}

/// Whether `e` is the refusal that the error response in `tree` reports:
/// its error word, and its description or the empty text.
pub open spec fn refusal_reads(tree: JsonTree, e: PatreonError) -> bool {
    &&& e is OAuth
    &&& required_decodes::<String>(tree.member("error"@), e->OAuth_error)
    &&& tolerant_decodes::<String>(tree.member("error_description"@), e->OAuth_description)
}

/// Whether `e` is the failure of reading a `T` from `tree`.
pub open spec fn is_mismatch_of<T: Decode>(tree: JsonTree, e: PatreonError) -> bool {
    e is Schema && T::mismatch(tree) == Some(e->Schema_0@)
}

/// Whether `r` is what the token endpoint's answer comes to at `now`: for
/// a success the token it grants, for anything else the refusal it
/// reports, and the failure of reading the body where it has neither
/// shape.
pub open spec fn token_outcome(
    status: u16,
    body: Seq<u8>,
    now: Timestamp,
    r: Result<OAuthToken, PatreonError>,
) -> bool {
    match json_document(body) {
        None => r is Err && r->Err_0 is SerdeJson,
        Some(tree) => if success(status) {
            if TokenResponse::mismatch(tree) is Some {
                r is Err && is_mismatch_of::<TokenResponse>(tree, r->Err_0)
            } else {
                r is Ok && token_reads(tree, now, r->Ok_0)
            }
        } else {
            if OAuthErrorResponse::mismatch(tree) is Some {
                r is Err && is_mismatch_of::<OAuthErrorResponse>(tree, r->Err_0)
            } else {
                r is Err && refusal_reads(tree, r->Err_0)
            }
        },
    }
}

/// The text of the query of an authorization URL, without a state.
pub open spec fn authorization_query(
    client_id: Seq<char>,
    redirect_uri: Seq<char>,
    scopes: Seq<&str>,
) -> Seq<char> {
    "?response_type=code&client_id="@ + percent_encoded(client_id) + "&redirect_uri="@
        + percent_encoded(redirect_uri) + "&scope="@ + percent_encoded(joined(scopes, " "@))
}

impl OAuthClient {
    /// An application's side of the flow.
    pub fn new(client_id: &str, client_secret: &str, redirect_uri: &str) -> (r: OAuthClient)
        ensures
            r.client_id@ == client_id@,
            r.client_secret@ == client_secret@,
            r.redirect_uri@ == redirect_uri@,
    {
        OAuthClient {
            client_id: client_id.to_owned(),
            client_secret: client_secret.to_owned(),
            redirect_uri: redirect_uri.to_owned(),
        }
    }

    /// The URL the user should visit to authorize the application for
    /// `scopes`.
    pub fn authorization_url(&self, scopes: &[&str]) -> (r: String)
        ensures
            r@ == OAUTH_AUTHORIZE_URL@ + authorization_query(
                self.client_id@,
                self.redirect_uri@,
                scopes@,
            ),
    {
        let scope = join(scopes, " ");
        let mut r = OAUTH_AUTHORIZE_URL.to_owned();
        r.append("?response_type=code&client_id=");
        r.append(percent_encode(self.client_id.as_str()).as_str());
        r.append("&redirect_uri=");
        r.append(percent_encode(self.redirect_uri.as_str()).as_str());
        r.append("&scope=");
        r.append(percent_encode(scope.as_str()).as_str());
        proof {
            assert(r@ =~= OAUTH_AUTHORIZE_URL@ + authorization_query(
                self.client_id@,
                self.redirect_uri@,
                scopes@,
            ));
        }
        r
    }

    /// The URL the user should visit to authorize the application for
    /// `scopes`, with a `state` that comes back with the user.
    pub fn authorization_url_with_state(&self, scopes: &[&str], state: &str) -> (r: String)
        ensures
            r@ == OAUTH_AUTHORIZE_URL@ + authorization_query(
                self.client_id@,
                self.redirect_uri@,
                scopes@,
            ) + "&state="@ + percent_encoded(state@),
    {
        let mut r = self.authorization_url(scopes);
        r.append("&state=");
        r.append(percent_encode(state).as_str());
        r
    }

    /// The form that trades an authorization code for tokens.
    pub fn exchange_code_form(&self, code: &str) -> (r: Vec<(String, String)>)
        ensures
            r@.len() == 5,
            r@[0].0@ == "code"@ && r@[0].1@ == code@,
            r@[1].0@ == "grant_type"@ && r@[1].1@ == "authorization_code"@,
            r@[2].0@ == "client_id"@ && r@[2].1@ == self.client_id@,
            r@[3].0@ == "client_secret"@ && r@[3].1@ == self.client_secret@,
            r@[4].0@ == "redirect_uri"@ && r@[4].1@ == self.redirect_uri@,
    {
        let mut r: Vec<(String, String)> = Vec::new();
        r.push(("code".to_owned(), code.to_owned()));
        r.push(("grant_type".to_owned(), "authorization_code".to_owned()));
        r.push(("client_id".to_owned(), self.client_id.clone()));
        r.push(("client_secret".to_owned(), self.client_secret.clone()));
        r.push(("redirect_uri".to_owned(), self.redirect_uri.clone()));
        r
    }

    /// The form that trades a refresh token for new tokens.
    pub fn refresh_token_form(&self, refresh_token: &str) -> (r: Vec<(String, String)>)
        ensures
            r@.len() == 4,
            r@[0].0@ == "grant_type"@ && r@[0].1@ == "refresh_token"@,
            r@[1].0@ == "refresh_token"@ && r@[1].1@ == refresh_token@,
            r@[2].0@ == "client_id"@ && r@[2].1@ == self.client_id@,
            r@[3].0@ == "client_secret"@ && r@[3].1@ == self.client_secret@,
    {
        let mut r: Vec<(String, String)> = Vec::new();
        r.push(("grant_type".to_owned(), "refresh_token".to_owned()));
        r.push(("refresh_token".to_owned(), refresh_token.to_owned()));
        r.push(("client_id".to_owned(), self.client_id.clone()));
        r.push(("client_secret".to_owned(), self.client_secret.clone()));
        r
    }

    /// Reads the token endpoint's answer as it arrives at `now`.
    pub fn read_token_response(status: u16, body: &[u8], now: Timestamp) -> (r: Result<
        OAuthToken,
        PatreonError,
    >)
        ensures
            token_outcome(status, body@, now, r),
    {
        let json = match Json::parse(body) {
            Ok(json) => json,
            Err(e) => {
                return Err(PatreonError::SerdeJson(e));
            },
        };
        if is_success(status) {
            match TokenResponse::decode(&json) {
                Ok(response) => Ok(OAuthToken::from_response(response, now)),
                Err(e) => Err(PatreonError::Schema(e)),
            }
        } else {
            match OAuthErrorResponse::decode(&json) {
                Ok(refusal) => {
                    let description = match refusal.error_description {
                        Some(text) => text,
                        None => String::new(),
                    };
                    Err(PatreonError::OAuth { error: refusal.error, description })
                },
                Err(e) => Err(PatreonError::Schema(e)),
            }
        }
    }
}

} // verus!
