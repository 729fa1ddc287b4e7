//! The first generation of the authorization flow.
//!
//! This module builds the requests and reads the responses; sending is the
//! caller's part.

use vstd::prelude::*;
use vstd::string::*;
use crate::decode::{
    decode_document, defaulted_at, defaulted_decodes, document_outcome, expect_object,
    member_defaulted, member_required, object_mismatch, required_at, required_decodes, Decode,
    Fallback, Otherwise,
};
use crate::error::{Mismatch, PatreonError, SchemaError};
use crate::json::{json_document, Json, JsonTree};
use crate::location::{
    append_pair, append_pair_unless_empty, parse, parsed_url, set_path, to_text, url_or_message,
    with_pair, with_pair_unless_empty, with_path,
};
use crate::transport::{is_success, success};

verus! {

/// Where the service lives.
pub const BASE_URI: &'static str = "https://www.patreon.com";

/// An application's side of the authorization flow.
#[derive(Debug)]
pub struct PatreonOAuth {
    pub client_id: String,
    pub client_secret: String,
    pub redirect_uri: String,
}

impl Default for PatreonOAuth {
    fn default() -> (r: PatreonOAuth)
        ensures
            r.client_id@.len() == 0,
            r.client_secret@.len() == 0,
            r.redirect_uri@.len() == 0,
    {
        PatreonOAuth {
            client_id: String::new(),
            client_secret: String::new(),
            redirect_uri: String::new(),
        }
    }
}

/// What the token endpoint grants.
#[derive(Clone, Debug, PartialEq)]
pub struct TokensResponse {
    pub access_token: String,
    pub expires_in: u64,
    pub token_type: String,
    pub scope: String,
    pub refresh_token: String,
    /// Empty when the endpoint does not say.
    pub version: String,
}

impl Decode for TokensResponse {
    open spec fn mismatch(tree: JsonTree) -> Option<Mismatch> {
        object_mismatch(tree)
            .otherwise(required_at::<String>(tree, "access_token"@))
            .otherwise(required_at::<u64>(tree, "expires_in"@))
            .otherwise(required_at::<String>(tree, "token_type"@))
            .otherwise(required_at::<String>(tree, "scope"@))
            .otherwise(required_at::<String>(tree, "refresh_token"@))
            .otherwise(defaulted_at::<String>(tree, "version"@))
    }

    open spec fn decodes(tree: JsonTree, value: TokensResponse) -> bool {
        &&& required_decodes::<String>(tree.member("access_token"@), value.access_token)
        &&& required_decodes::<u64>(tree.member("expires_in"@), value.expires_in)
        &&& required_decodes::<String>(tree.member("token_type"@), value.token_type)
        &&& required_decodes::<String>(tree.member("scope"@), value.scope)
        &&& required_decodes::<String>(tree.member("refresh_token"@), value.refresh_token)
        &&& defaulted_decodes::<String>(tree.member("version"@), value.version)
    }

    fn decode(json: &Json) -> (r: Result<TokensResponse, SchemaError>) {
        expect_object(json)?;
        let access_token = member_required::<String>(json, "access_token")?;
        let expires_in = member_required::<u64>(json, "expires_in")?;
        let token_type = member_required::<String>(json, "token_type")?;
        let scope = member_required::<String>(json, "scope")?;
        let refresh_token = member_required::<String>(json, "refresh_token")?;
        let version = member_defaulted::<String>(json, "version")?;
        Ok(
            TokensResponse {
                access_token,
                expires_in,
                token_type,
                scope,
                refresh_token,
                version,
            },
        )
    }
}

impl Fallback for TokensResponse {
    open spec fn is_fallback(value: TokensResponse) -> bool {
        &&& <String as Fallback>::is_fallback(value.access_token)
        &&& <u64 as Fallback>::is_fallback(value.expires_in)
        &&& <String as Fallback>::is_fallback(value.token_type)
        &&& <String as Fallback>::is_fallback(value.scope)
        &&& <String as Fallback>::is_fallback(value.refresh_token)
        &&& <String as Fallback>::is_fallback(value.version)
    }

    fn fallback() -> (r: TokensResponse) {
        TokensResponse::default()
    }
}

impl Default for TokensResponse {
    fn default() -> (r: TokensResponse)
        ensures
            TokensResponse::is_fallback(r),
    {
        TokensResponse {
            access_token: String::new(),
            expires_in: 0,
            token_type: String::new(),
            scope: String::new(),
            refresh_token: String::new(),
            version: String::new(),
        }
    }
}

/// What the token endpoint says when it refuses.
#[derive(Clone, Debug, PartialEq)]
pub struct ErrorResponse {
    pub error: String,
}

impl Decode for ErrorResponse {
    open spec fn mismatch(tree: JsonTree) -> Option<Mismatch> {
        object_mismatch(tree)
            .otherwise(required_at::<String>(tree, "error"@))
    }

    open spec fn decodes(tree: JsonTree, value: ErrorResponse) -> bool {
        &&& required_decodes::<String>(tree.member("error"@), value.error)
    }

    fn decode(json: &Json) -> (r: Result<ErrorResponse, SchemaError>) {
        expect_object(json)?;
        let error = member_required::<String>(json, "error")?;
        Ok(
            ErrorResponse {
                error,
            },
        )
    }
}

/// The text of the authorization URL for an application, a scope and a
/// state: the base with its path set and the pairs of the query added in
/// order; `None` where a step cannot be taken.
pub open spec fn authorization_url_text(
    client_id: Seq<char>,
    redirect_uri: Seq<char>,
    scope: Seq<char>,
    state: Seq<char>,
) -> Option<Seq<char>> {
    let at_path = with_path(parsed_url(BASE_URI@), "/oauth2/authorize"@);
    let asked = with_pair_unless_empty(
        with_pair_unless_empty(at_path, "scope"@, scope),
        "state"@,
        state,
    );
    with_pair(
        with_pair(
            with_pair(with_pair(asked, "scope "@, "campaigns"@), "response_type"@, "code"@),
            "client_id"@,
            client_id,
        ),
        "redirect_uri"@,
        redirect_uri,
    )
}

/// The text of the token endpoint's URL.
pub open spec fn token_url_text() -> Option<Seq<char>> {
    with_path(parsed_url(BASE_URI@), "/api/oauth2/token"@)
}

/// Whether `e` is the refusal that the error response in `body` reports
/// under `status`, or the failure of reading it.
pub open spec fn is_refusal(status: u16, body: Seq<u8>, e: PatreonError) -> bool {
    match json_document(body) {
        None => e is SerdeJson,
        Some(tree) => match ErrorResponse::mismatch(tree) {
            Some(m) => e is Schema && e->Schema_0@ == m,
            None => {
                &&& e is PatreonOAuth
                &&& e->PatreonOAuth_0 == status
                &&& required_decodes::<String>(tree.member("error"@), e->PatreonOAuth_1)
            },
        },
    }
}

/// Whether `r` is what the token endpoint's answer comes to: the decoded
/// document for a success, the refusal otherwise.
pub open spec fn de_response_outcome<T: Decode>(
    status: u16,
    body: Seq<u8>,
    r: Result<T, PatreonError>,
) -> bool {
    if success(status) {
        document_outcome::<T>(body, r)
    } else {
        r is Err && is_refusal(status, body, r->Err_0)
    }
}

/// Reads the token endpoint's answer.
pub fn de_response<T: Decode>(status: u16, text: &str) -> (r: Result<T, PatreonError>)
    ensures
        de_response_outcome::<T>(status, text.spec_bytes(), r),
{
    if is_success(status) {
        decode_document::<T>(text.as_bytes())
    } else {
        match decode_document::<ErrorResponse>(text.as_bytes()) {
            Ok(refusal) => Err(PatreonError::PatreonOAuth(status, refusal.error)),
            Err(e) => Err(e),
        }
    }
}

impl PatreonOAuth {
    /// The URL the user should visit to authorize the application. A scope
    /// or a state that is empty is left out.
    pub fn get_authorization_url(&self, scope: &str, state: &str) -> (r: Result<
        String,
        PatreonError,
    >)
        ensures
            r is Ok <==> authorization_url_text(
                self.client_id@,
                self.redirect_uri@,
                scope@,
                state@,
            ) is Some,
            r is Ok ==> Some(r->Ok_0@) == authorization_url_text(
                self.client_id@,
                self.redirect_uri@,
                scope@,
                state@,
            ),
            r is Err ==> r->Err_0 is Message,
    {
        let url = set_path(parse(BASE_URI), "/oauth2/authorize");
        let url = append_pair_unless_empty(url, "scope", scope);
        let url = append_pair_unless_empty(url, "state", state);
        let url = append_pair(url, "scope ", "campaigns");
        let url = append_pair(url, "response_type", "code");
        let url = append_pair(url, "client_id", self.client_id.as_str());
        let url = append_pair(url, "redirect_uri", self.redirect_uri.as_str());
        url_or_message(to_text(url))
    }

    /// The URL of the token endpoint.
    pub fn token_url() -> (r: Result<String, PatreonError>)
        ensures
            r is Ok <==> token_url_text() is Some,
            r is Ok ==> Some(r->Ok_0@) == token_url_text(),
            r is Err ==> r->Err_0 is Message,
    {
        url_or_message(to_text(set_path(parse(BASE_URI), "/api/oauth2/token")))
    }

    /// The form that trades an authorization code for tokens.
    pub fn get_tokens_form(&self, code: &str) -> (r: Vec<(String, String)>)
        ensures
            r@.len() == 5,
            r@[0].0@ == "grant_type"@ && r@[0].1@ == "authorization_code"@,
            r@[1].0@ == "code"@ && r@[1].1@ == code@,
            r@[2].0@ == "client_id"@ && r@[2].1@ == self.client_id@,
            r@[3].0@ == "client_secret"@ && r@[3].1@ == self.client_secret@,
            r@[4].0@ == "redirect_uri"@ && r@[4].1@ == self.redirect_uri@,
    {
        let mut r: Vec<(String, String)> = Vec::new();
        r.push(("grant_type".to_owned(), "authorization_code".to_owned()));
        r.push(("code".to_owned(), code.to_owned()));
        r.push(("client_id".to_owned(), self.client_id.clone()));
        r.push(("client_secret".to_owned(), self.client_secret.clone()));
        r.push(("redirect_uri".to_owned(), self.redirect_uri.clone()));
        r
    }

    /// The form that trades a refresh token for new tokens.
    pub fn refresh_tokens_form(&self, refresh_token: &str) -> (r: Vec<(String, String)>)
        ensures
            r@.len() == 4,
            r@[0].0@ == "grant_type"@ && r@[0].1@ == "refresh_token"@,
            r@[1].0@ == "client_id"@ && r@[1].1@ == self.client_id@,
            r@[2].0@ == "client_secret"@ && r@[2].1@ == self.client_secret@,
            r@[3].0@ == "refresh_token"@ && r@[3].1@ == refresh_token@,
    {
        let mut r: Vec<(String, String)> = Vec::new();
        r.push(("grant_type".to_owned(), "refresh_token".to_owned()));
        r.push(("client_id".to_owned(), self.client_id.clone()));
        r.push(("client_secret".to_owned(), self.client_secret.clone()));
        r.push(("refresh_token".to_owned(), refresh_token.to_owned()));
        r
    }
}

} // verus!
