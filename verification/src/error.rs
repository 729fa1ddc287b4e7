//! The failures the library reports.

use vstd::prelude::*;
use vstd::std_specs::convert::FromSpecImpl;
use crate::decode::{
    expect_object, member_optional, member_required, object_mismatch, optional_decodes,
    required_at, required_decodes, tolerant_at, Decode, Fallback, Otherwise,
};
use crate::json::{Json, JsonTree};
use crate::text::{decimal, decimal_text, signed_decimal, signed_decimal_text};
use vstd::string::*;

verus! {

/// `reqwest::Error`, carried to the caller and not looked into.
#[verifier::external_type_specification]
#[verifier::external_body]
pub struct ExTransportError(reqwest::Error);

/// What a decoder looked for where it found something else.
#[derive(Clone, Copy, Debug, PartialEq, Eq, Structural)]
pub enum Expected {
    /// A member that has to be there.
    Present,
    Object,
    Array,
    Text,
    Integer,
    Boolean,
    /// A text that reads as a date and time.
    Timestamp,
    /// One of a closed set of words.
    Variant,
}

/// The model of a [`SchemaError`].
pub struct Mismatch {
    pub field: Seq<char>,
    pub expected: Expected,
}

/// A JSON value that does not have the shape a decoder asks for: the member
/// at fault (empty when the value itself is at fault) and what was expected
/// there.
#[derive(Clone, Debug, PartialEq, Eq)]
pub struct SchemaError {
    pub field: String,
    pub expected: Expected,
}

impl View for SchemaError {
    type V = Mismatch;

    open spec fn view(&self) -> Mismatch {
        Mismatch { field: self.field@, expected: self.expected }
    }
}

/// A mismatch of the value itself, not of one of its members.
pub open spec fn unplaced(expected: Expected) -> Mismatch {
    Mismatch { field: Seq::empty(), expected }
}

/// `m`, put at the member `key` unless it already names a member.
pub open spec fn placed(m: Mismatch, key: Seq<char>) -> Mismatch {
    if m.field.len() == 0 {
        Mismatch { field: key, expected: m.expected }
    } else {
        m
    }
}

impl SchemaError {
    /// A mismatch of the value itself.
    pub fn unplaced(expected: Expected) -> (r: SchemaError)
        ensures
            r@ == unplaced(expected),
    {
        SchemaError { field: String::new(), expected }
    }

    /// The same mismatch, put at the member `key` unless it already names one.
    pub fn at(self, key: &str) -> (r: SchemaError)
        ensures
            r@ == placed(self@, key@),
    {
        if self.field.as_str().is_empty() {
            SchemaError { field: key.to_owned(), expected: self.expected }
        } else {
            self
        }
    }
}

/// One entry of the error list the service sends with a failed request.
#[derive(Clone, Debug, PartialEq)]
pub struct ApiError {
    pub code: Option<i64>,
    pub code_name: String,
    pub detail: String,
    pub id: String,
    pub status: String,
    pub title: String,
}

impl Decode for ApiError {
    open spec fn mismatch(tree: JsonTree) -> Option<Mismatch> {
        object_mismatch(tree)
            .otherwise(tolerant_at::<i64>(tree, "code"@))
            .otherwise(required_at::<String>(tree, "code_name"@))
            .otherwise(required_at::<String>(tree, "detail"@))
            .otherwise(required_at::<String>(tree, "id"@))
            .otherwise(required_at::<String>(tree, "status"@))
            .otherwise(required_at::<String>(tree, "title"@))
    }

    open spec fn decodes(tree: JsonTree, value: ApiError) -> bool {
        &&& optional_decodes::<i64>(tree.member("code"@), value.code)
        &&& required_decodes::<String>(tree.member("code_name"@), value.code_name)
        &&& required_decodes::<String>(tree.member("detail"@), value.detail)
        &&& required_decodes::<String>(tree.member("id"@), value.id)
        &&& required_decodes::<String>(tree.member("status"@), value.status)
        &&& required_decodes::<String>(tree.member("title"@), value.title)
    }

    fn decode(json: &Json) -> (r: Result<ApiError, SchemaError>) {
        expect_object(json)?;
        let code = member_optional::<i64>(json, "code")?;
        let code_name = member_required::<String>(json, "code_name")?;
        let detail = member_required::<String>(json, "detail")?;
        let id = member_required::<String>(json, "id")?;
        let status = member_required::<String>(json, "status")?;
        let title = member_required::<String>(json, "title")?;
        Ok(
            ApiError {
                code,
                code_name,
                detail,
                id,
                status,
                title,
            },
        )
    }
}

impl Fallback for ApiError {
    open spec fn is_fallback(value: ApiError) -> bool {
        &&& value.code is None
        &&& <String as Fallback>::is_fallback(value.code_name)
        &&& <String as Fallback>::is_fallback(value.detail)
        &&& <String as Fallback>::is_fallback(value.id)
        &&& <String as Fallback>::is_fallback(value.status)
        &&& <String as Fallback>::is_fallback(value.title)
    }

    fn fallback() -> (r: ApiError) {
        ApiError::default()
    }
}

impl Default for ApiError {
    fn default() -> (r: ApiError)
        ensures
            ApiError::is_fallback(r),
    {
        ApiError {
            code: None,
            code_name: String::new(),
            detail: String::new(),
            id: String::new(),
            status: String::new(),
            title: String::new(),
        }
    }
}

/// Every way a call into the library, or a request made on its behalf, fails.
#[derive(Debug)]
pub enum PatreonError {
    /// The transport failed.
    Reqwest(reqwest::Error),
    /// The bytes are not a JSON document.
    SerdeJson(serde_json::Error),
    /// The token endpoint answered with this status and error word.
    PatreonOAuth(u16, String),
    /// The service answered with this status and these errors.
    PatreonApi(u16, Vec<ApiError>),
    Message(String),
    /// The signature does not belong to the body under the shared secret.
    InvalidSignature,
    /// The trigger label is none of the known ones.
    UnknownTrigger(String),
    /// The document is JSON but not of the expected shape.
    Schema(SchemaError),
    /// A request failed with this status and this body.
    Api { status: u16, message: String },
    /// The authorization server refused with this error word.
    OAuth { error: String, description: String },
}

pub type PatreonResult<A> = Result<A, PatreonError>;

/// What a `serde_json::Error` says of itself.
pub uninterp spec fn parse_error_line(e: serde_json::Error) -> Seq<char>;

/// What a `reqwest::Error` says of itself.
pub uninterp spec fn transport_error_line(e: reqwest::Error) -> Seq<char>;

/// What `StatusCode` prints for a status code: the number, a blank and the
/// reason phrase that belongs to it.
pub uninterp spec fn status_text(code: u16) -> Seq<char>;

/// `ToString::to_string` of a `serde_json::Error`: what the error says of
/// itself. The text depends on the error alone.
#[verifier::external_body]
fn parse_error_text(e: &serde_json::Error) -> (r: String)
    ensures
        r@ == parse_error_line(*e),
{
    e.to_string()
}

/// `ToString::to_string` of a `reqwest::Error`: what the error says of
/// itself. The text depends on the error alone.
#[verifier::external_body]
fn transport_error_text(e: &reqwest::Error) -> (r: String)
    ensures
        r@ == transport_error_line(*e),
{
    e.to_string()
}

/// `reqwest::StatusCode::from_u16`, then `ToString::to_string` of the
/// status code: a number from 100 to 999 is a status code and prints as
/// its number, a blank and its reason phrase; any other number is refused.
#[verifier::external_body]
fn status_line(code: u16) -> (r: Option<String>)
    ensures
        r is Some <==> is_status_code(code),
        r is Some ==> r->0@ == status_text(code),
{
    match reqwest::StatusCode::from_u16(code) {
        Ok(status) => Some(status.to_string()),
        Err(_) => None,
    }
}

/// Whether a number is a status code: 100 to 999.
pub open spec fn is_status_code(code: u16) -> bool {
    100 <= code <= 999
}

/// How a status is shown in the line of a failure: a status code as
/// `StatusCode` prints it, any other number in decimal.
pub open spec fn shown_status(code: u16) -> Seq<char> {
    if is_status_code(code) {
        status_text(code)
    } else {
        decimal(code as nat)
    }
}

/// Writes a status as the line of a failure shows it.
pub fn status_shown(code: u16) -> (r: String)
    ensures
        r@ == shown_status(code),
{
    match status_line(code) {
        Some(text) => text,
        None => decimal_text(code as u64),
    }
}

impl Expected {
    /// The word for what was expected.
    pub open spec fn word(self) -> Seq<char> {
        match self {
            Expected::Present => "a value"@,
            Expected::Object => "an object"@,
            Expected::Array => "an array"@,
            Expected::Text => "a string"@,
            Expected::Integer => "an integer"@,
            Expected::Boolean => "a boolean"@,
            Expected::Timestamp => "a date and time"@,
            Expected::Variant => "a known variant"@,
        }
    }

    /// The word for what was expected.
    pub fn as_str(&self) -> (r: &'static str)
        ensures
            r@ == self.word(),
    {
        match self {
            Expected::Present => "a value",
            Expected::Object => "an object",
            Expected::Array => "an array",
            Expected::Text => "a string",
            Expected::Integer => "an integer",
            Expected::Boolean => "a boolean",
            Expected::Timestamp => "a date and time",
            Expected::Variant => "a known variant",
        }
    }
}

impl Mismatch {
    /// The sentence for a mismatch.
    pub open spec fn text(self) -> Seq<char> {
        "expected "@ + self.expected.word() + " at `"@ + self.field + "`"@
    }
}

impl SchemaError {
    /// The sentence for this error.
    pub fn to_text(&self) -> (r: String)
        ensures
            r@ == self@.text(),
    {
        let mut r = "expected ".to_owned();
        r.append(self.expected.as_str());
        r.append(" at `");
        r.append(self.field.as_str());
        r.append("`");
        r
    }
}

/// `code : Some(<n>), ` or `code : None, `.
pub open spec fn code_text(code: Option<i64>) -> Seq<char> {
    match code {
        Some(n) => "code : Some("@ + signed_decimal(n as int) + "), "@,
        None => "code : None, "@,
    }
}

impl ApiError {
    /// The line for this error.
    pub open spec fn text(self) -> Seq<char> {
        "ApiError("@ + code_text(self.code) + "code_name : "@ + self.code_name@ + ", detail : "@
            + self.detail@ + ", id : "@ + self.id@ + ", status : "@ + self.status@ + ", title : "@
            + self.title@ + ", )"@
    }

    /// The line for this error: each field by its name.
    pub fn to_text(&self) -> (r: String)
        ensures
            r@ == self.text(),
    {
        let mut r = "ApiError(".to_owned();
        match self.code {
            Some(n) => {
                r.append("code : Some(");
                let digits = signed_decimal_text(n);
                r.append(digits.as_str());
                r.append("), ");
            },
            None => {
                r.append("code : None, ");
            },
        }
        proof {
            assert(r@ =~= "ApiError("@ + code_text(self.code));
        }
        r.append("code_name : ");
        r.append(self.code_name.as_str());
        r.append(", detail : ");
        r.append(self.detail.as_str());
        r.append(", id : ");
        r.append(self.id.as_str());
        r.append(", status : ");
        r.append(self.status.as_str());
        r.append(", title : ");
        r.append(self.title.as_str());
        r.append(", )");
        r
    }
}

/// The lines of `errors`, each followed by `, `.
pub open spec fn errors_text(errors: Seq<ApiError>) -> Seq<char>
    decreases errors.len(),
{
    if errors.len() == 0 {
        Seq::empty()
    } else {
        errors_text(errors.drop_last()) + errors.last().text() + ", "@
    }
}

impl PatreonError {
    /// Whether `text` is the line for this error. Of a transport or parse
    /// failure the line is what the failure says of itself.
    pub open spec fn described_by(self, text: Seq<char>) -> bool {
        match self {
            PatreonError::Reqwest(e) => text == transport_error_line(e),
            PatreonError::SerdeJson(e) => text == parse_error_line(e),
            PatreonError::PatreonOAuth(code, message) => text == "PatreonOAuth{ "@ + shown_status(
                code,
            ) + " : "@ + message@ + " }"@,
            PatreonError::PatreonApi(code, errors) => text == "PatreonApi { code : "@
                + shown_status(code) + ", errors : [ "@ + errors_text(errors@) + " ] }"@,
            PatreonError::Message(message) => text == "Message ( "@ + message@ + " ) ,"@,
            PatreonError::InvalidSignature => text == "signature invalid"@,
            PatreonError::UnknownTrigger(trigger) => text == "unknown trigger: "@ + trigger@,
            PatreonError::Schema(e) => text == e@.text(),
            PatreonError::Api { status, message } => text == "API error "@ + decimal(
                status as nat,
            ) + ": "@ + message@,
            PatreonError::OAuth { error, description } => text == "OAuth error "@ + error@ + ": "@
                + description@,
        }
    }

    /// The line for this error.
    pub fn to_text(&self) -> (r: String)
        ensures
            self.described_by(r@),
    {
        match self {
            PatreonError::Reqwest(e) => transport_error_text(e),
            PatreonError::SerdeJson(e) => parse_error_text(e),
            PatreonError::PatreonOAuth(code, message) => {
                let mut r = "PatreonOAuth{ ".to_owned();
                let digits = status_shown(*code);
                r.append(digits.as_str());
                r.append(" : ");
                r.append(message.as_str());
                r.append(" }");
                r
            },
            PatreonError::PatreonApi(code, errors) => {
                let mut r = "PatreonApi { code : ".to_owned();
                let digits = status_shown(*code);
                r.append(digits.as_str());
                r.append(", errors : [ ");
                let ghost head = r@;
                let mut i: usize = 0;
                while i < errors.len()
                    invariant
                        i <= errors.len(),
                        r@ == head + errors_text(errors@.take(i as int)),
                    decreases errors.len() - i,
                {
                    proof {
                        let next = errors@.take(i + 1);
                        assert(next.drop_last() =~= errors@.take(i as int));
                        assert(next.last() == errors@[i as int]);
                    }
                    let line = errors[i].to_text();
                    r.append(line.as_str());
                    r.append(", ");
                    proof {
                        assert(r@ =~= head + errors_text(errors@.take(i + 1)));
                    }
                    i += 1;
                }
                proof {
                    assert(errors@.take(errors.len() as int) =~= errors@);
                }
                r.append(" ] }");
                r
            },
            PatreonError::Message(message) => {
                let mut r = "Message ( ".to_owned();
                r.append(message.as_str());
                r.append(" ) ,");
                r
            },
            PatreonError::InvalidSignature => "signature invalid".to_owned(),
            PatreonError::UnknownTrigger(trigger) => {
                let mut r = "unknown trigger: ".to_owned();
                r.append(trigger.as_str());
                r
            },
            PatreonError::Schema(e) => e.to_text(),
            PatreonError::Api { status, message } => {
                let mut r = "API error ".to_owned();
                let digits = decimal_text(*status as u64);
                r.append(digits.as_str());
                r.append(": ");
                r.append(message.as_str());
                r
            },
            PatreonError::OAuth { error, description } => {
                let mut r = "OAuth error ".to_owned();
                r.append(error.as_str());
                r.append(": ");
                r.append(description.as_str());
                r
            },
        }
    }
}

impl From<reqwest::Error> for PatreonError {
    fn from(value: reqwest::Error) -> (r: PatreonError) {
        PatreonError::Reqwest(value)
    }
}

impl FromSpecImpl<reqwest::Error> for PatreonError {
    open spec fn obeys_from_spec() -> bool {
        true
    }

    open spec fn from_spec(value: reqwest::Error) -> PatreonError {
        PatreonError::Reqwest(value)
    }
}

impl From<serde_json::Error> for PatreonError {
    fn from(value: serde_json::Error) -> (r: PatreonError) {
        PatreonError::SerdeJson(value)
    }
}

impl FromSpecImpl<serde_json::Error> for PatreonError {
    open spec fn obeys_from_spec() -> bool {
        true
    }

    open spec fn from_spec(value: serde_json::Error) -> PatreonError {
        PatreonError::SerdeJson(value)
    }
}

impl From<SchemaError> for PatreonError {
    fn from(value: SchemaError) -> (r: PatreonError) {
        PatreonError::Schema(value)
    }
}

impl FromSpecImpl<SchemaError> for PatreonError {
    open spec fn obeys_from_spec() -> bool {
        true
    }

    open spec fn from_spec(value: SchemaError) -> PatreonError {
        PatreonError::Schema(value)
    }
}

} // verus!
