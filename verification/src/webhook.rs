//! Webhook deliveries: checking the signature of a delivery and typing what
//! it carries.
//!
//! Verify first, then trust the bytes: [`WebhookValidator::validate_and_parse`]
//! does both in that order.

use vstd::prelude::*;
use vstd::string::*;
use crate::api::{data_outcome, DocResponse, Member, Pledge};
use crate::decode::{
    decode_document, document_outcome, expect_object, member_or_default, member_required,
    object_mismatch, required_at, required_decodes, tolerant_at, tolerant_decodes, Decode,
    Otherwise,
};
use crate::error::{Mismatch, PatreonError, SchemaError};
use crate::json::{Json, JsonTree};
use crate::models::attributes::lemma_trigger_labels_differ;
use crate::models::resources::Resource;
use crate::models::response::PaginationLinks;
use crate::signature::{
    compute_signature_with, signature_matches, signature_of, verify_signature, DigestAlgorithm,
};
use crate::text::str_eq;

verus! {

/// The label of the event a delivery reports, as the event header carries it.
#[derive(Clone, Debug, PartialEq, Eq)]
pub enum WebhookEventType {
    /// `members:create`
    MembersCreate,
    /// `members:update`
    MembersUpdate,
    /// `members:delete`
    MembersDelete,
    /// `members:pledge:create`
    MembersPledgeCreate,
    /// `members:pledge:update`
    MembersPledgeUpdate,
    /// `members:pledge:delete`
    MembersPledgeDelete,
    /// `posts:publish`
    PostsPublish,
    /// `posts:update`
    PostsUpdate,
    /// `posts:delete`
    PostsDelete,
    /// Any other label, kept as it came.
    Unknown(String),
}

impl WebhookEventType {
    /// The label on the wire.
    pub open spec fn label(self) -> Seq<char> {
        match self {
            WebhookEventType::MembersCreate => "members:create"@,
            WebhookEventType::MembersUpdate => "members:update"@,
            WebhookEventType::MembersDelete => "members:delete"@,
            WebhookEventType::MembersPledgeCreate => "members:pledge:create"@,
            WebhookEventType::MembersPledgeUpdate => "members:pledge:update"@,
            WebhookEventType::MembersPledgeDelete => "members:pledge:delete"@,
            WebhookEventType::PostsPublish => "posts:publish"@,
            WebhookEventType::PostsUpdate => "posts:update"@,
            WebhookEventType::PostsDelete => "posts:delete"@,
            WebhookEventType::Unknown(label) => label@,
        }
    }

    /// Whether `label` is one of the nine known labels.
    pub open spec fn is_known_label(label: Seq<char>) -> bool {
        ||| label == "members:create"@
        ||| label == "members:update"@
        ||| label == "members:delete"@
        ||| label == "members:pledge:create"@
        ||| label == "members:pledge:update"@
        ||| label == "members:pledge:delete"@
        ||| label == "posts:publish"@
        ||| label == "posts:update"@
        ||| label == "posts:delete"@
    }

    /// Reads a label. Every label is read: one that is not known is kept in
    /// `Unknown`, so that [`as_str`](Self::as_str) gives back exactly what
    /// was read.
    pub fn from_str(label: &str) -> (r: WebhookEventType)
        ensures
            r.label() == label@,
            r is Unknown <==> !WebhookEventType::is_known_label(label@),
    {
        if str_eq(label, "members:create") {
            WebhookEventType::MembersCreate
        } else if str_eq(label, "members:update") {
            WebhookEventType::MembersUpdate
        } else if str_eq(label, "members:delete") {
            WebhookEventType::MembersDelete
        } else if str_eq(label, "members:pledge:create") {
            WebhookEventType::MembersPledgeCreate
        } else if str_eq(label, "members:pledge:update") {
            WebhookEventType::MembersPledgeUpdate
        } else if str_eq(label, "members:pledge:delete") {
            WebhookEventType::MembersPledgeDelete
        } else if str_eq(label, "posts:publish") {
            WebhookEventType::PostsPublish
        } else if str_eq(label, "posts:update") {
            WebhookEventType::PostsUpdate
        } else if str_eq(label, "posts:delete") {
            WebhookEventType::PostsDelete
        } else {
            WebhookEventType::Unknown(label.to_owned())
        }
    }

    /// The label on the wire.
    pub fn as_str(&self) -> (r: &str)
        ensures
            r@ == self.label(),
    {
        match self {
            WebhookEventType::MembersCreate => "members:create",
            WebhookEventType::MembersUpdate => "members:update",
            WebhookEventType::MembersDelete => "members:delete",
            WebhookEventType::MembersPledgeCreate => "members:pledge:create",
            WebhookEventType::MembersPledgeUpdate => "members:pledge:update",
            WebhookEventType::MembersPledgeDelete => "members:pledge:delete",
            WebhookEventType::PostsPublish => "posts:publish",
            WebhookEventType::PostsUpdate => "posts:update",
            WebhookEventType::PostsDelete => "posts:delete",
            WebhookEventType::Unknown(label) => label.as_str(),
        }
    }
}

/// Whether `kind` is what reading `label` gives.
pub open spec fn reads_label(kind: WebhookEventType, label: Seq<char>) -> bool {
    &&& kind.label() == label
    &&& kind is Unknown <==> !WebhookEventType::is_known_label(label)
}

/// Writing what was read gives the label back, for every label, known or
/// not.
pub proof fn lemma_label_round_trip(kind: WebhookEventType, label: Seq<char>)
    requires
        reads_label(kind, label),
    ensures
        kind.label() == label,
{
}

/// Reading what a known kind writes gives that kind back: the nine labels
/// are nine different texts.
pub proof fn lemma_known_label_read_back(kind: WebhookEventType, other: WebhookEventType)
    requires
        !(kind is Unknown),
        reads_label(other, kind.label()),
    ensures
        other == kind,
{
    lemma_trigger_labels_differ();
}

/// A delivery, typed by the trigger it came with.
#[derive(Clone, Debug, PartialEq)]
pub enum Event {
    /// `pledges:create`
    CreatePledge(Pledge),
    /// `pledges:update`
    UpdatePledge(Pledge),
    /// `pledges:delete`
    DeletePledge(Pledge),
    /// `members:create`
    CreateMember(Member),
    /// `members:update`
    UpdateMember(Member),
    /// `members:delete`
    DeleteMember(Member),
    /// `members:pledge:create`
    CreateMemberPledge(Member),
    /// `members:pledge:update`
    UpdateMemberPledge(Member),
    /// `members:pledge:delete`
    DeleteMemberPledge(Member),
}

impl Event {
    /// The trigger that this kind of event comes with.
    pub open spec fn trigger(self) -> Seq<char> {
        match self {
            Event::CreatePledge(_) => "pledges:create"@,
            Event::UpdatePledge(_) => "pledges:update"@,
            Event::DeletePledge(_) => "pledges:delete"@,
            Event::CreateMember(_) => "members:create"@,
            Event::UpdateMember(_) => "members:update"@,
            Event::DeleteMember(_) => "members:delete"@,
            Event::CreateMemberPledge(_) => "members:pledge:create"@,
            Event::UpdateMemberPledge(_) => "members:pledge:update"@,
            Event::DeleteMemberPledge(_) => "members:pledge:delete"@,
        }
    }

    /// The pledge that a pledge event carries.
    pub open spec fn pledge(self) -> Option<Pledge> {
        match self {
            Event::CreatePledge(p) | Event::UpdatePledge(p) | Event::DeletePledge(p) => Some(p),
            _ => None,
        }
    }

    /// The membership that a member event carries.
    pub open spec fn member(self) -> Option<Member> {
        match self {
            Event::CreateMember(m)
            | Event::UpdateMember(m)
            | Event::DeleteMember(m)
            | Event::CreateMemberPledge(m)
            | Event::UpdateMemberPledge(m)
            | Event::DeleteMemberPledge(m) => Some(m),
            _ => None,
        }
    }
}

/// Whether `trigger` announces a pledge.
pub open spec fn is_pledge_trigger(trigger: Seq<char>) -> bool {
    ||| trigger == "pledges:create"@
    ||| trigger == "pledges:update"@
    ||| trigger == "pledges:delete"@
}

/// Whether `trigger` announces a membership.
pub open spec fn is_member_trigger(trigger: Seq<char>) -> bool {
    ||| trigger == "members:create"@
    ||| trigger == "members:update"@
    ||| trigger == "members:delete"@
    ||| trigger == "members:pledge:create"@
    ||| trigger == "members:pledge:update"@
    ||| trigger == "members:pledge:delete"@
}

/// Whether `r` is what typing the delivery `body` by `trigger` gives: for
/// a trigger outside the table the unknown-trigger failure with that
/// trigger, whatever the body holds; else the event of that trigger around
/// the decoded `data`, or the failure of reading it.
pub open spec fn event_outcome(trigger: Seq<char>, body: Seq<u8>, r: Result<Event, PatreonError>) -> bool {
    if is_pledge_trigger(trigger) {
        match r {
            Ok(event) => event.trigger() == trigger && event.pledge() is Some && data_outcome::<
                Pledge,
            >(body, Ok(event.pledge()->0)),
            Err(e) => data_outcome::<Pledge>(body, Err(e)),
        }
    } else if is_member_trigger(trigger) {
        match r {
            Ok(event) => event.trigger() == trigger && event.member() is Some && data_outcome::<
                Member,
            >(body, Ok(event.member()->0)),
            Err(e) => data_outcome::<Member>(body, Err(e)),
        }
    } else {
        r is Err && r->Err_0 is UnknownTrigger && r->Err_0->UnknownTrigger_0@ == trigger
    }
}

/// The receiving end of a webhook that signs with HMAC-MD5.
#[derive(Debug)]
pub struct Webhook {
    pub webhook_secret: String,
}

impl Default for Webhook {
    fn default() -> (r: Webhook)
        ensures
            r.webhook_secret@.len() == 0,
    {
        Webhook { webhook_secret: String::new() }
    }
}

impl Webhook {
    /// Whether `signature` is the HMAC-MD5 signature of `body` under the
    /// secret. Every secret is a usable key, so this never fails. A
    /// signature that is not 32 characters long is refused.
    pub fn check_signature(&self, body: &[u8], signature: &str) -> (r: Result<bool, PatreonError>)
        ensures
            r is Ok,
            r->Ok_0 == signature_matches(
                DigestAlgorithm::Md5,
                self.webhook_secret@,
                body@,
                signature@,
            ),
            signature@.len() != 32 ==> r->Ok_0 == false,
    {
        self.check_signature_with(DigestAlgorithm::Md5, body, signature)
    }

    /// Whether `signature` is the signature of `body` under the secret
    /// with the digest the deployment signs with. A signature of another
    /// length than the digest's hex text is refused.
    pub fn check_signature_with(
        &self,
        algorithm: DigestAlgorithm,
        body: &[u8],
        signature: &str,
    ) -> (r: Result<bool, PatreonError>)
        ensures
            r is Ok,
            r->Ok_0 == signature_matches(algorithm, self.webhook_secret@, body@, signature@),
            signature@.len() != 2 * algorithm.tag_len() ==> r->Ok_0 == false,
    {
        Ok(verify_signature(algorithm, self.webhook_secret.as_str(), body, signature))
    }

    /// Types the delivery `body` by the trigger it came with.
    pub fn parse_event(&self, body: &[u8], trigger: &str) -> (r: Result<Event, PatreonError>)
        ensures
            event_outcome(trigger@, body@, r),
    {
        classify_event(body, trigger)
    }
}

/// Types the delivery `body` by `trigger`: the label selects the variant
/// and what the `data` of the body is read as.
pub fn classify_event(body: &[u8], trigger: &str) -> (r: Result<Event, PatreonError>)
    ensures
        event_outcome(trigger@, body@, r),
{
    if str_eq(trigger, "pledges:create") {
        match DocResponse::<Pledge>::parse(body) {
            Ok(pledge) => Ok(Event::CreatePledge(pledge)),
            Err(e) => Err(e),
        }
    } else if str_eq(trigger, "pledges:update") {
        match DocResponse::<Pledge>::parse(body) {
            Ok(pledge) => Ok(Event::UpdatePledge(pledge)),
            Err(e) => Err(e),
        }
    } else if str_eq(trigger, "pledges:delete") {
        match DocResponse::<Pledge>::parse(body) {
            Ok(pledge) => Ok(Event::DeletePledge(pledge)),
            Err(e) => Err(e),
        }
    } else if str_eq(trigger, "members:create") {
        match DocResponse::<Member>::parse(body) {
            Ok(member) => Ok(Event::CreateMember(member)),
            Err(e) => Err(e),
        }
    } else if str_eq(trigger, "members:update") {
        match DocResponse::<Member>::parse(body) {
            Ok(member) => Ok(Event::UpdateMember(member)),
            Err(e) => Err(e),
        }
    } else if str_eq(trigger, "members:delete") {
        match DocResponse::<Member>::parse(body) {
            Ok(member) => Ok(Event::DeleteMember(member)),
            Err(e) => Err(e),
        }
    } else if str_eq(trigger, "members:pledge:create") {
        match DocResponse::<Member>::parse(body) {
            Ok(member) => Ok(Event::CreateMemberPledge(member)),
            Err(e) => Err(e),
        }
    } else if str_eq(trigger, "members:pledge:update") {
        match DocResponse::<Member>::parse(body) {
            Ok(member) => Ok(Event::UpdateMemberPledge(member)),
            Err(e) => Err(e),
        }
    } else if str_eq(trigger, "members:pledge:delete") {
        match DocResponse::<Member>::parse(body) {
            Ok(member) => Ok(Event::DeleteMemberPledge(member)),
            Err(e) => Err(e),
        }
    } else {
        Err(PatreonError::UnknownTrigger(trigger.to_owned()))
    }
}

/// A delivery as a JSON:API document, for a caller that branches on the
/// resource kinds itself.
#[derive(Clone, Debug, PartialEq)]
pub struct WebhookEvent {
    /// The resource the event is about, its attributes left as they came.
    pub data: Resource<Json>,
    /// The resources that came with it; none when the document has none.
    pub included: Vec<Json>,
    pub links: PaginationLinks,
}

impl Decode for WebhookEvent {
    open spec fn mismatch(tree: JsonTree) -> Option<Mismatch> {
        object_mismatch(tree)
            .otherwise(required_at::<Resource<Json>>(tree, "data"@))
            .otherwise(tolerant_at::<Vec<Json>>(tree, "included"@))
            .otherwise(tolerant_at::<PaginationLinks>(tree, "links"@))
    }

    open spec fn decodes(tree: JsonTree, value: WebhookEvent) -> bool {
        &&& required_decodes::<Resource<Json>>(tree.member("data"@), value.data)
        &&& tolerant_decodes::<Vec<Json>>(tree.member("included"@), value.included)
        &&& tolerant_decodes::<PaginationLinks>(tree.member("links"@), value.links)
    }

    fn decode(json: &Json) -> (r: Result<WebhookEvent, SchemaError>) {
        expect_object(json)?;
        let data = member_required::<Resource<Json>>(json, "data")?;
        let included = member_or_default::<Vec<Json>>(json, "included")?;
        let links = member_or_default::<PaginationLinks>(json, "links")?;
        Ok(WebhookEvent { data, included, links })
    }
}

/// Checks deliveries against one shared secret and one digest.
#[derive(Clone, Debug)]
pub struct WebhookValidator {
    pub secret: String,
    pub algorithm: DigestAlgorithm,
}

/// Whether `r` is what checking and then reading a delivery gives: the
/// signature failure for a signature that does not match, whatever the body
/// holds, and the outcome of reading the body otherwise.
pub open spec fn checked_outcome(
    validator: WebhookValidator,
    body: Seq<u8>,
    signature: Seq<char>,
    r: Result<WebhookEvent, PatreonError>,
) -> bool {
    if validator.accepts(body, signature) {
        document_outcome::<WebhookEvent>(body, r)
    } else {
        r is Err && r->Err_0 is InvalidSignature
    }
}

impl WebhookValidator {
    /// A validator for HMAC-SHA-256 signatures under `secret`.
    pub fn new(secret: &str) -> (r: WebhookValidator)
        ensures
            r.secret@ == secret@,
            r.algorithm == DigestAlgorithm::Sha256,
    {
        WebhookValidator { secret: secret.to_owned(), algorithm: DigestAlgorithm::Sha256 }
    }

    /// A validator for signatures under `secret` with the digest the
    /// deployment signs with.
    pub fn with_algorithm(secret: &str, algorithm: DigestAlgorithm) -> (r: WebhookValidator)
        ensures
            r.secret@ == secret@,
            r.algorithm == algorithm,
    {
        WebhookValidator { secret: secret.to_owned(), algorithm }
    }

    /// The signature that a delivery of `body` has to come with.
    pub open spec fn expected(self, body: Seq<u8>) -> Seq<char> {
        signature_of(self.algorithm, self.secret@, body)
    }

    /// Whether `signature` is the one that `body` has to come with.
    pub open spec fn accepts(self, body: Seq<u8>, signature: Seq<char>) -> bool {
        signature_matches(self.algorithm, self.secret@, body, signature)
    }

    /// Computes the signature that a delivery of `body` has to come with.
    pub fn signature(&self, body: &[u8]) -> (r: String)
        ensures
            r@ == self.expected(body@),
            r@.len() == 2 * self.algorithm.tag_len(),
    {
        compute_signature_with(self.algorithm, self.secret.as_str(), body)
    }

    /// Whether `signature` belongs to `body`. The comparison takes the same
    /// time wherever the two differ; a signature of the wrong length is
    /// refused without a look at what it holds.
    pub fn validate(&self, body: &[u8], signature: &str) -> (r: bool)
        ensures
            r == self.accepts(body@, signature@),
            signature@.len() != 2 * self.algorithm.tag_len() ==> !r,
    {
        verify_signature(self.algorithm, self.secret.as_str(), body, signature)
    }

    /// Like [`validate`](Self::validate), with the signature failure in
    /// place of `false`.
    pub fn validate_or_error(&self, body: &[u8], signature: &str) -> (r: Result<(), PatreonError>)
        ensures
            r is Ok <==> self.accepts(body@, signature@),
            r is Err ==> r->Err_0 is InvalidSignature,
    {
        if self.validate(body, signature) {
            Ok(())
        } else {
            Err(PatreonError::InvalidSignature)
        }
    }

    /// Reads a delivery as a JSON:API document, whatever its trigger.
    pub fn parse_event(&self, payload: &str) -> (r: Result<WebhookEvent, PatreonError>)
        ensures
            document_outcome::<WebhookEvent>(payload.spec_bytes(), r),
    {
        decode_document::<WebhookEvent>(payload.as_bytes())
    }

    /// Checks the signature and, only if it matches, reads the body.
    pub fn validate_and_parse(&self, body: &[u8], signature: &str) -> (r: Result<
        WebhookEvent,
        PatreonError,
    >)
        ensures
            checked_outcome(*self, body@, signature@, r),
    {
        match self.validate_or_error(body, signature) {
            Err(e) => Err(e),
            Ok(()) => decode_document::<WebhookEvent>(body),
        }
    }
}

/// Whether `r` is what checking and then typing a delivery gives: the
/// signature failure for a signature that does not match, whatever the
/// body and the trigger hold, and the outcome of typing the body by the
/// trigger otherwise.
pub open spec fn checked_event_outcome(
    validator: WebhookValidator,
    body: Seq<u8>,
    signature: Seq<char>,
    trigger: Seq<char>,
    r: Result<Event, PatreonError>,
) -> bool {
    if validator.accepts(body, signature) {
        event_outcome(trigger, body, r)
    } else {
        r is Err && r->Err_0 is InvalidSignature
    }
}

impl WebhookValidator {
    /// The event type that the event header of a delivery announces.
    pub fn event_type(&self, header: &str) -> (r: WebhookEventType)
        ensures
            reads_label(r, header@),
    {
        WebhookEventType::from_str(header)
    }

    /// Checks the signature and, only if it matches, types the body by
    /// the trigger the delivery came with.
    pub fn validate_and_parse_event(&self, body: &[u8], signature: &str, trigger: &str) -> (r:
        Result<Event, PatreonError>)
        ensures
            checked_event_outcome(*self, body@, signature@, trigger@, r),
    {
        match self.validate_or_error(body, signature) {
            Err(e) => Err(e),
            Ok(()) => classify_event(body, trigger),
        }
    }
}

/// A validator accepts the signature it computes.
pub proof fn lemma_validator_accepts_own_signature(validator: WebhookValidator, body: Seq<u8>)
    ensures
        validator.accepts(body, validator.expected(body)),
{
}

} // verus!
