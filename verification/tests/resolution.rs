use patreon::decode::decode_document;
use patreon::error::PatreonError;
use patreon::json::Json;
use patreon::models::attributes::{CampaignAttributes, MemberAttributes, PatronStatus};
use patreon::models::resources::{
    RelationshipDataValue, Resource, ResourceRef, ResourceType, UserResource,
};
use patreon::models::response::{included_of_type, SingleResponse};
use patreon::signature::{compute_signature, compute_signature_with, DigestAlgorithm};
use patreon::transport::read_response;
use patreon::webhook::{classify_event, Event, WebhookEventType, WebhookValidator};

const IDENTITY: &str = r#"{
    "data": {"type": "user", "id": "u", "attributes": {"full_name": "A B"}},
    "included": [
        {"type": "campaign", "id": "c1", "attributes": {"creation_name": "things"}},
        {"type": "member", "id": "m1",
         "attributes": {"patron_status": "former_patron"},
         "relationships": {"campaign": {"data": {"id": "c0", "type": "campaign"}}}},
        {"type": "tier", "id": "t1"},
        {"type": "member", "id": "m2",
         "attributes": {"patron_status": "active_patron", "note": 5}},
        {"type": "member", "id": "m3",
         "attributes": {"patron_status": "active_patron"},
         "relationships": {"campaign": {"data": {"id": "c1", "type": "campaign"}},
                           "currently_entitled_tiers": {"data": [{"id": "t1", "type": "tier"}]}}},
        {"type": "some_future_type", "id": "x"},
        "stray"
    ]}"#;

#[test]
fn included_resources_resolve_by_kind() {
    let identity: SingleResponse<UserResource> = decode_document(IDENTITY.as_bytes()).unwrap();
    assert_eq!(identity.included.len(), 7);
    let members = identity.included_of_type::<MemberAttributes>(ResourceType::Member);
    let ids: Vec<&str> = members.iter().map(|m| m.id.as_str()).collect();
    assert_eq!(ids, ["m1", "m3"]);
    assert_eq!(
        members[1].attributes.as_ref().unwrap().patron_status,
        PatronStatus::ActivePatron
    );
    let campaigns = identity.included_of_type::<CampaignAttributes>(ResourceType::Campaign);
    assert_eq!(campaigns.len(), 1);
    assert_eq!(campaigns[0].attributes.as_ref().unwrap().creation_name, "things");
    let raw_members = identity.included_of_type::<Json>(ResourceType::Member);
    assert_eq!(raw_members.len(), 3);
    let unknown = identity.included_of_type::<Json>(ResourceType::Unknown);
    assert_eq!(unknown.len(), 1);
    assert_eq!(unknown[0].id, "x");
    assert!(identity.included_of_type::<Json>(ResourceType::Post).is_empty());
    assert!(included_of_type::<Json>(&vec![], ResourceType::Member).is_empty());
}

#[test]
fn active_patron_of_a_campaign_is_found_among_included() {
    let identity: SingleResponse<UserResource> = decode_document(IDENTITY.as_bytes()).unwrap();
    let is_active_patron_of = |campaign_id: &str| {
        identity
            .included_of_type::<MemberAttributes>(ResourceType::Member)
            .iter()
            .any(|member| {
                let campaign = member.relationship("campaign").and_then(|r| r.data);
                let in_campaign = matches!(
                    campaign,
                    Some(RelationshipDataValue::Single(ResourceRef { id, .. })) if id == campaign_id
                );
                let active = member
                    .attributes
                    .as_ref()
                    .is_some_and(|a| a.patron_status == PatronStatus::ActivePatron);
                in_campaign && active
            })
    };
    assert!(is_active_patron_of("c1"));
    assert!(!is_active_patron_of("c0"));
    assert!(!is_active_patron_of("c2"));
}

#[test]
fn relationships_are_read_by_name() {
    let identity: SingleResponse<UserResource> = decode_document(IDENTITY.as_bytes()).unwrap();
    let members = identity.included_of_type::<Json>(ResourceType::Member);
    assert!(members[1].relationship("campaign").is_none());
    let tiers = members[2].relationship("currently_entitled_tiers").unwrap();
    assert_eq!(
        tiers.data,
        Some(RelationshipDataValue::Multiple(vec![ResourceRef {
            id: "t1".to_string(),
            resource_type: ResourceType::Tier,
        }]))
    );
    assert!(members[2].relationship("address").is_none());
    let odd: Resource<Json> =
        decode_document(br#"{"type": "member", "id": "m", "relationships": {"campaign": 5}}"#)
            .unwrap();
    assert!(odd.relationship("campaign").is_none());
    let listed: Resource<Json> =
        decode_document(br#"{"type": "member", "id": "m", "relationships": [1]}"#).unwrap();
    assert!(listed.relationship("campaign").is_none());
}

const MEMBER: &str = r#"{"data": {"type": "member", "id": "m1", "attributes": {
    "campaign_lifetime_support_cents": 1, "currently_entitled_amount_cents": 2,
    "email": "a@b", "full_name": "A B", "is_follower": false,
    "last_charge_date": "2020-01-02T03:04:05Z", "last_charge_status": null,
    "lifetime_support_cents": 3, "next_charge_date": "2020-02-02T03:04:05Z", "note": "",
    "patron_status": null, "pledge_cadence": 1,
    "pledge_relationship_start": "2019-01-02T03:04:05Z", "will_pay_amount_cents": 4}}}"#;

#[test]
fn checked_deliveries_are_typed_by_their_trigger() {
    let validator = WebhookValidator::with_algorithm("s3cret", DigestAlgorithm::Md5);
    let signature = compute_signature_with(DigestAlgorithm::Md5, "s3cret", MEMBER.as_bytes());
    assert_eq!(validator.signature(MEMBER.as_bytes()), signature);
    assert!(matches!(
        validator.validate_and_parse_event(MEMBER.as_bytes(), &signature, "members:update"),
        Ok(Event::UpdateMember(member))
            if member.id == "m1" && member.attributes.email.as_deref() == Some("a@b")
    ));
    assert!(matches!(
        validator.validate_and_parse_event(MEMBER.as_bytes(), &signature, "members:later"),
        Err(PatreonError::UnknownTrigger(label)) if label == "members:later"
    ));
    let sha = compute_signature("s3cret", MEMBER.as_bytes());
    assert!(matches!(
        validator.validate_and_parse_event(MEMBER.as_bytes(), &sha, "members:update"),
        Err(PatreonError::InvalidSignature)
    ));
    assert!(matches!(
        validator.validate_and_parse_event(MEMBER.as_bytes(), &sha, "members:later"),
        Err(PatreonError::InvalidSignature)
    ));
    assert!(matches!(
        classify_event(MEMBER.as_bytes(), "members:pledge:create"),
        Ok(Event::CreateMemberPledge(_))
    ));
}

#[test]
fn event_header_is_read_as_an_event_type() {
    let validator = WebhookValidator::new("s");
    assert_eq!(validator.event_type("posts:publish"), WebhookEventType::PostsPublish);
    assert_eq!(
        validator.event_type("pledges:create"),
        WebhookEventType::Unknown("pledges:create".to_string())
    );
}

#[test]
fn failure_bodies_that_are_not_text_are_still_reported() {
    let outcome = read_response::<SingleResponse<UserResource>>(502, &[b'a', 0xff, b'b']);
    assert!(matches!(
        outcome,
        Err(PatreonError::Api { status: 502, message }) if message == "a\u{fffd}b"
    ));
    let plain = read_response::<SingleResponse<UserResource>>(404, "nicht da: é".as_bytes());
    assert!(matches!(
        plain,
        Err(PatreonError::Api { status: 404, message }) if message == "nicht da: é"
    ));
}

#[test]
fn transport_failures_describe_themselves() {
    let failure = reqwest::Client::new().get("not a url").build().unwrap_err();
    let said = failure.to_string();
    let error = PatreonError::from(failure);
    assert!(matches!(error, PatreonError::Reqwest(_)));
    assert!(!said.is_empty());
    assert_eq!(error.to_text(), said);
}
