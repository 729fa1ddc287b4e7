use patreon::api::{ApiDocument, DocResponse, Member, MemberAttributes as StrictMember, Pledge};
use patreon::decode::{decode_document, de_optional, de_required, Decode};
use patreon::error::{Expected, PatreonError, SchemaError};
use patreon::json::{Json, JsonNumber};
use patreon::models::attributes::{
    CampaignAttributes, ChargeStatus, MemberAttributes, PatronStatus, TierAttributes,
    UserAttributes, WebhookAttributes, WebhookTrigger,
};
use patreon::models::resources::{
    MemberResource, RelationshipData, RelationshipDataValue, Resource, ResourceRef, ResourceType,
};
use patreon::models::response::{
    ApiResponse, ListResponse, PaginationLinks, PaginationMeta, SingleResponse,
};
use patreon::models::serde_helpers::{de_null_default, de_null_unix_epoch, unix_epoch};
use patreon::time::Timestamp;
use patreon::webhook::{Event, Webhook, WebhookEvent, WebhookValidator};

fn json(text: &str) -> Json {
    Json::parse(text.as_bytes()).unwrap()
}

fn schema_error<T: std::fmt::Debug>(r: Result<T, PatreonError>) -> SchemaError {
    match r {
        Err(PatreonError::Schema(e)) => e,
        other => panic!("expected a schema error, got {other:?}"),
    }
}

#[test]
fn parse_reads_every_kind_of_value() {
    assert_eq!(json("null"), Json::Null);
    assert_eq!(json("true"), Json::Bool(true));
    assert_eq!(json("17"), Json::Number(JsonNumber::Unsigned(17)));
    assert_eq!(json("-17"), Json::Number(JsonNumber::Negative(-17)));
    assert_eq!(json("18446744073709551615"), Json::Number(JsonNumber::Unsigned(u64::MAX)));
    assert_eq!(json("1.5"), Json::Number(JsonNumber::Float(1.5f64.to_bits())));
    assert_eq!(json(r#""a\nb""#), Json::Text("a\nb".to_string()));
    assert_eq!(
        json("[1, [], {}]"),
        Json::Array(vec![
            Json::Number(JsonNumber::Unsigned(1)),
            Json::Array(vec![]),
            Json::Object(vec![]),
        ])
    );
    assert_eq!(
        json(r#"{"b": 1, "a": null}"#),
        Json::Object(vec![
            ("a".to_string(), Json::Null),
            ("b".to_string(), Json::Number(JsonNumber::Unsigned(1))),
        ])
    );
}

#[test]
fn parse_refuses_what_is_no_document() {
    assert!(Json::parse(b"").is_err());
    assert!(Json::parse(b"{").is_err());
    assert!(Json::parse(b"{} {}").is_err());
    assert!(Json::parse(b"nul").is_err());
    assert!(Json::parse(&[0xff, 0xfe]).is_err());
}

#[test]
fn get_finds_members_of_objects_only() {
    let object = json(r#"{"id": "7", "type": "member"}"#);
    assert_eq!(object.get("id"), Some(&Json::Text("7".to_string())));
    assert_eq!(object.get("type"), Some(&Json::Text("member".to_string())));
    assert_eq!(object.get("Id"), None);
    assert_eq!(object.get(""), None);
    assert_eq!(json("[1]").get("0"), None);
    assert_eq!(Json::Null.get("id"), None);
}

#[test]
fn clone_copies_the_whole_tree() {
    let tree = json(r#"{"a": [1, {"b": [true, null, "x", -2, 2.5]}], "c": {}}"#);
    assert_eq!(tree.clone(), tree);
    assert_eq!(tree.duplicate(), tree);
}

#[test]
fn null_and_absence_fall_back_to_the_zero_value() {
    assert_eq!(de_null_default::<String>(None), Ok(String::new()));
    assert_eq!(de_null_default::<String>(Some(&Json::Null)), Ok(String::new()));
    assert_eq!(de_null_default::<i32>(Some(&Json::Null)), Ok(0));
    assert_eq!(de_null_default::<i64>(None), Ok(0));
    assert_eq!(de_null_default::<bool>(Some(&Json::Null)), Ok(false));
    assert_eq!(de_null_default::<Json>(None), Ok(Json::Null));
    assert_eq!(de_null_default::<Vec<String>>(Some(&Json::Null)), Ok(vec![]));
    assert_eq!(de_null_default::<PatronStatus>(Some(&Json::Null)), Ok(PatronStatus::Unknown));
    assert_eq!(de_null_default::<ChargeStatus>(None), Ok(ChargeStatus::Unknown));
    assert_eq!(de_null_default::<Timestamp>(None), Ok(Timestamp { seconds: 0, nanos: 0 }));
}

#[test]
fn present_values_are_decoded_not_defaulted() {
    assert_eq!(de_null_default::<String>(Some(&json(r#""x""#))), Ok("x".to_string()));
    assert_eq!(de_null_default::<i32>(Some(&json("-5"))), Ok(-5));
    assert_eq!(de_null_default::<i32>(Some(&json("2147483647"))), Ok(i32::MAX));
    assert_eq!(de_null_default::<i32>(Some(&json("-2147483648"))), Ok(i32::MIN));
    assert_eq!(de_null_default::<i64>(Some(&json("9223372036854775807"))), Ok(i64::MAX));
    assert_eq!(de_null_default::<u64>(Some(&json("18446744073709551615"))), Ok(u64::MAX));
    assert_eq!(de_null_default::<bool>(Some(&json("true"))), Ok(true));
    assert_eq!(
        de_null_default::<Vec<String>>(Some(&json(r#"["a", "b"]"#))),
        Ok(vec!["a".to_string(), "b".to_string()])
    );
}

#[test]
fn a_malformed_value_is_an_error_never_the_default() {
    let wrong = |expected| SchemaError { field: String::new(), expected };
    assert_eq!(de_null_default::<String>(Some(&json("5"))).unwrap_err(), wrong(Expected::Text));
    assert_eq!(
        de_null_default::<i32>(Some(&json(r#""5""#))).unwrap_err(),
        wrong(Expected::Integer)
    );
    assert_eq!(
        de_null_default::<i32>(Some(&json("2147483648"))).unwrap_err(),
        wrong(Expected::Integer)
    );
    assert_eq!(
        de_null_default::<i32>(Some(&json("-2147483649"))).unwrap_err(),
        wrong(Expected::Integer)
    );
    assert_eq!(de_null_default::<i32>(Some(&json("1.0"))).unwrap_err(), wrong(Expected::Integer));
    assert_eq!(
        de_null_default::<i64>(Some(&json("9223372036854775808"))).unwrap_err(),
        wrong(Expected::Integer)
    );
    assert_eq!(de_null_default::<u64>(Some(&json("-1"))).unwrap_err(), wrong(Expected::Integer));
    assert_eq!(de_null_default::<bool>(Some(&json("0"))).unwrap_err(), wrong(Expected::Boolean));
    assert_eq!(
        de_null_default::<Vec<String>>(Some(&json("{}"))).unwrap_err(),
        wrong(Expected::Array)
    );
    assert_eq!(
        de_null_default::<Vec<String>>(Some(&json(r#"["a", 1]"#))).unwrap_err(),
        wrong(Expected::Text)
    );
    assert_eq!(
        de_null_default::<PatronStatus>(Some(&json("1"))).unwrap_err(),
        wrong(Expected::Text)
    );
    assert_eq!(
        de_null_default::<Timestamp>(Some(&json("1"))).unwrap_err(),
        wrong(Expected::Timestamp)
    );
    assert_eq!(
        de_null_default::<Timestamp>(Some(&json(r#""yesterday""#))).unwrap_err(),
        wrong(Expected::Timestamp)
    );
}

#[test]
fn timestamps_default_to_the_epoch() {
    assert_eq!(unix_epoch(), Timestamp { seconds: 0, nanos: 0 });
    assert_eq!(Timestamp::default(), unix_epoch());
    assert_eq!(de_null_unix_epoch(None), Ok(unix_epoch()));
    assert_eq!(de_null_unix_epoch(Some(&Json::Null)), Ok(unix_epoch()));
    assert_eq!(
        de_null_unix_epoch(Some(&json(r#""2020-01-02T03:04:05Z""#))),
        Ok(Timestamp { seconds: 1_577_934_245, nanos: 0 })
    );
    assert_eq!(
        de_null_unix_epoch(Some(&json(r#""1969-12-31T23:59:59.5+00:00""#))),
        Ok(Timestamp { seconds: -1, nanos: 500_000_000 })
    );
    assert_eq!(
        de_null_unix_epoch(Some(&json(r#""2020-01-02T04:04:05+01:00""#))),
        Ok(Timestamp { seconds: 1_577_934_245, nanos: 0 })
    );
    assert!(de_null_unix_epoch(Some(&json("12"))).is_err());
}

#[test]
fn required_and_optional_slots() {
    assert_eq!(
        de_required::<String>(None),
        Err(SchemaError { field: String::new(), expected: Expected::Present })
    );
    assert_eq!(
        de_required::<String>(Some(&Json::Null)),
        Err(SchemaError { field: String::new(), expected: Expected::Text })
    );
    assert_eq!(de_required::<String>(Some(&json(r#""x""#))), Ok("x".to_string()));
    assert_eq!(de_optional::<String>(None), Ok(None));
    assert_eq!(de_optional::<String>(Some(&Json::Null)), Ok(None));
    assert_eq!(de_optional::<String>(Some(&json(r#""x""#))), Ok(Some("x".to_string())));
    assert_eq!(
        de_optional::<String>(Some(&json("1"))),
        Err(SchemaError { field: String::new(), expected: Expected::Text })
    );
}

#[test]
fn resource_types_decode_from_their_wire_words() {
    let table = [
        ("user", ResourceType::User),
        ("campaign", ResourceType::Campaign),
        ("member", ResourceType::Member),
        ("tier", ResourceType::Tier),
        ("post", ResourceType::Post),
        ("benefit", ResourceType::Benefit),
        ("deliverable", ResourceType::Deliverable),
        ("address", ResourceType::Address),
        ("goal", ResourceType::Goal),
        ("media", ResourceType::Media),
        ("webhook", ResourceType::Webhook),
        ("pledge_event", ResourceType::PledgeEvent),
    ];
    for (word, kind) in table {
        assert_eq!(ResourceType::from_wire(word), kind);
        assert_eq!(kind.wire_name(), Some(word));
    }
    assert_eq!(ResourceType::Unknown.wire_name(), None);
}

#[test]
fn unknown_resource_type_is_not_an_error() {
    assert_eq!(ResourceType::from_wire("some_future_type"), ResourceType::Unknown);
    assert_eq!(ResourceType::from_wire("Member"), ResourceType::Unknown);
    assert_eq!(ResourceType::from_wire("pledge-event"), ResourceType::Unknown);
    assert_eq!(ResourceType::from_wire(""), ResourceType::Unknown);
    let resource: Resource<Json> =
        decode_document(br#"{"type": "some_future_type", "id": "9"}"#).unwrap();
    assert_eq!(resource.resource_type, ResourceType::Unknown);
    assert_eq!(resource.id, "9");
    assert_eq!(resource.attributes, None);
    assert_eq!(resource.relationships, None);
}

#[test]
fn envelope_without_included_has_no_included_resources() {
    let envelope: SingleResponse<MemberResource> =
        decode_document(br#"{"data": {"type":"member","id":"123"}}"#).unwrap();
    assert!(envelope.included.is_empty());
    assert_eq!(envelope.data.id, "123");
    assert_eq!(envelope.data.resource_type, ResourceType::Member);
    assert_eq!(envelope.links, PaginationLinks::default());
    assert_eq!(envelope.meta, Json::Null);
    let with_null: SingleResponse<MemberResource> =
        decode_document(br#"{"data": {"type":"member","id":"123"}, "included": null}"#).unwrap();
    assert!(with_null.included.is_empty());
}

#[test]
fn envelope_keeps_included_entries_as_they_came() {
    let envelope: ListResponse<MemberResource> = decode_document(
        br#"{"data": [{"type":"member","id":"1"}, {"type":"member","id":"2"}],
            "included": [{"type":"campaign","id":"c"}, 5],
            "links": {"next": "https://next", "self": null},
            "meta": {"pagination": {"total": 2}}}"#,
    )
    .unwrap();
    assert_eq!(envelope.data.len(), 2);
    assert_eq!(envelope.data[1].id, "2");
    assert_eq!(
        envelope.included,
        vec![json(r#"{"type":"campaign","id":"c"}"#), Json::Number(JsonNumber::Unsigned(5))]
    );
    assert_eq!(envelope.links.next, "https://next");
    assert_eq!(envelope.links.self_link, "");
    assert_eq!(envelope.meta, json(r#"{"pagination": {"total": 2}}"#));
}

#[test]
fn envelope_failures_name_the_member_at_fault() {
    let missing = schema_error(decode_document::<SingleResponse<MemberResource>>(b"{}"));
    assert_eq!(missing, SchemaError { field: "data".to_string(), expected: Expected::Present });
    let not_object = schema_error(decode_document::<SingleResponse<MemberResource>>(b"[]"));
    assert_eq!(not_object, SchemaError { field: String::new(), expected: Expected::Object });
    let no_id = schema_error(decode_document::<SingleResponse<MemberResource>>(
        br#"{"data": {"type": "member"}}"#,
    ));
    assert_eq!(no_id, SchemaError { field: "id".to_string(), expected: Expected::Present });
    let bad_included = schema_error(decode_document::<SingleResponse<MemberResource>>(
        br#"{"data": {"type": "member", "id": "1"}, "included": {}}"#,
    ));
    assert_eq!(
        bad_included,
        SchemaError { field: "included".to_string(), expected: Expected::Array }
    );
    let bad_attribute = schema_error(decode_document::<SingleResponse<MemberResource>>(
        br#"{"data": {"type": "member", "id": "1", "attributes": {"note": 5}}}"#,
    ));
    assert_eq!(bad_attribute, SchemaError { field: "note".to_string(), expected: Expected::Text });
    assert!(matches!(
        decode_document::<SingleResponse<MemberResource>>(b"{"),
        Err(PatreonError::SerdeJson(_))
    ));
}

#[test]
fn member_attributes_tolerate_null_patron_status() {
    let attributes = MemberAttributes::decode(&json(r#"{"patron_status": null}"#)).unwrap();
    assert_eq!(attributes.patron_status, PatronStatus::Unknown);
    assert_eq!(attributes, MemberAttributes::default());
}

#[test]
fn member_attributes_decode_what_is_there() {
    let attributes = MemberAttributes::decode(&json(
        r#"{"patron_status": "active_patron", "is_follower": true, "full_name": "A B",
            "email": null, "currently_entitled_amount_cents": 500,
            "lifetime_support_cents": 1500, "last_charge_date": "2020-01-02T03:04:05Z",
            "last_charge_status": "paid", "next_charge_date": null, "note": "n",
            "will_pay_amount_cents": 500, "campaign_currency": "USD", "extra": [1]}"#,
    ))
    .unwrap();
    assert_eq!(attributes.patron_status, PatronStatus::ActivePatron);
    assert!(attributes.is_follower);
    assert_eq!(attributes.full_name, "A B");
    assert_eq!(attributes.email, "");
    assert_eq!(attributes.currently_entitled_amount_cents, 500);
    assert_eq!(attributes.lifetime_support_cents, 1500);
    assert_eq!(attributes.last_charge_date, Timestamp { seconds: 1_577_934_245, nanos: 0 });
    assert_eq!(attributes.last_charge_status, ChargeStatus::Paid);
    assert_eq!(attributes.next_charge_date, unix_epoch());
    assert_eq!(attributes.pledge_relationship_start, unix_epoch());
    assert_eq!(attributes.note, "n");
    assert_eq!(attributes.campaign_currency, "USD");
    assert_eq!(attributes.campaign_pledge_amount_cents, 0);
}

#[test]
fn status_words_are_matched_exactly() {
    assert_eq!(PatronStatus::from_wire("active_patron"), PatronStatus::ActivePatron);
    assert_eq!(PatronStatus::from_wire("declined_patron"), PatronStatus::DeclinedPatron);
    assert_eq!(PatronStatus::from_wire("former_patron"), PatronStatus::FormerPatron);
    assert_eq!(PatronStatus::from_wire("Active_Patron"), PatronStatus::Unknown);
    assert_eq!(PatronStatus::ActivePatron.wire_name(), Some("active_patron"));
    assert_eq!(PatronStatus::Unknown.wire_name(), None);
    assert_eq!(PatronStatus::default(), PatronStatus::Unknown);
    for (word, status) in [
        ("paid", ChargeStatus::Paid),
        ("declined", ChargeStatus::Declined),
        ("deleted", ChargeStatus::Deleted),
        ("pending", ChargeStatus::Pending),
        ("refunded", ChargeStatus::Refunded),
        ("fraud", ChargeStatus::Fraud),
    ] {
        assert_eq!(ChargeStatus::from_wire(word), status);
        assert_eq!(status.wire_name(), Some(word));
    }
    assert_eq!(ChargeStatus::from_wire("other"), ChargeStatus::Unknown);
    assert_eq!(ChargeStatus::default(), ChargeStatus::Unknown);
    assert_eq!(WebhookTrigger::from_wire("posts:publish"), WebhookTrigger::PostsPublish);
    assert_eq!(WebhookTrigger::from_wire("posts:unpublish"), WebhookTrigger::Unknown);
    assert_eq!(WebhookTrigger::MembersPledgeDelete.wire_name(), Some("members:pledge:delete"));
    assert_eq!(WebhookTrigger::default(), WebhookTrigger::Unknown);
}

#[test]
fn attribute_defaults_are_all_zero_values() {
    let user = UserAttributes::default();
    assert_eq!(user.email, "");
    assert!(!user.is_creator);
    assert_eq!(user.created, unix_epoch());
    assert_eq!(user.like_count, 0);
    assert_eq!(user.social_connections, Json::Null);
    assert_eq!(UserAttributes::decode(&json("{}")).unwrap(), user);
    let campaign = CampaignAttributes::default();
    assert_eq!(campaign.patron_count, 0);
    assert_eq!(campaign.published_at, unix_epoch());
    assert_eq!(campaign.cover_photo_url_sizes, Json::Null);
    assert_eq!(CampaignAttributes::decode(&json(r#"{"vanity": null}"#)).unwrap(), campaign);
    let tier = TierAttributes::default();
    assert!(tier.discord_role_ids.is_empty());
    assert_eq!(tier.amount_cents, 0);
    let webhook = WebhookAttributes::default();
    assert!(webhook.triggers.is_empty());
    assert!(!webhook.paused);
    assert_eq!(PaginationMeta::default().count, 0);
}

#[test]
fn webhook_attributes_keep_unknown_triggers() {
    let attributes = WebhookAttributes::decode(&json(
        r#"{"triggers": ["members:create", "posts:later"], "paused": true,
            "num_consecutive_times_failed": 3, "uri": "https://hook", "secret": "s"}"#,
    ))
    .unwrap();
    assert_eq!(
        attributes.triggers,
        vec![WebhookTrigger::MembersCreate, WebhookTrigger::Unknown]
    );
    assert!(attributes.paused);
    assert_eq!(attributes.num_consecutive_times_failed, 3);
    assert_eq!(attributes.uri, "https://hook");
    assert_eq!(attributes.last_attempted_at, unix_epoch());
}

#[test]
fn attributes_must_be_an_object() {
    assert_eq!(
        UserAttributes::decode(&json("[]")),
        Err(SchemaError { field: String::new(), expected: Expected::Object })
    );
    assert_eq!(
        UserAttributes::decode(&json(r#"{"like_count": "many"}"#)),
        Err(SchemaError { field: "like_count".to_string(), expected: Expected::Integer })
    );
    assert_eq!(
        UserAttributes::decode(&json(r#"{"hide_pledges": 1, "like_count": "many"}"#)),
        Err(SchemaError { field: "hide_pledges".to_string(), expected: Expected::Boolean })
    );
}

#[test]
fn relationships_hold_one_reference_or_several() {
    let one = RelationshipData::decode(&json(
        r#"{"data": {"id": "c1", "type": "campaign"}, "links": {"related": "u"}}"#,
    ))
    .unwrap();
    assert_eq!(
        one.data,
        Some(RelationshipDataValue::Single(ResourceRef {
            id: "c1".to_string(),
            resource_type: ResourceType::Campaign,
        }))
    );
    assert_eq!(one.links, Some(json(r#"{"related": "u"}"#)));
    let many = RelationshipData::decode(&json(
        r#"{"data": [{"id": "t1", "type": "tier"}, {"id": "t2", "type": "later"}]}"#,
    ))
    .unwrap();
    assert_eq!(
        many.data,
        Some(RelationshipDataValue::Multiple(vec![
            ResourceRef { id: "t1".to_string(), resource_type: ResourceType::Tier },
            ResourceRef { id: "t2".to_string(), resource_type: ResourceType::Unknown },
        ]))
    );
    assert_eq!(many.links, None);
    assert_eq!(RelationshipData::decode(&json(r#"{"data": null}"#)).unwrap().data, None);
    assert_eq!(
        RelationshipData::decode(&json(r#"{"data": 5}"#)),
        Err(SchemaError { field: "data".to_string(), expected: Expected::Variant })
    );
}

#[test]
fn scanning_included_for_members() {
    let envelope: ApiResponse<Resource<UserAttributes>> = decode_document(
        br#"{"data": {"type": "user", "id": "u"},
            "included": [
                {"type": "campaign", "id": "c", "attributes": {"patron_count": 3}},
                {"type": "member", "id": "m1", "attributes": {"patron_status": "former_patron"}},
                {"type": "member", "id": "m2", "attributes": {"patron_status": "active_patron"}},
                {"type": "later", "id": "x"}
            ]}"#,
    )
    .unwrap();
    let members: Vec<MemberResource> = envelope
        .included
        .iter()
        .filter_map(|entry| MemberResource::decode(entry).ok())
        .filter(|m| m.resource_type == ResourceType::Member)
        .collect();
    assert_eq!(members.len(), 2);
    assert_eq!(members[0].id, "m1");
    assert_eq!(
        members[1].attributes.as_ref().unwrap().patron_status,
        PatronStatus::ActivePatron
    );
}

const PLEDGE: &str = r#"{"data": {"type": "pledge", "id": "p1", "attributes": {
    "amount_cents": 500, "created_at": "2020-01-02T03:04:05Z", "currency": "USD",
    "declined_since": null, "patron_pays_fees": false, "pledge_cap_cents": 1000}}}"#;

const MEMBER: &str = r#"{"data": {"type": "member", "id": "m1", "attributes": {
    "campaign_lifetime_support_cents": 1, "currently_entitled_amount_cents": 2,
    "email": null, "full_name": "A B", "is_follower": false,
    "last_charge_date": "2020-01-02T03:04:05Z", "last_charge_status": "Paid",
    "lifetime_support_cents": 3, "next_charge_date": "2020-02-02T03:04:05Z", "note": "",
    "patron_status": "active_patron", "pledge_cadence": 1,
    "pledge_relationship_start": "2019-01-02T03:04:05Z", "will_pay_amount_cents": 4}}}"#;

#[test]
fn strict_documents_decode() {
    let pledge: Pledge = DocResponse::parse(PLEDGE.as_bytes()).unwrap();
    assert_eq!(pledge.document_type, "pledge");
    assert_eq!(pledge.id, "p1");
    assert_eq!(pledge.attributes.amount_cents, 500);
    assert_eq!(pledge.attributes.created_at, Timestamp { seconds: 1_577_934_245, nanos: 0 });
    assert_eq!(pledge.attributes.declined_since, None);
    assert_eq!(pledge.attributes.pledge_cap_cents, 1000);
    let member: Member = DocResponse::parse(MEMBER.as_bytes()).unwrap();
    assert_eq!(member.attributes.email, None);
    assert_eq!(member.attributes.full_name, "A B");
    assert_eq!(
        member.attributes.last_charge_status,
        Some(patreon::api::LastChrgeStatus::Paid)
    );
    assert_eq!(member.attributes.patron_status, Some(patreon::api::PatronStatus::ActivePatron));
    assert_eq!(member.attributes.will_pay_amount_cents, 4);
}

#[test]
fn strict_documents_refuse_missing_and_unknown() {
    let missing = schema_error(DocResponse::<ApiDocument<StrictMember>>::parse(
        br#"{"data": {"type": "member", "id": "m", "attributes": {}}}"#,
    ));
    assert_eq!(
        missing,
        SchemaError {
            field: "campaign_lifetime_support_cents".to_string(),
            expected: Expected::Present,
        }
    );
    let unknown_word = schema_error(DocResponse::<Member>::parse(
        MEMBER.replace("active_patron", "new_patron").as_bytes(),
    ));
    assert_eq!(
        unknown_word,
        SchemaError { field: "patron_status".to_string(), expected: Expected::Variant }
    );
    let null_text = schema_error(DocResponse::<Member>::parse(
        MEMBER.replace(r#""full_name": "A B""#, r#""full_name": null"#).as_bytes(),
    ));
    assert_eq!(null_text, SchemaError { field: "full_name".to_string(), expected: Expected::Text });
}

#[test]
fn events_are_typed_by_their_trigger() {
    let webhook = Webhook::default();
    assert!(matches!(
        webhook.parse_event(PLEDGE.as_bytes(), "pledges:create"),
        Ok(Event::CreatePledge(p)) if p.id == "p1"
    ));
    assert!(matches!(
        webhook.parse_event(PLEDGE.as_bytes(), "pledges:update"),
        Ok(Event::UpdatePledge(_))
    ));
    assert!(matches!(
        webhook.parse_event(PLEDGE.as_bytes(), "pledges:delete"),
        Ok(Event::DeletePledge(_))
    ));
    assert!(matches!(
        webhook.parse_event(MEMBER.as_bytes(), "members:create"),
        Ok(Event::CreateMember(m)) if m.id == "m1"
    ));
    assert!(matches!(
        webhook.parse_event(MEMBER.as_bytes(), "members:update"),
        Ok(Event::UpdateMember(_))
    ));
    assert!(matches!(
        webhook.parse_event(MEMBER.as_bytes(), "members:delete"),
        Ok(Event::DeleteMember(_))
    ));
    assert!(matches!(
        webhook.parse_event(MEMBER.as_bytes(), "members:pledge:create"),
        Ok(Event::CreateMemberPledge(_))
    ));
    assert!(matches!(
        webhook.parse_event(MEMBER.as_bytes(), "members:pledge:update"),
        Ok(Event::UpdateMemberPledge(_))
    ));
    assert!(matches!(
        webhook.parse_event(MEMBER.as_bytes(), "members:pledge:delete"),
        Ok(Event::DeleteMemberPledge(_))
    ));
}

#[test]
fn unknown_trigger_carries_its_label() {
    let webhook = Webhook::default();
    assert!(matches!(
        webhook.parse_event(MEMBER.as_bytes(), "posts:publish"),
        Err(PatreonError::UnknownTrigger(label)) if label == "posts:publish"
    ));
    assert!(matches!(
        webhook.parse_event(b"not json", "members:Create"),
        Err(PatreonError::UnknownTrigger(label)) if label == "members:Create"
    ));
    assert!(matches!(
        webhook.parse_event(b"not json", "members:create"),
        Err(PatreonError::SerdeJson(_))
    ));
    assert!(matches!(
        webhook.parse_event(PLEDGE.as_bytes(), "members:create"),
        Err(PatreonError::Schema(_))
    ));
}

#[test]
fn self_describing_payload_parses_without_a_trigger() {
    let validator = WebhookValidator::new("s");
    let event: WebhookEvent = validator
        .parse_event(
            r#"{"data": {"type": "post", "id": "9", "attributes": {"title": "t"},
                "relationships": {"campaign": {"data": {"id": "c", "type": "campaign"}}}},
                "included": [{"type": "campaign", "id": "c"}]}"#,
        )
        .unwrap();
    assert_eq!(event.data.resource_type, ResourceType::Post);
    assert_eq!(event.data.attributes, Some(json(r#"{"title": "t"}"#)));
    let campaign = event.data.relationships.as_ref().unwrap().get("campaign").unwrap();
    assert_eq!(campaign.get("data").unwrap().get("id"), Some(&Json::Text("c".to_string())));
    assert_eq!(event.included.len(), 1);
    assert_eq!(event.links, PaginationLinks::default());
}
