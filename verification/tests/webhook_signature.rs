use patreon::error::PatreonError;
use patreon::models::resources::ResourceType;
use patreon::signature::{
    compute_signature, compute_signature_with, constant_time_eq, verify_signature,
    DigestAlgorithm,
};
use patreon::webhook::{Webhook, WebhookEventType, WebhookValidator};

const SECRET: &str = "example_webhook_secret";
const BODY: &str =
    r#"{"data":{"type":"member","id":"123"},"links":{"self":"https://example/members/123"}}"#;

#[test]
fn signature_is_deterministic_and_has_64_lowercase_hex_characters() {
    let first = compute_signature(SECRET, BODY.as_bytes());
    let second = compute_signature(SECRET, BODY.as_bytes());
    assert_eq!(first, second);
    assert_eq!(first.len(), 64);
    assert!(first.chars().all(|c| c.is_ascii_digit() || ('a'..='f').contains(&c)));
}

#[test]
fn hmac_sha256_matches_the_published_vector() {
    let signature = compute_signature("Jefe", b"what do ya want for nothing?");
    assert_eq!(signature, "5bdcc146bf60754e6a042426089575c75a003f089d2739839dec58b964ec3843");
}

#[test]
fn hmac_md5_matches_the_published_vector() {
    let signature =
        compute_signature_with(DigestAlgorithm::Md5, "Jefe", b"what do ya want for nothing?");
    assert_eq!(signature, "750c783e6ab0b503eaa86e310a5db738");
    assert_eq!(signature.len(), 32);
}

#[test]
fn digests_do_not_validate_each_other() {
    let md5 = compute_signature_with(DigestAlgorithm::Md5, SECRET, BODY.as_bytes());
    let sha = compute_signature_with(DigestAlgorithm::Sha256, SECRET, BODY.as_bytes());
    assert!(!verify_signature(DigestAlgorithm::Sha256, SECRET, BODY.as_bytes(), &md5));
    assert!(!verify_signature(DigestAlgorithm::Md5, SECRET, BODY.as_bytes(), &sha));
    assert!(verify_signature(DigestAlgorithm::Md5, SECRET, BODY.as_bytes(), &md5));
}

#[test]
fn validator_accepts_the_signature_it_computes() {
    let validator = WebhookValidator::new(SECRET);
    let signature = compute_signature(SECRET, BODY.as_bytes());
    assert!(validator.validate(BODY.as_bytes(), &signature));
    assert_eq!(validator.signature(BODY.as_bytes()), signature);
    assert!(validator.validate_or_error(BODY.as_bytes(), &signature).is_ok());
}

#[test]
fn validator_rejects_a_body_changed_in_one_byte() {
    let validator = WebhookValidator::new(SECRET);
    let signature = compute_signature(SECRET, BODY.as_bytes());
    let mut changed = BODY.as_bytes().to_vec();
    for i in 0..changed.len() {
        changed[i] ^= 1;
        assert!(!validator.validate(&changed, &signature));
        changed[i] ^= 1;
    }
    assert!(validator.validate(&changed, &signature));
}

#[test]
fn validator_rejects_another_secret() {
    let signature = compute_signature("another secret", BODY.as_bytes());
    assert!(!WebhookValidator::new(SECRET).validate(BODY.as_bytes(), &signature));
}

#[test]
fn signatures_of_differing_length_are_rejected() {
    let validator = WebhookValidator::new(SECRET);
    let signature = compute_signature(SECRET, BODY.as_bytes());
    assert!(!validator.validate(BODY.as_bytes(), &signature[..63]));
    assert!(!validator.validate(BODY.as_bytes(), &format!("{signature}0")));
    assert!(!validator.validate(BODY.as_bytes(), ""));
    assert!(!constant_time_eq(b"abc", b"abcd"));
    assert!(!constant_time_eq(b"", b"a"));
}

#[test]
fn constant_time_eq_compares_every_byte() {
    assert!(constant_time_eq(b"", b""));
    assert!(constant_time_eq(b"abc", b"abc"));
    assert!(!constant_time_eq(b"abc", b"abd"));
    assert!(!constant_time_eq(b"abc", b"bbc"));
    assert!(!constant_time_eq(&[0x00, 0xff], &[0xff, 0x00]));
}

#[test]
fn known_triggers_round_trip() {
    let known = [
        ("members:create", WebhookEventType::MembersCreate),
        ("members:update", WebhookEventType::MembersUpdate),
        ("members:delete", WebhookEventType::MembersDelete),
        ("members:pledge:create", WebhookEventType::MembersPledgeCreate),
        ("members:pledge:update", WebhookEventType::MembersPledgeUpdate),
        ("members:pledge:delete", WebhookEventType::MembersPledgeDelete),
        ("posts:publish", WebhookEventType::PostsPublish),
        ("posts:update", WebhookEventType::PostsUpdate),
        ("posts:delete", WebhookEventType::PostsDelete),
    ];
    for (label, kind) in known {
        assert_eq!(WebhookEventType::from_str(label), kind);
        assert_eq!(WebhookEventType::from_str(label).as_str(), label);
        assert_eq!(kind.as_str(), label);
    }
}

#[test]
fn unknown_trigger_round_trips_unchanged() {
    let kind = WebhookEventType::from_str("foo:bar");
    assert_eq!(kind, WebhookEventType::Unknown("foo:bar".to_string()));
    assert_eq!(kind.as_str(), "foo:bar");
    assert_eq!(WebhookEventType::from_str("Members:Create").as_str(), "Members:Create");
    assert_eq!(WebhookEventType::from_str("").as_str(), "");
}

#[test]
fn validate_and_parse_end_to_end() {
    let validator = WebhookValidator::new(SECRET);
    let signature = compute_signature(SECRET, BODY.as_bytes());
    let event = validator.validate_and_parse(BODY.as_bytes(), &signature).unwrap();
    assert_eq!(event.data.id, "123");
    assert_eq!(event.data.resource_type, ResourceType::Member);
    assert!(event.data.attributes.is_none());
    assert!(event.included.is_empty());
    assert_eq!(event.links.self_link, "https://example/members/123");
    assert_eq!(event.links.next, "");
}

#[test]
fn flipped_signature_is_the_signature_failure() {
    let validator = WebhookValidator::new(SECRET);
    let mut signature = compute_signature(SECRET, BODY.as_bytes());
    let last = signature.pop().unwrap();
    signature.push(if last == '0' { '1' } else { '0' });
    assert!(matches!(
        validator.validate_or_error(BODY.as_bytes(), &signature),
        Err(PatreonError::InvalidSignature)
    ));
    assert!(matches!(
        validator.validate_and_parse(BODY.as_bytes(), &signature),
        Err(PatreonError::InvalidSignature)
    ));
}

#[test]
fn invalid_signature_is_reported_before_the_body_is_read() {
    let validator = WebhookValidator::new(SECRET);
    let body = b"this is not json";
    assert!(matches!(
        validator.validate_and_parse(body, "0000"),
        Err(PatreonError::InvalidSignature)
    ));
    let signature = compute_signature(SECRET, body);
    assert!(matches!(
        validator.validate_and_parse(body, &signature),
        Err(PatreonError::SerdeJson(_))
    ));
}

#[test]
fn webhook_checks_with_the_digest_it_is_told() {
    let webhook = Webhook { webhook_secret: SECRET.to_string() };
    let sha = compute_signature(SECRET, BODY.as_bytes());
    let md5 = compute_signature_with(DigestAlgorithm::Md5, SECRET, BODY.as_bytes());
    assert!(webhook.check_signature_with(DigestAlgorithm::Sha256, BODY.as_bytes(), &sha).unwrap());
    assert!(webhook.check_signature_with(DigestAlgorithm::Md5, BODY.as_bytes(), &md5).unwrap());
    assert!(!webhook.check_signature_with(DigestAlgorithm::Sha256, BODY.as_bytes(), &md5).unwrap());
    assert!(!webhook.check_signature_with(DigestAlgorithm::Md5, BODY.as_bytes(), &sha).unwrap());
    assert!(!webhook.check_signature(BODY.as_bytes(), &sha).unwrap());
    assert!(!webhook.check_signature(BODY.as_bytes(), &md5[..31]).unwrap());
    assert!(!webhook.check_signature(BODY.as_bytes(), &format!("{md5}0")).unwrap());
}

#[test]
fn md5_webhook_checks_its_signature() {
    let webhook = Webhook { webhook_secret: SECRET.to_string() };
    let signature = compute_signature_with(DigestAlgorithm::Md5, SECRET, BODY.as_bytes());
    assert!(webhook.check_signature(BODY.as_bytes(), &signature).unwrap());
    assert!(!webhook.check_signature(b"{}", &signature).unwrap());
    assert!(!webhook.check_signature(BODY.as_bytes(), "").unwrap());
}
