use casdoor_sdk::authn::{RegisteredClaims, ValidationError};

fn claims() -> RegisteredClaims {
    RegisteredClaims::default()
}

#[test]
fn expires_at_past_is_invalid() {
    let mut c = claims();
    c.expires_at = Some(1_000);
    assert!(!c.verify_expires_at(2_000, false));
    assert!(!c.verify_expires_at(2_000, true));
}

#[test]
fn expires_at_is_an_exclusive_bound() {
    let mut c = claims();
    c.expires_at = Some(1_000);
    assert!(!c.verify_expires_at(1_000, false));
    assert!(c.verify_expires_at(999, false));
    assert!(c.verify_expires_at(999, true));
}

#[test]
fn issued_at_future_is_invalid() {
    let mut c = claims();
    c.issued_at = Some(2_000);
    assert!(!c.verify_issued_at(1_000, false));
    assert!(!c.verify_issued_at(1_000, true));
}

#[test]
fn issued_at_is_an_inclusive_bound() {
    let mut c = claims();
    c.issued_at = Some(2_000);
    assert!(c.verify_issued_at(2_000, false));
    assert!(c.verify_issued_at(3_000, false));
}

#[test]
fn not_before_future_is_invalid() {
    let mut c = claims();
    c.not_before = Some(2_000);
    assert!(!c.verify_not_before(1_000, false));
    assert!(!c.verify_not_before(1_000, true));
}

#[test]
fn not_before_is_an_inclusive_bound() {
    let mut c = claims();
    c.not_before = Some(2_000);
    assert!(c.verify_not_before(2_000, false));
    assert!(c.verify_not_before(3_000, false));
}

#[test]
fn zero_instant_defers_to_require() {
    let mut c = claims();
    c.expires_at = Some(-5);
    c.issued_at = Some(5);
    c.not_before = Some(5);
    assert!(c.verify_expires_at(0, false));
    assert!(!c.verify_expires_at(0, true));
    assert!(c.verify_issued_at(0, false));
    assert!(!c.verify_issued_at(0, true));
    assert!(c.verify_not_before(0, false));
    assert!(!c.verify_not_before(0, true));
}

#[test]
fn absent_claim_defers_to_require() {
    let c = claims();
    assert!(c.verify_expires_at(1_000, false));
    assert!(!c.verify_expires_at(1_000, true));
    assert!(c.verify_issued_at(1_000, false));
    assert!(!c.verify_issued_at(1_000, true));
    assert!(c.verify_not_before(1_000, false));
    assert!(!c.verify_not_before(1_000, true));
}

#[test]
fn valid_at_checks_in_order() {
    let mut c = claims();
    c.expires_at = Some(1_000);
    c.issued_at = Some(2_000);
    c.not_before = Some(2_000);
    // Expiry is checked first.
    assert_eq!(c.valid_at(1_500), Err(ValidationError::Expired));
    // With the expiry passing, issued-at is next.
    c.expires_at = Some(10_000);
    assert_eq!(c.valid_at(1_500), Err(ValidationError::IssuedAt));
    // With both passing, not-before is last.
    c.issued_at = Some(1_000);
    c.not_before = Some(2_000);
    assert_eq!(c.valid_at(1_500), Err(ValidationError::NotValidYet));
    c.not_before = Some(1_500);
    assert_eq!(c.valid_at(1_500), Ok(()));
}

#[test]
fn valid_fails_expired_for_token_expired_an_hour_ago() {
    let now = chrono::Utc::now().timestamp();
    let mut c = claims();
    c.expires_at = Some(now - 3_600);
    assert_eq!(c.valid(), Err(ValidationError::Expired));
}

#[test]
fn valid_fails_issued_at_for_token_issued_in_an_hour() {
    let now = chrono::Utc::now().timestamp();
    let mut c = claims();
    c.issued_at = Some(now + 3_600);
    assert_eq!(c.valid(), Err(ValidationError::IssuedAt));
}

#[test]
fn valid_fails_not_valid_yet_for_future_not_before() {
    let now = chrono::Utc::now().timestamp();
    let mut c = claims();
    c.not_before = Some(now + 3_600);
    assert_eq!(c.valid(), Err(ValidationError::NotValidYet));
}

#[test]
fn valid_succeeds_with_all_temporal_claims_absent() {
    let c = claims();
    assert_eq!(c.valid(), Ok(()));
}

#[test]
fn validation_error_messages() {
    assert_eq!(ValidationError::Expired.message(), "token is expired");
    assert_eq!(ValidationError::IssuedAt.message(), "token used before issued");
    assert_eq!(ValidationError::NotValidYet.message(), "token is not valid yet");
}

#[test]
fn default_claims_are_empty() {
    let c = claims();
    assert!(c.issuer.is_none());
    assert!(c.subject.is_none());
    assert!(c.audience.is_empty());
    assert!(c.expires_at.is_none());
    assert!(c.not_before.is_none());
    assert!(c.issued_at.is_none());
    assert!(c.id.is_none());
}
