use th::store::AuthInfo;
use th::token::{
    after_exchange, after_validation, exchanged_record, plan_access, status_is_success,
    AccessPlan, ExchangeGrant, TokenDenial, TokenStep,
};

fn stored(refresh: Option<&str>, access: Option<&str>, expires: Option<i64>) -> AuthInfo {
    AuthInfo {
        auth_type: "oauth".to_string(),
        refresh: refresh.map(|s| s.to_string()),
        access: access.map(|s| s.to_string()),
        expires,
        key: None,
        token: None,
    }
}

#[test]
fn no_record_is_unauthenticated() {
    assert!(matches!(
        plan_access(None),
        AccessPlan::Refuse(TokenDenial::Unauthenticated)
    ));
}

#[test]
fn other_kind_is_unauthenticated() {
    let mut rec = stored(Some("r"), None, None);
    rec.auth_type = "key".to_string();
    assert!(matches!(
        plan_access(Some(&rec)),
        AccessPlan::Refuse(TokenDenial::Unauthenticated)
    ));
}

#[test]
fn missing_refresh_is_unauthenticated() {
    let rec = stored(None, Some("acc"), Some(10));
    assert!(matches!(
        plan_access(Some(&rec)),
        AccessPlan::Refuse(TokenDenial::Unauthenticated)
    ));
}

#[test]
fn stored_refresh_goes_to_validation() {
    let rec = stored(Some("gho_r"), None, None);
    match plan_access(Some(&rec)) {
        AccessPlan::Validate(t) => assert_eq!(t, "gho_r"),
        _ => panic!("expected Validate"),
    }
}

#[test]
fn failed_validation_refuses_despite_fresh_cache() {
    let rec = stored(Some("r"), Some("cached"), Some(2_000));
    match after_validation(&rec, false, 1_000) {
        TokenStep::Refuse(TokenDenial::ValidationFailed) => {}
        _ => panic!("expected Refuse(ValidationFailed)"),
    }
}

#[test]
fn fresh_cache_is_used_without_exchange() {
    let rec = stored(Some("r"), Some("cached"), Some(2_000));
    match after_validation(&rec, true, 1_999) {
        TokenStep::Cached(t) => assert_eq!(t, "cached"),
        _ => panic!("expected Cached"),
    }
}

#[test]
fn expiry_equal_to_now_forces_exchange() {
    let rec = stored(Some("r"), Some("cached"), Some(1_000));
    assert!(matches!(after_validation(&rec, true, 1_000), TokenStep::Exchange));
}

#[test]
fn past_expiry_forces_exchange() {
    let rec = stored(Some("r"), Some("cached"), Some(500));
    assert!(matches!(after_validation(&rec, true, 1_000), TokenStep::Exchange));
}

#[test]
fn missing_cache_forces_exchange() {
    let rec = stored(Some("r"), None, None);
    assert!(matches!(after_validation(&rec, true, 0), TokenStep::Exchange));
}

#[test]
fn exchanged_record_preserves_refresh_and_converts_expiry() {
    let grant = ExchangeGrant { token: "new_access".to_string(), expires_at: 1_700_000_000 };
    let rec = exchanged_record("gho_r", &grant);
    assert_eq!(rec.auth_type, "oauth");
    assert_eq!(rec.refresh, Some("gho_r".to_string()));
    assert_eq!(rec.access, Some("new_access".to_string()));
    assert_eq!(rec.expires, Some(1_700_000_000_000));
    assert!(rec.key.is_none());
    assert!(rec.token.is_none());
}

#[test]
fn refused_exchange_is_the_exchange_failed_denial() {
    match after_exchange("gho_r", None) {
        Err(TokenDenial::ExchangeFailed) => {}
        _ => panic!("expected Err(ExchangeFailed)"),
    }
}

#[test]
fn granted_exchange_builds_the_record() {
    let grant = ExchangeGrant { token: "acc".to_string(), expires_at: 7 };
    let rec = after_exchange("gho_r", Some(&grant)).unwrap();
    assert_eq!(rec.refresh, Some("gho_r".to_string()));
    assert_eq!(rec.access, Some("acc".to_string()));
    assert_eq!(rec.expires, Some(7_000));
}

#[test]
fn success_statuses() {
    assert!(status_is_success(200));
    assert!(status_is_success(204));
    assert!(status_is_success(299));
    assert!(!status_is_success(199));
    assert!(!status_is_success(300));
    assert!(!status_is_success(401));
    assert!(!status_is_success(500));
}
