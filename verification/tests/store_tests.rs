use th::store::{AuthInfo, CredStore, config_file_path, str_eq};

fn oauth_record(refresh: &str) -> AuthInfo {
    AuthInfo {
        auth_type: "oauth".to_string(),
        refresh: Some(refresh.to_string()),
        access: None,
        expires: None,
        key: None,
        token: None,
    }
}

#[test]
fn empty_store_has_no_record() {
    let store = CredStore::new();
    assert!(store.get("github-copilot").is_none());
}

#[test]
fn merge_keeps_both_providers() {
    let mut store = CredStore::new();
    store.set("github-copilot", oauth_record("tok-a"));
    store.set("other-provider", oauth_record("tok-b"));
    let a = store.get("github-copilot").unwrap();
    let b = store.get("other-provider").unwrap();
    assert_eq!(a.refresh, Some("tok-a".to_string()));
    assert_eq!(b.refresh, Some("tok-b".to_string()));
}

#[test]
fn merge_order_does_not_matter() {
    let mut first = CredStore::new();
    first.set("alpha", oauth_record("a"));
    first.set("beta", oauth_record("b"));
    let mut second = CredStore::new();
    second.set("beta", oauth_record("b"));
    second.set("alpha", oauth_record("a"));
    assert_eq!(
        first.get("alpha").unwrap().refresh,
        second.get("alpha").unwrap().refresh
    );
    assert_eq!(
        first.get("beta").unwrap().refresh,
        second.get("beta").unwrap().refresh
    );
}

#[test]
fn save_overwrites_same_provider() {
    let mut store = CredStore::new();
    store.set("github-copilot", oauth_record("old"));
    let mut updated = oauth_record("new");
    updated.access = Some("acc".to_string());
    updated.expires = Some(1000);
    store.set("github-copilot", updated);
    let got = store.get("github-copilot").unwrap();
    assert_eq!(got.refresh, Some("new".to_string()));
    assert_eq!(got.access, Some("acc".to_string()));
    assert_eq!(got.expires, Some(1000));
}

#[test]
fn save_does_not_disturb_sibling() {
    let mut store = CredStore::new();
    store.set("alpha", oauth_record("a"));
    store.set("beta", oauth_record("b"));
    store.set("alpha", oauth_record("a2"));
    assert_eq!(store.get("beta").unwrap().refresh, Some("b".to_string()));
    assert_eq!(store.get("alpha").unwrap().refresh, Some("a2".to_string()));
}

#[test]
fn reserved_fields_round_trip() {
    let mut store = CredStore::new();
    let mut rec = oauth_record("r");
    rec.key = Some("k".to_string());
    rec.token = Some("t".to_string());
    store.set("p", rec);
    let got = store.get("p").unwrap();
    assert_eq!(got.key, Some("k".to_string()));
    assert_eq!(got.token, Some("t".to_string()));
}

#[test]
fn config_path_prefers_config_home() {
    assert_eq!(
        config_file_path(Some("/custom/config"), Some("/home/me")),
        "/custom/config/008/auth.json"
    );
}

#[test]
fn config_path_falls_back_to_home() {
    assert_eq!(
        config_file_path(None, Some("/home/me")),
        "/home/me/.config/008/auth.json"
    );
}

#[test]
fn config_path_last_resort() {
    assert_eq!(config_file_path(None, None), "/home/user/.config/008/auth.json");
}

#[test]
fn str_eq_compares_contents() {
    assert!(str_eq("abc", "abc"));
    assert!(!str_eq("abc", "abd"));
    assert!(!str_eq("abc", "abcd"));
}
