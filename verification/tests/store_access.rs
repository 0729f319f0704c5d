use brainfork::{
    AccessLevel, CredentialStore, RejectionReason, ServerCounts, get_access_level,
    handle_new_authorization, insert_api_key, issue, parse_access_request, resolve,
};

fn open_store() -> CredentialStore {
    CredentialStore::open_in_memory(4, 2000).expect("in-memory credential store")
}

#[test]
fn no_credentials_resolve_to_unauthenticated() {
    let store = open_store();
    let keys: Vec<String> = vec![];
    assert_eq!(resolve(&store, &keys), Ok(AccessLevel::Unauthenticated));
}

#[test]
fn two_credentials_are_malformed_whatever_they_hold() {
    let mut store = open_store();
    let good = issue(&mut store, AccessLevel::Developer, "a", AccessLevel::Administrator)
        .expect("issued credential");
    let keys = vec![good.clone(), good.clone()];
    assert_eq!(
        resolve(&store, &keys),
        Err(RejectionReason::MalformedCredentialPresentation)
    );
    let keys = vec![String::from("junk"), String::from("more-junk"), good];
    assert_eq!(
        resolve(&store, &keys),
        Err(RejectionReason::MalformedCredentialPresentation)
    );
}

#[test]
fn unknown_credential_is_unrecognized_and_ledger_untouched() {
    let store = open_store();
    let counts = ServerCounts::new();
    let before = counts.snapshot();
    let keys = vec![String::from("not-a-real-key")];
    assert_eq!(resolve(&store, &keys), Err(RejectionReason::UnrecognizedCredential));
    assert_eq!(counts.snapshot(), before);
}

#[test]
fn issued_credential_resolves_to_its_tier() {
    let mut store = open_store();
    let key = issue(&mut store, AccessLevel::Developer, "test", AccessLevel::Administrator)
        .expect("issued credential");
    assert_eq!(key.len(), 36);
    assert_eq!(resolve(&store, &vec![key]), Ok(AccessLevel::Developer));
    assert_eq!(
        AccessLevel::Developer.get_runtime_limits(),
        (10000, 128000)
    );
}

#[test]
fn issued_basic_credential_resolves_to_basic() {
    let mut store = open_store();
    let key = issue(&mut store, AccessLevel::Basic, "basic label", AccessLevel::Administrator)
        .expect("issued credential");
    assert_eq!(resolve(&store, &vec![key]), Ok(AccessLevel::Basic));
}

#[test]
fn non_administrators_may_not_issue() {
    let mut store = open_store();
    for caller in [AccessLevel::Developer, AccessLevel::Basic, AccessLevel::Unauthenticated] {
        assert_eq!(
            issue(&mut store, AccessLevel::Developer, "nope", caller),
            Err(RejectionReason::NotAuthorized)
        );
    }
    assert_eq!(
        resolve(&store, &vec![String::from("never-issued")]),
        Err(RejectionReason::UnrecognizedCredential)
    );
}

#[test]
fn only_developer_and_basic_are_issuable() {
    let mut store = open_store();
    assert_eq!(
        issue(&mut store, AccessLevel::Administrator, "escalate", AccessLevel::Administrator),
        Err(RejectionReason::InvalidRequestedTier)
    );
    assert_eq!(
        issue(&mut store, AccessLevel::Unauthenticated, "odd", AccessLevel::Administrator),
        Err(RejectionReason::InvalidRequestedTier)
    );
}

#[test]
fn insert_api_key_persists_the_returned_key() {
    let mut store = open_store();
    let key = insert_api_key(&mut store, AccessLevel::Basic, "direct").expect("inserted key");
    assert_eq!(key.len(), 36);
    assert_eq!(resolve(&store, &vec![key]), Ok(AccessLevel::Basic));
}

#[test]
fn exhausted_pool_is_unavailable_not_unrecognized() {
    let mut store = CredentialStore::open_in_memory(1, 150).expect("in-memory credential store");
    let key = issue(&mut store, AccessLevel::Developer, "held", AccessLevel::Administrator)
        .expect("issued credential");
    let lease = store.acquire().expect("the only pooled connection");
    let outcome = resolve(&store, &vec![key.clone()]);
    assert_eq!(outcome, Err(RejectionReason::StoreUnavailable));
    assert_ne!(outcome, Err(RejectionReason::UnrecognizedCredential));
    drop(lease);
    assert_eq!(resolve(&store, &vec![key]), Ok(AccessLevel::Developer));
}

#[test]
fn duplicate_key_insert_fails_and_preserves_the_row() {
    let mut store = open_store();
    assert!(store.insert_credential("fixed-key", 1, "first"));
    assert!(!store.insert_credential("fixed-key", 2, "second"));
    assert_eq!(
        resolve(&store, &vec![String::from("fixed-key")]),
        Ok(AccessLevel::Developer)
    );
}

#[test]
fn parse_access_request_names_issuable_tiers() {
    assert_eq!(parse_access_request("developer"), Some(AccessLevel::Developer));
    assert_eq!(parse_access_request("basic"), Some(AccessLevel::Basic));
    assert_eq!(parse_access_request("administrator"), None);
    assert_eq!(parse_access_request("Developer"), None);
    assert_eq!(parse_access_request(""), None);
}

#[test]
fn authorization_route_rejects_non_administrators() {
    let mut store = open_store();
    let response =
        handle_new_authorization(&mut store, "developer", "label", AccessLevel::Basic);
    let text = String::from_utf8(response).unwrap();
    assert_eq!(
        text,
        "{\"error_message\":\"you are not authorized to request this feature\"}"
    );
}

#[test]
fn authorization_route_rejects_unknown_tier_names() {
    let mut store = open_store();
    let response =
        handle_new_authorization(&mut store, "root", "label", AccessLevel::Administrator);
    let text = String::from_utf8(response).unwrap();
    assert_eq!(
        text,
        "{\"error_message\":\"unknown 'access_level', expected: {'developer', 'basic'}\"}"
    );
}

#[test]
fn authorization_route_discloses_fresh_key_once() {
    let mut store = open_store();
    let response =
        handle_new_authorization(&mut store, "developer", "ci bot", AccessLevel::Administrator);
    let text = String::from_utf8(response).unwrap();
    let value: serde_json::Value = serde_json::from_str(&text).unwrap();
    let key = value["key"].as_str().unwrap().to_string();
    assert_eq!(key.len(), 36);
    assert_eq!(resolve(&store, &vec![key]), Ok(AccessLevel::Developer));
}

#[test]
fn checked_out_connection_reads_the_same_table() {
    let mut store = open_store();
    let key = issue(&mut store, AccessLevel::Developer, "shared", AccessLevel::Administrator)
        .expect("issued credential");
    let db = store.acquire().expect("pooled connection");
    assert_eq!(get_access_level(&db, &key), Ok(AccessLevel::Developer));
    assert_eq!(
        get_access_level(&db, "absent"),
        Err(RejectionReason::UnrecognizedCredential)
    );
}

#[test]
fn stored_byte_of_no_tier_is_unrecognized_not_downgraded() {
    let mut store = open_store();
    assert!(store.insert_credential("stray-row-key", 9, "integrity fault"));
    assert_eq!(
        resolve(&store, &vec![String::from("stray-row-key")]),
        Err(RejectionReason::UnrecognizedCredential)
    );
}

#[test]
fn two_issued_credentials_differ() {
    let mut store = open_store();
    let first = issue(&mut store, AccessLevel::Developer, "one", AccessLevel::Administrator)
        .expect("issued credential");
    let second = issue(&mut store, AccessLevel::Developer, "two", AccessLevel::Administrator)
        .expect("issued credential");
    assert_ne!(first, second);
}
