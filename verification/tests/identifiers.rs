use branches::identifier::{AtIdentifier, Did, Handle, Nsid, RecordKey};

#[test]
fn did_new_takes_dids_only() {
    assert_eq!(Did::new("did:plc:abc123".to_string()).unwrap().as_str(), "did:plc:abc123");
    assert_eq!(Did::new("did:web:example.com".to_string()).unwrap().as_str(), "did:web:example.com");
    assert!(Did::new("alice.test".to_string()).is_none());
    assert!(Did::new("did:plc".to_string()).is_none());
    assert!(Did::new("did:PLC:abc".to_string()).is_none());
    assert!(Did::new("did:plc:abc:".to_string()).is_none());
    assert!(Did::new("".to_string()).is_none());
}

#[test]
fn did_longer_than_2048_is_refused() {
    let long = format!("did:plc:{}", "a".repeat(2041));
    assert_eq!(long.len(), 2049);
    assert!(Did::new(long).is_none());
    let fits = format!("did:plc:{}", "a".repeat(2040));
    assert!(Did::new(fits).is_some());
}

#[test]
fn did_method_is_the_part_before_the_second_colon() {
    assert_eq!(Did::new("did:plc:abc123".to_string()).unwrap().method(), "did:plc");
    assert_eq!(Did::new("did:web:example.com".to_string()).unwrap().method(), "did:web");
    assert_eq!(Did::new("did:key:z6Mk:x:y".to_string()).unwrap().method(), "did:key");
    assert_eq!(Did::new("did:a:b".to_string()).unwrap().method(), "did:a");
}

#[test]
fn handle_new_takes_handles_only() {
    assert_eq!(Handle::new("alice.test".to_string()).unwrap().as_str(), "alice.test");
    assert!(Handle::new("alice".to_string()).is_none());
    assert!(Handle::new("did:plc:abc123".to_string()).is_none());
    assert!(Handle::new("alice.test/".to_string()).is_none());
    assert!(Handle::new("".to_string()).is_none());
}

#[test]
fn nsid_new_takes_nsids_only() {
    assert_eq!(Nsid::new("app.bsky.feed.post".to_string()).unwrap().as_str(), "app.bsky.feed.post");
    assert!(Nsid::new("app.bsky".to_string()).is_none());
    assert!(Nsid::new("".to_string()).is_none());
    assert!(Nsid::new("app.bsky.feed.post/".to_string()).is_none());
}

#[test]
fn record_key_new_takes_record_keys_only() {
    assert_eq!(RecordKey::new("3k2x".to_string()).unwrap().as_str(), "3k2x");
    assert_eq!(RecordKey::new("self".to_string()).unwrap().as_str(), "self");
    assert!(RecordKey::new(".".to_string()).is_none());
    assert!(RecordKey::new("..".to_string()).is_none());
    assert!(RecordKey::new("".to_string()).is_none());
    assert!(RecordKey::new("a/b".to_string()).is_none());
    assert!(RecordKey::new("a".repeat(513)).is_none());
    assert!(RecordKey::new("a".repeat(512)).is_some());
}

#[test]
fn at_identifier_is_a_did_or_a_handle() {
    let id = AtIdentifier::new("did:plc:abc123".to_string()).unwrap();
    assert!(matches!(id, AtIdentifier::Did(_)));
    assert_eq!(id.as_str(), "did:plc:abc123");
    let id = AtIdentifier::new("alice.test".to_string()).unwrap();
    assert!(matches!(id, AtIdentifier::Handle(_)));
    assert_eq!(id.as_str(), "alice.test");
    assert!(AtIdentifier::new("neither".to_string()).is_none());
    assert!(AtIdentifier::new("".to_string()).is_none());
}

#[test]
fn clones_keep_the_text() {
    let did = Did::new("did:plc:abc123".to_string()).unwrap();
    assert_eq!(did.clone().as_str(), "did:plc:abc123");
    let handle = Handle::new("alice.test".to_string()).unwrap();
    assert_eq!(handle.clone().as_str(), "alice.test");
    let nsid = Nsid::new("app.bsky.feed.post".to_string()).unwrap();
    assert_eq!(nsid.clone().as_str(), "app.bsky.feed.post");
    let key = RecordKey::new("3k2x".to_string()).unwrap();
    assert_eq!(key.clone().as_str(), "3k2x");
    let id = AtIdentifier::new("alice.test".to_string()).unwrap();
    assert_eq!(id.clone().as_str(), "alice.test");
}
