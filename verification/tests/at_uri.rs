use branches::identifier::AtIdentifier;
use branches::types::{split_address, AtUri, AtUriError};

fn strings(items: &[&str]) -> Vec<String> {
    items.iter().map(|s| s.to_string()).collect()
}

#[test]
fn parses_handle_collection_and_record_key() {
    let uri = AtUri::from_str("at://alice.test/app.bsky.feed.post/3k2x").unwrap();
    assert!(matches!(uri.authority(), AtIdentifier::Handle(_)));
    assert_eq!(uri.authority().as_str(), "alice.test");
    assert_eq!(uri.collection().unwrap().as_str(), "app.bsky.feed.post");
    assert_eq!(uri.rkey().unwrap().as_str(), "3k2x");
}

#[test]
fn parses_bare_handle() {
    let uri = AtUri::from_str("alice.test").unwrap();
    assert!(matches!(uri.authority(), AtIdentifier::Handle(_)));
    assert_eq!(uri.authority().as_str(), "alice.test");
    assert!(uri.collection().is_none());
    assert!(uri.rkey().is_none());
}

#[test]
fn empty_collection_is_invalid_nsid() {
    assert_eq!(
        AtUri::from_str("at://alice.test//3k2x").unwrap_err(),
        AtUriError::InvalidNsid
    );
}

#[test]
fn invalid_collection_wins_over_invalid_record_key() {
    assert_eq!(
        AtUri::from_str("at://alice.test/notansid/..").unwrap_err(),
        AtUriError::InvalidNsid
    );
}

#[test]
fn strips_both_prefixes() {
    let uri = AtUri::from_str("web+at://did:plc:abc123/app.bsky.actor.profile/self").unwrap();
    assert!(matches!(uri.authority(), AtIdentifier::Did(_)));
    assert_eq!(uri.authority().as_str(), "did:plc:abc123");
    assert_eq!(uri.collection().unwrap().as_str(), "app.bsky.actor.profile");
    assert_eq!(uri.rkey().unwrap().as_str(), "self");
}

#[test]
fn strips_wrapper_scheme_alone() {
    let uri = AtUri::from_str("web+alice.test/app.bsky.feed.post").unwrap();
    assert_eq!(uri.authority().as_str(), "alice.test");
    assert_eq!(uri.collection().unwrap().as_str(), "app.bsky.feed.post");
    assert!(uri.rkey().is_none());
}

#[test]
fn strips_each_prefix_once() {
    assert_eq!(
        AtUri::from_str("at://at://alice.test").unwrap_err(),
        AtUriError::InvalidAuthority
    );
    assert_eq!(
        AtUri::from_str("at://web+alice.test").unwrap_err(),
        AtUriError::InvalidAuthority
    );
}

#[test]
fn segments_after_the_third_are_left_out() {
    let uri = AtUri::from_str("at://alice.test/app.bsky.feed.post/3k2x/more/and/more").unwrap();
    assert_eq!(uri.authority().as_str(), "alice.test");
    assert_eq!(uri.collection().unwrap().as_str(), "app.bsky.feed.post");
    assert_eq!(uri.rkey().unwrap().as_str(), "3k2x");
    assert_eq!(uri.to_string(), "at://alice.test/app.bsky.feed.post/3k2x");
}

#[test]
fn empty_text_has_an_invalid_authority() {
    assert_eq!(AtUri::from_str("").unwrap_err(), AtUriError::InvalidAuthority);
    assert_eq!(AtUri::from_str("at://").unwrap_err(), AtUriError::InvalidAuthority);
    assert_eq!(AtUri::from_str("/app.bsky.feed.post").unwrap_err(), AtUriError::InvalidAuthority);
}

#[test]
fn text_that_is_no_identifier_has_an_invalid_authority() {
    assert_eq!(AtUri::from_str("at://nodots").unwrap_err(), AtUriError::InvalidAuthority);
    assert_eq!(AtUri::from_str("at://did:plc:").unwrap_err(), AtUriError::InvalidAuthority);
    assert_eq!(AtUri::from_str("at://al ice.test").unwrap_err(), AtUriError::InvalidAuthority);
}

#[test]
fn bad_record_key_is_invalid_record_key() {
    assert_eq!(
        AtUri::from_str("at://alice.test/app.bsky.feed.post/..").unwrap_err(),
        AtUriError::InvalidRecordKey
    );
    assert_eq!(
        AtUri::from_str("at://alice.test/app.bsky.feed.post/").unwrap_err(),
        AtUriError::InvalidRecordKey
    );
    assert_eq!(
        AtUri::from_str("at://alice.test/app.bsky.feed.post/a b").unwrap_err(),
        AtUriError::InvalidRecordKey
    );
}

#[test]
fn no_segments_is_missing_authority() {
    assert_eq!(
        AtUri::from_segments(&Vec::new()).unwrap_err(),
        AtUriError::MissingAuthority
    );
}

#[test]
fn from_segments_reads_each_segment() {
    let uri = AtUri::from_segments(&strings(&["did:web:example.com", "com.example.thing", "k1"]))
        .unwrap();
    assert!(matches!(uri.authority(), AtIdentifier::Did(_)));
    assert_eq!(uri.authority().as_str(), "did:web:example.com");
    assert_eq!(uri.collection().unwrap().as_str(), "com.example.thing");
    assert_eq!(uri.rkey().unwrap().as_str(), "k1");

    let uri = AtUri::from_segments(&strings(&["alice.test", "com.example.thing"])).unwrap();
    assert!(uri.rkey().is_none());

    let uri = AtUri::from_segments(&strings(&[
        "alice.test",
        "com.example.thing",
        "k1",
        "not looked at",
    ]))
    .unwrap();
    assert_eq!(uri.rkey().unwrap().as_str(), "k1");

    assert_eq!(
        AtUri::from_segments(&strings(&["alice.test", "x"])).unwrap_err(),
        AtUriError::InvalidNsid
    );
    assert_eq!(
        AtUri::from_segments(&strings(&["?", "com.example.thing"])).unwrap_err(),
        AtUriError::InvalidAuthority
    );
}

#[test]
fn split_address_gives_at_most_three_segments() {
    assert_eq!(split_address("at://a/b/c/d/e"), strings(&["a", "b", "c"]));
    assert_eq!(split_address("web+at://a/b"), strings(&["a", "b"]));
    assert_eq!(split_address("web+a"), strings(&["a"]));
    assert_eq!(split_address("a//"), strings(&["a", "", ""]));
    assert_eq!(split_address(""), strings(&[""]));
    assert_eq!(split_address("/"), strings(&["", ""]));
    assert_eq!(split_address("at://\u{e9}t\u{e9}/\u{1f600}"), strings(&["\u{e9}t\u{e9}", "\u{1f600}"]));
}

#[test]
fn writes_the_address_out() {
    let uri = AtUri::from_str("web+at://did:plc:abc123/app.bsky.actor.profile/self").unwrap();
    assert_eq!(uri.to_string(), "at://did:plc:abc123/app.bsky.actor.profile/self");
    let uri = AtUri::from_str("alice.test/app.bsky.feed.post").unwrap();
    assert_eq!(uri.to_string(), "at://alice.test/app.bsky.feed.post");
    let uri = AtUri::from_str("alice.test").unwrap();
    assert_eq!(uri.to_string(), "at://alice.test");
}

#[test]
fn reading_what_was_written_gives_the_same_address() {
    for raw in [
        "at://alice.test/app.bsky.feed.post/3k2x",
        "web+at://did:plc:abc123/app.bsky.actor.profile/self",
        "did:web:example.com/com.example.thing/a:b~c",
        "alice.test/app.bsky.feed.post",
        "bob.example.com",
        "at://alice.test/app.bsky.feed.post/3k2x/extra",
    ] {
        let first = AtUri::from_str(raw).unwrap();
        let second = AtUri::from_str(&first.to_string()).unwrap();
        assert_eq!(
            matches!(first.authority(), AtIdentifier::Did(_)),
            matches!(second.authority(), AtIdentifier::Did(_))
        );
        assert_eq!(first.authority().as_str(), second.authority().as_str());
        assert_eq!(
            first.collection().map(|c| c.as_str().to_string()),
            second.collection().map(|c| c.as_str().to_string())
        );
        assert_eq!(
            first.rkey().map(|k| k.as_str().to_string()),
            second.rkey().map(|k| k.as_str().to_string())
        );
        assert_eq!(first.to_string(), second.to_string());
    }
}

#[test]
fn str_parse_reads_an_address() {
    let uri: AtUri = "at://alice.test/app.bsky.feed.post".parse().unwrap();
    assert_eq!(uri.collection().unwrap().as_str(), "app.bsky.feed.post");
    let err = "at://alice.test/?".parse::<AtUri>().unwrap_err();
    assert_eq!(err, AtUriError::InvalidNsid);
}

#[test]
fn a_clone_is_the_same_address() {
    let uri = AtUri::from_str("at://alice.test/app.bsky.feed.post/3k2x").unwrap();
    assert_eq!(uri.clone().to_string(), uri.to_string());
}
