use atrium_api::com::atproto::repo::describe_repo;
use branches::client::{AtprotoClient, AtprotoClientInput, AtprotoClientOutput};

#[test]
fn new_client_asks_the_public_host() {
    assert_eq!(AtprotoClient::init().endpoint(), "https://public.api.bsky.app");
}

#[test]
fn address_has_no_output() {
    let mut client = AtprotoClient::init();
    let input = AtprotoClientInput::Get("at://alice.test/app.bsky.feed.post/3k2x".to_string());
    assert!(client.update(input).is_none());
    assert_eq!(client.endpoint(), "https://public.api.bsky.app");
}

#[test]
fn text_that_is_no_address_is_reported() {
    let mut client = AtprotoClient::init();
    match client.update(AtprotoClientInput::Get("not an address".to_string())) {
        Some(AtprotoClientOutput::Error(message)) => {
            assert_eq!(message, "invalid uri: not an address")
        }
        other => panic!("{:?}", other),
    }
    match client.update(AtprotoClientInput::Get("".to_string())) {
        Some(AtprotoClientOutput::Error(message)) => assert_eq!(message, "invalid uri: "),
        other => panic!("{:?}", other),
    }
}

#[test]
fn repo_answer_is_the_output() {
    let client = AtprotoClient::init();
    let repo: describe_repo::OutputData = serde_json::from_str(
        "{\"collections\":[],\"did\":\"did:plc:abc123\",\"didDoc\":null,\"handle\":\"alice.test\",\"handleIsCorrect\":false}",
    )
    .unwrap();
    match client.get_repo(Ok(repo.clone())) {
        AtprotoClientOutput::Repo(found) => assert_eq!(found, repo),
        other => panic!("{:?}", other),
    }
    match client.get_repo(Err("unreachable host".to_string())) {
        AtprotoClientOutput::Error(message) => assert_eq!(message, "unreachable host"),
        other => panic!("{:?}", other),
    }
}
