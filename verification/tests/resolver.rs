use branches::api::{
    did_doc_from, did_doc_url_for, did_from_handle, pds_endpoint_from, plc_directory_url, web_url,
    DidDocument, DocumentError, ResolveError,
};
use branches::identifier::Did;

const DOC_WITH_PDS: &str = "{\"@context\":[\"https://www.w3.org/ns/did/v1\"],\"id\":\"did:plc:abc123\",\"alsoKnownAs\":[\"at://alice.test\"],\"verificationMethod\":[{\"id\":\"did:plc:abc123#atproto\",\"type\":\"Multikey\",\"controller\":\"did:plc:abc123\",\"publicKeyMultibase\":\"zQ3sh\"}],\"service\":[{\"id\":\"#other\",\"type\":\"Other\",\"serviceEndpoint\":\"https://other.example.com\"},{\"id\":\"#atproto_pds\",\"type\":\"AtprotoPersonalDataServer\",\"serviceEndpoint\":\"https://pds.example.com\"}]}";
const DOC_WITHOUT_PDS: &str = "{\"id\":\"did:plc:abc123\",\"service\":[{\"id\":\"#bsky_fg\",\"type\":\"BskyFeedGenerator\",\"serviceEndpoint\":\"https://feeds.example.com\"}]}";
const DOC_WITHOUT_SERVICES: &str = "{\"id\":\"did:plc:abc123\"}";

fn did(text: &str) -> Did {
    Did::new(text.to_string()).unwrap()
}

#[test]
fn plc_did_is_looked_up_in_the_directory() {
    assert_eq!(
        did_doc_url_for(&did("did:plc:abc123")).unwrap(),
        "https://plc.directory/did:plc:abc123"
    );
    assert_eq!(plc_directory_url(&did("did:plc:abc123")), "https://plc.directory/did:plc:abc123");
}

#[test]
fn web_did_is_looked_up_on_its_domain() {
    assert_eq!(
        did_doc_url_for(&did("did:web:example.com")).unwrap(),
        "https://example.com/.well-known/did.json"
    );
    assert_eq!(
        web_url(&did("did:web:example.com")).unwrap(),
        "https://example.com/.well-known/did.json"
    );
    assert!(web_url(&did("did:plc:abc123")).is_none());
    assert!(web_url(&did("did:webs:example.com")).is_none());
}

#[test]
fn other_methods_are_refused_with_the_method() {
    match did_doc_url_for(&did("did:key:z6Mk")).unwrap_err() {
        DocumentError::UnsupportedMethod(method) => assert_eq!(method, "did:key"),
        other => panic!("{:?}", other),
    }
    match did_doc_url_for(&did("did:plcx:abc")).unwrap_err() {
        DocumentError::UnsupportedMethod(method) => assert_eq!(method, "did:plcx"),
        other => panic!("{:?}", other),
    }
}

#[test]
fn document_error_becomes_resolve_error() {
    match DocumentError::UnsupportedMethod("did:key".to_string()).into_resolve_error() {
        ResolveError::UnsupportedDidMethod(method) => assert_eq!(method, "did:key"),
        other => panic!("{:?}", other),
    }
    match DocumentError::FetchFailed("timed out".to_string()).into_resolve_error() {
        ResolveError::DocumentFetchFailed(cause) => assert_eq!(cause, "timed out"),
        other => panic!("{:?}", other),
    }
}

#[test]
fn did_document_is_read_from_json() {
    let doc = DidDocument::new(DOC_WITH_PDS.to_string()).unwrap();
    assert_eq!(doc.as_str(), DOC_WITH_PDS);
    assert_eq!(doc.clone().as_str(), DOC_WITH_PDS);
    assert!(DidDocument::new(DOC_WITHOUT_SERVICES.to_string()).is_ok());
}

#[test]
fn text_that_is_no_document_is_refused_with_the_readers_message() {
    let message = DidDocument::new("not json".to_string()).unwrap_err();
    assert_eq!(message, "expected ident at line 1 column 2");
    let message = DidDocument::new("{\"service\":[]}".to_string()).unwrap_err();
    assert_eq!(message, "missing field `id` at line 1 column 14");
    assert!(DidDocument::new("".to_string()).is_err());
    assert!(DidDocument::new("{\"id\":\"x\",\"service\":\"none\"}".to_string()).is_err());
}

#[test]
fn pds_endpoint_is_taken_from_the_matching_service() {
    let doc = DidDocument::new(DOC_WITH_PDS.to_string()).unwrap();
    assert_eq!(doc.get_pds_endpoint().unwrap(), "https://pds.example.com");
    assert_eq!(pds_endpoint_from(&doc).unwrap(), "https://pds.example.com");
}

#[test]
fn document_without_matching_service_has_no_host() {
    for text in [DOC_WITHOUT_PDS, DOC_WITHOUT_SERVICES] {
        let doc = DidDocument::new(text.to_string()).unwrap();
        assert!(doc.get_pds_endpoint().is_none());
        assert!(matches!(pds_endpoint_from(&doc).unwrap_err(), ResolveError::NoHostFound));
    }
}

#[test]
fn endpoint_that_is_no_http_address_is_no_host() {
    let text = "{\"id\":\"did:plc:abc123\",\"service\":[{\"id\":\"#atproto_pds\",\"type\":\"AtprotoPersonalDataServer\",\"serviceEndpoint\":\"ftp://pds.example.com\"}]}";
    let doc = DidDocument::new(text.to_string()).unwrap();
    assert!(doc.get_pds_endpoint().is_none());
}

#[test]
fn resolved_did_is_taken_where_it_is_one() {
    assert_eq!(
        did_from_handle(Ok("did:plc:abc123".to_string())).unwrap().as_str(),
        "did:plc:abc123"
    );
    assert!(matches!(
        did_from_handle(Ok("alice.test".to_string())).unwrap_err(),
        ResolveError::InvalidIdentifier
    ));
    match did_from_handle(Err("no such handle".to_string())).unwrap_err() {
        ResolveError::HandleResolutionFailed(cause) => assert_eq!(cause, "no such handle"),
        other => panic!("{:?}", other),
    }
}

#[test]
fn fetched_body_is_read_as_a_document() {
    assert_eq!(did_doc_from(Ok(DOC_WITH_PDS.to_string())).unwrap().as_str(), DOC_WITH_PDS);
    match did_doc_from(Ok("[]".to_string())).unwrap_err() {
        DocumentError::FetchFailed(cause) => {
            assert_eq!(
                cause,
                "invalid length 0, expected struct DidDocument with 5 elements at line 1 column 2"
            )
        }
        other => panic!("{:?}", other),
    }
    match did_doc_from(Err("connection refused".to_string())).unwrap_err() {
        DocumentError::FetchFailed(cause) => assert_eq!(cause, "connection refused"),
        other => panic!("{:?}", other),
    }
}
