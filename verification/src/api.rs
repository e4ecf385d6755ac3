//! From an identifier to the host that serves its repository: the steps
//! around the two lookups that are made over the network.
use vstd::prelude::*;
use crate::atrium::{
    did_doc_rejection, did_doc_syntax, is_did, method_of, pds_endpoint_in, pds_endpoint_of,
};
use crate::identifier::Did;
use crate::text::lemma_first_index;

verus! {

/// Why no identity document was had for a DID.
#[derive(Debug)]
pub enum DocumentError {
    /// The DID is of a method that is not looked up; holds the method.
    UnsupportedMethod(String),
    /// The document could not be fetched or read; holds the cause.
    FetchFailed(String),
}

/// A `DocumentError` as mathematics.
pub enum DocumentErrorView {
    UnsupportedMethod(Seq<char>),
    FetchFailed(Seq<char>),
}

impl View for DocumentError {
    type V = DocumentErrorView;

    open spec fn view(&self) -> DocumentErrorView {
        match self {
            DocumentError::UnsupportedMethod(method) => DocumentErrorView::UnsupportedMethod(
                method@,
            ),
            DocumentError::FetchFailed(cause) => DocumentErrorView::FetchFailed(cause@),
        }
    }
}

/// Why an identifier did not lead to a serving host.
#[derive(Debug)]
pub enum ResolveError {
    /// What the handle was resolved to is not a DID.
    InvalidIdentifier,
    /// The handle could not be resolved; holds the cause.
    HandleResolutionFailed(String),
    /// The DID is of a method that is not looked up; holds the method.
    UnsupportedDidMethod(String),
    /// The identity document could not be fetched or read; holds the cause.
    DocumentFetchFailed(String),
    /// The identity document names no serving host.
    NoHostFound,
}

/// A `ResolveError` as mathematics.
pub enum ResolveErrorView {
    InvalidIdentifier,
    HandleResolutionFailed(Seq<char>),
    UnsupportedDidMethod(Seq<char>),
    DocumentFetchFailed(Seq<char>),
    NoHostFound,
}

impl View for ResolveError {
    type V = ResolveErrorView;

    open spec fn view(&self) -> ResolveErrorView {
        match self {
            ResolveError::InvalidIdentifier => ResolveErrorView::InvalidIdentifier,
            ResolveError::HandleResolutionFailed(cause) => ResolveErrorView::HandleResolutionFailed(
                cause@,
            ),
            ResolveError::UnsupportedDidMethod(method) => ResolveErrorView::UnsupportedDidMethod(
                method@,
            ),
            ResolveError::DocumentFetchFailed(cause) => ResolveErrorView::DocumentFetchFailed(
                cause@,
            ),
            ResolveError::NoHostFound => ResolveErrorView::NoHostFound,
        }
    }
}

impl DocumentErrorView {
    /// The same failure, as one of resolving.
    pub open spec fn as_resolve_error(self) -> ResolveErrorView {
        match self {
            DocumentErrorView::UnsupportedMethod(method) => ResolveErrorView::UnsupportedDidMethod(
                method,
            ),
            DocumentErrorView::FetchFailed(cause) => ResolveErrorView::DocumentFetchFailed(cause),
        }
    }
}

impl DocumentError {
    /// The same failure, as one of resolving.
    pub fn into_resolve_error(self) -> (e: ResolveError)
        ensures
            e@ == self@.as_resolve_error(),
    {
        match self {
            DocumentError::UnsupportedMethod(method) => ResolveError::UnsupportedDidMethod(method),
            DocumentError::FetchFailed(cause) => ResolveError::DocumentFetchFailed(cause),
        }
    }
}

/// Where the identity document of `did` is fetched from: the PLC directory
/// for `did:plc`, the well-known path on the DID's own domain for `did:web`.
/// No other method is looked up.
pub open spec fn did_doc_url_of(did: Seq<char>) -> Result<Seq<char>, DocumentErrorView> {
    if method_of(did) == "did:plc"@ {
        Ok(plc_directory_url_of(did))
    } else if method_of(did) == "did:web"@ {
        Ok(web_url_of(did))
    } else {
        Err(DocumentErrorView::UnsupportedMethod(method_of(did)))
    }
}

/// The address of `did` in the PLC directory.
pub open spec fn plc_directory_url_of(did: Seq<char>) -> Seq<char> {
    "https://plc.directory/"@ + did
}

/// The address of the identity document on the domain that follows
/// `did:web:` in `did`.
pub open spec fn web_url_of(did: Seq<char>) -> Seq<char> {
    "https://"@ + did.skip(8) + "/.well-known/did.json"@
}

/// The address of `did` in the PLC directory.
pub fn plc_directory_url(did: &Did) -> (url: String)
    ensures
        url@ == plc_directory_url_of(did@),
{
    String::from_str("https://plc.directory/").concat(did.as_str())
}

/// The address of the identity document of a `did:web` DID, on the domain
/// that the DID holds; none for a DID of another method.
pub fn web_url(did: &Did) -> (url: Option<String>)
    ensures
        url is Some <==> method_of(did@) == "did:web"@,
        url matches Some(u) ==> u@ == web_url_of(did@),
{
    let method = did.method();
    if method == String::from_str("did:web") {
        let text = did.as_str();
        let len = text.unicode_len();
        proof {
            reveal_strlit("did:web");
            lemma_first_index(did@.skip(4), ':');
            assert(method_of(did@).len() == 7);
        }
        let domain = text.substring_char(8, len);
        assert(domain@ =~= did@.skip(8));
        Some(String::from_str("https://").concat(domain).concat("/.well-known/did.json"))
    } else {
        None
    }
}

/// Where the identity document of `did` is fetched from, by the method of
/// the DID. A DID of any method but `did:plc` and `did:web` is refused here,
/// before anything is fetched.
pub fn did_doc_url_for(did: &Did) -> (r: Result<String, DocumentError>)
    ensures
        r matches Ok(url) ==> did_doc_url_of(did@) == Ok::<Seq<char>, DocumentErrorView>(url@),
        r matches Err(e) ==> did_doc_url_of(did@) == Err::<Seq<char>, DocumentErrorView>(e@),
{
    let method = did.method();
    if method == String::from_str("did:plc") {
        Ok(plc_directory_url(did))
    } else {
        match web_url(did) {
            Some(url) => Ok(url),
            None => Err(DocumentError::UnsupportedMethod(method)),
        }
    }
}

/// An identity document: the JSON text of one, as it was fetched.
#[derive(Debug)]
pub struct DidDocument {
    text: String,
}

impl View for DidDocument {
    type V = Seq<char>;

    closed spec fn view(&self) -> Seq<char> {
        self.text@
    }
}

impl DidDocument {
    #[verifier::type_invariant]
    spec fn well_formed(self) -> bool {
        did_doc_rejection(self.text@) is None
    }

    /// Takes `body` as an identity document where it reads as one, and gives
    /// the reader's message where it does not.
    pub fn new(body: String) -> (r: Result<DidDocument, String>)
        ensures
            r is Ok <==> did_doc_rejection(body@) is None,
            r matches Ok(doc) ==> doc@ == body@,
            r matches Err(message) ==> did_doc_rejection(body@) == Some(message@),
    {
        match did_doc_syntax(body.as_str()) {
            Ok(_) => Ok(DidDocument { text: body }),
            Err(message) => Err(message),
        }
    }

    /// The JSON text of the document.
    pub fn as_str(&self) -> (s: &str)
        ensures
            s@ == self@,
            did_doc_rejection(self@) is None,
    {
        proof {
            use_type_invariant(self);
        }
        self.text.as_str()
    }

    /// The host that serves the repository, where the document names one.
    pub fn get_pds_endpoint(&self) -> (endpoint: Option<String>)
        ensures
            endpoint is Some <==> pds_endpoint_of(self@) is Some,
            endpoint matches Some(host) ==> pds_endpoint_of(self@) == Some(host@),
    {
        proof {
            use_type_invariant(self);
        }
        pds_endpoint_in(self.text.as_str())
    }
}

impl Clone for DidDocument {
    fn clone(&self) -> (r: Self)
        ensures
            r@ == self@,
    {
        proof {
            use_type_invariant(self);
        }
        DidDocument { text: self.text.clone() }
    }
}

/// The DID that a handle was resolved to, from the resolver's answer: the
/// text that it gave, or the cause of its failure.
pub open spec fn resolved_did_of(answer: Result<Seq<char>, Seq<char>>) -> Result<
    Seq<char>,
    ResolveErrorView,
> {
    match answer {
        Ok(text) => if is_did(text) {
            Ok(text)
        } else {
            Err(ResolveErrorView::InvalidIdentifier)
        },
        Err(cause) => Err(ResolveErrorView::HandleResolutionFailed(cause)),
    }
}

/// The identity document in the answer to a fetch: the body that came, or
/// the cause of the failure.
pub open spec fn did_doc_of(answer: Result<Seq<char>, Seq<char>>) -> Result<
    Seq<char>,
    DocumentErrorView,
> {
    match answer {
        Ok(body) => match did_doc_rejection(body) {
            None => Ok(body),
            Some(message) => Err(DocumentErrorView::FetchFailed(message)),
        },
        Err(cause) => Err(DocumentErrorView::FetchFailed(cause)),
    }
}

/// The serving host that the identity document `doc` names.
pub open spec fn serving_host_of(doc: Seq<char>) -> Result<Seq<char>, ResolveErrorView> {
    match pds_endpoint_of(doc) {
        Some(host) => Ok(host),
        None => Err(ResolveErrorView::NoHostFound),
    }
}

/// An answer from the network as mathematics: the text that came, or the
/// cause of the failure.
pub open spec fn answer_view(answer: Result<String, String>) -> Result<Seq<char>, Seq<char>> {
    match answer {
        Ok(text) => Ok(text@),
        Err(cause) => Err(cause@),
    }
}

/// Takes the resolver's answer for a handle: the DID where it gave one, the
/// failure to resolve with its cause where it gave none, and
/// `InvalidIdentifier` where what it gave is not a DID.
pub fn did_from_handle(answer: Result<String, String>) -> (r: Result<Did, ResolveError>)
    ensures
        r matches Ok(did) ==> resolved_did_of(answer_view(answer)) == Ok::<
            Seq<char>,
            ResolveErrorView,
        >(did@),
        r matches Err(e) ==> resolved_did_of(answer_view(answer)) == Err::<
            Seq<char>,
            ResolveErrorView,
        >(e@),
{
    match answer {
        Ok(text) => match Did::new(text) {
            Some(did) => Ok(did),
            None => Err(ResolveError::InvalidIdentifier),
        },
        Err(cause) => Err(ResolveError::HandleResolutionFailed(cause)),
    }
}

/// Takes the answer to the fetch of an identity document: the document where
/// a body came that reads as one, `FetchFailed` with the cause otherwise.
pub fn did_doc_from(answer: Result<String, String>) -> (r: Result<DidDocument, DocumentError>)
    ensures
        r matches Ok(doc) ==> did_doc_of(answer_view(answer)) == Ok::<
            Seq<char>,
            DocumentErrorView,
        >(doc@),
        r matches Err(e) ==> did_doc_of(answer_view(answer)) == Err::<
            Seq<char>,
            DocumentErrorView,
        >(e@),
{
    match answer {
        Ok(body) => match DidDocument::new(body) {
            Ok(doc) => Ok(doc),
            Err(message) => Err(DocumentError::FetchFailed(message)),
        },
        Err(cause) => Err(DocumentError::FetchFailed(cause)),
    }
}

/// The serving host that `doc` names, or `NoHostFound`.
pub fn pds_endpoint_from(doc: &DidDocument) -> (r: Result<String, ResolveError>)
    ensures
        r matches Ok(host) ==> serving_host_of(doc@) == Ok::<Seq<char>, ResolveErrorView>(host@),
        r matches Err(e) ==> serving_host_of(doc@) == Err::<Seq<char>, ResolveErrorView>(e@),
{
    match doc.get_pds_endpoint() {
        Some(host) => Ok(host),
        None => Err(ResolveError::NoHostFound),
    }
}

} // verus!
