//! What this library takes on trust from `atrium-api` and `serde_json`.
//!
//! The identifier grammars and the reading of DID documents are theirs. Each
//! function here makes one call into them; what the call answers is a
//! function of its argument alone and is given a name, so that the contracts
//! of the library can speak of it.
use vstd::prelude::*;
use crate::text::first_index;

verus! {

/// What `com.atproto.repo.describeRepo` answers: carried through, never
/// looked into.
#[verifier::external_type_specification]
#[verifier::external_body]
pub struct ExDescribeRepoOutput(atrium_api::com::atproto::repo::describe_repo::OutputData);

/// What `com.atproto.repo.listRecords` answers: carried through, never
/// looked into.
#[verifier::external_type_specification]
#[verifier::external_body]
pub struct ExListRecordsOutput(atrium_api::com::atproto::repo::list_records::OutputData);

/// What `com.atproto.repo.getRecord` answers: carried through, never looked
/// into.
#[verifier::external_type_specification]
#[verifier::external_body]
pub struct ExGetRecordOutput(atrium_api::com::atproto::repo::get_record::OutputData);

/// Whether `atrium_api::types::string::Did::new` accepts `s` as a DID.
pub uninterp spec fn is_did(s: Seq<char>) -> bool;

/// Whether `atrium_api::types::string::Handle::new` accepts `s` as a handle.
pub uninterp spec fn is_handle(s: Seq<char>) -> bool;

/// Whether `atrium_api::types::string::Nsid::new` accepts `s` as a namespaced
/// identifier.
pub uninterp spec fn is_nsid(s: Seq<char>) -> bool;

/// Whether `atrium_api::types::string::RecordKey::new` accepts `s` as a
/// record key.
pub uninterp spec fn is_record_key(s: Seq<char>) -> bool;

/// The message with which `serde_json::from_str` refuses to read `body` as an
/// `atrium_api::did_doc::DidDocument`, or `None` where it reads one.
pub uninterp spec fn did_doc_rejection(body: Seq<char>) -> Option<Seq<char>>;

/// What `atrium_api::did_doc::DidDocument::get_pds_endpoint` answers for the
/// document that `body` is read as.
pub uninterp spec fn pds_endpoint_of(body: Seq<char>) -> Option<Seq<char>>;

/// A colon follows somewhere after the first four characters of `s`.
pub open spec fn has_method(s: Seq<char>) -> bool {
    4 < s.len() && 4 + first_index(s.skip(4), ':') < s.len()
}

/// The part of `did` before its second colon: `did:plc` for `did:plc:abc`.
pub open spec fn method_of(did: Seq<char>) -> Seq<char> {
    did.take(4 + first_index(did.skip(4), ':'))
}

/// Calls `Did::new`. Trusted: the answer is `is_did`, and an accepted DID
/// has the shape `did:<method>:<rest>` (the pattern in `Did::new` begins
/// with `did:`, at least one lower-case letter and a colon), so a colon
/// follows its first four characters.
#[verifier::external_body]
pub(crate) fn did_syntax(s: &str) -> (ok: bool)
    ensures
        ok == is_did(s@),
        ok ==> has_method(s@),
{
    atrium_api::types::string::Did::new(s.to_string()).is_ok()
}

/// Calls `Handle::new`. Trusted: the answer is `is_handle`.
#[verifier::external_body]
pub(crate) fn handle_syntax(s: &str) -> (ok: bool)
    ensures
        ok == is_handle(s@),
{
    atrium_api::types::string::Handle::new(s.to_string()).is_ok()
}

/// Calls `Nsid::new`. Trusted: the answer is `is_nsid`.
#[verifier::external_body]
pub(crate) fn nsid_syntax(s: &str) -> (ok: bool)
    ensures
        ok == is_nsid(s@),
{
    atrium_api::types::string::Nsid::new(s.to_string()).is_ok()
}

/// Calls `RecordKey::new`. Trusted: the answer is `is_record_key`.
#[verifier::external_body]
pub(crate) fn record_key_syntax(s: &str) -> (ok: bool)
    ensures
        ok == is_record_key(s@),
{
    atrium_api::types::string::RecordKey::new(s.to_string()).is_ok()
}

/// Calls `Did::method` on a DID that `Did::new` accepts. Trusted: it returns
/// the DID up to, and without, the first colon found after its fourth
/// character. An accepted DID is ASCII, so positions in bytes and in
/// characters agree.
#[verifier::external_body]
pub(crate) fn did_method(did: &str) -> (method: String)
    requires
        is_did(did@),
    ensures
        method@ == method_of(did@),
{
    match atrium_api::types::string::Did::new(did.to_string()) {
        Ok(d) => d.method().to_string(),
        Err(_) => String::new(),
    }
}

/// Calls `serde_json::from_str` to read `body` as atrium's `DidDocument`.
/// Trusted: whether it reads one, and the message of its error where it does
/// not, are `did_doc_rejection`.
#[verifier::external_body]
pub(crate) fn did_doc_syntax(body: &str) -> (r: Result<(), String>)
    ensures
        r is Ok <==> did_doc_rejection(body@) is None,
        r matches Err(message) ==> did_doc_rejection(body@) == Some(message@),
{
    match serde_json::from_str::<atrium_api::did_doc::DidDocument>(body) {
        Ok(_) => Ok(()),
        Err(e) => Err(e.to_string()),
    }
}

/// Calls `DidDocument::get_pds_endpoint` on the document that `body` is read
/// as. Trusted: the answer is `pds_endpoint_of`.
#[verifier::external_body]
pub(crate) fn pds_endpoint_in(body: &str) -> (r: Option<String>)
    requires
        did_doc_rejection(body@) is None,
    ensures
        r is Some <==> pds_endpoint_of(body@) is Some,
        r matches Some(endpoint) ==> pds_endpoint_of(body@) == Some(endpoint@),
{
    match serde_json::from_str::<atrium_api::did_doc::DidDocument>(body) {
        Ok(doc) => doc.get_pds_endpoint(),
        Err(_) => None,
    }
}

} // verus!
