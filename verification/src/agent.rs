//! The agent: one pass from an identifier or an address to what it names.
//!
//! The agent does no work on the network itself. It says what is to be done
//! next, is told how that went, and decides from there, until it has an
//! output for the caller.
use vstd::prelude::*;
use crate::api::{
    answer_view, did_doc_from, did_doc_of, did_doc_url_for, did_doc_url_of, did_from_handle,
    pds_endpoint_from, resolved_did_of, serving_host_of, DidDocument, ResolveError,
    ResolveErrorView,
};
use crate::atrium::{did_doc_rejection, is_did, method_of, pds_endpoint_of};
use crate::identifier::{AtIdentifier, AtIdentifierView, Did, Handle, Nsid, RecordKey};
use crate::types::{AtUri, AtUriView};

verus! {

/// What the agent is asked for.
#[derive(Debug)]
pub enum AgentInput {
    /// The identity document of an identifier.
    GetDidDoc(AtIdentifier),
    /// The host that serves the repository of an identifier.
    GetPdsEndpointFor(AtIdentifier),
    /// What an address names: a record, the records of a collection, or a
    /// repository.
    GetURI(AtUri),
}

/// An `AgentInput` as mathematics.
pub enum AgentInputView {
    GetDidDoc(AtIdentifierView),
    GetPdsEndpointFor(AtIdentifierView),
    GetURI(AtUriView),
}

impl AgentInputView {
    /// The identifier that the pass starts from.
    pub open spec fn authority(self) -> AtIdentifierView {
        match self {
            AgentInputView::GetDidDoc(id) => id,
            AgentInputView::GetPdsEndpointFor(id) => id,
            AgentInputView::GetURI(uri) => uri.authority,
        }
    }
}

impl View for AgentInput {
    type V = AgentInputView;

    open spec fn view(&self) -> AgentInputView {
        match self {
            AgentInput::GetDidDoc(id) => AgentInputView::GetDidDoc(id@),
            AgentInput::GetPdsEndpointFor(id) => AgentInputView::GetPdsEndpointFor(id@),
            AgentInput::GetURI(uri) => AgentInputView::GetURI(uri@),
        }
    }
}

impl AgentInput {
    /// The identifier that the pass starts from.
    pub fn authority(&self) -> (authority: &AtIdentifier)
        ensures
            authority@ == self@.authority(),
    {
        match self {
            AgentInput::GetDidDoc(id) => id,
            AgentInput::GetPdsEndpointFor(id) => id,
            AgentInput::GetURI(uri) => uri.authority(),
        }
    }
}

/// Why the serving host did not give what it was asked for; each holds the
/// cause.
#[derive(Debug)]
pub enum RemoteError {
    RepoNotFound(String),
    RecordsNotFound(String),
    RecordNotFound(String),
}

/// A `RemoteError` as mathematics.
pub enum RemoteErrorView {
    RepoNotFound(Seq<char>),
    RecordsNotFound(Seq<char>),
    RecordNotFound(Seq<char>),
}

impl View for RemoteError {
    type V = RemoteErrorView;

    open spec fn view(&self) -> RemoteErrorView {
        match self {
            RemoteError::RepoNotFound(cause) => RemoteErrorView::RepoNotFound(cause@),
            RemoteError::RecordsNotFound(cause) => RemoteErrorView::RecordsNotFound(cause@),
            RemoteError::RecordNotFound(cause) => RemoteErrorView::RecordNotFound(cause@),
        }
    }
}

/// Why a pass failed: on the way to the serving host, or at it.
#[derive(Debug)]
pub enum AgentError {
    Resolve(ResolveError),
    Remote(RemoteError),
}

/// An `AgentError` as mathematics.
pub enum AgentErrorView {
    Resolve(ResolveErrorView),
    Remote(RemoteErrorView),
}

impl View for AgentError {
    type V = AgentErrorView;

    open spec fn view(&self) -> AgentErrorView {
        match self {
            AgentError::Resolve(e) => AgentErrorView::Resolve(e@),
            AgentError::Remote(e) => AgentErrorView::Remote(e@),
        }
    }
}

/// What a pass ends with.
#[derive(Debug)]
pub enum AgentOutput {
    DidDoc(DidDocument),
    PdsEndpoint(String),
    Repo(atrium_api::com::atproto::repo::describe_repo::OutputData),
    Records(atrium_api::com::atproto::repo::list_records::OutputData),
    Record(atrium_api::com::atproto::repo::get_record::OutputData),
    Error(AgentError),
}

/// An `AgentOutput` as mathematics. What the serving host answered stands
/// for itself.
pub enum AgentOutputView {
    DidDoc(Seq<char>),
    PdsEndpoint(Seq<char>),
    Repo(atrium_api::com::atproto::repo::describe_repo::OutputData),
    Records(atrium_api::com::atproto::repo::list_records::OutputData),
    Record(atrium_api::com::atproto::repo::get_record::OutputData),
    Error(AgentErrorView),
}

impl View for AgentOutput {
    type V = AgentOutputView;

    open spec fn view(&self) -> AgentOutputView {
        match self {
            AgentOutput::DidDoc(doc) => AgentOutputView::DidDoc(doc@),
            AgentOutput::PdsEndpoint(host) => AgentOutputView::PdsEndpoint(host@),
            AgentOutput::Repo(repo) => AgentOutputView::Repo(*repo),
            AgentOutput::Records(records) => AgentOutputView::Records(*records),
            AgentOutput::Record(record) => AgentOutputView::Record(*record),
            AgentOutput::Error(e) => AgentOutputView::Error(e@),
        }
    }
}

/// How something that the agent asked for went: what came back, or the cause
/// of the failure.
#[derive(Debug)]
pub enum AgentCommand {
    /// The resolver's answer for a handle: the text of a DID.
    HandleResolved(Result<String, String>),
    /// The body that was fetched from the address of an identity document.
    DidDocFetched(Result<String, String>),
    /// The serving host's description of a repository.
    RepoDescribed(Result<atrium_api::com::atproto::repo::describe_repo::OutputData, String>),
    /// The serving host's first page of the records of a collection.
    RecordsListed(Result<atrium_api::com::atproto::repo::list_records::OutputData, String>),
    /// The record that the serving host gave.
    RecordFetched(Result<atrium_api::com::atproto::repo::get_record::OutputData, String>),
}

/// An `AgentCommand` as mathematics.
pub enum AgentCommandView {
    HandleResolved(Result<Seq<char>, Seq<char>>),
    DidDocFetched(Result<Seq<char>, Seq<char>>),
    RepoDescribed(Result<atrium_api::com::atproto::repo::describe_repo::OutputData, Seq<char>>),
    RecordsListed(Result<atrium_api::com::atproto::repo::list_records::OutputData, Seq<char>>),
    RecordFetched(Result<atrium_api::com::atproto::repo::get_record::OutputData, Seq<char>>),
}

/// What the serving host answered, as mathematics: the answer itself, or the
/// cause of the failure.
pub open spec fn remote_view<T>(answer: Result<T, String>) -> Result<T, Seq<char>> {
    match answer {
        Ok(data) => Ok(data),
        Err(cause) => Err(cause@),
    }
}

impl View for AgentCommand {
    type V = AgentCommandView;

    open spec fn view(&self) -> AgentCommandView {
        match self {
            AgentCommand::HandleResolved(answer) => AgentCommandView::HandleResolved(
                answer_view(*answer),
            ),
            AgentCommand::DidDocFetched(answer) => AgentCommandView::DidDocFetched(
                answer_view(*answer),
            ),
            AgentCommand::RepoDescribed(answer) => AgentCommandView::RepoDescribed(
                remote_view(*answer),
            ),
            AgentCommand::RecordsListed(answer) => AgentCommandView::RecordsListed(
                remote_view(*answer),
            ),
            AgentCommand::RecordFetched(answer) => AgentCommandView::RecordFetched(
                remote_view(*answer),
            ),
        }
    }
}

/// What is to be done next for the pass. All but `Output` are work on the
/// network, whose outcome comes back as an `AgentCommand`; the three reads
/// go to the agent's endpoint. `Output` ends the pass.
#[derive(Debug)]
pub enum AgentAction {
    /// Resolve the handle to a DID.
    ResolveHandle(Handle),
    /// Fetch the body at this address.
    FetchDidDoc(String),
    /// Ask the serving host to describe the repository.
    DescribeRepo { repo: Did },
    /// Ask the serving host for the first page of the collection's records.
    ListRecords { repo: Did, collection: Nsid },
    /// Ask the serving host for the record.
    GetRecord { repo: Did, collection: Nsid, rkey: RecordKey },
    /// Hand this to the caller.
    Output(AgentOutput),
}

/// An `AgentAction` as mathematics.
pub enum AgentActionView {
    ResolveHandle(Seq<char>),
    FetchDidDoc(Seq<char>),
    DescribeRepo { repo: Seq<char> },
    ListRecords { repo: Seq<char>, collection: Seq<char> },
    GetRecord { repo: Seq<char>, collection: Seq<char>, rkey: Seq<char> },
    Output(AgentOutputView),
}

impl View for AgentAction {
    type V = AgentActionView;

    open spec fn view(&self) -> AgentActionView {
        match self {
            AgentAction::ResolveHandle(handle) => AgentActionView::ResolveHandle(handle@),
            AgentAction::FetchDidDoc(url) => AgentActionView::FetchDidDoc(url@),
            AgentAction::DescribeRepo { repo } => AgentActionView::DescribeRepo { repo: repo@ },
            AgentAction::ListRecords { repo, collection } => AgentActionView::ListRecords {
                repo: repo@,
                collection: collection@,
            },
            AgentAction::GetRecord { repo, collection, rkey } => AgentActionView::GetRecord {
                repo: repo@,
                collection: collection@,
                rkey: rkey@,
            },
            AgentAction::Output(output) => AgentActionView::Output(output@),
        }
    }
}

impl AgentActionView {
    /// Whether the action is to hand an error to the caller.
    pub open spec fn is_failure(self) -> bool {
        self matches AgentActionView::Output(AgentOutputView::Error(_))
    }

    /// Whether the action is one of the three reads at the serving host.
    pub open spec fn is_read(self) -> bool {
        self is DescribeRepo || self is ListRecords || self is GetRecord
    }
}

/// Which of the three reads a pass is waiting for.
#[derive(Debug, Clone, Copy, PartialEq, Eq, Structural)]
pub enum ReadCall {
    DescribeRepo,
    ListRecords,
    GetRecord,
}

/// Where a pass stands.
#[derive(Debug)]
pub enum Stage {
    /// No pass was begun yet.
    Idle,
    /// The handle of `input` is being resolved.
    Resolving { input: AgentInput },
    /// The identity document of `did` is being fetched.
    Fetching { input: AgentInput, did: Did },
    /// The serving host was asked.
    Dispatching { call: ReadCall },
    /// The pass ended with what was asked for.
    Delivered,
    /// The pass ended with an error.
    Failed,
}

/// A `Stage` as mathematics.
pub enum StageView {
    Idle,
    Resolving { input: AgentInputView },
    Fetching { input: AgentInputView, did: Seq<char> },
    Dispatching { call: ReadCall },
    Delivered,
    Failed,
}

impl View for Stage {
    type V = StageView;

    open spec fn view(&self) -> StageView {
        match self {
            Stage::Idle => StageView::Idle,
            Stage::Resolving { input } => StageView::Resolving { input: input@ },
            Stage::Fetching { input, did } => StageView::Fetching { input: input@, did: did@ },
            Stage::Dispatching { call } => StageView::Dispatching { call: *call },
            Stage::Delivered => StageView::Delivered,
            Stage::Failed => StageView::Failed,
        }
    }
}

/// The agent: the host that its reads go to, and where its pass stands.
#[derive(Debug)]
pub struct AtprotoAgent {
    endpoint: String,
    stage: Stage,
}

/// An `AtprotoAgent` as mathematics.
pub struct AtprotoAgentView {
    pub endpoint: Seq<char>,
    pub stage: StageView,
}

impl View for AtprotoAgent {
    type V = AtprotoAgentView;

    closed spec fn view(&self) -> AtprotoAgentView {
        AtprotoAgentView { endpoint: self.endpoint@, stage: self.stage@ }
    }
}

impl AtprotoAgentView {
    /// The agent at the end of a pass that failed with `error`.
    pub open spec fn fail(self, error: AgentErrorView) -> (AtprotoAgentView, AgentActionView) {
        (
            AtprotoAgentView { endpoint: self.endpoint, stage: StageView::Failed },
            AgentActionView::Output(AgentOutputView::Error(error)),
        )
    }

    /// The agent at the end of a pass that has `output` for the caller.
    pub open spec fn deliver(self, output: AgentOutputView) -> (
        AtprotoAgentView,
        AgentActionView,
    ) {
        (
            AtprotoAgentView { endpoint: self.endpoint, stage: StageView::Delivered },
            AgentActionView::Output(output),
        )
    }

    /// The pass for `input` once its DID is known: the identity document is
    /// asked for, unless the method of the DID is not one that is looked up.
    pub open spec fn with_did(self, input: AgentInputView, did: Seq<char>) -> (
        AtprotoAgentView,
        AgentActionView,
    ) {
        match did_doc_url_of(did) {
            Ok(url) => (
                AtprotoAgentView {
                    endpoint: self.endpoint,
                    stage: StageView::Fetching { input, did },
                },
                AgentActionView::FetchDidDoc(url),
            ),
            Err(e) => self.fail(AgentErrorView::Resolve(e.as_resolve_error())),
        }
    }

    /// The read that the address `uri` asks for in the repository `did`,
    /// with the agent pointed at `host`: the record where the address has a
    /// collection and a record key, the records where it has a collection
    /// only, the repository where it has no collection.
    pub open spec fn dispatch(self, host: Seq<char>, did: Seq<char>, uri: AtUriView) -> (
        AtprotoAgentView,
        AgentActionView,
    ) {
        match (uri.collection, uri.rkey) {
            (Some(collection), Some(rkey)) => (
                AtprotoAgentView {
                    endpoint: host,
                    stage: StageView::Dispatching { call: ReadCall::GetRecord },
                },
                AgentActionView::GetRecord { repo: did, collection, rkey },
            ),
            (Some(collection), None) => (
                AtprotoAgentView {
                    endpoint: host,
                    stage: StageView::Dispatching { call: ReadCall::ListRecords },
                },
                AgentActionView::ListRecords { repo: did, collection },
            ),
            (None, _) => (
                AtprotoAgentView {
                    endpoint: host,
                    stage: StageView::Dispatching { call: ReadCall::DescribeRepo },
                },
                AgentActionView::DescribeRepo { repo: did },
            ),
        }
    }

    /// The pass for `input` once it is known which serving host the identity
    /// document of `did` names, or that it names none: an address goes on to
    /// its read there, an identifier has the host as its output, and the pass
    /// fails where there is no host.
    pub open spec fn with_host(
        self,
        input: AgentInputView,
        did: Seq<char>,
        host: Result<Seq<char>, ResolveErrorView>,
    ) -> (AtprotoAgentView, AgentActionView) {
        match host {
            Ok(host) => match input {
                AgentInputView::GetURI(uri) => self.dispatch(host, did, uri),
                _ => self.deliver(AgentOutputView::PdsEndpoint(host)),
            },
            Err(e) => self.fail(AgentErrorView::Resolve(e)),
        }
    }

    /// The pass for `input` once the identity document `doc` of `did` is
    /// there: the document itself is the output where it was asked for;
    /// otherwise the pass goes on with the serving host that it names.
    pub open spec fn with_document(self, input: AgentInputView, did: Seq<char>, doc: Seq<char>) -> (
        AtprotoAgentView,
        AgentActionView,
    ) {
        match input {
            AgentInputView::GetDidDoc(_) => self.deliver(AgentOutputView::DidDoc(doc)),
            _ => self.with_host(input, did, serving_host_of(doc)),
        }
    }

    /// A new pass for `input`, wherever the agent stood: a DID goes on to its
    /// identity document at once, a handle is resolved first.
    pub open spec fn begin(self, input: AgentInputView) -> (AtprotoAgentView, AgentActionView) {
        match input.authority() {
            AtIdentifierView::Did(did) => self.with_did(input, did),
            AtIdentifierView::Handle(handle) => (
                AtprotoAgentView { endpoint: self.endpoint, stage: StageView::Resolving { input } },
                AgentActionView::ResolveHandle(handle),
            ),
        }
    }

    /// The pass after `command`, or none where `command` is not the outcome
    /// of what the agent last asked for.
    pub open spec fn step(self, command: AgentCommandView) -> Option<
        (AtprotoAgentView, AgentActionView),
    > {
        match (self.stage, command) {
            (StageView::Resolving { input }, AgentCommandView::HandleResolved(answer)) => Some(
                match resolved_did_of(answer) {
                    Ok(did) => self.with_did(input, did),
                    Err(e) => self.fail(AgentErrorView::Resolve(e)),
                },
            ),
            (StageView::Fetching { input, did }, AgentCommandView::DidDocFetched(answer)) => Some(
                match did_doc_of(answer) {
                    Ok(doc) => self.with_document(input, did, doc),
                    Err(e) => self.fail(AgentErrorView::Resolve(e.as_resolve_error())),
                },
            ),
            (
                StageView::Dispatching { call: ReadCall::DescribeRepo },
                AgentCommandView::RepoDescribed(answer),
            ) => Some(
                match answer {
                    Ok(repo) => self.deliver(AgentOutputView::Repo(repo)),
                    Err(cause) => self.fail(
                        AgentErrorView::Remote(RemoteErrorView::RepoNotFound(cause)),
                    ),
                },
            ),
            (
                StageView::Dispatching { call: ReadCall::ListRecords },
                AgentCommandView::RecordsListed(answer),
            ) => Some(
                match answer {
                    Ok(records) => self.deliver(AgentOutputView::Records(records)),
                    Err(cause) => self.fail(
                        AgentErrorView::Remote(RemoteErrorView::RecordsNotFound(cause)),
                    ),
                },
            ),
            (
                StageView::Dispatching { call: ReadCall::GetRecord },
                AgentCommandView::RecordFetched(answer),
            ) => Some(
                match answer {
                    Ok(record) => self.deliver(AgentOutputView::Record(record)),
                    Err(cause) => self.fail(
                        AgentErrorView::Remote(RemoteErrorView::RecordNotFound(cause)),
                    ),
                },
            ),
            _ => None,
        }
    }
}

impl AtprotoAgent {
    /// An agent that has begun no pass, pointed at `https://bsky.social`.
    pub fn init() -> (agent: AtprotoAgent)
        ensures
            agent@ == (AtprotoAgentView { endpoint: "https://bsky.social"@, stage: StageView::Idle }),
    {
        AtprotoAgent { endpoint: String::from_str("https://bsky.social"), stage: Stage::Idle }
    }

    /// The host that the agent's reads go to.
    pub fn endpoint(&self) -> (endpoint: &str)
        ensures
            endpoint@ == self@.endpoint,
    {
        self.endpoint.as_str()
    }

    /// Where the agent's pass stands.
    pub fn stage(&self) -> (stage: &Stage)
        ensures
            stage@ == self@.stage,
    {
        &self.stage
    }

    /// Points the agent at `endpoint`. Nothing of an earlier endpoint is
    /// kept, and the pass stands where it stood.
    pub fn configure_endpoint(&mut self, endpoint: String)
        ensures
            final(self)@ == (AtprotoAgentView {
                endpoint: endpoint@,
                stage: old(self)@.stage,
            }),
    {
        self.endpoint = endpoint;
    }

    /// Ends the pass with `error`.
    pub fn fail(&mut self, error: AgentError) -> (action: AgentAction)
        ensures
            (final(self)@, action@) == old(self)@.fail(error@),
    {
        self.stage = Stage::Failed;
        AgentAction::Output(AgentOutput::Error(error))
    }

    /// Ends the pass with `output`.
    pub fn deliver(&mut self, output: AgentOutput) -> (action: AgentAction)
        ensures
            (final(self)@, action@) == old(self)@.deliver(output@),
    {
        self.stage = Stage::Delivered;
        AgentAction::Output(output)
    }

    /// Goes on with the pass for `input` now that its DID is known.
    pub fn with_did(&mut self, input: AgentInput, did: Did) -> (action: AgentAction)
        ensures
            (final(self)@, action@) == old(self)@.with_did(input@, did@),
    {
        match did_doc_url_for(&did) {
            Ok(url) => {
                self.stage = Stage::Fetching { input, did };
                AgentAction::FetchDidDoc(url)
            },
            Err(e) => self.fail(AgentError::Resolve(e.into_resolve_error())),
        }
    }

    /// Points the agent at `host` and asks there for what `uri` names in the
    /// repository `did`.
    pub fn dispatch(&mut self, host: String, did: Did, uri: &AtUri) -> (action: AgentAction)
        ensures
            (final(self)@, action@) == old(self)@.dispatch(host@, did@, uri@),
    {
        self.configure_endpoint(host);
        match (uri.collection(), uri.rkey()) {
            (Some(collection), Some(rkey)) => {
                self.stage = Stage::Dispatching { call: ReadCall::GetRecord };
                AgentAction::GetRecord {
                    repo: did,
                    collection: collection.clone(),
                    rkey: rkey.clone(),
                }
            },
            (Some(collection), None) => {
                self.stage = Stage::Dispatching { call: ReadCall::ListRecords };
                AgentAction::ListRecords { repo: did, collection: collection.clone() }
            },
            (None, _) => {
                self.stage = Stage::Dispatching { call: ReadCall::DescribeRepo };
                AgentAction::DescribeRepo { repo: did }
            },
        }
    }

    /// Goes on with the pass for `input` now that it is known which serving
    /// host the identity document of `did` names, or why there is none.
    pub fn with_host(&mut self, input: AgentInput, did: Did, host: Result<String, ResolveError>) -> (action:
        AgentAction)
        ensures
            (final(self)@, action@) == old(self)@.with_host(
                input@,
                did@,
                match host {
                    Ok(h) => Ok(h@),
                    Err(e) => Err(e@),
                },
            ),
    {
        match host {
            Ok(host) => match input {
                AgentInput::GetURI(uri) => self.dispatch(host, did, &uri),
                _ => self.deliver(AgentOutput::PdsEndpoint(host)),
            },
            Err(e) => self.fail(AgentError::Resolve(e)),
        }
    }

    /// Goes on with the pass for `input` now that the identity document of
    /// `did` is there.
    pub fn with_document(&mut self, input: AgentInput, did: Did, doc: DidDocument) -> (action:
        AgentAction)
        ensures
            (final(self)@, action@) == old(self)@.with_document(input@, did@, doc@),
    {
        match input {
            AgentInput::GetDidDoc(_) => self.deliver(AgentOutput::DidDoc(doc)),
            _ => {
                let host = pds_endpoint_from(&doc);
                self.with_host(input, did, host)
            },
        }
    }

    /// Begins a pass for `message`, wherever the agent stood, and says what
    /// is to be done first. A DID is never resolved: the pass goes on to its
    /// identity document at once.
    pub fn update(&mut self, message: AgentInput) -> (action: AgentAction)
        ensures
            (final(self)@, action@) == old(self)@.begin(message@),
    {
        match message.authority() {
            AtIdentifier::Did(did) => {
                let did = did.clone();
                self.with_did(message, did)
            },
            AtIdentifier::Handle(handle) => {
                let handle = handle.clone();
                self.stage = Stage::Resolving { input: message };
                AgentAction::ResolveHandle(handle)
            },
        }
    }

    /// Whether `command` is the outcome of what the agent last asked for.
    pub fn expects(&self, command: &AgentCommand) -> (expected: bool)
        ensures
            expected == self@.step(command@) is Some,
    {
        match (&self.stage, command) {
            (Stage::Resolving { .. }, AgentCommand::HandleResolved(_)) => true,
            (Stage::Fetching { .. }, AgentCommand::DidDocFetched(_)) => true,
            (Stage::Dispatching { call: ReadCall::DescribeRepo }, AgentCommand::RepoDescribed(_)) => true,
            (Stage::Dispatching { call: ReadCall::ListRecords }, AgentCommand::RecordsListed(_)) => true,
            (Stage::Dispatching { call: ReadCall::GetRecord }, AgentCommand::RecordFetched(_)) => true,
            _ => false,
        }
    }

    /// Goes on with the pass now that `command` says how the last action
    /// went, and says what is to be done next. A command that is not the
    /// outcome of the last action changes nothing and has no action.
    pub fn update_cmd(&mut self, command: AgentCommand) -> (action: Option<AgentAction>)
        ensures
            match old(self)@.step(command@) {
                Some((agent, next)) => action matches Some(a) && a@ == next && final(self)@
                    == agent,
                None => action is None && final(self)@ == old(self)@,
            },
    {
        let mut stage = Stage::Idle;
        core::mem::swap(&mut self.stage, &mut stage);
        match (stage, command) {
            (Stage::Resolving { input }, AgentCommand::HandleResolved(answer)) => {
                match did_from_handle(answer) {
                    Ok(did) => Some(self.with_did(input, did)),
                    Err(e) => Some(self.fail(AgentError::Resolve(e))),
                }
            },
            (Stage::Fetching { input, did }, AgentCommand::DidDocFetched(answer)) => {
                match did_doc_from(answer) {
                    Ok(doc) => Some(self.with_document(input, did, doc)),
                    Err(e) => Some(self.fail(AgentError::Resolve(e.into_resolve_error()))),
                }
            },
            (
                Stage::Dispatching { call: ReadCall::DescribeRepo },
                AgentCommand::RepoDescribed(answer),
            ) => match answer {
                Ok(repo) => Some(self.deliver(AgentOutput::Repo(repo))),
                Err(cause) => Some(
                    self.fail(AgentError::Remote(RemoteError::RepoNotFound(cause))),
                ),
            },
            (
                Stage::Dispatching { call: ReadCall::ListRecords },
                AgentCommand::RecordsListed(answer),
            ) => match answer {
                Ok(records) => Some(self.deliver(AgentOutput::Records(records))),
                Err(cause) => Some(
                    self.fail(AgentError::Remote(RemoteError::RecordsNotFound(cause))),
                ),
            },
            (
                Stage::Dispatching { call: ReadCall::GetRecord },
                AgentCommand::RecordFetched(answer),
            ) => match answer {
                Ok(record) => Some(self.deliver(AgentOutput::Record(record))),
                Err(cause) => Some(
                    self.fail(AgentError::Remote(RemoteError::RecordNotFound(cause))),
                ),
            },
            (stage, _) => {
                self.stage = stage;
                None
            },
        }
    }
}

/// An input whose identifier is a DID is never resolved: the pass begins
/// with that DID as it is, so its first action is to fetch the identity
/// document or to report that the method is not looked up.
pub proof fn lemma_did_is_not_resolved(agent: AtprotoAgentView, input: AgentInputView)
    requires
        input.authority() is Did,
    ensures
        agent.begin(input) == agent.with_did(input, input.authority().text()),
        !(agent.begin(input).1 is ResolveHandle),
        agent.begin(input).0.stage matches StageView::Fetching { did, .. } ==> did
            == input.authority().text(),
{
}

/// A DID of a method other than `did:plc` and `did:web` ends the pass at
/// once with `UnsupportedDidMethod` and the method: nothing is fetched.
pub proof fn lemma_unsupported_method_fetches_nothing(
    agent: AtprotoAgentView,
    input: AgentInputView,
    did: Seq<char>,
)
    requires
        method_of(did) != "did:plc"@,
        method_of(did) != "did:web"@,
    ensures
        agent.with_did(input, did) == agent.fail(
            AgentErrorView::Resolve(ResolveErrorView::UnsupportedDidMethod(method_of(did))),
        ),
{
}

/// A pass for an address with a handle and a collection but no record key
/// makes exactly these actions, in this order: the handle is resolved, the
/// identity document is fetched, the records are listed at the host that the
/// document names, with the agent pointed at that host from the moment the
/// read is asked for, and the records are the output. Neither of the other
/// two reads is made.
pub proof fn lemma_collection_is_listed(
    agent: AtprotoAgentView,
    uri: AtUriView,
    did: Seq<char>,
    body: Seq<char>,
    records: atrium_api::com::atproto::repo::list_records::OutputData,
)
    requires
        uri.authority is Handle,
        uri.collection is Some,
        uri.rkey is None,
    ensures
        is_did(did) && did_doc_url_of(did) is Ok && did_doc_rejection(body) is None
            && pds_endpoint_of(body) is Some ==> {
            let input = AgentInputView::GetURI(uri);
            let host = pds_endpoint_of(body)->0;
            let (resolving, first) = agent.begin(input);
            let (fetching, second) = resolving.step(
                AgentCommandView::HandleResolved(Ok(did)),
            )->0;
            let (dispatching, third) = fetching.step(AgentCommandView::DidDocFetched(Ok(body)))->0;
            let (delivered, last) = dispatching.step(
                AgentCommandView::RecordsListed(Ok(records)),
            )->0;
            &&& first == AgentActionView::ResolveHandle(uri.authority.text())
            &&& second == AgentActionView::FetchDidDoc(did_doc_url_of(did)->Ok_0)
            &&& third == (AgentActionView::ListRecords { repo: did, collection: uri.collection->0 })
            &&& dispatching.endpoint == host
            &&& last == AgentActionView::Output(AgentOutputView::Records(records))
            &&& delivered.stage is Delivered
            &&& delivered.endpoint == host
        },
{
}

/// Where the identity document that was fetched names no serving host, a
/// pass that needs one fails with `NoHostFound`, and no read is made: the
/// pass is over.
pub proof fn lemma_no_host_reads_nothing(
    agent: AtprotoAgentView,
    input: AgentInputView,
    did: Seq<char>,
    body: Seq<char>,
)
    requires
        agent.stage == (StageView::Fetching { input, did }),
        !(input is GetDidDoc),
    ensures
        did_doc_rejection(body) is None && pds_endpoint_of(body) is None ==> agent.step(
            AgentCommandView::DidDocFetched(Ok(body)),
        ) == Some(agent.fail(AgentErrorView::Resolve(ResolveErrorView::NoHostFound))),
        agent.fail(AgentErrorView::Resolve(ResolveErrorView::NoHostFound)).0.stage is Failed,
{
}

/// At most one read is made in a pass, and only once the serving host is
/// known: a read is only ever asked for in answer to the identity document,
/// and it is the one that the address calls for.
pub proof fn lemma_read_follows_document(agent: AtprotoAgentView, command: AgentCommandView)
    requires
        agent.step(command) is Some,
        ({
            let (next, action) = agent.step(command)->0;
            action.is_read()
        }),
    ensures
        command is DidDocFetched,
        agent.stage is Fetching,
        agent.stage->Fetching_input is GetURI,
        ({
            let (next, action) = agent.step(command)->0;
            let uri = agent.stage->Fetching_input->GetURI_0;
            let did = agent.stage->Fetching_did;
            &&& command->DidDocFetched_0 is Ok
            &&& pds_endpoint_of(command->DidDocFetched_0->Ok_0) == Some(next.endpoint)
            &&& (next, action) == agent.dispatch(next.endpoint, did, uri)
            &&& action is GetRecord <==> uri.collection is Some && uri.rkey is Some
            &&& action is ListRecords <==> uri.collection is Some && uri.rkey is None
            &&& action is DescribeRepo <==> uri.collection is None
        }),
{
}

/// A pass never begins with a read: its first action is to resolve the
/// handle, to fetch the identity document, or to report a DID whose method
/// is not looked up.
pub proof fn lemma_begin_reads_nothing(agent: AtprotoAgentView, input: AgentInputView)
    ensures
        !agent.begin(input).1.is_read(),
        agent.begin(input).1 is ResolveHandle || agent.begin(input).1 is FetchDidDoc
            || agent.begin(input).1.is_failure(),
        agent.begin(input).0.endpoint == agent.endpoint,
{
}

/// Once a read was asked for, its outcome ends the pass: no second read
/// follows, and the agent stays pointed at the host that was asked.
pub proof fn lemma_read_is_answered_once(agent: AtprotoAgentView, command: AgentCommandView)
    requires
        agent.stage is Dispatching,
    ensures
        agent.step(command) matches Some((next, action)) ==> action is Output && next.endpoint
            == agent.endpoint,
{
}

/// A pass ends with its output, and with nothing else: the stage is
/// `Delivered` or `Failed` exactly when the action is an output, `Failed`
/// exactly when the output is an error, and from there no command is taken
/// until a new pass begins.
pub proof fn lemma_output_ends_pass(agent: AtprotoAgentView, command: AgentCommandView)
    ensures
        agent.stage is Idle || agent.stage is Delivered || agent.stage is Failed ==> agent.step(
            command,
        ) is None,
        agent.step(command) matches Some((next, action)) ==> {
            &&& action is Output <==> next.stage is Delivered || next.stage is Failed
            &&& next.stage is Failed <==> action.is_failure()
            &&& !(next.stage is Idle)
        },
{
}

} // verus!
