//! A client that takes an address as text and says what it cannot read.
use vstd::prelude::*;
use crate::types::{parse_uri, AtUri};

verus! {

/// What the client is asked for.
#[derive(Debug)]
pub enum AtprotoClientInput {
    /// What the address in this text names.
    Get(String),
}

/// What the client has for its caller.
#[derive(Debug)]
pub enum AtprotoClientOutput {
    Record(atrium_api::com::atproto::repo::get_record::OutputData),
    Repo(atrium_api::com::atproto::repo::describe_repo::OutputData),
    Error(String),
}

/// An `AtprotoClientOutput` as mathematics. What the host answered stands for
/// itself.
pub enum AtprotoClientOutputView {
    Record(atrium_api::com::atproto::repo::get_record::OutputData),
    Repo(atrium_api::com::atproto::repo::describe_repo::OutputData),
    Error(Seq<char>),
}

impl View for AtprotoClientOutput {
    type V = AtprotoClientOutputView;

    open spec fn view(&self) -> AtprotoClientOutputView {
        match self {
            AtprotoClientOutput::Record(record) => AtprotoClientOutputView::Record(*record),
            AtprotoClientOutput::Repo(repo) => AtprotoClientOutputView::Repo(*repo),
            AtprotoClientOutput::Error(message) => AtprotoClientOutputView::Error(message@),
        }
    }
}

/// The client: the host that it asks.
#[derive(Debug)]
pub struct AtprotoClient {
    endpoint: String,
}

impl View for AtprotoClient {
    type V = Seq<char>;

    closed spec fn view(&self) -> Seq<char> {
        self.endpoint@
    }
}

/// What the client answers to the text of an address: nothing where the text
/// is an address, and otherwise the text back, marked as invalid.
pub open spec fn client_answer(text: Seq<char>) -> Option<AtprotoClientOutputView> {
    if parse_uri(text) is Ok {
        None
    } else {
        Some(AtprotoClientOutputView::Error("invalid uri: "@ + text))
    }
}

/// What the client has for its caller once the host was asked to describe a
/// repository: the description, or the cause of the failure.
pub open spec fn repo_answer(
    answer: Result<atrium_api::com::atproto::repo::describe_repo::OutputData, Seq<char>>,
) -> AtprotoClientOutputView {
    match answer {
        Ok(repo) => AtprotoClientOutputView::Repo(repo),
        Err(cause) => AtprotoClientOutputView::Error(cause),
    }
}

impl AtprotoClient {
    /// A client that asks `https://public.api.bsky.app`.
    pub fn init() -> (client: AtprotoClient)
        ensures
            client@ == "https://public.api.bsky.app"@,
    {
        AtprotoClient { endpoint: String::from_str("https://public.api.bsky.app") }
    }

    /// The host that the client asks.
    pub fn endpoint(&self) -> (endpoint: &str)
        ensures
            endpoint@ == self@,
    {
        self.endpoint.as_str()
    }

    /// Takes a message. A text that is an address has no output; any other
    /// text has the error `invalid uri: ` followed by the text.
    pub fn update(&mut self, msg: AtprotoClientInput) -> (output: Option<AtprotoClientOutput>)
        ensures
            final(self)@ == old(self)@,
            match msg {
                AtprotoClientInput::Get(text) => match output {
                    Some(out) => client_answer(text@) == Some(out@),
                    None => client_answer(text@) is None,
                },
            },
    {
        match msg {
            AtprotoClientInput::Get(text) => match AtUri::from_str(text.as_str()) {
                Ok(_) => None,
                Err(_) => Some(
                    AtprotoClientOutput::Error(
                        String::from_str("invalid uri: ").concat(text.as_str()),
                    ),
                ),
            },
        }
    }

    /// Takes the host's answer to a request to describe a repository: the
    /// description is the output, or the cause of the failure is the error.
    pub fn get_repo(
        &self,
        answer: Result<atrium_api::com::atproto::repo::describe_repo::OutputData, String>,
    ) -> (output: AtprotoClientOutput)
        ensures
            output@ == repo_answer(
                match answer {
                    Ok(repo) => Ok(repo),
                    Err(cause) => Err(cause@),
                },
            ),
    {
        match answer {
            Ok(repo) => AtprotoClientOutput::Repo(repo),
            Err(cause) => AtprotoClientOutput::Error(cause),
        }
    }
}

} // verus!
