//! The identifiers of the AT Protocol, each a text that its grammar accepts.
use vstd::prelude::*;
use crate::atrium::{
    did_method, did_syntax, handle_syntax, has_method, is_did, is_handle, is_nsid,
    is_record_key, method_of, nsid_syntax, record_key_syntax,
};

verus! {

/// A decentralized identifier, such as `did:plc:abc123`.
#[derive(Debug)]
pub struct Did {
    text: String,
}

impl View for Did {
    type V = Seq<char>;

    closed spec fn view(&self) -> Seq<char> {
        self.text@
    }
}

impl Did {
    #[verifier::type_invariant]
    spec fn well_formed(self) -> bool {
        is_did(self.text@) && has_method(self.text@)
    }

    /// Takes `text` as a DID where it is one.
    pub fn new(text: String) -> (r: Option<Did>)
        ensures
            r is Some <==> is_did(text@),
            r matches Some(did) ==> did@ == text@,
    {
        if did_syntax(text.as_str()) {
            Some(Did { text })
        } else {
            None
        }
    }

    /// The DID as text.
    pub fn as_str(&self) -> (s: &str)
        ensures
            s@ == self@,
            is_did(self@),
            has_method(self@),
    {
        proof {
            use_type_invariant(self);
        }
        self.text.as_str()
    }

    /// The method of the DID with its `did:` prefix, such as `did:plc`.
    pub fn method(&self) -> (method: String)
        ensures
            method@ == method_of(self@),
    {
        proof {
            use_type_invariant(self);
        }
        did_method(self.text.as_str())
    }
}

impl Clone for Did {
    fn clone(&self) -> (r: Self)
        ensures
            r@ == self@,
    {
        proof {
            use_type_invariant(self);
        }
        Did { text: self.text.clone() }
    }
}

/// A handle: the domain-like name of a repository, such as `alice.example`.
#[derive(Debug)]
pub struct Handle {
    text: String,
}

impl View for Handle {
    type V = Seq<char>;

    closed spec fn view(&self) -> Seq<char> {
        self.text@
    }
}

impl Handle {
    #[verifier::type_invariant]
    spec fn well_formed(self) -> bool {
        is_handle(self.text@)
    }

    /// Takes `text` as a handle where it is one.
    pub fn new(text: String) -> (r: Option<Handle>)
        ensures
            r is Some <==> is_handle(text@),
            r matches Some(accepted) ==> accepted@ == text@,
    {
        if handle_syntax(text.as_str()) {
            Some(Handle { text })
        } else {
            None
        }
    }

    /// The text that was accepted.
    pub fn as_str(&self) -> (s: &str)
        ensures
            s@ == self@,
            is_handle(self@),
    {
        proof {
            use_type_invariant(self);
        }
        self.text.as_str()
    }
}

impl Clone for Handle {
    fn clone(&self) -> (r: Self)
        ensures
            r@ == self@,
    {
        proof {
            use_type_invariant(self);
        }
        Handle { text: self.text.clone() }
    }
}

/// A namespaced identifier, which names a collection: `app.bsky.feed.post`.
#[derive(Debug)]
pub struct Nsid {
    text: String,
}

impl View for Nsid {
    type V = Seq<char>;

    closed spec fn view(&self) -> Seq<char> {
        self.text@
    }
}

impl Nsid {
    #[verifier::type_invariant]
    spec fn well_formed(self) -> bool {
        is_nsid(self.text@)
    }

    /// Takes `text` as a namespaced identifier where it is one.
    pub fn new(text: String) -> (r: Option<Nsid>)
        ensures
            r is Some <==> is_nsid(text@),
            r matches Some(accepted) ==> accepted@ == text@,
    {
        if nsid_syntax(text.as_str()) {
            Some(Nsid { text })
        } else {
            None
        }
    }

    /// The text that was accepted.
    pub fn as_str(&self) -> (s: &str)
        ensures
            s@ == self@,
            is_nsid(self@),
    {
        proof {
            use_type_invariant(self);
        }
        self.text.as_str()
    }
}

impl Clone for Nsid {
    fn clone(&self) -> (r: Self)
        ensures
            r@ == self@,
    {
        proof {
            use_type_invariant(self);
        }
        Nsid { text: self.text.clone() }
    }
}

/// The key of one record within a collection.
#[derive(Debug)]
pub struct RecordKey {
    text: String,
}

impl View for RecordKey {
    type V = Seq<char>;

    closed spec fn view(&self) -> Seq<char> {
        self.text@
    }
}

impl RecordKey {
    #[verifier::type_invariant]
    spec fn well_formed(self) -> bool {
        is_record_key(self.text@)
    }

    /// Takes `text` as a record key where it is one.
    pub fn new(text: String) -> (r: Option<RecordKey>)
        ensures
            r is Some <==> is_record_key(text@),
            r matches Some(accepted) ==> accepted@ == text@,
    {
        if record_key_syntax(text.as_str()) {
            Some(RecordKey { text })
        } else {
            None
        }
    }

    /// The text that was accepted.
    pub fn as_str(&self) -> (s: &str)
        ensures
            s@ == self@,
            is_record_key(self@),
    {
        proof {
            use_type_invariant(self);
        }
        self.text.as_str()
    }
}

impl Clone for RecordKey {
    fn clone(&self) -> (r: Self)
        ensures
            r@ == self@,
    {
        proof {
            use_type_invariant(self);
        }
        RecordKey { text: self.text.clone() }
    }
}

/// Who a repository belongs to: a DID or a handle, never both.
#[derive(Debug)]
pub enum AtIdentifier {
    Did(Did),
    Handle(Handle),
}

/// An `AtIdentifier` as mathematics: which of the two it is, and its text.
pub enum AtIdentifierView {
    Did(Seq<char>),
    Handle(Seq<char>),
}

impl AtIdentifierView {
    /// The text of the identifier, whichever kind it is.
    pub open spec fn text(self) -> Seq<char> {
        match self {
            AtIdentifierView::Did(text) => text,
            AtIdentifierView::Handle(text) => text,
        }
    }
}

impl View for AtIdentifier {
    type V = AtIdentifierView;

    open spec fn view(&self) -> AtIdentifierView {
        match self {
            AtIdentifier::Did(did) => AtIdentifierView::Did(did@),
            AtIdentifier::Handle(handle) => AtIdentifierView::Handle(handle@),
        }
    }
}

/// The identifier that `s` is read as: a DID where it is one, else a handle
/// where it is one, else none.
pub open spec fn identifier_of(s: Seq<char>) -> Option<AtIdentifierView> {
    if is_did(s) {
        Some(AtIdentifierView::Did(s))
    } else if is_handle(s) {
        Some(AtIdentifierView::Handle(s))
    } else {
        None
    }
}

impl AtIdentifier {
    /// Reads `text` as a DID or, failing that, as a handle.
    pub fn new(text: String) -> (r: Option<AtIdentifier>)
        ensures
            r is Some <==> identifier_of(text@) is Some,
            r matches Some(id) ==> identifier_of(text@) == Some(id@),
    {
        if did_syntax(text.as_str()) {
            Some(AtIdentifier::Did(Did { text }))
        } else if handle_syntax(text.as_str()) {
            Some(AtIdentifier::Handle(Handle { text }))
        } else {
            None
        }
    }

    /// The text of the identifier.
    pub fn as_str(&self) -> (s: &str)
        ensures
            s@ == self@.text(),
    {
        match self {
            AtIdentifier::Did(did) => did.as_str(),
            AtIdentifier::Handle(handle) => handle.as_str(),
        }
    }
}

impl Clone for AtIdentifier {
    fn clone(&self) -> (r: Self)
        ensures
            r@ == self@,
    {
        match self {
            AtIdentifier::Did(did) => AtIdentifier::Did(did.clone()),
            AtIdentifier::Handle(handle) => AtIdentifier::Handle(handle.clone()),
        }
    }
}

} // verus!
