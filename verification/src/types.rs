//! Addresses of the form `at://authority/collection/rkey`.
use vstd::prelude::*;
use crate::atrium::{is_nsid, is_record_key};
use crate::identifier::{identifier_of, AtIdentifier, AtIdentifierView, Nsid, RecordKey};
use crate::text::{
    chars_of, lemma_split_joined, lemma_split_n, lemma_split_whole, split_first_from, split_n,
    starts_with_at, strip_prefix, texts,
};

verus! {

/// Why a text is not an address.
#[derive(Debug, Clone, Copy, PartialEq, Eq, Structural)]
pub enum AtUriError {
    /// There is no first segment.
    MissingAuthority,
    /// The first segment is neither a DID nor a handle.
    InvalidAuthority,
    /// The second segment is not a namespaced identifier.
    InvalidNsid,
    /// The third segment is not a record key.
    InvalidRecordKey,
}

/// An address: whose repository, and optionally which collection in it and
/// which record of that collection. There is a record key only where there
/// is a collection.
#[derive(Debug)]
pub struct AtUri {
    authority: AtIdentifier,
    collection: Option<Nsid>,
    rkey: Option<RecordKey>,
}

/// An `AtUri` as mathematics.
pub struct AtUriView {
    pub authority: AtIdentifierView,
    pub collection: Option<Seq<char>>,
    pub rkey: Option<Seq<char>>,
}

impl View for AtUri {
    type V = AtUriView;

    closed spec fn view(&self) -> AtUriView {
        AtUriView {
            authority: self.authority@,
            collection: match self.collection {
                Some(collection) => Some(collection@),
                None => None,
            },
            rkey: match self.rkey {
                Some(rkey) => Some(rkey@),
                None => None,
            },
        }
    }
}

impl AtUriView {
    /// The address written out: `at://`, the authority, and a slash before
    /// each of the collection and the record key that it has.
    pub open spec fn text(self) -> Seq<char> {
        "at://"@ + self.authority.text() + (match self.collection {
            Some(collection) => seq!['/'] + collection,
            None => Seq::empty(),
        }) + (match self.rkey {
            Some(rkey) => seq!['/'] + rkey,
            None => Seq::empty(),
        })
    }
}

/// What is left of `raw` once a leading `web+` and then a leading `at://`
/// are taken off, each only where it is there.
pub open spec fn address_body(raw: Seq<char>) -> Seq<char> {
    strip_prefix(strip_prefix(raw, "web+"@), "at://"@)
}

/// The segments of the address `raw`: the first three pieces of its body
/// between slashes. Further pieces are left out.
pub open spec fn address_segments(raw: Seq<char>) -> Seq<Seq<char>> {
    split_n(address_body(raw), '/', 3)
}

/// The address that a list of segments stands for, or why it stands for none.
/// Segments after the third play no part.
pub open spec fn uri_of_segments(segments: Seq<Seq<char>>) -> Result<AtUriView, AtUriError> {
    if segments.len() == 0 {
        Err(AtUriError::MissingAuthority)
    } else if identifier_of(segments[0]) is None {
        Err(AtUriError::InvalidAuthority)
    } else if segments.len() >= 2 && !is_nsid(segments[1]) {
        Err(AtUriError::InvalidNsid)
    } else if segments.len() >= 3 && !is_record_key(segments[2]) {
        Err(AtUriError::InvalidRecordKey)
    } else {
        Ok(
            AtUriView {
                authority: identifier_of(segments[0])->0,
                collection: if segments.len() >= 2 {
                    Some(segments[1])
                } else {
                    None
                },
                rkey: if segments.len() >= 3 {
                    Some(segments[2])
                } else {
                    None
                },
            },
        )
    }
}

/// The address that the text `raw` stands for, or why it stands for none.
pub open spec fn parse_uri(raw: Seq<char>) -> Result<AtUriView, AtUriError> {
    uri_of_segments(address_segments(raw))
}

/// The segments of the address `raw`, at most three, each as a string.
pub fn split_address(raw: &str) -> (segments: Vec<String>)
    ensures
        texts(segments@) == address_segments(raw@),
{
    let chars = chars_of(raw);
    let web = chars_of("web+");
    let at = chars_of("at://");
    let mut start: usize = 0;
    assert(chars@.skip(0) =~= chars@);
    if starts_with_at(&chars, 0, &web) {
        start = web.len();
    }
    let ghost unwrapped = strip_prefix(raw@, "web+"@);
    assert(unwrapped == raw@.skip(start as int));
    if starts_with_at(&chars, start, &at) {
        assert(unwrapped.skip(at@.len() as int) =~= raw@.skip(start + at@.len()));
        start = start + at.len();
    }
    split_first_from(raw, &chars, start, '/', 3)
}

/// The outcome of reading an address, as mathematics.
pub open spec fn outcome_view(r: Result<AtUri, AtUriError>) -> Result<AtUriView, AtUriError> {
    match r {
        Ok(uri) => Ok(uri@),
        Err(e) => Err(e),
    }
}

impl AtUri {
    #[verifier::type_invariant]
    spec fn well_formed(self) -> bool {
        self.rkey is Some ==> self.collection is Some
    }

    /// Reads an address from its segments: the authority, then the collection
    /// if there is a second segment, then the record key if there is a third.
    /// The first segment that its grammar refuses decides the error; segments
    /// after the third are not looked at.
    pub fn from_segments(segments: &Vec<String>) -> (r: Result<AtUri, AtUriError>)
        ensures
            outcome_view(r) == uri_of_segments(texts(segments@)),
    {
        if segments.len() == 0 {
            return Err(AtUriError::MissingAuthority);
        }
        assert(texts(segments@)[0] == segments@[0]@);
        let authority = match AtIdentifier::new(segments[0].clone()) {
            Some(authority) => authority,
            None => {
                return Err(AtUriError::InvalidAuthority);
            },
        };
        let mut collection: Option<Nsid> = None;
        if segments.len() >= 2 {
            assert(texts(segments@)[1] == segments@[1]@);
            match Nsid::new(segments[1].clone()) {
                Some(nsid) => {
                    collection = Some(nsid);
                },
                None => {
                    return Err(AtUriError::InvalidNsid);
                },
            }
        }
        let mut rkey: Option<RecordKey> = None;
        if segments.len() >= 3 {
            assert(texts(segments@)[2] == segments@[2]@);
            match RecordKey::new(segments[2].clone()) {
                Some(key) => {
                    rkey = Some(key);
                },
                None => {
                    return Err(AtUriError::InvalidRecordKey);
                },
            }
        }
        Ok(AtUri { authority, collection, rkey })
    }

    /// Reads an address from text: an optional `web+`, an optional `at://`,
    /// then up to three segments between slashes.
    pub fn from_str(s: &str) -> (r: Result<AtUri, AtUriError>)
        ensures
            outcome_view(r) == parse_uri(s@),
    {
        let segments = split_address(s);
        AtUri::from_segments(&segments)
    }

    /// The address written out, so that reading it gives the address again.
    pub fn to_string(&self) -> (text: String)
        ensures
            text@ == self@.text(),
    {
        let mut text = String::from_str("at://");
        text.append(self.authority.as_str());
        match &self.collection {
            Some(collection) => {
                proof {
                    reveal_strlit("/");
                }
                assert("/"@ =~= seq!['/']);
                text.append("/");
                text.append(collection.as_str());
            },
            None => {},
        }
        match &self.rkey {
            Some(rkey) => {
                proof {
                    reveal_strlit("/");
                }
                assert("/"@ =~= seq!['/']);
                text.append("/");
                text.append(rkey.as_str());
            },
            None => {},
        }
        assert(text@ =~= self@.text());
        text
    }

    /// Whose repository the address names.
    pub fn authority(&self) -> (authority: &AtIdentifier)
        ensures
            authority@ == self@.authority,
    {
        &self.authority
    }

    /// The collection that the address names, if it names one.
    pub fn collection(&self) -> (collection: Option<&Nsid>)
        ensures
            collection is Some <==> self@.collection is Some,
            collection matches Some(nsid) ==> self@.collection == Some(nsid@),
    {
        self.collection.as_ref()
    }

    /// The record that the address names, if it names one. There is none
    /// where there is no collection.
    pub fn rkey(&self) -> (rkey: Option<&RecordKey>)
        ensures
            rkey is Some <==> self@.rkey is Some,
            rkey matches Some(key) ==> self@.rkey == Some(key@),
            self@.rkey is Some ==> self@.collection is Some,
    {
        proof {
            use_type_invariant(self);
        }
        self.rkey.as_ref()
    }
}

impl core::str::FromStr for AtUri {
    type Err = AtUriError;

    /// As the `from_str` of `AtUri` itself, so that `str::parse` reads an
    /// address.
    fn from_str(s: &str) -> (r: Result<AtUri, AtUriError>)
        ensures
            outcome_view(r) == parse_uri(s@),
    {
        AtUri::from_str(s)
    }
}

impl Clone for AtUri {
    fn clone(&self) -> (r: Self)
        ensures
            r@ == self@,
    {
        proof {
            use_type_invariant(self);
        }
        AtUri {
            authority: self.authority.clone(),
            collection: match &self.collection {
                Some(nsid) => Some(nsid.clone()),
                None => None,
            },
            rkey: match &self.rkey {
                Some(key) => Some(key.clone()),
                None => None,
            },
        }
    }
}

/// Every text has a first segment and at most three, so reading a text never
/// fails for want of an authority.
pub proof fn lemma_text_has_segments(raw: Seq<char>)
    ensures
        1 <= address_segments(raw).len() <= 3,
        parse_uri(raw) != Err::<AtUriView, AtUriError>(AtUriError::MissingAuthority),
{
    lemma_split_n(address_body(raw), '/', 3);
}

/// An address that was read has a record key only where it has a collection.
pub proof fn lemma_record_key_needs_collection(segments: Seq<Seq<char>>)
    ensures
        uri_of_segments(segments) matches Ok(uri) ==> (uri.rkey is Some ==> uri.collection is Some),
{
}

/// Reading an address, writing it out and reading that again gives the same
/// address: the scheme is put back, and no segment that was read holds a
/// slash.
pub proof fn lemma_round_trip(raw: Seq<char>)
    ensures
        parse_uri(raw) matches Ok(uri) ==> parse_uri(uri.text()) == Ok::<AtUriView, AtUriError>(uri),
{
    if let Ok(uri) = parse_uri(raw) {
        let segments = address_segments(raw);
        lemma_split_n(address_body(raw), '/', 3);
        let first = segments[0];
        assert(uri.authority.text() == first);
        let written = uri.text();
        reveal_strlit("web+");
        reveal_strlit("at://");
        let tail = written.skip(5);
        assert(written[0] == 'a');
        assert(!"web+"@.is_prefix_of(written)) by {
            if "web+"@.is_prefix_of(written) {
                assert(written.subrange(0, 4)[0] == "web+"@[0]);
            }
        }
        assert("at://"@ =~= written.subrange(0, 5));
        assert(address_body(written) == tail);
        if segments.len() == 1 {
            assert(tail =~= first);
            lemma_split_whole(first, '/', 3);
            assert(address_segments(written) =~= segments);
        } else if segments.len() == 2 {
            let second = segments[1];
            assert(tail =~= first + seq!['/'] + second);
            lemma_split_joined(first, second, '/', 3);
            lemma_split_whole(second, '/', 2);
            assert(address_segments(written) =~= segments);
        } else {
            let second = segments[1];
            let third = segments[2];
            assert(tail =~= first + seq!['/'] + (second + seq!['/'] + third));
            lemma_split_joined(first, second + seq!['/'] + third, '/', 3);
            lemma_split_joined(second, third, '/', 2);
            lemma_split_whole(third, '/', 1);
            assert(address_segments(written) =~= segments);
        }
    }
}

} // verus!
