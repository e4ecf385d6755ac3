//! Texts as sequences of characters: finding a character, taking off a
//! prefix, and cutting a text into the pieces between a separator.
use vstd::prelude::*;

verus! {

/// Position of the first `c` in `s`, or `s.len()` where `s` holds none.
pub open spec fn first_index(s: Seq<char>, c: char) -> int
    decreases s.len(),
{
    if s.len() == 0 || s[0] == c {
        0
    } else {
        1 + first_index(s.skip(1), c)
    }
}

/// `first_index` stays within `s`, points at a `c` when it is inside `s`,
/// and nothing before it is a `c`.
pub proof fn lemma_first_index(s: Seq<char>, c: char)
    ensures
        0 <= first_index(s, c) <= s.len(),
        first_index(s, c) < s.len() ==> s[first_index(s, c)] == c,
        forall|i: int| 0 <= i < first_index(s, c) ==> s[i] != c,
    decreases s.len(),
{
    if s.len() == 0 || s[0] == c {
    } else {
        let t = s.skip(1);
        lemma_first_index(t, c);
        assert forall|i: int| 0 <= i < first_index(s, c) implies s[i] != c by {
            if i > 0 {
                assert(t[i - 1] == s[i]);
            }
        }
    }
}

/// A position with no `c` before it, and a `c` at it unless it is the end of
/// `s`, is `first_index(s, c)`.
pub proof fn lemma_first_index_is(s: Seq<char>, c: char, k: int)
    requires
        0 <= k <= s.len(),
        forall|i: int| 0 <= i < k ==> s[i] != c,
        k < s.len() ==> s[k] == c,
    ensures
        first_index(s, c) == k,
{
    lemma_first_index(s, c);
    let f = first_index(s, c);
    if f < k {
        assert(s[f] == c);
    } else if k < f {
        assert(s[k] == c);
    }
}

/// The characters of `s`, in order.
pub fn chars_of(s: &str) -> (chars: Vec<char>)
    ensures
        chars@ == s@,
{
    let mut chars: Vec<char> = Vec::new();
    for c in it: s.chars()
        invariant
            it.seq() == s@,
            chars@ == it.seq().take(it.index() as int),
    {
        chars.push(c);
    }
    chars
}

/// Position of the first `c` at or after `from` in `chars`, or the length of
/// `chars` where none follows.
pub fn find_from(chars: &Vec<char>, from: usize, c: char) -> (at: usize)
    requires
        from <= chars.len(),
    ensures
        from <= at <= chars.len(),
        at == from + first_index(chars@.skip(from as int), c),
{
    let mut at: usize = from;
    while at < chars.len() && chars[at] != c
        invariant
            from <= at <= chars.len(),
            forall|i: int| from <= i < at ==> chars@[i] != c,
        decreases chars.len() - at,
    {
        at = at + 1;
    }
    proof {
        lemma_first_index_is(chars@.skip(from as int), c, at - from);
    }
    at
}

/// `s` without the leading `prefix`, or `s` itself where it does not begin
/// with `prefix`.
pub open spec fn strip_prefix(s: Seq<char>, prefix: Seq<char>) -> Seq<char> {
    if prefix.is_prefix_of(s) {
        s.skip(prefix.len() as int)
    } else {
        s
    }
}

/// Whether `chars` continues with `prefix` from position `from` on.
pub fn starts_with_at(chars: &Vec<char>, from: usize, prefix: &Vec<char>) -> (found: bool)
    requires
        from <= chars.len(),
    ensures
        found == prefix@.is_prefix_of(chars@.skip(from as int)),
{
    if prefix.len() > chars.len() - from {
        return false;
    }
    let ghost rest = chars@.skip(from as int);
    let mut i: usize = 0;
    while i < prefix.len()
        invariant
            from <= chars.len(),
            prefix.len() <= chars.len() - from,
            i <= prefix.len(),
            rest == chars@.skip(from as int),
            forall|j: int| 0 <= j < i ==> prefix@[j] == rest[j],
        decreases prefix.len() - i,
    {
        if prefix[i] != chars[from + i] {
            assert(rest.subrange(0, prefix@.len() as int)[i as int] == rest[i as int]);
            return false;
        }
        i = i + 1;
    }
    assert(prefix@ =~= rest.subrange(0, prefix@.len() as int));
    true
}

/// The first `n` pieces of `s` between occurrences of `sep`. There is always a
/// first piece, empty where `s` is empty or begins with `sep`; what follows
/// the `n`-th piece is left out.
pub open spec fn split_n(s: Seq<char>, sep: char, n: nat) -> Seq<Seq<char>>
    decreases n,
{
    if n == 0 {
        Seq::empty()
    } else {
        let k = first_index(s, sep);
        if k >= s.len() {
            seq![s]
        } else {
            seq![s.take(k)] + split_n(s.skip(k + 1), sep, (n - 1) as nat)
        }
    }
}

/// `split_n` gives between one and `n` pieces, none of which holds `sep`.
pub proof fn lemma_split_n(s: Seq<char>, sep: char, n: nat)
    requires
        n > 0,
    ensures
        1 <= split_n(s, sep, n).len() <= n,
        forall|i: int| 0 <= i < split_n(s, sep, n).len() ==> !(#[trigger] split_n(s, sep, n)[i]).contains(sep),
    decreases n,
{
    lemma_first_index(s, sep);
    let k = first_index(s, sep);
    if k >= s.len() {
    } else {
        let rest = split_n(s.skip(k + 1), sep, (n - 1) as nat);
        if n > 1 {
            lemma_split_n(s.skip(k + 1), sep, (n - 1) as nat);
        }
        assert forall|i: int| 0 <= i < split_n(s, sep, n).len() implies !(#[trigger] split_n(
            s,
            sep,
            n,
        )[i]).contains(sep) by {
            if i > 0 {
                assert(split_n(s, sep, n)[i] == rest[i - 1]);
            }
        }
    }
}

/// A text without `sep` is its own single piece.
pub proof fn lemma_split_whole(piece: Seq<char>, sep: char, n: nat)
    requires
        n > 0,
        !piece.contains(sep),
    ensures
        split_n(piece, sep, n) == seq![piece],
{
    lemma_first_index(piece, sep);
    if first_index(piece, sep) < piece.len() {
        assert(piece.contains(piece[first_index(piece, sep)]));
    }
}

/// Where `piece` holds no `sep`, the pieces of `piece`, `sep`, `rest` are
/// `piece` and then the pieces of `rest`.
pub proof fn lemma_split_joined(piece: Seq<char>, rest: Seq<char>, sep: char, n: nat)
    requires
        n > 0,
        !piece.contains(sep),
    ensures
        split_n(piece + seq![sep] + rest, sep, n) == seq![piece] + split_n(
            rest,
            sep,
            (n - 1) as nat,
        ),
{
    let joined = piece + seq![sep] + rest;
    assert forall|i: int| 0 <= i < piece.len() implies joined[i] != sep by {
        assert(piece.contains(piece[i]));
    }
    lemma_first_index_is(joined, sep, piece.len() as int);
    assert(joined.take(piece.len() as int) =~= piece);
    assert(joined.skip(piece.len() as int + 1) =~= rest);
}

/// The texts of a list of strings.
pub open spec fn texts(strings: Seq<String>) -> Seq<Seq<char>> {
    Seq::new(strings.len(), |i: int| strings[i]@)
}

/// The first `n` pieces, between occurrences of `sep`, of what follows the
/// first `from` characters of `s`, each as a string of its own. `chars` are
/// the characters of `s`.
pub(crate) fn split_first_from(
    s: &str,
    chars: &Vec<char>,
    from: usize,
    sep: char,
    n: usize,
) -> (pieces: Vec<String>)
    requires
        chars@ == s@,
        from <= chars.len(),
    ensures
        texts(pieces@) == split_n(s@.skip(from as int), sep, n as nat),
{
    let mut pieces: Vec<String> = Vec::new();
    let mut start: usize = from;
    let mut more: bool = true;
    while more && pieces.len() < n
        invariant
            chars@ == s@,
            from <= start <= chars.len(),
            pieces.len() <= n,
            split_n(s@.skip(from as int), sep, n as nat) == texts(pieces@) + (if more {
                split_n(s@.skip(start as int), sep, (n - pieces.len()) as nat)
            } else {
                Seq::empty()
            }),
        decreases n - pieces.len(),
    {
        let end = find_from(chars, start, sep);
        let piece = s.substring_char(start, end).to_owned();
        let ghost before = texts(pieces@);
        let ghost rest = s@.skip(start as int);
        assert(piece@ == rest.take(end - start));
        pieces.push(piece);
        assert(texts(pieces@) == before + seq![piece@]);
        if end < chars.len() {
            assert(rest.skip(end - start + 1) == s@.skip(end + 1));
            start = end + 1;
        } else {
            assert(rest.take(end - start) == rest);
            more = false;
        }
    }
    pieces
}

} // verus!
