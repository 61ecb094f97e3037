use vstd::prelude::*;
use vstd::string::StrSliceExecFns;

verus! {

/// `needle` stands in `haystack` at offset `i`.
pub open spec fn occurs_at(needle: Seq<char>, haystack: Seq<char>, i: int) -> bool {
    &&& 0 <= i
    &&& i + needle.len() <= haystack.len()
    &&& haystack.subrange(i, i + needle.len()) == needle
}

/// `needle` stands somewhere in `haystack`. The empty text stands in every text.
pub open spec fn is_substring(needle: Seq<char>, haystack: Seq<char>) -> bool {
    exists|i: int| occurs_at(needle, haystack, i)
}

/// The characters of a text, in order.
pub fn chars_of(s: &str) -> (v: Vec<char>)
    ensures
        v@ == s@,
{
    let mut v: Vec<char> = Vec::new();
    for c in it: s.chars()
        invariant
            v@ == it.seq().take(it.index() as int),
            it.seq() == s@,
    {
        v.push(c);
    }
    v
}

/// Whether `needle` stands in `haystack` at offset `at`.
fn matches_at(haystack: &Vec<char>, needle: &Vec<char>, at: usize) -> (r: bool)
    requires
        at + needle.len() <= haystack.len(),
    ensures
        r == occurs_at(needle@, haystack@, at as int),
{
    let mut k: usize = 0;
    while k < needle.len()
        invariant
            k <= needle.len(),
            at + needle.len() <= haystack.len(),
            forall|j: int| 0 <= j < k ==> haystack@[at + j] == needle@[j],
        decreases needle.len() - k,
    {
        if haystack[at + k] != needle[k] {
            proof {
                let window = haystack@.subrange(at as int, at + needle.len());
                assert(window[k as int] == haystack@[at + k]);
            }
            return false;
        }
        k += 1;
    }
    assert(haystack@.subrange(at as int, at + needle.len()) =~= needle@);
    true
}

/// Whether `needle` stands somewhere in `haystack`.
pub fn contains(haystack: &str, needle: &str) -> (r: bool)
    ensures
        r == is_substring(needle@, haystack@),
{
    let h = chars_of(haystack);
    let n = chars_of(needle);
    if n.len() == 0 {
        assert(h@.subrange(0, 0) =~= n@);
        assert(occurs_at(n@, h@, 0));
        return true;
    }
    if n.len() > h.len() {
        return false;
    }
    let last: usize = h.len() - n.len();
    let mut i: usize = 0;
    while i <= last
        invariant
            i <= last + 1,
            last == h.len() - n.len(),
            0 < n.len() <= h.len(),
            h@ == haystack@,
            n@ == needle@,
            forall|j: int| 0 <= j < i ==> !occurs_at(n@, h@, j),
        decreases last + 1 - i,
    {
        if matches_at(&h, &n, i) {
            return true;
        }
        i += 1;
    }
    false
}

/// Whether two texts hold the same characters.
pub fn same(a: &str, b: &str) -> (r: bool)
    ensures
        r == (a@ == b@),
{
    a.to_owned() == b.to_owned()
}

/// `s` ends with `suffix`.
pub open spec fn has_suffix(s: Seq<char>, suffix: Seq<char>) -> bool {
    &&& suffix.len() <= s.len()
    &&& s.subrange(s.len() - suffix.len(), s.len() as int) == suffix
}

/// Whether `s` ends with `suffix`.
pub fn ends_with(s: &str, suffix: &str) -> (r: bool)
    ensures
        r == has_suffix(s@, suffix@),
{
    let text = chars_of(s);
    let tail = chars_of(suffix);
    if tail.len() > text.len() {
        return false;
    }
    matches_at(&text, &tail, text.len() - tail.len())
}

/// The pieces of `s` from `start` on, where the search for the next
/// separator stands at `at`: a piece ends where the separator next stands,
/// and the search goes on behind that separator. An empty separator stands
/// nowhere.
pub open spec fn pieces_from(s: Seq<char>, sep: Seq<char>, start: int, at: int) -> Seq<Seq<char>>
    recommends
        0 <= start <= at <= s.len(),
    decreases s.len() - at,
{
    if sep.len() <= 0 || at + sep.len() > s.len() {
        seq![s.subrange(start, s.len() as int)]
    } else if occurs_at(sep, s, at) {
        seq![s.subrange(start, at)] + pieces_from(s, sep, at + sep.len(), at + sep.len())
    } else {
        pieces_from(s, sep, start, at + 1)
    }
}

/// The pieces that the separator cuts `s` into, from left to right. A text
/// without the separator is one piece; two separators in a row hold an
/// empty piece between them. An empty separator cuts nothing.
pub open spec fn split_on(s: Seq<char>, sep: Seq<char>) -> Seq<Seq<char>> {
    pieces_from(s, sep, 0, 0)
}

/// The pieces put together again, with the separator between each two.
pub open spec fn joined(pieces: Seq<Seq<char>>, sep: Seq<char>) -> Seq<char>
    decreases pieces.len(),
{
    if pieces.len() == 0 {
        Seq::empty()
    } else if pieces.len() == 1 {
        pieces[0]
    } else {
        pieces[0] + sep + joined(pieces.drop_first(), sep)
    }
}

/// The pieces from `start` on, put together again, are the text from
/// `start` on.
pub proof fn lemma_pieces_join(s: Seq<char>, sep: Seq<char>, start: int, at: int)
    requires
        0 <= start <= at <= s.len(),
    ensures
        pieces_from(s, sep, start, at).len() >= 1,
        joined(pieces_from(s, sep, start, at), sep) == s.subrange(start, s.len() as int),
    decreases s.len() - at,
{
    if sep.len() <= 0 || at + sep.len() > s.len() {
    } else if occurs_at(sep, s, at) {
        let next = at + sep.len();
        let rest = pieces_from(s, sep, next, next);
        let all = pieces_from(s, sep, start, at);
        lemma_pieces_join(s, sep, next, next);
        assert(all.drop_first() =~= rest);
        assert(s.subrange(start, at) + sep + s.subrange(next, s.len() as int) =~= s.subrange(
            start,
            s.len() as int,
        ));
    } else {
        lemma_pieces_join(s, sep, start, at + 1);
    }
}

/// Cutting loses nothing: the pieces of a text, put together again with
/// the separator between them, are the text.
pub proof fn lemma_split_joins_back(s: Seq<char>, sep: Seq<char>)
    ensures
        joined(split_on(s, sep), sep) == s,
{
    lemma_pieces_join(s, sep, 0, 0);
    assert(s.subrange(0, s.len() as int) =~= s);
}

/// Cuts `s` at each place where `sep` stands.
pub fn split(s: &str, sep: &str) -> (pieces: Vec<String>)
    ensures
        pieces.deep_view() == split_on(s@, sep@),
{
    let text = chars_of(s);
    let mark = chars_of(sep);
    let mut pieces: Vec<String> = Vec::new();
    if mark.len() == 0 {
        let whole = s.to_owned();
        pieces.push(whole);
        assert(s@.subrange(0, s@.len() as int) =~= s@);
        assert(pieces.deep_view() =~= seq![whole@]);
        return pieces;
    }
    let mut start: usize = 0;
    let mut at: usize = 0;
    while mark.len() <= text.len() && at <= text.len() - mark.len()
        invariant
            text@ == s@,
            mark@ == sep@,
            0 < mark.len(),
            start <= at <= text.len(),
            pieces.deep_view() + pieces_from(s@, sep@, start as int, at as int) == split_on(
                s@,
                sep@,
            ),
        decreases text.len() - at,
    {
        if matches_at(&text, &mark, at) {
            let ghost before = pieces;
            let piece = s.substring_char(start, at).to_owned();
            pieces.push(piece);
            proof {
                assert(pieces.deep_view() =~= before.deep_view().push(piece@));
                assert(before.deep_view() + (seq![s@.subrange(start as int, at as int)]
                    + pieces_from(s@, sep@, at + mark.len(), at + mark.len()))
                    =~= pieces.deep_view() + pieces_from(
                    s@,
                    sep@,
                    at + mark.len(),
                    at + mark.len(),
                ));
            }
            at = at + mark.len();
            start = at;
        } else {
            at = at + 1;
        }
    }
    let ghost before = pieces;
    let piece = s.substring_char(start, text.len()).to_owned();
    pieces.push(piece);
    proof {
        assert(pieces.deep_view() =~= before.deep_view().push(piece@));
        assert(before.deep_view() + seq![s@.subrange(start as int, s@.len() as int)]
            =~= pieces.deep_view());
    }
    pieces
}

} // verus!
