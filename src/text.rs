//! Text primitives: substring search, splitting on spaces and case folding, all
//! taken from std, and matching against a table of space-separated entries.

use vstd::prelude::*;

verus! {

/// `p` occurs in `s` as a contiguous run of characters.
pub open spec fn occurs_in(p: Seq<char>, s: Seq<char>) -> bool {
    exists|i: int| 0 <= i <= s.len() - p.len() && #[trigger] s.subrange(i, i + p.len()) == p
}

/// The pieces of `t` between its spaces, in order: `"a b"` has pieces `"a"` and `"b"`,
/// and two spaces in a row enclose an empty piece.
pub open spec fn pieces(t: Seq<char>) -> Seq<Seq<char>>
    decreases t.len(),
{
    if t.len() == 0 {
        seq![Seq::empty()]
    } else {
        let p = pieces(t.drop_last());
        if t.last() == ' ' {
            p.push(Seq::empty())
        } else {
            p.update(p.len() - 1, p.last().push(t.last()))
        }
    }
}

/// Piece `k` of table `t` is an entry: it exists and is not empty.
pub open spec fn is_entry(t: Seq<char>, k: int) -> bool {
    0 <= k < pieces(t).len() && pieces(t)[k].len() > 0
}

/// Some entry of table `t` occurs in `s`.
pub open spec fn mentions_any(s: Seq<char>, t: Seq<char>) -> bool {
    exists|k: int| is_entry(t, k) && occurs_in(#[trigger] pieces(t)[k], s)
}

/// The case folding of `s` that std's `str::to_lowercase` computes.
pub uninterp spec fn lower_of(s: Seq<char>) -> Seq<char>;

/// Relies on `str::contains` with a `&str` pattern, which is true exactly when
/// `pat` matches a sub-slice of `s`.
#[verifier::external_body]
pub(crate) fn str_contains(s: &str, pat: &str) -> (r: bool)
    ensures
        r == occurs_in(pat@, s@),
{
    s.contains(pat)
}

/// Relies on `str::to_lowercase`, whose result depends on the characters of `s` alone;
/// the empty string folds to the empty string.
#[verifier::external_body]
pub(crate) fn to_lowercase(s: &str) -> (r: String)
    ensures
        r@ == lower_of(s@),
        s@.len() == 0 ==> r@.len() == 0,
{
    s.to_lowercase()
}

/// Relies on `str::split` with a `char` pattern, which yields the pieces of `t`
/// between occurrences of the space character, in order.
#[verifier::external_body]
pub(crate) fn split_spaces<'a>(t: &'a str) -> (r: Vec<&'a str>)
    ensures
        r@.len() == pieces(t@).len(),
        forall|k: int| 0 <= k < r@.len() ==> (#[trigger] r@[k])@ == pieces(t@)[k],
{
    t.split(' ').collect()
}

/// Whether any entry of table `t` occurs in `s`.
pub fn contains_any(s: &str, t: &str) -> (r: bool)
    ensures
        r == mentions_any(s@, t@),
{
    let entries = split_spaces(t);
    let mut k: usize = 0;
    while k < entries.len()
        invariant
            k <= entries@.len(),
            entries@.len() == pieces(t@).len(),
            forall|j: int| 0 <= j < entries@.len() ==> (#[trigger] entries@[j])@ == pieces(t@)[j],
            forall|j: int| 0 <= j < k && is_entry(t@, j) ==> !occurs_in(#[trigger] pieces(t@)[j], s@),
        decreases entries.len() - k,
    {
        let entry = entries[k];
        assert(entry@ == pieces(t@)[k as int]);
        if !entry.is_empty() && str_contains(s, entry) {
            return true;
        }
        k += 1;
    }
    false
}

} // verus!
