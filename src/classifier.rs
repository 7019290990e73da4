//! The request classifier: a pure function from a URL to a verdict.
//!
//! Matching is substring containment on the case-folded URL as a whole, with a fixed
//! precedence where the first tier that matches decides:
//! whitelist, exception hosts, category blocklists, generic patterns, and else allow.

use vstd::prelude::*;
use crate::rules::{
    AD_NETWORKS, CNAME_CLOAKS, EXCEPTION_DOMAINS, EXCLUDED_FRAGMENTS, GENERIC_PATTERNS,
    MALWARE, POPUPS, SOCIAL_TRACKING, TRACKING, WHITELIST,
};
use crate::text::{
    contains_any, is_entry, lower_of, mentions_any, occurs_in, pieces, split_spaces, str_contains,
    to_lowercase,
};

verus! {

/// What happens to one request.
#[derive(Clone, Copy, Debug, PartialEq, Eq, Structural)]
pub enum Verdict {
    Allow,
    Block,
}

/// The categories of the blocklist table.
#[derive(Clone, Copy, Debug, PartialEq, Eq, Structural)]
pub enum Category {
    AdNetwork,
    Tracking,
    SocialTracking,
    Malware,
    Popup,
    CnameCloak,
}

/// The entries of one category.
pub open spec fn category_entries(c: Category) -> Seq<char> {
    match c {
        Category::AdNetwork => AD_NETWORKS@,
        Category::Tracking => TRACKING@,
        Category::SocialTracking => SOCIAL_TRACKING@,
        Category::Malware => MALWARE@,
        Category::Popup => POPUPS@,
        Category::CnameCloak => CNAME_CLOAKS@,
    }
}

/// A blocklist entry that overlaps the exception hosts; it never blocks.
pub open spec fn is_excluded_entry(entry: Seq<char>) -> bool {
    mentions_any(entry, EXCLUDED_FRAGMENTS@)
}

/// Some entry of table `t` that is not excluded occurs in `s`.
pub open spec fn hits_entries(s: Seq<char>, t: Seq<char>) -> bool {
    exists|k: int|
        is_entry(t, k) && !is_excluded_entry(#[trigger] pieces(t)[k]) && occurs_in(pieces(t)[k], s)
}

/// Some usable entry of category `c` occurs in `s`.
pub open spec fn hits_category(s: Seq<char>, c: Category) -> bool {
    hits_entries(s, category_entries(c))
}

/// Some usable entry of any category occurs in `s`.
pub open spec fn hits_blocklist(s: Seq<char>) -> bool {
    exists|c: Category| #[trigger] hits_category(s, c)
}

/// The verdict on an already case-folded URL.
pub open spec fn verdict_of(s: Seq<char>) -> Verdict {
    if mentions_any(s, WHITELIST@) {
        Verdict::Allow
    } else if mentions_any(s, EXCEPTION_DOMAINS@) {
        Verdict::Allow
    } else if hits_blocklist(s) {
        Verdict::Block
    } else if mentions_any(s, GENERIC_PATTERNS@) {
        Verdict::Block
    } else {
        Verdict::Allow
    }
}

/// The table of one category.
pub fn category_table(c: Category) -> (r: &'static str)
    ensures
        r@ == category_entries(c),
{
    match c {
        Category::AdNetwork => AD_NETWORKS,
        Category::Tracking => TRACKING,
        Category::SocialTracking => SOCIAL_TRACKING,
        Category::Malware => MALWARE,
        Category::Popup => POPUPS,
        Category::CnameCloak => CNAME_CLOAKS,
    }
}

/// Whether a usable entry of table `t` occurs in `s`.
fn hits_table(s: &str, t: &str) -> (r: bool)
    ensures
        r == hits_entries(s@, t@),
{
    let entries = split_spaces(t);
    let mut k: usize = 0;
    while k < entries.len()
        invariant
            k <= entries@.len(),
            entries@.len() == pieces(t@).len(),
            forall|j: int| 0 <= j < entries@.len() ==> (#[trigger] entries@[j])@ == pieces(t@)[j],
            forall|j: int|
                0 <= j < k && is_entry(t@, j) ==> (is_excluded_entry(#[trigger] pieces(t@)[j])
                    || !occurs_in(pieces(t@)[j], s@)),
        decreases entries.len() - k,
    {
        let entry = entries[k];
        assert(entry@ == pieces(t@)[k as int]);
        if !entry.is_empty() && !contains_any(entry, EXCLUDED_FRAGMENTS) && str_contains(s, entry) {
            return true;
        }
        k += 1;
    }
    false
}

/// Whether a usable blocklist entry of any category occurs in `folded`.
pub fn matches_blocklist(folded: &str) -> (r: bool)
    ensures
        r == hits_blocklist(folded@),
{
    let categories: [Category; 6] = [
        Category::AdNetwork,
        Category::Tracking,
        Category::SocialTracking,
        Category::Malware,
        Category::Popup,
        Category::CnameCloak,
    ];
    let mut i: usize = 0;
    while i < 6
        invariant
            i <= 6,
            categories@ == seq![
                Category::AdNetwork,
                Category::Tracking,
                Category::SocialTracking,
                Category::Malware,
                Category::Popup,
                Category::CnameCloak,
            ],
            forall|j: int| 0 <= j < i ==> !#[trigger] hits_category(folded@, categories@[j]),
        decreases 6 - i,
    {
        if hits_table(folded, category_table(categories[i])) {
            assert(hits_category(folded@, categories@[i as int]));
            return true;
        }
        i += 1;
    }
    assert forall|c: Category| !#[trigger] hits_category(folded@, c) by {
        match c {
            Category::AdNetwork => assert(!hits_category(folded@, categories@[0])),
            Category::Tracking => assert(!hits_category(folded@, categories@[1])),
            Category::SocialTracking => assert(!hits_category(folded@, categories@[2])),
            Category::Malware => assert(!hits_category(folded@, categories@[3])),
            Category::Popup => assert(!hits_category(folded@, categories@[4])),
            Category::CnameCloak => assert(!hits_category(folded@, categories@[5])),
        }
    }
    false
}

/// Whether `url` holds one of the generic ad and tracking URL patterns.
pub fn matches_generic_ad_pattern(url: &str) -> (r: bool)
    ensures
        r == mentions_any(url@, GENERIC_PATTERNS@),
{
    contains_any(url, GENERIC_PATTERNS)
}

/// The verdict on a URL that has already been case-folded.
pub fn classify_folded(folded: &str) -> (r: Verdict)
    ensures
        r == verdict_of(folded@),
{
    if contains_any(folded, WHITELIST) {
        Verdict::Allow
    } else if contains_any(folded, EXCEPTION_DOMAINS) {
        Verdict::Allow
    } else if matches_blocklist(folded) {
        Verdict::Block
    } else if matches_generic_ad_pattern(folded) {
        Verdict::Block
    } else {
        Verdict::Allow
    }
}

/// The verdict on `url`, matched case-insensitively.
pub fn classify(url: &str) -> (r: Verdict)
    ensures
        r == verdict_of(lower_of(url@)),
        url@.len() == 0 ==> r == Verdict::Allow,
{
    let folded = to_lowercase(url);
    proof {
        if url@.len() == 0 {
            empty_url_is_allowed(folded@);
        }
    }
    classify_folded(folded.as_str())
}

/// Whether a request for `url` is to be suppressed at the network layer.
pub fn should_block(url: &str) -> (r: bool)
    ensures
        r == (verdict_of(lower_of(url@)) == Verdict::Block),
        url@.len() == 0 ==> !r,
{
    match classify(url) {
        Verdict::Block => true,
        Verdict::Allow => false,
    }
}

/// A URL that holds a whitelist entry is allowed, whatever else it holds.
pub proof fn whitelist_always_allows(s: Seq<char>)
    requires
        mentions_any(s, WHITELIST@),
    ensures
        verdict_of(s) == Verdict::Allow,
{
}

/// A URL that holds an exception host and no whitelist entry is allowed.
pub proof fn exception_hosts_allow(s: Seq<char>)
    requires
        !mentions_any(s, WHITELIST@),
        mentions_any(s, EXCEPTION_DOMAINS@),
    ensures
        verdict_of(s) == Verdict::Allow,
{
}

/// A URL that holds a usable blocklist entry, and neither a whitelist entry nor an
/// exception host, is blocked.
pub proof fn blocklist_blocks(s: Seq<char>, c: Category)
    requires
        !mentions_any(s, WHITELIST@),
        !mentions_any(s, EXCEPTION_DOMAINS@),
        hits_category(s, c),
    ensures
        verdict_of(s) == Verdict::Block,
{
}

/// A URL that matches no blocklist entry and no generic pattern is allowed.
pub proof fn unmatched_is_allowed(s: Seq<char>)
    requires
        !hits_blocklist(s),
        !mentions_any(s, GENERIC_PATTERNS@),
    ensures
        verdict_of(s) == Verdict::Allow,
{
}

/// The empty URL is allowed.
pub proof fn empty_url_is_allowed(s: Seq<char>)
    requires
        s.len() == 0,
    ensures
        verdict_of(s) == Verdict::Allow,
{
    assert forall|c: Category| !#[trigger] hits_category(s, c) by {
        let t = category_entries(c);
        assert forall|k: int| is_entry(t, k) implies !occurs_in(#[trigger] pieces(t)[k], s) by {}
    }
    assert forall|k: int| is_entry(GENERIC_PATTERNS@, k) implies !occurs_in(
        #[trigger] pieces(GENERIC_PATTERNS@)[k],
        s,
    ) by {}
}

} // verus!
