//! The feed's entries as plain values, and the filter that decides which
//! entries are blog posts worth exporting.

use vstd::prelude::*;
use crate::timefmt::Timestamp;

verus! {

/// One category marker carried by a feed entry: a `(scheme, term)` pair.
#[derive(Debug, Clone)]
pub struct Category {
    pub scheme: Option<String>,
    pub term: String,
}

/// One syndication item, with everything the pipeline reads held as
/// plain values: title, update timestamp, optional HTML body, author
/// names in feed order, and category markers.
#[derive(Debug, Clone)]
pub struct FeedEntry {
    pub title: String,
    pub updated: Timestamp,
    pub content: Option<String>,
    pub authors: Vec<String>,
    pub categories: Vec<Category>,
}

/// The fixed scheme URI of the platform's category kinds.
pub open spec fn spec_post_scheme() -> Seq<char> {
    "http://schemas.google.com/g/2005#kind"@
}

/// The fixed term URI that classifies an entry as a blog post.
pub open spec fn spec_post_term() -> Seq<char> {
    "http://schemas.google.com/blogger/2008/kind#post"@
}

/// The scheme URI of the platform's "kind" category markers.
pub fn post_scheme() -> (r: &'static str)
    ensures
        r@ == spec_post_scheme(),
{
    "http://schemas.google.com/g/2005#kind"
}

/// The term URI that marks an entry as a blog post.
pub fn post_term() -> (r: &'static str)
    ensures
        r@ == spec_post_term(),
{
    "http://schemas.google.com/blogger/2008/kind#post"
}

/// `c` is the platform's "this entry is a post" marker: scheme and term
/// both equal the fixed platform URIs by full, case-sensitive string
/// equality.
pub open spec fn spec_is_post_marker(c: Category) -> bool {
    &&& c.scheme matches Some(s) && s@ == spec_post_scheme()
    &&& c.term@ == spec_post_term()
}

/// The characters the title filter counts as blank.
pub open spec fn spec_is_space(c: char) -> bool {
    c == ' ' || c == '\t' || c == '\n' || c == '\r'
}

/// `t` holds at least one non-blank character.
pub open spec fn spec_nonblank(t: Seq<char>) -> bool {
    exists|i: int| 0 <= i < t.len() && !spec_is_space(#[trigger] t[i])
}

/// An entry is exported iff it carries at least one post marker and its
/// title is non-empty after trimming.
pub open spec fn spec_is_post(e: FeedEntry) -> bool {
    &&& exists|i: int|
        0 <= i < e.categories@.len() && spec_is_post_marker(#[trigger] e.categories@[i])
    &&& spec_nonblank(e.title@)
}

/// Character-for-character equality of two strings.
fn eq_str(a: &str, b: &str) -> (r: bool)
    ensures
        r == (a@ == b@),
{
    let n = a.unicode_len();
    if n != b.unicode_len() {
        return false;
    }
    let mut i: usize = 0;
    while i < n
        invariant
            n == a@.len(),
            n == b@.len(),
            i <= n,
            forall|k: int| 0 <= k < i ==> a@[k] == b@[k],
        decreases n - i,
    {
        if a.get_char(i) != b.get_char(i) {
            return false;
        }
        i += 1;
    }
    proof {
        assert(a@ =~= b@);
    }
    true
}

/// Whether `c` is the platform's post marker.
pub fn is_post_marker(c: &Category) -> (r: bool)
    ensures
        r == spec_is_post_marker(*c),
{
    match &c.scheme {
        Some(s) => eq_str(s.as_str(), post_scheme()) && eq_str(c.term.as_str(), post_term()),
        None => false,
    }
}

/// Whether `t` holds a non-blank character.
fn nonblank(t: &str) -> (r: bool)
    ensures
        r == spec_nonblank(t@),
{
    let n = t.unicode_len();
    let mut i: usize = 0;
    while i < n
        invariant
            n == t@.len(),
            i <= n,
            forall|k: int| 0 <= k < i ==> spec_is_space(#[trigger] t@[k]),
        decreases n - i,
    {
        let c = t.get_char(i);
        if !(c == ' ' || c == '\t' || c == '\n' || c == '\r') {
            return true;
        }
        i += 1;
    }
    false
}

/// The post filter: `e` is exported iff it carries the platform's post
/// marker among its categories and its title is non-empty after
/// trimming. Entries failing either condition are skipped, never an
/// error.
pub fn is_post(e: &FeedEntry) -> (r: bool)
    ensures
        r == spec_is_post(*e),
{
    let mut found = false;
    let n = e.categories.len();
    let mut i: usize = 0;
    while i < n
        invariant
            n == e.categories@.len(),
            i <= n,
            found == exists|k: int|
                0 <= k < i && spec_is_post_marker(#[trigger] e.categories@[k]),
        decreases n - i,
    {
        if is_post_marker(&e.categories[i]) {
            found = true;
        }
        i += 1;
    }
    found && nonblank(e.title.as_str())
}

} // verus!
