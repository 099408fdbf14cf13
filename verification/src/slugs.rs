//! Derivation of a post's filesystem-safe identifier: the slug of its
//! title, prefixed with its update date.

use vstd::prelude::*;
use crate::timefmt::Timestamp;
use crate::timefmt::spec_date;
use crate::timefmt::format_date;

verus! {

/// The slug the `slug` crate derives from a title. The derivation
/// (transliteration, lowercasing, dash-folding) depends on the title's
/// characters alone.
pub uninterp spec fn slug_of(title: Seq<char>) -> Seq<char>;

/// Relies on `slug::slugify`: a pure transliteration of its input to
/// lowercase ASCII letters, digits and dashes; an empty title gives an
/// empty slug.
#[verifier::external_body]
fn slugify(title: &str) -> (r: String)
    ensures
        r@ == slug_of(title@),
        title@.len() == 0 ==> r@.len() == 0,
{
    slug::slugify(title)
}

/// The full bundle name of a post: its date, an underscore, and the slug
/// of its title.
pub open spec fn spec_bundle_name(title: Seq<char>, ts: Timestamp) -> Seq<char> {
    spec_date(ts) + seq!['_'] + slug_of(title)
}

/// The name of the post's bundle directory: `YYYY-MM-DD_<slug>`.
pub fn bundle_name(title: &str, ts: &Timestamp) -> (r: String)
    requires
        ts.well_formed(),
    ensures
        r@ == spec_bundle_name(title@, *ts),
{
    let mut out = format_date(ts);
    out.append("_");
    let s = slugify(title);
    out.append(s.as_str());
    proof {
        reveal_strlit("_");
        assert(out@ =~= spec_bundle_name(title@, *ts));
    }
    out
}

/// Slug derivation is deterministic: the same title and update timestamp
/// always yield the same bundle name.
pub proof fn lemma_bundle_name_deterministic(
    t1: Seq<char>,
    ts1: Timestamp,
    t2: Seq<char>,
    ts2: Timestamp,
)
    requires
        t1 == t2,
        ts1 == ts2,
    ensures
        spec_bundle_name(t1, ts1) == spec_bundle_name(t2, ts2),
{
}

} // verus!
