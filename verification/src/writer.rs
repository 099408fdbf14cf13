//! The post writer's text: the metadata header, composed in front of
//! the markdown body, and the fixed name of the bundle's content file.
//! Creating the directory and persisting the file are the binary's
//! work; the library pins down every byte of what is written.

use vstd::prelude::*;
use crate::feed::FeedEntry;
use crate::timefmt::Timestamp;
use crate::timefmt::spec_rfc3339;
use crate::timefmt::format_rfc3339;

verus! {

/// The bundle's content file: a TOML metadata header — title as given,
/// RFC 3339 update timestamp, a fixed draft flag, the primary author —
/// followed by a blank line and the markdown body.
pub open spec fn spec_content_file(
    title: Seq<char>,
    ts: Timestamp,
    author: Seq<char>,
    body: Seq<char>,
) -> Seq<char> {
    "+++\ntitle= \""@ + title + "\"\ndate = "@ + spec_rfc3339(ts)
        + "\ndraft = True\n\n[extra]\nauthor = \""@ + author + "\"\n+++\n\n"@ + body
}

/// Composes the content file's full text for a post.
pub fn compose_content(title: &str, ts: &Timestamp, author: &str, body: &str) -> (r: String)
    requires
        ts.well_formed(),
    ensures
        r@ == spec_content_file(title@, *ts, author@, body@),
{
    let mut out = String::new();
    out.append("+++\ntitle= \"");
    out.append(title);
    out.append("\"\ndate = ");
    let date = format_rfc3339(ts);
    out.append(date.as_str());
    out.append("\ndraft = True\n\n[extra]\nauthor = \"");
    out.append(author);
    out.append("\"\n+++\n\n");
    out.append(body);
    proof {
        assert(out@ =~= spec_content_file(title@, *ts, author@, body@));
    }
    out
}

/// Composes the content file for an entry: its title, update timestamp
/// and first author around the rewritten body. The feed is expected to
/// name at least one author for a post.
pub fn compose_post(e: &FeedEntry, body: &str) -> (r: String)
    requires
        e.updated.well_formed(),
        e.authors@.len() > 0,
    ensures
        r@ == spec_content_file(e.title@, e.updated, e.authors@[0]@, body@),
{
    let author = &e.authors[0];
    compose_content(e.title.as_str(), &e.updated, author.as_str(), body)
}

/// The fixed name of the bundle's content file.
pub fn index_filename() -> (r: &'static str)
    ensures
        r@ == "index.md"@,
{
    "index.md"
}

} // verus!
