//! Per-post decisions of the export loop: whether an entry selected for
//! export can be processed at all, where its bundle goes, and what the
//! external HTML-to-markdown converter's outcome means.

use vstd::prelude::*;
use crate::feed::FeedEntry;
use crate::slugs::spec_bundle_name;
use crate::slugs::bundle_name;

verus! {

/// Why an entry selected for export could not be processed.
#[derive(Debug, Clone, Copy, PartialEq, Eq, Structural)]
pub enum ExportError {
    /// The entry carries no HTML body; the post cannot be exported.
    MissingContent,
}

/// What stands fixed before a post's images are fetched: the bundle
/// directory's name and the HTML body to convert and scan.
#[derive(Debug)]
pub struct PostPlan {
    pub bundle: String,
    pub html: String,
}

/// Plans one post: succeeds with its bundle name and HTML body exactly
/// when the entry has a body, and fails with [`ExportError::MissingContent`]
/// exactly when it has none.
pub fn plan_post(e: &FeedEntry) -> (r: Result<PostPlan, ExportError>)
    requires
        e.updated.well_formed(),
    ensures
        r is Ok <==> e.content is Some,
        r matches Ok(p) ==> (p.bundle@ == spec_bundle_name(e.title@, e.updated) && (e.content matches Some(c)
            && p.html@ == c@)),
        r matches Err(err) ==> err == ExportError::MissingContent,
{
    match &e.content {
        Some(c) => Ok(
            PostPlan { bundle: bundle_name(e.title.as_str(), &e.updated), html: c.clone() },
        ),
        None => Err(ExportError::MissingContent),
    }
}

/// The converter boundary's outcome: on success its standard output is
/// the markdown body, verbatim; on failure its diagnostic text is the
/// error, verbatim.
pub fn converter_result(success: bool, out: String, diagnostic: String) -> (r: Result<
    String,
    String,
>)
    ensures
        success ==> (r matches Ok(s) && s == out),
        !success ==> (r matches Err(d) && d == diagnostic),
{
    if success {
        Ok(out)
    } else {
        Err(diagnostic)
    }
}

} // verus!
