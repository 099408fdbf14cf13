//! The one look into HTML documents the pipeline needs: the image tags
//! of a document, each with its source attribute and the target of its
//! enclosing link.

use vstd::prelude::*;
use select::document::Document;
use select::predicate::Name;

verus! {

/// The image tags of an HTML document, in document order: for each, its
/// `src` attribute and the `href` attribute of its parent node, where
/// present. The result depends on the document text alone.
pub uninterp spec fn image_refs_of(html: Seq<char>) -> Seq<(Option<Seq<char>>, Option<Seq<char>>)>;

/// The view of one scanned image reference.
pub open spec fn spec_image_ref(p: (Option<String>, Option<String>)) -> (
    Option<Seq<char>>,
    Option<Seq<char>>,
) {
    (
        match p.0 {
            Some(s) => Some(s@),
            None => None,
        },
        match p.1 {
            Some(s) => Some(s@),
            None => None,
        },
    )
}

/// Relies on `select`: `Document::from` parses the HTML text, `find`
/// walks the `img` tags in document order, and `attr` reads the tag's
/// `src` and its parent's `href`.
#[verifier::external_body]
pub(crate) fn scan_images(html: &str) -> (r: Vec<(Option<String>, Option<String>)>)
    ensures
        r@.map_values(|p: (Option<String>, Option<String>)| spec_image_ref(p)) == image_refs_of(
            html@,
        ),
{
    Document::from(html)
        .find(Name("img"))
        .map(
            |n|
                (
                    n.attr("src").map(|s| s.to_string()),
                    n.parent().and_then(|p| p.attr("href")).map(|s| s.to_string()),
                ),
        )
        .collect()
}

/// The image tags of a post's HTML body, in document order, each with
/// its source attribute and its enclosing link's target: what the
/// export loop fetches and the rewrite folds over.
pub fn post_images(html: &str) -> (r: Vec<(Option<String>, Option<String>)>)
    ensures
        r@.map_values(|p: (Option<String>, Option<String>)| spec_image_ref(p)) == image_refs_of(
            html@,
        ),
{
    scan_images(html)
}

} // verus!
