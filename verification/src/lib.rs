//! Export of a blog's syndication feed into per-post static-site bundles.
//!
//! The crate holds the decision logic of the exporter: which feed entries
//! are posts, how a post's slug and output layout are derived, how an
//! image URL is resolved to a local filename, and how the converted
//! markdown body is rewritten to reference the downloaded images.
//! Reading the feed file, the network fetches and the filesystem writes
//! are left to the binary around the library.

use vstd::prelude::*;

pub mod feed;
pub mod htmlscan;
pub mod pipeline;
pub mod replace;
pub mod resolver;
pub mod slugs;
pub mod transform;
pub mod writer;
pub mod timefmt;

pub use crate::resolver::DownloadError;

verus! {

/// Command-line inputs of the exporter: the feed document to read and the
/// directory the bundles are written under.
#[derive(Debug)]
pub struct Args {
    /// The location of the Blogger XML file.
    pub xml: String,
    /// The directory to save the Markdown files and images.
    pub outdir: String,
}

} // verus!
