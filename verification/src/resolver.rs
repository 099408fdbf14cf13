//! The image resolver's decisions: how an HTTP response to an image
//! candidate URL is classified, how the local filename is derived, and
//! how one bounded level of indirection through an HTML wrapper page is
//! taken. The fetches themselves are the binary's work; the library
//! decides what each response means.

use vstd::prelude::*;
use crate::htmlscan::image_refs_of;
use crate::htmlscan::scan_images;

verus! {

/// Why a candidate URL yielded no local image.
#[derive(Debug, Clone, Copy, PartialEq, Eq, Structural)]
pub enum DownloadError {
    /// The response was a redirect; for old posts the image is assumed
    /// gone rather than relocated, so redirects are never followed.
    REDIRECT { status: u16 },
    /// The response was no image, and no image could be found behind it.
    NONIMAGE,
    /// The response carried a status that promises no image.
    UNKNOWN { status: u16 },
}

/// What a response asks the resolver to do next.
#[derive(Debug, Clone, PartialEq, Eq, Structural)]
pub enum Disposition {
    /// A success response declaring an image: store its body.
    SaveImage,
    /// A success response declaring text: look for an embedded image.
    ScanHtml,
    /// A terminal failure for this candidate URL.
    Fail(DownloadError),
}

/// One step's outcome: fetch another URL, keep the saved filename, or
/// give the candidate up.
#[derive(Debug, Clone, PartialEq, Eq)]
pub enum StepResult {
    /// Fetch this URL next, one level deeper.
    Fetch(String),
    /// The response body is the image; store it under this filename.
    Saved(String),
    /// The candidate URL yields no image.
    Failed(DownloadError),
}

/// `s` starts with `p`.
pub open spec fn spec_starts_with(s: Seq<char>, p: Seq<char>) -> bool {
    s.len() >= p.len() && s.subrange(0, p.len() as int) == p
}

/// The classification of a response: success responses branch on the
/// declared content type (`image*` is stored, `text*` is scanned, all
/// else fails as a non-image, a missing declaration too), every
/// redirect status fails as a redirect, and every other status as
/// unknown.
pub open spec fn spec_classify(status: u16, content_type: Option<Seq<char>>) -> Disposition {
    if 200 <= status <= 299 {
        match content_type {
            Some(ct) => if spec_starts_with(ct, "image"@) {
                Disposition::SaveImage
            } else if spec_starts_with(ct, "text"@) {
                Disposition::ScanHtml
            } else {
                Disposition::Fail(DownloadError::NONIMAGE)
            },
            None => Disposition::Fail(DownloadError::NONIMAGE),
        }
    } else if 300 <= status <= 399 {
        Disposition::Fail(DownloadError::REDIRECT { status })
    } else {
        Disposition::Fail(DownloadError::UNKNOWN { status })
    }
}

/// The view of an optional content-type header.
pub open spec fn spec_opt_view(o: Option<&str>) -> Option<Seq<char>> {
    match o {
        Some(s) => Some(s@),
        None => None,
    }
}

/// The suffix of `u` after its last `/`; all of `u` when it has none.
pub open spec fn spec_last_segment(u: Seq<char>) -> Seq<char>
    decreases u.len(),
{
    if u.len() == 0 {
        u
    } else if u[u.len() - 1] == '/' {
        Seq::empty()
    } else {
        spec_last_segment(u.drop_last()) + seq![u.last()]
    }
}

/// What `str::to_lowercase` makes of a string. The result depends on the
/// characters alone.
pub uninterp spec fn lower_of(s: Seq<char>) -> Seq<char>;

/// Relies on `str::to_lowercase`: a pure function of the input's
/// characters; an empty input gives an empty result.
#[verifier::external_body]
fn lowercase(s: &str) -> (r: String)
    ensures
        r@ == lower_of(s@),
        s@.len() == 0 ==> r@.len() == 0,
{
    s.to_lowercase()
}

/// The first `src` attribute among the scanned image references, in
/// document order.
pub open spec fn spec_first_src(refs: Seq<(Option<Seq<char>>, Option<Seq<char>>)>) -> Option<
    Seq<char>,
>
    decreases refs.len(),
{
    if refs.len() == 0 {
        None
    } else if refs[0].0 is Some {
        refs[0].0
    } else {
        spec_first_src(refs.skip(1))
    }
}

/// Whether `s` starts with `p`.
fn starts_with(s: &str, p: &str) -> (r: bool)
    ensures
        r == spec_starts_with(s@, p@),
{
    let n = s.unicode_len();
    let plen = p.unicode_len();
    if n < plen {
        return false;
    }
    let mut j: usize = 0;
    while j < plen
        invariant
            n == s@.len(),
            plen == p@.len(),
            plen <= n,
            j <= plen,
            forall|k: int| 0 <= k < j ==> s@[k] == p@[k],
        decreases plen - j,
    {
        if s.get_char(j) != p.get_char(j) {
            assert(s@.subrange(0, p@.len() as int)[j as int] == s@[j as int]);
            return false;
        }
        j += 1;
    }
    proof {
        assert(s@.subrange(0, p@.len() as int) =~= p@);
    }
    true
}

/// Classifies a response by its status and declared content type.
pub fn classify(status: u16, content_type: Option<&str>) -> (r: Disposition)
    ensures
        r == spec_classify(status, spec_opt_view(content_type)),
{
    if 200 <= status && status <= 299 {
        match content_type {
            Some(ct) => {
                if starts_with(ct, "image") {
                    Disposition::SaveImage
                } else if starts_with(ct, "text") {
                    Disposition::ScanHtml
                } else {
                    Disposition::Fail(DownloadError::NONIMAGE)
                }
            },
            None => Disposition::Fail(DownloadError::NONIMAGE),
        }
    } else if 300 <= status && status <= 399 {
        Disposition::Fail(DownloadError::REDIRECT { status })
    } else {
        Disposition::Fail(DownloadError::UNKNOWN { status })
    }
}

/// Whether the response's body must be read as text before the resolver
/// can take its next step.
pub fn needs_body(status: u16, content_type: Option<&str>) -> (r: bool)
    ensures
        r == (spec_classify(status, spec_opt_view(content_type)) == Disposition::ScanHtml),
{
    let d = classify(status, content_type);
    match d {
        Disposition::ScanHtml => true,
        _ => false,
    }
}

/// The character position where the last path segment of `u` begins:
/// just after the last `/`, or the start when `u` has none.
fn segment_start(u: &str, n: usize) -> (i: usize)
    requires
        n == u@.len(),
    ensures
        i <= n,
        spec_last_segment(u@) == u@.subrange(i as int, n as int),
{
    let mut i: usize = n;
    proof {
        assert(u@.subrange(0, n as int) =~= u@);
        assert(u@.subrange(n as int, n as int) =~= Seq::<char>::empty());
        assert(spec_last_segment(u@) =~= spec_last_segment(u@.subrange(0, n as int)) + u@.subrange(
            n as int,
            n as int,
        ));
    }
    while i > 0
        invariant
            n == u@.len(),
            i <= n,
            spec_last_segment(u@) == spec_last_segment(u@.subrange(0, i as int)) + u@.subrange(
                i as int,
                n as int,
            ),
        decreases i,
    {
        if u.get_char(i - 1) == '/' {
            proof {
                let pre = u@.subrange(0, i as int);
                assert(pre[pre.len() - 1] == '/');
                assert(spec_last_segment(pre) == Seq::<char>::empty());
                assert(Seq::<char>::empty() + u@.subrange(i as int, n as int) =~= u@.subrange(
                    i as int,
                    n as int,
                ));
            }
            return i;
        }
        proof {
            let pre = u@.subrange(0, i as int);
            assert(pre[pre.len() - 1] != '/');
            assert(pre.drop_last() =~= u@.subrange(0, i - 1));
            assert(spec_last_segment(pre) == spec_last_segment(u@.subrange(0, i - 1))
                + seq![u@[i - 1]]);
            assert(spec_last_segment(u@.subrange(0, i - 1)) + (seq![u@[i - 1]] + u@.subrange(
                i as int,
                n as int,
            )) =~= spec_last_segment(u@.subrange(0, i - 1)) + seq![u@[i - 1]] + u@.subrange(
                i as int,
                n as int,
            ));
            assert(seq![u@[i - 1]] + u@.subrange(i as int, n as int) =~= u@.subrange(
                i - 1,
                n as int,
            ));
        }
        i -= 1;
    }
    proof {
        assert(u@.subrange(0, 0) =~= Seq::<char>::empty());
        assert(spec_last_segment(Seq::<char>::empty()) == Seq::<char>::empty());
        assert(Seq::<char>::empty() + u@.subrange(0, n as int) =~= u@.subrange(0, n as int));
    }
    i
}

/// The local filename for a stored image: the final path segment of the
/// resolved download URL, lowercased.
pub fn image_filename(final_url: &str) -> (r: String)
    ensures
        r@ == lower_of(spec_last_segment(final_url@)),
{
    let n = final_url.unicode_len();
    let i = segment_start(final_url, n);
    let seg = final_url.substring_char(i, n);
    proof {
        assert(seg@ == spec_last_segment(final_url@));
    }
    lowercase(seg)
}

/// One resolver step, at most one level deep. A success response that
/// declares an image yields the filename for its body; a text response
/// at the surface yields the first embedded image reference to fetch,
/// or fails when the page embeds none; a text response one level down
/// fails, which bounds the indirection; every other response fails as
/// [`spec_classify`] says.
pub fn resolve_step(
    depth: u8,
    status: u16,
    content_type: Option<&str>,
    final_url: &str,
    body: &str,
) -> (r: StepResult)
    ensures
        match spec_classify(status, spec_opt_view(content_type)) {
            Disposition::SaveImage => r matches StepResult::Saved(f) && f@ == lower_of(
                spec_last_segment(final_url@),
            ),
            Disposition::ScanHtml => if depth == 0 {
                match spec_first_src(image_refs_of(body@)) {
                    Some(u) => r matches StepResult::Fetch(x) && x@ == u,
                    None => r == StepResult::Failed(DownloadError::NONIMAGE),
                }
            } else {
                r == StepResult::Failed(DownloadError::NONIMAGE)
            },
            Disposition::Fail(e) => r == StepResult::Failed(e),
        },
{
    let d = classify(status, content_type);
    match d {
        Disposition::SaveImage => StepResult::Saved(image_filename(final_url)),
        Disposition::ScanHtml => {
            if depth == 0 {
                match first_src(&scan_images(body)) {
                    Some(u) => StepResult::Fetch(u),
                    None => StepResult::Failed(DownloadError::NONIMAGE),
                }
            } else {
                StepResult::Failed(DownloadError::NONIMAGE)
            }
        },
        Disposition::Fail(e) => StepResult::Failed(e),
    }
}

/// The first image `src` among scanned references, cloned out.
fn first_src(refs: &Vec<(Option<String>, Option<String>)>) -> (r: Option<String>)
    ensures
        match spec_first_src(
            refs@.map_values(|p: (Option<String>, Option<String>)| crate::htmlscan::spec_image_ref(p)),
        ) {
            Some(u) => r matches Some(x) && x@ == u,
            None => r is None,
        },
{
    let ghost views = refs@.map_values(
        |p: (Option<String>, Option<String>)| crate::htmlscan::spec_image_ref(p),
    );
    let n = refs.len();
    let mut i: usize = 0;
    proof {
        assert(views.skip(0) =~= views);
    }
    while i < n
        invariant
            n == refs@.len(),
            views == refs@.map_values(
                |p: (Option<String>, Option<String>)| crate::htmlscan::spec_image_ref(p),
            ),
            i <= n,
            spec_first_src(views) == spec_first_src(views.skip(i as int)),
        decreases n - i,
    {
        proof {
            assert(views.skip(i as int)[0] == views[i as int]);
        }
        match &refs[i].0 {
            Some(s) => {
                return Some(s.clone());
            },
            None => {},
        }
        proof {
            assert(views.skip(i as int).skip(1) =~= views.skip(i + 1));
        }
        i += 1;
    }
    proof {
        assert(views.skip(n as int) =~= Seq::<(Option<Seq<char>>, Option<Seq<char>>)>::empty());
    }
    None
}

/// A redirect response is always terminal: whatever the content type and
/// the depth, the resolver fails with the redirect's status and never
/// follows it.
pub proof fn lemma_redirect_terminal(status: u16, content_type: Option<Seq<char>>)
    requires
        300 <= status <= 399,
    ensures
        spec_classify(status, content_type) == Disposition::Fail(
            DownloadError::REDIRECT { status },
        ),
{
}

/// A success response that declares neither an image nor a text type, or
/// declares no type at all, always fails as a non-image.
pub proof fn lemma_other_type_fails(status: u16, content_type: Option<Seq<char>>)
    requires
        200 <= status <= 299,
        match content_type {
            Some(ct) => !spec_starts_with(ct, "image"@) && !spec_starts_with(ct, "text"@),
            None => true,
        },
    ensures
        spec_classify(status, content_type) == Disposition::Fail(DownloadError::NONIMAGE),
{
}

} // verus!
