//! Rewriting of the converted markdown body: for every image whose
//! original could be downloaded, both its thumbnail URL and its original
//! URL are replaced by the local filename; a failed or unresolvable
//! image leaves its URLs untouched and is never an error.

use vstd::prelude::*;
use crate::replace::spec_replace;
use crate::replace::replace_all;

verus! {

/// The body with every occurrence of the thumbnail URL, then of the
/// original URL, replaced by the local filename.
pub open spec fn spec_rewrite_one(
    md: Seq<char>,
    thumb: Seq<char>,
    orig: Seq<char>,
    file: Seq<char>,
) -> Seq<char> {
    spec_replace(spec_replace(md, thumb, file), orig, file)
}

/// The view of one per-image outcome: the local filename on success,
/// nothing on failure.
pub open spec fn spec_outcome_view(o: Option<String>) -> Option<Seq<char>> {
    match o {
        Some(s) => Some(s@),
        None => None,
    }
}

/// The body after every image was taken in document order: an image with
/// a source, an enclosing link and a downloaded file rewrites the body;
/// every other image leaves it as it stands.
pub open spec fn spec_apply(
    md: Seq<char>,
    imgs: Seq<(Option<Seq<char>>, Option<Seq<char>>)>,
    outs: Seq<Option<Seq<char>>>,
) -> Seq<char>
    decreases imgs.len(),
{
    if imgs.len() == 0 {
        md
    } else {
        let md2 = match (imgs[0].0, imgs[0].1, outs[0]) {
            (Some(t), Some(o), Some(f)) => spec_rewrite_one(md, t, o, f),
            _ => md,
        };
        spec_apply(md2, imgs.skip(1), outs.skip(1))
    }
}

/// Replaces every occurrence of the thumbnail URL and of the original
/// URL in the body by the local filename.
pub fn rewrite_image(md: &str, thumb: &str, orig: &str, file: &str) -> (r: String)
    ensures
        r@ == spec_rewrite_one(md@, thumb@, orig@, file@),
{
    let step = replace_all(md, thumb, file);
    replace_all(step.as_str(), orig, file)
}

/// Folds the per-image outcomes into the markdown body. Per-image
/// download failure is never fatal: a `None` outcome, like an image
/// without source or enclosing link, leaves the body unchanged at that
/// step, and the fold always returns a body.
pub fn apply_outcomes(
    markdown: &str,
    images: &Vec<(Option<String>, Option<String>)>,
    outcomes: &Vec<Option<String>>,
) -> (r: String)
    requires
        images@.len() == outcomes@.len(),
    ensures
        r@ == spec_apply(
            markdown@,
            images@.map_values(
                |p: (Option<String>, Option<String>)| crate::htmlscan::spec_image_ref(p),
            ),
            outcomes@.map_values(|o: Option<String>| spec_outcome_view(o)),
        ),
{
    let ghost imgsv = images@.map_values(
        |p: (Option<String>, Option<String>)| crate::htmlscan::spec_image_ref(p),
    );
    let ghost outsv = outcomes@.map_values(|o: Option<String>| spec_outcome_view(o));
    let mut md = md_to_string(markdown);
    let n = images.len();
    let mut i: usize = 0;
    proof {
        assert(imgsv.skip(0) =~= imgsv);
        assert(outsv.skip(0) =~= outsv);
    }
    while i < n
        invariant
            n == images@.len(),
            n == outcomes@.len(),
            imgsv == images@.map_values(
                |p: (Option<String>, Option<String>)| crate::htmlscan::spec_image_ref(p),
            ),
            outsv == outcomes@.map_values(|o: Option<String>| spec_outcome_view(o)),
            i <= n,
            spec_apply(markdown@, imgsv, outsv) == spec_apply(
                md@,
                imgsv.skip(i as int),
                outsv.skip(i as int),
            ),
        decreases n - i,
    {
        proof {
            assert(imgsv.skip(i as int)[0] == imgsv[i as int]);
            assert(outsv.skip(i as int)[0] == outsv[i as int]);
            assert(imgsv.skip(i as int).skip(1) =~= imgsv.skip(i + 1));
            assert(outsv.skip(i as int).skip(1) =~= outsv.skip(i + 1));
        }
        match (&images[i].0, &images[i].1, &outcomes[i]) {
            (Some(thumb), Some(orig), Some(file)) => {
                md = rewrite_image(md.as_str(), thumb.as_str(), orig.as_str(), file.as_str());
            },
            _ => {},
        }
        i += 1;
    }
    proof {
        assert(imgsv.skip(n as int) =~= Seq::<(Option<Seq<char>>, Option<Seq<char>>)>::empty());
        assert(outsv.skip(n as int) =~= Seq::<Option<Seq<char>>>::empty());
    }
    md
}

/// An owned copy of the body to fold over.
fn md_to_string(s: &str) -> (r: String)
    ensures
        r@ == s@,
{
    s.to_owned()
}

/// A failed or unresolvable image changes nothing: folding the outcomes
/// with image `k` failed equals folding them with image `k` left out
/// entirely.
pub proof fn lemma_failed_image_skipped(
    md: Seq<char>,
    imgs: Seq<(Option<Seq<char>>, Option<Seq<char>>)>,
    outs: Seq<Option<Seq<char>>>,
    k: int,
)
    requires
        0 <= k < imgs.len(),
        outs.len() == imgs.len(),
        outs[k] is None || imgs[k].0 is None || imgs[k].1 is None,
    ensures
        spec_apply(md, imgs, outs) == spec_apply(md, imgs.remove(k), outs.remove(k)),
    decreases imgs.len(),
{
    if k == 0 {
        assert(spec_apply(md, imgs, outs) == spec_apply(md, imgs.skip(1), outs.skip(1)));
        assert(imgs.remove(0) =~= imgs.skip(1));
        assert(outs.remove(0) =~= outs.skip(1));
    } else {
        let md2 = match (imgs[0].0, imgs[0].1, outs[0]) {
            (Some(t), Some(o), Some(f)) => spec_rewrite_one(md, t, o, f),
            _ => md,
        };
        assert(spec_apply(md, imgs, outs) == spec_apply(md2, imgs.skip(1), outs.skip(1)));
        assert(imgs.remove(k)[0] == imgs[0]);
        assert(outs.remove(k)[0] == outs[0]);
        assert(spec_apply(md, imgs.remove(k), outs.remove(k)) == spec_apply(
            md2,
            imgs.remove(k).skip(1),
            outs.remove(k).skip(1),
        ));
        assert(imgs.remove(k).skip(1) =~= imgs.skip(1).remove(k - 1));
        assert(outs.remove(k).skip(1) =~= outs.skip(1).remove(k - 1));
        assert(imgs.skip(1)[k - 1] == imgs[k]);
        assert(outs.skip(1)[k - 1] == outs[k]);
        lemma_failed_image_skipped(md2, imgs.skip(1), outs.skip(1), k - 1);
    }
}

/// When every download failed, the body comes back exactly as it went
/// in.
pub proof fn lemma_all_failed_unchanged(
    md: Seq<char>,
    imgs: Seq<(Option<Seq<char>>, Option<Seq<char>>)>,
    outs: Seq<Option<Seq<char>>>,
)
    requires
        outs.len() == imgs.len(),
        forall|k: int| 0 <= k < outs.len() ==> #[trigger] outs[k] is None,
    ensures
        spec_apply(md, imgs, outs) == md,
    decreases imgs.len(),
{
    if imgs.len() > 0 {
        assert(outs[0] is None);
        assert(spec_apply(md, imgs, outs) == spec_apply(md, imgs.skip(1), outs.skip(1)));
        assert(forall|k: int|
            0 <= k < outs.skip(1).len() ==> #[trigger] outs.skip(1)[k] == outs[k + 1]);
        lemma_all_failed_unchanged(md, imgs.skip(1), outs.skip(1));
    }
}

} // verus!
