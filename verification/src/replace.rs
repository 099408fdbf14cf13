//! Literal text substitution: every occurrence of a pattern in a text,
//! scanned left to right, is replaced by another string. The image
//! rewriting of the content transformer is built on this.

use vstd::prelude::*;

verus! {

/// The text `s` with every left-to-right occurrence of `pat` replaced by
/// `to`. An empty pattern replaces nothing.
pub open spec fn spec_replace(s: Seq<char>, pat: Seq<char>, to: Seq<char>) -> Seq<char>
    decreases s.len(),
{
    if pat.len() == 0 || s.len() < pat.len() {
        s
    } else if s.subrange(0, pat.len() as int) == pat {
        to + spec_replace(s.skip(pat.len() as int), pat, to)
    } else {
        seq![s[0]] + spec_replace(s.skip(1), pat, to)
    }
}

/// `pat` stands in `s` at position `k`.
pub open spec fn spec_occurs_at(s: Seq<char>, pat: Seq<char>, k: int) -> bool {
    0 <= k && k + pat.len() <= s.len() && s.subrange(k, k + pat.len() as int) == pat
}

/// `pat` occurs somewhere in `s` as a contiguous run.
pub open spec fn spec_contains(s: Seq<char>, pat: Seq<char>) -> bool {
    exists|k: int| #[trigger] spec_occurs_at(s, pat, k)
}

/// A text without any occurrence of the pattern is returned unchanged:
/// substitution alters nothing but the occurrences themselves.
pub proof fn lemma_no_occurrence_unchanged(s: Seq<char>, pat: Seq<char>, to: Seq<char>)
    requires
        !spec_contains(s, pat),
    ensures
        spec_replace(s, pat, to) == s,
    decreases s.len(),
{
    if pat.len() == 0 || s.len() < pat.len() {
    } else {
        assert(s.subrange(0, pat.len() as int) != pat) by {
            assert(!spec_occurs_at(s, pat, 0));
        }
        assert(!spec_contains(s.skip(1), pat)) by {
            if spec_contains(s.skip(1), pat) {
                let k = choose|k: int| #[trigger] spec_occurs_at(s.skip(1), pat, k);
                assert(s.subrange(k + 1, k + 1 + pat.len() as int) =~= s.skip(1).subrange(
                    k,
                    k + pat.len() as int,
                ));
                assert(spec_occurs_at(s, pat, k + 1));
            }
        }
        lemma_no_occurrence_unchanged(s.skip(1), pat, to);
        assert(seq![s[0]] + s.skip(1) =~= s);
    }
}

/// At the first occurrence of the pattern, substitution alters nothing
/// before it, puts the replacement in its place, and goes on behind it:
/// every occurrence is replaced and no other text is altered.
pub proof fn lemma_first_occurrence(s: Seq<char>, pat: Seq<char>, to: Seq<char>, k: int)
    requires
        pat.len() > 0,
        spec_occurs_at(s, pat, k),
        forall|j: int| 0 <= j < k ==> !spec_occurs_at(s, pat, j),
    ensures
        spec_replace(s, pat, to) == s.subrange(0, k) + to + spec_replace(
            s.skip(k + pat.len()),
            pat,
            to,
        ),
    decreases k,
{
    if k == 0 {
        assert(s.subrange(0, pat.len() as int) == pat);
        assert(s.subrange(0, 0) + to + spec_replace(s.skip(pat.len() as int), pat, to) =~= to
            + spec_replace(s.skip(pat.len() as int), pat, to));
    } else {
        assert(!spec_occurs_at(s, pat, 0));
        assert(s.len() >= pat.len()) by {
            assert(k + pat.len() <= s.len());
        }
        assert(s.subrange(0, pat.len() as int) != pat);
        assert(spec_replace(s, pat, to) == seq![s[0]] + spec_replace(s.skip(1), pat, to));
        assert(spec_occurs_at(s.skip(1), pat, k - 1)) by {
            assert(s.skip(1).subrange(k - 1, k - 1 + pat.len() as int) =~= s.subrange(
                k,
                k + pat.len() as int,
            ));
        }
        assert(forall|j: int| 0 <= j < k - 1 ==> !spec_occurs_at(s.skip(1), pat, j)) by {
            assert forall|j: int| 0 <= j < k - 1 implies !spec_occurs_at(s.skip(1), pat, j) by {
                if spec_occurs_at(s.skip(1), pat, j) {
                    assert(s.subrange(j + 1, j + 1 + pat.len() as int) =~= s.skip(1).subrange(
                        j,
                        j + pat.len() as int,
                    ));
                    assert(spec_occurs_at(s, pat, j + 1));
                }
            }
        }
        lemma_first_occurrence(s.skip(1), pat, to, k - 1);
        assert(s.skip(1).subrange(0, k - 1) =~= s.subrange(1, k));
        assert(s.skip(1).skip(k - 1 + pat.len()) =~= s.skip(k + pat.len()));
        assert(seq![s[0]] + (s.subrange(1, k) + to + spec_replace(s.skip(k + pat.len()), pat, to))
            =~= s.subrange(0, k) + to + spec_replace(s.skip(k + pat.len()), pat, to));
    }
}

/// Whether `pat` stands in `text` at character position `i`.
fn matches_at(text: &str, pat: &str, i: usize) -> (r: bool)
    requires
        i < text@.len(),
        pat@.len() > 0,
    ensures
        r == (i + pat@.len() <= text@.len() && text@.subrange(
            i as int,
            i + pat@.len(),
        ) == pat@),
{
    let n = text.unicode_len();
    let plen = pat.unicode_len();
    if n - i < plen {
        return false;
    }
    let mut j: usize = 0;
    while j < plen
        invariant
            n == text@.len(),
            plen == pat@.len(),
            i < n,
            plen <= n - i,
            j <= plen,
            forall|k: int| 0 <= k < j ==> text@[i + k] == pat@[k],
        decreases plen - j,
    {
        if text.get_char(i + j) != pat.get_char(j) {
            assert(text@.subrange(i as int, i + pat@.len())[j as int] == text@[i + j]);
            return false;
        }
        j += 1;
    }
    proof {
        assert(text@.subrange(i as int, i + pat@.len()) =~= pat@);
    }
    true
}

/// The text with every left-to-right occurrence of `pat` replaced by `to`,
/// exactly as [`spec_replace`] describes it.
pub fn replace_all(text: &str, pat: &str, to: &str) -> (r: String)
    ensures
        r@ == spec_replace(text@, pat@, to@),
{
    let n = text.unicode_len();
    let plen = pat.unicode_len();
    if plen == 0 {
        return text.to_owned();
    }
    let mut out = String::new();
    let mut i: usize = 0;
    proof {
        assert(text@.skip(0) =~= text@);
        assert(out@ + spec_replace(text@, pat@, to@) =~= spec_replace(text@, pat@, to@));
    }
    while i < n
        invariant
            n == text@.len(),
            plen == pat@.len(),
            plen > 0,
            i <= n,
            spec_replace(text@, pat@, to@) == out@ + spec_replace(text@.skip(i as int), pat@, to@),
        decreases n - i,
    {
        let ghost rest = text@.skip(i as int);
        if matches_at(text, pat, i) {
            proof {
                assert(rest.subrange(0, pat@.len() as int) =~= text@.subrange(
                    i as int,
                    i + pat@.len(),
                ));
                assert(rest.skip(pat@.len() as int) =~= text@.skip(i + pat@.len()));
                assert(spec_replace(rest, pat@, to@) == to@ + spec_replace(
                    text@.skip(i + pat@.len()),
                    pat@,
                    to@,
                ));
            }
            let ghost out0 = out@;
            out.append(to);
            proof {
                assert(out0 + (to@ + spec_replace(text@.skip(i + pat@.len()), pat@, to@)) =~= out@
                    + spec_replace(text@.skip(i + pat@.len()), pat@, to@));
            }
            i += plen;
        } else {
            proof {
                assert(rest[0] == text@[i as int]);
                assert(rest.skip(1) =~= text@.skip(i + 1));
                if rest.len() < pat@.len() {
                    assert(spec_replace(rest, pat@, to@) == rest);
                    assert(spec_replace(text@.skip(i + 1), pat@, to@) == text@.skip(i + 1));
                    assert(rest =~= seq![text@[i as int]] + text@.skip(i + 1));
                } else {
                    assert(rest.subrange(0, pat@.len() as int) =~= text@.subrange(
                        i as int,
                        i + pat@.len(),
                    ));
                }
                assert(spec_replace(rest, pat@, to@) == seq![text@[i as int]] + spec_replace(
                    text@.skip(i + 1),
                    pat@,
                    to@,
                ));
            }
            let piece = text.substring_char(i, i + 1);
            let ghost out0 = out@;
            out.append(piece);
            proof {
                assert(piece@ =~= seq![text@[i as int]]);
                assert(out0 + (seq![text@[i as int]] + spec_replace(text@.skip(i + 1), pat@, to@))
                    =~= out@ + spec_replace(text@.skip(i + 1), pat@, to@));
            }
            i += 1;
        }
    }
    proof {
        assert(text@.skip(n as int) =~= Seq::<char>::empty());
        assert(out@ + spec_replace(text@.skip(n as int), pat@, to@) =~= out@);
    }
    out
}

} // verus!
