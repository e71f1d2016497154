use vstd::prelude::*;
use vstd::string::StrSliceExecFns;
use vstd::string::StringExecFns;

verus! {

/// True when `pat` occurs in `t` starting at position `i`.
pub open spec fn match_at(t: Seq<char>, pat: Seq<char>, i: int) -> bool {
    0 <= i && i + pat.len() <= t.len() && t.subrange(i, i + pat.len()) == pat
}

/// True when `pat` occurs somewhere in `t`.
pub open spec fn contains_pat(t: Seq<char>, pat: Seq<char>) -> bool {
    exists|i: int| match_at(t, pat, i)
}

/// The text with every occurrence of `pat` replaced by `rep`, scanning
/// left to right and never rescanning replaced text; an empty pattern
/// replaces nothing. This is the meaning of one header patch rule.
pub open spec fn replaced(t: Seq<char>, pat: Seq<char>, rep: Seq<char>) -> Seq<char>
    decreases t.len(),
{
    if pat.len() == 0 || t.len() < pat.len() {
        t
    } else if t.subrange(0, pat.len() as int) == pat {
        rep + replaced(t.skip(pat.len() as int), pat, rep)
    } else {
        seq![t[0]] + replaced(t.skip(1), pat, rep)
    }
}

/// Does `pat` occur in `text` at position `i`?
fn pat_matches_at(text: &str, pat: &str, i: usize) -> (r: bool)
    requires
        i + pat@.len() <= text@.len(),
    ensures
        r == match_at(text@, pat@, i as int),
{
    let t_len = text.unicode_len();
    let p_len = pat.unicode_len();
    let mut j: usize = 0;
    while j < p_len
        invariant
            j <= p_len,
            p_len == pat@.len(),
            t_len == text@.len(),
            i + p_len <= text@.len(),
            forall|k: int| 0 <= k < j ==> text@[i + k] == pat@[k],
        decreases p_len - j,
    {
        if text.get_char(i + j) != pat.get_char(j) {
            assert(text@.subrange(i as int, i + pat@.len())[j as int] != pat@[j as int]);
            return false;
        }
        j = j + 1;
    }
    proof {
        assert(text@.subrange(i as int, i + pat@.len()) =~= pat@);
    }
    true
}

/// Every occurrence of `pat` in `text` replaced by `rep`, leftmost first;
/// a text without the pattern comes back unchanged.
pub fn replace_all(text: &str, pat: &str, rep: &str) -> (r: String)
    ensures
        r@ == replaced(text@, pat@, rep@),
        !contains_pat(text@, pat@) ==> r@ == text@,
{
    proof {
        if !contains_pat(text@, pat@) {
            lemma_replace_absent(text@, pat@, rep@);
        }
    }
    let t_len = text.unicode_len();
    let p_len = pat.unicode_len();
    if p_len == 0 {
        return String::from_str(text);
    }
    let mut out = String::new();
    let mut i: usize = 0;
    proof {
        assert(text@.skip(0) =~= text@);
        assert(Seq::<char>::empty() + replaced(text@, pat@, rep@) =~= replaced(
            text@,
            pat@,
            rep@,
        ));
    }
    while i < t_len
        invariant
            i <= t_len,
            t_len == text@.len(),
            p_len == pat@.len(),
            p_len > 0,
            out@ + replaced(text@.skip(i as int), pat@, rep@) == replaced(text@, pat@, rep@),
        decreases t_len - i,
    {
        let ghost rest = text@.skip(i as int);
        if p_len <= t_len - i && pat_matches_at(text, pat, i) {
            proof {
                assert(rest.subrange(0, pat@.len() as int) =~= text@.subrange(
                    i as int,
                    i + pat@.len(),
                ));
                assert(rest.skip(pat@.len() as int) =~= text@.skip(i + p_len));
                assert(out@ + (rep@ + replaced(text@.skip(i + p_len), pat@, rep@)) =~= (out@
                    + rep@) + replaced(text@.skip(i + p_len), pat@, rep@));
            }
            out.append(rep);
            i = i + p_len;
        } else {
            proof {
                assert(rest.skip(1) =~= text@.skip(i + 1));
                if p_len <= t_len - i {
                    assert(rest.subrange(0, pat@.len() as int) =~= text@.subrange(
                        i as int,
                        i + pat@.len(),
                    ));
                    assert(rest.subrange(0, pat@.len() as int) != pat@);
                } else {
                    assert(rest.len() < pat@.len());
                }
                assert(replaced(rest, pat@, rep@) == seq![text@[i as int]] + replaced(
                    text@.skip(i + 1),
                    pat@,
                    rep@,
                )) by {
                    if rest.len() < pat@.len() {
                        assert(replaced(rest, pat@, rep@) == rest);
                        assert(replaced(text@.skip(i + 1), pat@, rep@) == text@.skip(i + 1));
                        assert(rest =~= seq![text@[i as int]] + text@.skip(i + 1));
                    } else {
                        assert(rest[0] == text@[i as int]);
                    }
                }
                assert(out@ + (seq![text@[i as int]] + replaced(text@.skip(i + 1), pat@, rep@))
                    =~= (out@ + seq![text@[i as int]]) + replaced(text@.skip(i + 1), pat@, rep@));
            }
            let c = text.substring_char(i, i + 1);
            proof {
                assert(c@ =~= seq![text@[i as int]]);
            }
            out.append(c);
            i = i + 1;
        }
    }
    proof {
        assert(text@.skip(t_len as int) =~= Seq::<char>::empty());
        assert(replaced(Seq::<char>::empty(), pat@, rep@) =~= Seq::<char>::empty());
        assert(out@ =~= out@ + Seq::<char>::empty());
    }
    out
}

/// A text that does not contain the pattern is left exactly as it was:
/// applying a patch rule to an already patched file changes nothing.
pub proof fn lemma_replace_absent(t: Seq<char>, pat: Seq<char>, rep: Seq<char>)
    requires
        !contains_pat(t, pat),
    ensures
        replaced(t, pat, rep) == t,
    decreases t.len(),
{
    if pat.len() == 0 {
        assert(t.subrange(0, 0) =~= pat);
        assert(match_at(t, pat, 0));
    } else if t.len() < pat.len() {
    } else {
        assert(t.subrange(0, pat.len() as int) != pat) by {
            if t.subrange(0, pat.len() as int) == pat {
                assert(match_at(t, pat, 0));
            }
        }
        assert(!contains_pat(t.skip(1), pat)) by {
            if contains_pat(t.skip(1), pat) {
                let j = choose|j: int| match_at(t.skip(1), pat, j);
                assert(t.subrange(j + 1, j + 1 + pat.len()) =~= t.skip(1).subrange(
                    j,
                    j + pat.len(),
                ));
                assert(match_at(t, pat, j + 1));
            }
        }
        lemma_replace_absent(t.skip(1), pat, rep);
        assert(seq![t[0]] + t.skip(1) =~= t);
    }
}

/// Strip the verbatim-path prefix marker that appears in canonicalized
/// paths on one operating-system family, so the path stays usable by
/// tools that do not understand it.
pub fn windows_safe_path(path: &str) -> (r: String)
    ensures
        r@ == replaced(path@, "\\\\?\\"@, ""@),
{
    replace_all(path, "\\\\?\\", "")
}

} // verus!
