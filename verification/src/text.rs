//! Verified text substitution: replacing every occurrence of a pattern in a
//! string, the primitive under prompt-template rendering.

use vstd::prelude::*;

verus! {

/// The text with every non-overlapping occurrence of `pat` replaced by `rep`,
/// scanning left to right. An empty pattern leaves the text unchanged.
pub open spec fn spec_replace(s: Seq<char>, pat: Seq<char>, rep: Seq<char>) -> Seq<char>
    decreases s.len(),
{
    if pat.len() == 0 || s.len() < pat.len() {
        s
    } else if s.subrange(0, pat.len() as int) == pat {
        rep + spec_replace(s.skip(pat.len() as int), pat, rep)
    } else {
        seq![s[0]] + spec_replace(s.skip(1), pat, rep)
    }
}

/// Whether the characters of `s` starting at `i` are exactly `pat`.
fn matches_at(s: &str, i: usize, n: usize, pat: &str, p: usize) -> (r: bool)
    requires
        n == s@.len(),
        p == pat@.len(),
        i + p <= n,
    ensures
        r == (s@.subrange(i as int, i + p) == pat@),
{
    let mut j: usize = 0;
    while j < p
        invariant
            n == s@.len(),
            p == pat@.len(),
            i + p <= n,
            j <= p,
            forall|k: int| 0 <= k < j ==> s@[i + k] == pat@[k],
        decreases p - j,
    {
        if s.get_char(i + j) != pat.get_char(j) {
            proof {
                assert(s@.subrange(i as int, i + p)[j as int] == s@[i + j]);
            }
            return false;
        }
        j += 1;
    }
    proof {
        assert(s@.subrange(i as int, i + p) =~= pat@);
    }
    true
}

/// Every occurrence of `pat` in `s` replaced by `rep`, left to right.
pub fn replace_all(s: &str, pat: &str, rep: &str) -> (r: String)
    ensures
        r@ == spec_replace(s@, pat@, rep@),
{
    let n = s.unicode_len();
    let p = pat.unicode_len();
    let mut out = String::new();
    let mut i: usize = 0;
    proof {
        assert(s@.skip(0) =~= s@);
        assert(out@ + spec_replace(s@, pat@, rep@) =~= spec_replace(s@, pat@, rep@));
    }
    while i < n
        invariant
            n == s@.len(),
            p == pat@.len(),
            i <= n,
            out@ + spec_replace(s@.skip(i as int), pat@, rep@) == spec_replace(s@, pat@, rep@),
        decreases n - i,
    {
        if p != 0 && p <= n - i && matches_at(s, i, n, pat, p) {
            proof {
                assert(s@.skip(i as int).subrange(0, p as int) =~= s@.subrange(
                    i as int,
                    i + p,
                ));
                assert(s@.skip(i as int).skip(p as int) =~= s@.skip(i + p));
            }
            out.append(rep);
            i += p;
        } else {
            proof {
                if p != 0 && p <= n - i {
                    assert(s@.skip(i as int).subrange(0, p as int) =~= s@.subrange(
                        i as int,
                        i + p,
                    ));
                }
                assert(s@.skip(i as int) =~= seq![s@[i as int]] + s@.skip(i + 1));
                assert(s@.skip(i as int).skip(1) =~= s@.skip(i + 1));
                assert(s@.subrange(i as int, i + 1) =~= seq![s@[i as int]]);
            }
            out.append(s.substring_char(i, i + 1));
            i += 1;
        }
    }
    proof {
        assert(s@.skip(n as int) =~= Seq::<char>::empty());
        assert(out@ + Seq::<char>::empty() =~= out@);
    }
    out
}

} // verus!
