//! Sorted name lists: the listing commands enumerate definition names and
//! present them in lexicographic order.

use vstd::prelude::*;
use vstd::seq_lib::group_to_multiset_ensures;
use crate::strutil::lemma_lex_le_total;
use crate::strutil::lemma_lex_le_trans;
use crate::strutil::lex_le;
use crate::strutil::str_lex_le;

verus! {

/// The names are in lexicographic order.
pub open spec fn lex_sorted(s: Seq<Seq<char>>) -> bool {
    forall|i: int, j: int| 0 <= i < j < s.len() ==> lex_le(#[trigger] s[i], #[trigger] s[j])
}

/// Where `x` belongs in a sorted list: the index of the first entry that
/// does not precede it.
fn insertion_point(out: &Vec<String>, x: &String) -> (p: usize)
    ensures
        p <= out@.len(),
        forall|j: int| 0 <= j < p ==> lex_le(#[trigger] out.deep_view()[j], x@),
        p < out@.len() ==> !lex_le(out.deep_view()[p as int], x@),
{
    let n = out.len();
    let mut p: usize = 0;
    while p < n
        invariant
            p <= n,
            n == out@.len(),
            forall|j: int| 0 <= j < p ==> lex_le(#[trigger] out.deep_view()[j], x@),
        decreases n - p,
    {
        if !str_lex_le(out[p].as_str(), x.as_str()) {
            proof {
                assert(out.deep_view()[p as int] == out@[p as int]@);
            }
            return p;
        }
        proof {
            assert(out.deep_view()[p as int] == out@[p as int]@);
        }
        p = p + 1;
    }
    p
}

/// The names sorted lexicographically: the result is ordered and holds
/// exactly the given names.
pub fn sort_names(v: Vec<String>) -> (r: Vec<String>)
    ensures
        lex_sorted(r.deep_view()),
        r@.to_multiset() == v@.to_multiset(),
{
    broadcast use group_to_multiset_ensures;

    let ghost total = v@.to_multiset();
    let mut out: Vec<String> = Vec::new();
    let mut rest = v;
    proof {
        assert(out@.to_multiset().add(rest@.to_multiset()) =~= total);
    }
    while rest.len() > 0
        invariant
            lex_sorted(out.deep_view()),
            out@.to_multiset().add(rest@.to_multiset()) == total,
        decreases rest@.len(),
    {
        let ghost old_out = out@;
        let ghost old_rest = rest@;
        let x = rest.remove(0);
        proof {
            assert(x == old_rest[0]);
            old_rest.to_multiset_ensures();
            assert(rest@ == old_rest.remove(0));
            assert(old_rest.remove(0).to_multiset() =~= old_rest.to_multiset().remove(x));
            assert(old_rest.contains(x));
            assert(old_rest.to_multiset().count(x) > 0);
        }
        let p = insertion_point(&out, &x);
        let ghost xval = x;
        let ghost xv = x@;
        let ghost old_dv = out.deep_view();
        out.insert(p, x);
        proof {
            // The inserted list is sorted: entries before the insertion
            // point precede x, and x precedes the entry it displaced, hence
            // by transitivity everything after it.
            assert(forall|k: int| 0 <= k < old_out.len() ==> #[trigger] old_dv[k] == old_out[k]@);
            assert forall|i: int, j: int|
                0 <= i < j < out.deep_view().len() implies lex_le(
                #[trigger] out.deep_view()[i],
                #[trigger] out.deep_view()[j],
            ) by {
                let dv = out.deep_view();
                assert(dv.len() == old_dv.len() + 1);
                assert(forall|k: int| 0 <= k < p ==> #[trigger] dv[k] == old_dv[k]);
                assert(dv[p as int] == xv);
                assert(forall|k: int| p < k < dv.len() ==> #[trigger] dv[k] == old_dv[k - 1]);
                if i < p && j == p {
                    assert(lex_le(dv[i], dv[j]));
                } else if i < p && j > p {
                    assert(lex_le(old_dv[i], old_dv[j - 1]));
                } else if i == p && j > p {
                    assert(!lex_le(old_dv[p as int], xv));
                    lemma_lex_le_total(old_dv[p as int], xv);
                    assert(lex_le(xv, old_dv[p as int]));
                    if j - 1 > p {
                        assert(lex_le(old_dv[p as int], old_dv[j - 1]));
                        lemma_lex_le_trans(xv, old_dv[p as int], old_dv[j - 1]);
                    }
                } else if j < p {
                    assert(lex_le(old_dv[i], old_dv[j]));
                } else if i > p {
                    assert(lex_le(old_dv[i - 1], old_dv[j - 1]));
                }
            }
            // The inserted list holds the old entries plus x.
            out@.to_multiset_ensures();
            assert(out@.remove(p as int) =~= old_out);
            assert(out@.remove(p as int).to_multiset() =~= out@.to_multiset().remove(
                out@[p as int],
            ));
            assert(out@[p as int] == xval);
            assert(out@.contains(xval));
            assert(out@.to_multiset().count(xval) > 0);
            assert(out@.to_multiset() =~= old_out.to_multiset().insert(xval));
            assert(out@.to_multiset().add(rest@.to_multiset()) =~= total);
        }
    }
    proof {
        assert(rest@ =~= Seq::<String>::empty());
        assert forall|a: String| out@.to_multiset().count(a) == total.count(a) by {
            rest@.to_multiset_ensures();
            assert(!rest@.contains(a));
            assert(rest@.to_multiset().count(a) == 0);
        }
        assert(out@.to_multiset() =~= total);
    }
    out
}

} // verus!
