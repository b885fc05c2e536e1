//! Lexicographic order on integer keys, and the parallel stable sort that orders them.

use rayon::slice::ParallelSliceMut;
use std::cmp::Ordering;
use vstd::prelude::*;

verus! {

/// Strict lexicographic order on sequences of integers: a proper prefix comes first.
pub open spec fn lex_lt(a: Seq<u64>, b: Seq<u64>) -> bool
    decreases a.len(),
{
    if b.len() == 0 {
        false
    } else if a.len() == 0 {
        true
    } else if a[0] != b[0] {
        a[0] < b[0]
    } else {
        lex_lt(a.drop_first(), b.drop_first())
    }
}

/// The contents of each key.
pub open spec fn key_views(keys: Seq<Vec<u64>>) -> Seq<Seq<u64>> {
    keys.map_values(|v: Vec<u64>| v@)
}

/// `s` is in non-decreasing lexicographic order.
pub open spec fn lex_sorted(s: Seq<Seq<u64>>) -> bool {
    forall|i: int, j: int| 0 <= i < j < s.len() ==> !lex_lt(#[trigger] s[j], #[trigger] s[i])
}

/// `m` is a permutation of the positions `0..n`.
pub open spec fn is_index_perm(m: Seq<int>, n: int) -> bool {
    &&& m.len() == n
    &&& forall|i: int| 0 <= i < n ==> 0 <= #[trigger] m[i] < n
    &&& forall|i: int, j: int| 0 <= i < j < n ==> #[trigger] m[i] != #[trigger] m[j]
}

/// `a` holds the items of `b` rearranged: `a[i] == b[m[i]]` for a permutation `m`.
pub open spec fn is_rearrangement<T>(a: Seq<T>, b: Seq<T>) -> bool {
    exists|m: Seq<int>| #[trigger] is_index_perm(m, b.len() as int) && a.len() == b.len() && (
    forall|i: int| 0 <= i < a.len() ==> a[i] == b[m[i]])
}

/// Strict lexicographic order is irreflexive and asymmetric, and any two distinct keys are
/// ordered one way or the other.
pub proof fn lemma_lex_total(a: Seq<u64>, b: Seq<u64>)
    ensures
        !(lex_lt(a, b) && lex_lt(b, a)),
        a != b ==> (lex_lt(a, b) || lex_lt(b, a)),
        !lex_lt(a, a),
    decreases a.len(),
{
    if a.len() > 0 && b.len() > 0 && a[0] == b[0] {
        lemma_lex_total(a.drop_first(), b.drop_first());
        if a != b {
            assert(a.drop_first() != b.drop_first()) by {
                if a.drop_first() == b.drop_first() {
                    assert(a =~= seq![a[0]] + a.drop_first());
                    assert(b =~= seq![b[0]] + b.drop_first());
                }
            }
        }
    }
    if a.len() > 0 {
        lemma_lex_total(a.drop_first(), a.drop_first());
    }
    if a.len() == 0 && b.len() == 0 {
        assert(a =~= b);
    }
}

/// Strict lexicographic order is transitive.
pub proof fn lemma_lex_trans(a: Seq<u64>, b: Seq<u64>, c: Seq<u64>)
    requires
        lex_lt(a, b),
        lex_lt(b, c),
    ensures
        lex_lt(a, c),
    decreases a.len(),
{
    if a.len() > 0 && b.len() > 0 && c.len() > 0 && a[0] == b[0] && b[0] == c[0] {
        lemma_lex_trans(a.drop_first(), b.drop_first(), c.drop_first());
    }
}

/// Comparing two keys that agree on their first `i` entries comes down to their rests.
pub proof fn lemma_lex_skip(a: Seq<u64>, b: Seq<u64>, i: int)
    requires
        0 <= i <= a.len(),
        i <= b.len(),
        forall|k: int| 0 <= k < i ==> a[k] == b[k],
    ensures
        lex_lt(a, b) == lex_lt(a.subrange(i, a.len() as int), b.subrange(i, b.len() as int)),
    decreases i,
{
    if i > 0 {
        lemma_lex_skip(a.drop_first(), b.drop_first(), i - 1);
        assert(a.drop_first().subrange(i - 1, a.len() - 1) =~= a.subrange(i, a.len() as int));
        assert(b.drop_first().subrange(i - 1, b.len() - 1) =~= b.subrange(i, b.len() as int));
    } else {
        assert(a.subrange(0, a.len() as int) =~= a);
        assert(b.subrange(0, b.len() as int) =~= b);
    }
}

proof fn lemma_lex_skip_both(a: Seq<u64>, b: Seq<u64>, i: usize)
    requires
        i <= a.len(),
        i <= b.len(),
        forall|k: int| 0 <= k < i ==> a[k] == b[k],
    ensures
        lex_lt(a, b) == lex_lt(a.subrange(i as int, a.len() as int), b.subrange(i as int, b.len() as int)),
        lex_lt(b, a) == lex_lt(b.subrange(i as int, b.len() as int), a.subrange(i as int, a.len() as int)),
{
    lemma_lex_skip(a, b, i as int);
    lemma_lex_skip(b, a, i as int);
}

/// Three-way lexicographic comparison of two keys.
pub fn compare_keys(a: &Vec<u64>, b: &Vec<u64>) -> (res: Ordering)
    ensures
        (res == Ordering::Less) == lex_lt(a@, b@),
        (res == Ordering::Greater) == lex_lt(b@, a@),
        (res == Ordering::Equal) == (a@ == b@),
{
    proof {
        lemma_lex_total(a@, b@);
    }
    let mut i: usize = 0;
    while i < a.len() && i < b.len()
        invariant
            i <= a.len(),
            i <= b.len(),
            forall|k: int| 0 <= k < i ==> a@[k] == b@[k],
        decreases a.len() - i,
    {
        if a[i] < b[i] {
            proof {
                lemma_lex_skip_both(a@, b@, i);
            }
            return Ordering::Less;
        } else if a[i] > b[i] {
            proof {
                lemma_lex_skip_both(a@, b@, i);
            }
            return Ordering::Greater;
        }
        i = i + 1;
    }
    proof {
        lemma_lex_skip_both(a@, b@, i);
    }
    if i < b.len() {
        Ordering::Less
    } else if i < a.len() {
        Ordering::Greater
    } else {
        assert(a@ =~= b@);
        Ordering::Equal
    }
}

/// Sorts keys with `rayon`'s `par_sort_by`, comparing them with `compare_keys`.
/// `par_sort_by` is a stable merge sort: the result holds the same keys, and no key is placed
/// after one that compares greater than it.
#[verifier::external_body]
pub(crate) fn par_sort_keys(keys: &mut Vec<Vec<u64>>)
    ensures
        is_rearrangement(key_views(final(keys)@), key_views(old(keys)@)),
        lex_sorted(key_views(final(keys)@)),
{
    keys.par_sort_by(|a, b| compare_keys(a, b));
}

} // verus!
