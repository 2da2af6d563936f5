//! Rearrangements of a sequence, told by the places that the items come
//! from.

use vstd::prelude::*;
use vstd::set_lib::{lemma_int_range, lemma_len_subset, lemma_subset_equality, set_int_range};

verus! {

/// `perm` names each of the places `0..n` once: it has `n` entries, each a
/// place below `n`, and no two the same.
pub open spec fn is_permutation(perm: Seq<int>, n: nat) -> bool {
    &&& perm.len() == n
    &&& forall|i: int| 0 <= i < n ==> 0 <= #[trigger] perm[i] < n
    &&& forall|i: int, j: int| 0 <= i < j < n ==> #[trigger] perm[i] != #[trigger] perm[j]
}

/// `after` holds the items of `before` in another order: the item at place
/// `i` of `after` is the one that stood at place `perm[i]` of `before`.
pub open spec fn permuted_by<T>(before: Seq<T>, perm: Seq<int>, after: Seq<T>) -> bool {
    &&& is_permutation(perm, before.len())
    &&& after.len() == before.len()
    &&& forall|i: int| 0 <= i < after.len() ==> #[trigger] after[i] == before[perm[i]]
}

/// `after` holds the items of `before`, each as often as `before` does, in
/// some order.
pub open spec fn rearranged<T>(before: Seq<T>, after: Seq<T>) -> bool {
    exists|perm: Seq<int>| permuted_by(before, perm, after)
}

/// The sequence with the items at two places exchanged.
pub open spec fn swapped<T>(s: Seq<T>, i: int, j: int) -> Seq<T> {
    s.update(i, s[j]).update(j, s[i])
}

/// The places `0..n` in their own order.
pub open spec fn identity(n: nat) -> Seq<int> {
    Seq::new(n, |i: int| i)
}

/// `<[T]>::swap` of the standard library on the items of a vector. Trusted:
/// the items at the two places are exchanged and all others stay; left out
/// are the places beyond the end, where it panics.
#[verifier::external_body]
pub(crate) fn swap_items<T>(v: &mut Vec<T>, i: usize, j: usize)
    requires
        i < old(v)@.len(),
        j < old(v)@.len(),
    ensures
        final(v)@ == swapped(old(v)@, i as int, j as int),
{
    v.swap(i, j)
}

/// Leaving every item in its place rearranges a sequence into itself.
pub proof fn lemma_identity_permutes<T>(s: Seq<T>)
    ensures
        permuted_by(s, identity(s.len()), s),
{
}

/// Exchanging two items of a rearrangement gives a rearrangement.
pub proof fn lemma_swap_permutes<T>(before: Seq<T>, perm: Seq<int>, after: Seq<T>, i: int, j: int)
    requires
        permuted_by(before, perm, after),
        0 <= i < after.len(),
        0 <= j < after.len(),
    ensures
        permuted_by(before, swapped(perm, i, j), swapped(after, i, j)),
{
    let p = swapped(perm, i, j);
    assert forall|a: int, b: int| 0 <= a < b < before.len() implies #[trigger] p[a]
        != #[trigger] p[b] by {
        let sa = if a == i {
            j
        } else if a == j {
            i
        } else {
            a
        };
        let sb = if b == i {
            j
        } else if b == j {
            i
        } else {
            b
        };
        assert(p[a] == perm[sa] && p[b] == perm[sb]);
        if sa < sb {
            assert(perm[sa] != perm[sb]);
        } else {
            assert(perm[sb] != perm[sa]);
        }
    }
}

/// Every place is named by a permutation: for each place below `n` there is
/// an entry that holds it.
pub proof fn lemma_permutation_reaches(perm: Seq<int>, n: nat, x: int) -> (m: int)
    requires
        is_permutation(perm, n),
        0 <= x < n,
    ensures
        0 <= m < n,
        perm[m] == x,
{
    let places = set_int_range(0, n as int);
    lemma_int_range(0, n as int);
    assert(perm.no_duplicates()) by {
        assert forall|i: int, j: int|
            0 <= i < perm.len() && 0 <= j < perm.len() && i != j implies perm[i] != perm[j] by {
            if i < j {
                assert(perm[i] != perm[j]);
            } else {
                assert(perm[j] != perm[i]);
            }
        }
    }
    perm.unique_seq_to_set();
    assert(perm.to_set().subset_of(places)) by {
        assert forall|v: int| perm.to_set().contains(v) implies places.contains(v) by {
            let i = choose|i: int| 0 <= i < perm.len() && perm[i] == v;
            assert(0 <= perm[i] < n);
        }
    }
    lemma_len_subset(perm.to_set(), places);
    lemma_subset_equality(perm.to_set(), places);
    assert(places.contains(x));
    assert(perm.to_set().contains(x));
    assert(perm.contains(x));
    choose|m: int| 0 <= m < perm.len() && perm[m] == x
}

} // verus!
