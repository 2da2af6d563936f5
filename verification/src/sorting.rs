//! Stable ordering of a sequence by a pair of texts for each item.

use crate::permutation::{
    identity, is_permutation, lemma_permutation_reaches, lemma_swap_permutes, permuted_by,
    swap_items, swapped,
};
use crate::text::{
    le, lemma_lex_le_antisymmetric, lemma_lex_le_reflexive, lemma_lex_le_total,
    lemma_lex_le_transitive, lex_le,
};
use vstd::prelude::*;

verus! {

/// The texts by which an item is ordered: by the first, and among items with
/// the same first text by the second.
#[derive(Debug)]
pub struct SortKey {
    pub primary: String,
    pub secondary: String,
}

impl View for SortKey {
    type V = (Seq<char>, Seq<char>);

    open spec fn view(&self) -> (Seq<char>, Seq<char>) {
        (self.primary@, self.secondary@)
    }
}

/// The keys of a sequence of keys as values.
pub open spec fn key_views(keys: Seq<SortKey>) -> Seq<(Seq<char>, Seq<char>)> {
    keys.map_values(|k: SortKey| k@)
}

/// The order of the keys: by the first text in dictionary order, and for the
/// same first text by the second.
pub open spec fn key_le(a: (Seq<char>, Seq<char>), b: (Seq<char>, Seq<char>)) -> bool {
    if a.0 == b.0 {
        lex_le(a.1, b.1)
    } else {
        lex_le(a.0, b.0)
    }
}

/// The item at place `x` has to stand before the item at place `y`: its key
/// is the smaller one, or the keys are equal and it stood first.
pub open spec fn precedes(keys: Seq<(Seq<char>, Seq<char>)>, x: int, y: int) -> bool {
    if keys[x] == keys[y] {
        x < y
    } else {
        key_le(keys[x], keys[y])
    }
}

/// `after` is `before` in the order of the keys, where `keys[i]` is the key
/// of `before[i]` and `perm` tells for each place of `after` the place in
/// `before` that its item comes from: keys never fall from one place to the
/// next, and items with equal keys stand in the order in which they stood.
pub open spec fn sorted_stably<T>(
    before: Seq<T>,
    keys: Seq<(Seq<char>, Seq<char>)>,
    perm: Seq<int>,
    after: Seq<T>,
) -> bool {
    &&& keys.len() == before.len()
    &&& permuted_by(before, perm, after)
    &&& forall|i: int, j: int|
        0 <= i < j < perm.len() ==> precedes(keys, #[trigger] perm[i], #[trigger] perm[j])
}

/// Of two keys one comes before or beside the other.
pub proof fn lemma_key_le_total(a: (Seq<char>, Seq<char>), b: (Seq<char>, Seq<char>))
    ensures
        key_le(a, b) || key_le(b, a),
{
    lemma_lex_le_total(a.0, b.0);
    lemma_lex_le_total(a.1, b.1);
}

/// Every key comes before or beside itself.
pub proof fn lemma_key_le_reflexive(a: (Seq<char>, Seq<char>))
    ensures
        key_le(a, a),
{
    lemma_lex_le_reflexive(a.1);
}

/// Two keys that come before or beside each other are the same key.
pub proof fn lemma_key_le_antisymmetric(a: (Seq<char>, Seq<char>), b: (Seq<char>, Seq<char>))
    requires
        key_le(a, b),
        key_le(b, a),
    ensures
        a == b,
{
    if a.0 == b.0 {
        lemma_lex_le_antisymmetric(a.1, b.1);
    } else {
        lemma_lex_le_antisymmetric(a.0, b.0);
    }
}

/// The order of the keys is transitive.
pub proof fn lemma_key_le_transitive(
    a: (Seq<char>, Seq<char>),
    b: (Seq<char>, Seq<char>),
    c: (Seq<char>, Seq<char>),
)
    requires
        key_le(a, b),
        key_le(b, c),
    ensures
        key_le(a, c),
{
    if a.0 == b.0 && b.0 == c.0 {
        lemma_lex_le_transitive(a.1, b.1, c.1);
    } else if a.0 != b.0 && b.0 != c.0 {
        lemma_lex_le_transitive(a.0, b.0, c.0);
        if a.0 == c.0 {
            lemma_lex_le_antisymmetric(a.0, b.0);
        }
    }
}

/// Of two places at most one has to stand before the other.
pub proof fn lemma_precedes_asymmetric(keys: Seq<(Seq<char>, Seq<char>)>, x: int, y: int)
    requires
        precedes(keys, x, y),
    ensures
        !precedes(keys, y, x),
{
    if keys[x] != keys[y] && key_le(keys[y], keys[x]) {
        lemma_key_le_antisymmetric(keys[x], keys[y]);
    }
}

/// The order in which a sequence is to be put is the same for every way of
/// getting there: two results of ordering one sequence by the same keys are
/// the same, item by item and place by place.
pub proof fn lemma_sorted_stably_unique<T>(
    before: Seq<T>,
    keys: Seq<(Seq<char>, Seq<char>)>,
    perm1: Seq<int>,
    after1: Seq<T>,
    perm2: Seq<int>,
    after2: Seq<T>,
)
    requires
        sorted_stably(before, keys, perm1, after1),
        sorted_stably(before, keys, perm2, after2),
    ensures
        perm1 == perm2,
        after1 == after2,
{
    let n = before.len();
    assert forall|i: int| 0 <= i < n implies perm1[i] == perm2[i] by {
        lemma_sorted_agree(keys, perm1, perm2, n, i);
    }
    assert(perm1 =~= perm2);
    assert(after1 =~= after2);
}

proof fn lemma_sorted_agree(
    keys: Seq<(Seq<char>, Seq<char>)>,
    perm1: Seq<int>,
    perm2: Seq<int>,
    n: nat,
    k: int,
)
    requires
        is_permutation(perm1, n),
        is_permutation(perm2, n),
        forall|i: int, j: int|
            0 <= i < j < n ==> precedes(keys, #[trigger] perm1[i], #[trigger] perm1[j]),
        forall|i: int, j: int|
            0 <= i < j < n ==> precedes(keys, #[trigger] perm2[i], #[trigger] perm2[j]),
        0 <= k < n,
    ensures
        perm1[k] == perm2[k],
    decreases k,
{
    let x = perm1[k];
    let y = perm2[k];
    if x != y {
        let m = lemma_permutation_reaches(perm2, n, x);
        let l = lemma_permutation_reaches(perm1, n, y);
        if m < k {
            lemma_sorted_agree(keys, perm1, perm2, n, m);
            assert(perm1[m] != perm1[k]);
        }
        if l < k {
            lemma_sorted_agree(keys, perm1, perm2, n, l);
            assert(perm2[l] != perm2[k]);
        }
        assert(precedes(keys, perm2[k], perm2[m]));
        assert(precedes(keys, perm1[k], perm1[l]));
        lemma_precedes_asymmetric(keys, x, y);
    }
}

/// Tells whether one key comes before or beside another.
pub fn key_before_or_equal(a: &SortKey, b: &SortKey) -> (r: bool)
    ensures
        r == key_le(a@, b@),
{
    if a.primary == b.primary {
        le(a.secondary.as_str(), b.secondary.as_str())
    } else {
        le(a.primary.as_str(), b.primary.as_str())
    }
}

/// Puts the items in the order of their keys, where `keys[i]` is the key of
/// the item at place `i`. Items with equal keys keep their order.
pub fn sort_by_keys<T>(items: &mut Vec<T>, keys: Vec<SortKey>)
    requires
        keys@.len() == old(items)@.len(),
    ensures
        exists|perm: Seq<int>| sorted_stably(old(items)@, key_views(keys@), perm, final(items)@),
{
    let mut ks = keys;
    let ghost keys0 = key_views(ks@);
    let ghost before = items@;
    let n = items.len();
    let ghost mut perm = identity(n as nat);
    let mut i: usize = 0;
    while i < n
        invariant
            i <= n,
            items@.len() == n,
            ks@.len() == n,
            keys0.len() == n,
            before.len() == n,
            keys0 == key_views(keys@),
            before == old(items)@,
            permuted_by(before, perm, items@),
            forall|k: int| 0 <= k < n ==> (#[trigger] ks@[k])@ == keys0[perm[k]],
            forall|k: int| i <= k < n ==> #[trigger] perm[k] == k,
            forall|k: int| 0 <= k < i ==> #[trigger] perm[k] < i,
            forall|a: int, b: int|
                0 <= a < b < i ==> precedes(keys0, #[trigger] perm[a], #[trigger] perm[b]),
        decreases n - i,
    {
        let mut j: usize = i;
        let mut sinking = true;
        while j > 0 && sinking
            invariant
                j <= i < n,
                items@.len() == n,
                ks@.len() == n,
                keys0.len() == n,
                before.len() == n,
                permuted_by(before, perm, items@),
                forall|k: int| 0 <= k < n ==> (#[trigger] ks@[k])@ == keys0[perm[k]],
                forall|k: int| i < k < n ==> #[trigger] perm[k] == k,
                perm[j as int] == i,
                forall|k: int| 0 <= k <= i && k != j ==> #[trigger] perm[k] < i,
                forall|a: int, b: int|
                    0 <= a < b <= i && a != j && b != j ==> precedes(
                        keys0,
                        #[trigger] perm[a],
                        #[trigger] perm[b],
                    ),
                forall|b: int| j < b <= i ==> precedes(keys0, perm[j as int], #[trigger] perm[b]),
                !sinking ==> j > 0 && key_le(keys0[perm[j - 1]], keys0[perm[j as int]]),
            decreases
                    j + (if sinking {
                        1int
                    } else {
                        0int
                    }),
        {
            if key_before_or_equal(&ks[j - 1], &ks[j]) {
                sinking = false;
            } else {
                proof {
                    lemma_swap_permutes(before, perm, items@, j - 1, j as int);
                    lemma_key_le_total(keys0[perm[j - 1]], keys0[perm[j as int]]);
                    assert(precedes(keys0, perm[j as int], perm[j - 1]));
                }
                swap_items(items, j - 1, j);
                swap_items(&mut ks, j - 1, j);
                proof {
                    perm = swapped(perm, j - 1, j as int);
                }
                j -= 1;
            }
        }
        proof {
            let at = j as int;
            assert forall|a: int, b: int| 0 <= a < b < i + 1 implies precedes(
                keys0,
                #[trigger] perm[a],
                #[trigger] perm[b],
            ) by {
                if b == at {
                    assert(perm[a] < i);
                    if a < at - 1 {
                        assert(precedes(keys0, perm[a], perm[at - 1]));
                    }
                    lemma_key_le_reflexive(keys0[perm[a]]);
                    lemma_key_le_transitive(
                        keys0[perm[a]],
                        keys0[perm[at - 1]],
                        keys0[perm[at]],
                    );
                }
            }
            assert forall|k: int| 0 <= k < i + 1 implies #[trigger] perm[k] < i + 1 by {
                if k != at {
                    assert(perm[k] < i);
                }
            }
        }
        i += 1;
    }
    assert(sorted_stably(before, keys0, perm, items@));
}

} // verus!
