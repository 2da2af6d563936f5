//! Shuffling by exchanges, each item in turn with one that is drawn from the
//! items not yet placed.

use crate::permutation::{
    identity, is_permutation, lemma_identity_permutes, lemma_permutation_reaches,
    lemma_swap_permutes, permuted_by, rearranged, swap_items, swapped,
};
use rand::rngs::ThreadRng;
use rand::Rng;
use vstd::prelude::*;

verus! {

/// The random number generator of this thread, of the crate `rand`. Its
/// inside is not looked at.
#[verifier::external_type_specification]
#[verifier::external_body]
pub struct ExThreadRng(ThreadRng);

/// `rand::rng` of the crate `rand`: a handle to the generator of this
/// thread. Nothing is claimed of it.
#[verifier::external_body]
pub(crate) fn thread_rng() -> ThreadRng {
    rand::rng()
}

/// `Rng::random` of the crate `rand`, for a `u64`. Nothing is claimed of the
/// number that comes back.
#[verifier::external_body]
pub(crate) fn random_u64(rng: &mut ThreadRng) -> u64 {
    rng.random()
}

/// The place with which place `i` of `n` is exchanged on a draw: `i` itself
/// or one of the places behind it.
pub open spec fn shuffle_target(draw: u64, i: int, n: int) -> int {
    i + (draw as int) % (n - i)
}

/// The sequence after the first `k` exchanges: place `0` with its target,
/// then place `1`, and so on.
pub open spec fn shuffled_upto<T>(s: Seq<T>, draws: Seq<u64>, k: nat) -> Seq<T>
    decreases k,
{
    if k == 0 {
        s
    } else {
        swapped(
            shuffled_upto(s, draws, (k - 1) as nat),
            k - 1,
            shuffle_target(draws[k - 1], k - 1, s.len() as int),
        )
    }
}

/// The sequence after all exchanges, one for each place.
pub open spec fn shuffled<T>(s: Seq<T>, draws: Seq<u64>) -> Seq<T> {
    shuffled_upto(s, draws, s.len())
}

/// Shuffles the items with the given draws, one for each place.
pub fn shuffle_with<T>(items: &mut Vec<T>, draws: &Vec<u64>)
    requires
        draws@.len() == old(items)@.len(),
    ensures
        final(items)@ == shuffled(old(items)@, draws@),
{
    let n = items.len();
    let mut i: usize = 0;
    while i < n
        invariant
            i <= n,
            items@.len() == n,
            old(items)@.len() == n,
            draws@.len() == n,
            items@ == shuffled_upto(old(items)@, draws@, i as nat),
        decreases n - i,
    {
        let span: u64 = (n - i) as u64;
        let offset: u64 = draws[i] % span;
        let j: usize = i + offset as usize;
        swap_items(items, i, j);
        i += 1;
    }
}

/// The first `k` exchanges only look at the first `k` draws.
pub proof fn lemma_shuffled_prefix<T>(s: Seq<T>, d1: Seq<u64>, d2: Seq<u64>, k: nat)
    requires
        forall|i: int| 0 <= i < k ==> d1[i] == d2[i],
    ensures
        shuffled_upto(s, d1, k) == shuffled_upto(s, d2, k),
    decreases k,
{
    if k > 0 {
        lemma_shuffled_prefix(s, d1, d2, (k - 1) as nat);
    }
}

/// Whatever is drawn, shuffling rearranges: the result holds the items of
/// the sequence, each as often as the sequence does.
pub proof fn lemma_shuffled_rearranges<T>(s: Seq<T>, draws: Seq<u64>, k: nat) -> (perm: Seq<int>)
    requires
        k <= s.len(),
    ensures
        permuted_by(s, perm, shuffled_upto(s, draws, k)),
        rearranged(s, shuffled_upto(s, draws, k)),
    decreases k,
{
    if k == 0 {
        lemma_identity_permutes(s);
        identity(s.len())
    } else {
        let before = lemma_shuffled_rearranges(s, draws, (k - 1) as nat);
        let n = s.len() as int;
        let j = shuffle_target(draws[k - 1], k - 1, n);
        assert(k - 1 <= j < n) by {
            vstd::arithmetic::div_mod::lemma_mod_bound(draws[k - 1] as int, n - (k - 1));
        }
        lemma_swap_permutes(s, before, shuffled_upto(s, draws, (k - 1) as nat), k - 1, j);
        swapped(before, k - 1, j)
    }
}

/// Every order can be drawn: for each rearrangement of a sequence there are
/// draws with which shuffling gives it.
pub proof fn lemma_shuffle_reaches<T>(s: Seq<T>, perm: Seq<int>, target: Seq<T>)
    requires
        permuted_by(s, perm, target),
        s.len() <= u64::MAX,
    ensures
        exists|draws: Seq<u64>| draws.len() == s.len() && shuffled(s, draws) == target,
{
    let (draws, reached) = lemma_shuffle_reaches_upto(s, perm, s.len());
    assert(reached =~= perm);
    assert(shuffled(s, draws) =~= target);
}

proof fn lemma_shuffle_reaches_upto<T>(s: Seq<T>, perm: Seq<int>, k: nat) -> (r: (
    Seq<u64>,
    Seq<int>,
))
    requires
        is_permutation(perm, s.len()),
        s.len() <= u64::MAX,
        k <= s.len(),
    ensures
        r.0.len() == s.len(),
        permuted_by(s, r.1, shuffled_upto(s, r.0, k)),
        forall|i: int| 0 <= i < k ==> r.1[i] == perm[i],
    decreases k,
{
    let n = s.len();
    if k == 0 {
        lemma_identity_permutes(s);
        (Seq::new(n, |i: int| 0u64), identity(n))
    } else {
        let (draws, places) = lemma_shuffle_reaches_upto(s, perm, (k - 1) as nat);
        let at = k - 1;
        let m = lemma_permutation_reaches(places, n, perm[at]);
        assert(m >= at) by {
            if m < at {
                assert(places[m] == perm[m]);
                assert(perm[m] != perm[at]);
            }
        }
        let draw = (m - at) as u64;
        let next = draws.update(at, draw);
        assert(shuffle_target(draw, at, n as int) == m) by {
            vstd::arithmetic::div_mod::lemma_small_mod((m - at) as nat, (n - at) as nat);
        }
        lemma_shuffled_prefix(s, draws, next, at as nat);
        lemma_swap_permutes(s, places, shuffled_upto(s, draws, at as nat), at, m);
        let moved = swapped(places, at, m);
        assert forall|i: int| 0 <= i < k implies moved[i] == perm[i] by {
            if i < at {
                assert(places[i] == perm[i]);
                assert(i != m);
            }
        }
        (next, moved)
    }
}

/// The target of each exchange is the place itself or a place behind it.
pub proof fn lemma_shuffle_target_bounds(draw: u64, i: int, n: int)
    requires
        0 <= i < n,
    ensures
        i <= shuffle_target(draw, i, n) < n,
{
    vstd::arithmetic::div_mod::lemma_mod_bound(draw as int, n - i);
}

/// An exchange leaves the places before it alone: what stands at a place
/// after the first `k` exchanges, `k` beyond the place, stands there for
/// good.
pub proof fn lemma_shuffled_settles<T>(s: Seq<T>, draws: Seq<u64>, k: nat, m: nat, place: int)
    requires
        0 <= place < k <= m <= s.len(),
    ensures
        shuffled_upto(s, draws, m).len() == s.len(),
        shuffled_upto(s, draws, m)[place] == shuffled_upto(s, draws, k)[place],
    decreases m,
{
    let perm = lemma_shuffled_rearranges(s, draws, m);
    if m > k {
        lemma_shuffled_settles(s, draws, k, (m - 1) as nat, place);
        lemma_shuffle_target_bounds(draws[m - 1], m - 1, s.len() as int);
    }
}

/// With items that are all different, an order is reached by one choice of
/// targets only: two runs that end in the same order have exchanged each
/// place with the same target. There are as many choices of targets as there
/// are orders, so a source that picks each target evenly picks each order
/// evenly.
pub proof fn lemma_shuffle_targets_unique<T>(s: Seq<T>, d1: Seq<u64>, d2: Seq<u64>)
    requires
        s.no_duplicates(),
        shuffled(s, d1) == shuffled(s, d2),
    ensures
        forall|i: int|
            0 <= i < s.len() ==> shuffle_target(d1[i], i, s.len() as int) == shuffle_target(
                d2[i],
                i,
                s.len() as int,
            ),
{
    lemma_shuffle_targets_agree(s, d1, d2, s.len());
}

proof fn lemma_shuffle_targets_agree<T>(s: Seq<T>, d1: Seq<u64>, d2: Seq<u64>, k: nat)
    requires
        s.no_duplicates(),
        shuffled(s, d1) == shuffled(s, d2),
        k <= s.len(),
    ensures
        shuffled_upto(s, d1, k) == shuffled_upto(s, d2, k),
        forall|i: int|
            0 <= i < k ==> shuffle_target(d1[i], i, s.len() as int) == shuffle_target(
                d2[i],
                i,
                s.len() as int,
            ),
    decreases k,
{
    if k > 0 {
        let n = s.len() as int;
        let at = k - 1;
        lemma_shuffle_targets_agree(s, d1, d2, at as nat);
        let before = shuffled_upto(s, d1, at as nat);
        let perm = lemma_shuffled_rearranges(s, d1, at as nat);
        let t1 = shuffle_target(d1[at], at, n);
        let t2 = shuffle_target(d2[at], at, n);
        lemma_shuffle_target_bounds(d1[at], at, n);
        lemma_shuffle_target_bounds(d2[at], at, n);
        lemma_shuffled_settles(s, d1, k, s.len(), at);
        lemma_shuffled_settles(s, d2, k, s.len(), at);
        assert(shuffled_upto(s, d1, k)[at] == before[t1]);
        assert(shuffled_upto(s, d2, k)[at] == before[t2]);
        assert(before[t1] == before[t2]);
        if t1 != t2 {
            assert(before[t1] == s[perm[t1]] && before[t2] == s[perm[t2]]);
            if t1 < t2 {
                assert(perm[t1] != perm[t2]);
            } else {
                assert(perm[t2] != perm[t1]);
            }
        }
    }
}

} // verus!
