//! The Fisher-Yates pass over the positions `0..n`.
//!
//! A pass over `n` positions consumes one draw for every position from
//! `n - 1` down to `1`. The draw for position `i` names a position in
//! `0..=i`, and the values at the two positions change places. The first
//! draw belongs to the last position.

use rand::rngs::ThreadRng;
use vstd::prelude::*;
use crate::entropy::random_range;

verus! {

/// The positions `0..n` in ascending order.
pub open spec fn identity(n: nat) -> Seq<usize> {
    Seq::new(n, |i: int| i as usize)
}

/// `s` with the values at `i` and `j` exchanged.
pub open spec fn swapped<T>(s: Seq<T>, i: int, j: int) -> Seq<T>
    recommends
        0 <= i < s.len(),
        0 <= j < s.len(),
{
    s.update(i, s[j]).update(j, s[i])
}

/// The position that the draw with index `k` belongs to, in a pass over `n`
/// positions.
pub open spec fn target(n: nat, k: int) -> int {
    n - 1 - k
}

/// `draws` can drive a pass over `n` positions: there is one draw for each
/// position from `n - 1` down to `1`, and none of them exceeds its position.
pub open spec fn fits(n: nat, draws: Seq<usize>) -> bool {
    &&& draws.len() == if n == 0 { 0 } else { n - 1 }
    &&& forall|k: int| 0 <= k < draws.len() ==> #[trigger] draws[k] <= target(n, k)
}

/// The positions `0..n` after the first `steps` exchanges of a pass.
pub open spec fn shuffled_after(n: nat, draws: Seq<usize>, steps: nat) -> Seq<usize>
    decreases steps,
{
    if steps == 0 {
        identity(n)
    } else {
        let k = steps - 1;
        swapped(shuffled_after(n, draws, k as nat), target(n, k), draws[k] as int)
    }
}

/// The positions `0..n` after the whole pass.
pub open spec fn arrangement(n: nat, draws: Seq<usize>) -> Seq<usize> {
    shuffled_after(n, draws, draws.len())
}

/// `s` holds every position below `n` exactly once.
pub open spec fn is_permutation(s: Seq<usize>, n: nat) -> bool {
    &&& s.len() == n
    &&& s.no_duplicates()
    &&& forall|p: int| 0 <= p < s.len() ==> #[trigger] s[p] < n
    &&& forall|v: usize| v < n ==> #[trigger] s.contains(v)
}

/// The ascending order is a permutation.
pub proof fn lemma_identity_is_permutation(n: nat)
    requires
        n <= usize::MAX,
    ensures
        is_permutation(identity(n), n),
{
    let s = identity(n);
    assert forall|v: usize| v < n implies #[trigger] s.contains(v) by {
        assert(s[v as int] == v);
    }
}

/// An exchange of two positions keeps a permutation a permutation.
pub proof fn lemma_swapped_is_permutation(s: Seq<usize>, n: nat, i: int, j: int)
    requires
        is_permutation(s, n),
        0 <= i < n,
        0 <= j < n,
    ensures
        is_permutation(swapped(s, i, j), n),
{
    let t = swapped(s, i, j);
    assert forall|v: usize| v < n implies #[trigger] t.contains(v) by {
        assert(s.contains(v));
        let p = choose|p: int| 0 <= p < s.len() && s[p] == v;
        let q = if p == i {
            j
        } else if p == j {
            i
        } else {
            p
        };
        assert(t[q] == v);
    }
}

/// Every stage of a pass that `draws` fits is a permutation of `0..n`.
pub proof fn lemma_shuffled_is_permutation(n: nat, draws: Seq<usize>, steps: nat)
    requires
        n <= usize::MAX,
        fits(n, draws),
        steps <= draws.len(),
    ensures
        is_permutation(shuffled_after(n, draws, steps), n),
    decreases steps,
{
    if steps == 0 {
        lemma_identity_is_permutation(n);
    } else {
        let k = (steps - 1) as nat;
        lemma_shuffled_is_permutation(n, draws, k);
        assert(draws[k as int] <= target(n, k as int));
        lemma_swapped_is_permutation(
            shuffled_after(n, draws, k),
            n,
            target(n, k as int),
            draws[k as int] as int,
        );
    }
}

/// Takes from `rng` the draws of one pass over `n` positions: one for each
/// position from `n - 1` down to `1`, each between `0` and its position.
pub fn draw_swaps(rng: &mut ThreadRng, n: usize) -> (draws: Vec<usize>)
    ensures
        fits(n as nat, draws@),
{
    let mut draws: Vec<usize> = Vec::new();
    let mut i: usize = n;
    while i > 1
        invariant
            i <= n,
            n == 0 || i >= 1,
            draws@.len() == n - i,
            forall|k: int| 0 <= k < draws@.len() ==> #[trigger] draws@[k] <= target(n as nat, k),
        decreases i,
    {
        i = i - 1;
        let j: usize = random_range(rng, 0, i);
        draws.push(j);
    }
    draws
}

/// Tells whether `draws` can drive a pass over `n` positions.
pub fn draws_fit(n: usize, draws: &[usize]) -> (ok: bool)
    ensures
        ok == fits(n as nat, draws@),
{
    let expected: usize = if n == 0 {
        0
    } else {
        n - 1
    };
    if draws.len() != expected {
        return false;
    }
    let mut k: usize = 0;
    while k < draws.len()
        invariant
            k <= draws.len(),
            draws.len() + 1 == n || (n == 0 && draws.len() == 0),
            forall|m: int| 0 <= m < k ==> #[trigger] draws[m] <= target(n as nat, m),
        decreases draws.len() - k,
    {
        if draws[k] > n - 1 - k {
            assert(!(draws@[k as int] <= target(n as nat, k as int)));
            return false;
        }
        k = k + 1;
    }
    true
}

/// Runs the pass that `draws` describes over the positions `0..n`.
pub fn arrange(n: usize, draws: &[usize]) -> (order: Vec<usize>)
    requires
        fits(n as nat, draws@),
    ensures
        order@ == arrangement(n as nat, draws@),
        is_permutation(order@, n as nat),
{
    let mut order: Vec<usize> = Vec::new();
    let mut i: usize = 0;
    while i < n
        invariant
            i <= n,
            order@ == identity(i as nat),
        decreases n - i,
    {
        order.push(i);
        assert(order@ =~= identity((i + 1) as nat));
        i = i + 1;
    }
    let mut k: usize = 0;
    while k < draws.len()
        invariant
            k <= draws.len(),
            fits(n as nat, draws@),
            order@ == shuffled_after(n as nat, draws@, k as nat),
            order@.len() == n,
        decreases draws.len() - k,
    {
        let i: usize = n - 1 - k;
        let j: usize = draws[k];
        assert(draws@[k as int] <= target(n as nat, k as int));
        let at_i: usize = order[i];
        let at_j: usize = order[j];
        order.set(i, at_j);
        order.set(j, at_i);
        k = k + 1;
    }
    proof {
        lemma_shuffled_is_permutation(n as nat, draws@, draws@.len());
    }
    order
}

} // verus!
