//! The source of randomness and the permutations drawn from it.

use rand::rngs::ThreadRng;
use rand::Rng;
use vstd::prelude::*;

verus! {

/// `rand::rngs::ThreadRng`, the handle to the generator of the current thread.
/// Its state is hidden from proofs: nothing is known of the numbers it will give.
#[verifier::external_type_specification]
#[verifier::external_body]
pub struct ExThreadRng(ThreadRng);

/// Calls `rand::thread_rng`, which hands out the generator of the current thread.
/// Nothing is claimed of the handle. The call takes no input; it panics only
/// where the operating system gives the generator no seed.
#[verifier::external_body]
pub(crate) fn thread_rng() -> ThreadRng {
    rand::thread_rng()
}

/// Calls `Rng::gen_range` on the range `0..bound`. The range must not be empty,
/// since `gen_range` panics on an empty range; the number that comes back lies in
/// the range. Which number it is depends on the generator alone.
#[verifier::external_body]
pub(crate) fn random_below(rng: &mut ThreadRng, bound: usize) -> (r: usize)
    requires
        bound > 0,
    ensures
        r < bound,
{
    rng.gen_range(0..bound)
}

/// Whether `s` holds each of the numbers `0..s.len()` exactly once.
pub open spec fn is_permutation(s: Seq<usize>) -> bool {
    &&& forall|i: int| 0 <= i < s.len() ==> #[trigger] s[i] < s.len()
    &&& forall|i: int, j: int| 0 <= i < s.len() && 0 <= j < s.len() && s[i] == s[j] ==> i == j
    &&& forall|v: usize| v < s.len() ==> #[trigger] s.contains(v)
}

/// `s` with the entries at `i` and `j` exchanged.
pub open spec fn swapped(s: Seq<usize>, i: int, j: int) -> Seq<usize> {
    s.update(i, s[j]).update(j, s[i])
}

/// Whether draw `k` is at most `k + 1`, for every `k`: the draws that can steer
/// a shuffle of `draws.len() + 1` numbers.
pub open spec fn draws_in_range(draws: Seq<usize>) -> bool {
    forall|k: int| 0 <= k < draws.len() ==> #[trigger] draws[k] <= k + 1
}

/// The arrangement of `0..=draws.len()` that the draws lead to. Starting from the
/// single number 0, step `k` appends the number `k + 1` and exchanges it with the
/// entry at `draws[k]`. With draw `k` uniform in `0..=k + 1` every arrangement
/// is equally likely.
pub open spec fn arrangement(draws: Seq<usize>) -> Seq<usize>
    decreases draws.len(),
{
    if draws.len() == 0 {
        seq![0usize]
    } else {
        swapped(
            arrangement(draws.drop_last()).push(draws.len() as usize),
            draws.len() as int,
            draws.last() as int,
        )
    }
}

/// Exchanging two entries of a permutation gives a permutation.
pub proof fn lemma_swapped_is_permutation(s: Seq<usize>, i: int, j: int)
    requires
        is_permutation(s),
        0 <= i < s.len(),
        0 <= j < s.len(),
    ensures
        is_permutation(swapped(s, i, j)),
{
    let t = swapped(s, i, j);
    assert forall|v: usize| v < t.len() implies #[trigger] t.contains(v) by {
        assert(s.contains(v));
        let k = choose|k: int| 0 <= k < s.len() && s[k] == v;
        let k2 = if k == i {
            j
        } else if k == j {
            i
        } else {
            k
        };
        assert(t[k2] == v);
    }
}

/// Appending its own length to a permutation gives a permutation.
pub proof fn lemma_pushed_is_permutation(s: Seq<usize>)
    requires
        is_permutation(s),
        s.len() < usize::MAX,
    ensures
        is_permutation(s.push(s.len() as usize)),
{
    let t = s.push(s.len() as usize);
    assert forall|v: usize| v < t.len() implies #[trigger] t.contains(v) by {
        if v < s.len() {
            assert(s.contains(v));
            let k = choose|k: int| 0 <= k < s.len() && s[k] == v;
            assert(t[k] == v);
        } else {
            assert(t[s.len() as int] == v);
        }
    }
}

/// Whatever the draws, the arrangement they lead to is a permutation.
pub proof fn lemma_arrangement_is_permutation(draws: Seq<usize>)
    requires
        draws_in_range(draws),
        draws.len() < usize::MAX,
    ensures
        arrangement(draws).len() == draws.len() + 1,
        is_permutation(arrangement(draws)),
    decreases draws.len(),
{
    if draws.len() == 0 {
        assert(arrangement(draws)[0] == 0);
    } else {
        let shorter = draws.drop_last();
        lemma_arrangement_is_permutation(shorter);
        let before = arrangement(shorter);
        lemma_pushed_is_permutation(before);
        lemma_swapped_is_permutation(
            before.push(draws.len() as usize),
            draws.len() as int,
            draws.last() as int,
        );
    }
}

/// Arranges the numbers `0..=draws.len()` as the draws say.
pub fn permutation_from_draws(draws: &[usize]) -> (order: Vec<usize>)
    requires
        draws_in_range(draws@),
        draws.len() < usize::MAX,
    ensures
        order@ == arrangement(draws@),
        order@.len() == draws@.len() + 1,
        is_permutation(order@),
{
    let mut order: Vec<usize> = Vec::new();
    order.push(0);
    let mut k: usize = 0;
    assert(draws@.take(0) =~= Seq::<usize>::empty());
    while k < draws.len()
        invariant
            k <= draws.len(),
            draws.len() < usize::MAX,
            draws_in_range(draws@),
            order@ == arrangement(draws@.take(k as int)),
            order@.len() == k + 1,
        decreases draws.len() - k,
    {
        let j = draws[k];
        let ghost before = order@;
        order.push(k + 1);
        let moved = order[j];
        order[j] = k + 1;
        order[k + 1] = moved;
        proof {
            let upto = draws@.take(k + 1);
            assert(upto.drop_last() =~= draws@.take(k as int));
            assert(upto.last() == j);
            assert(order@ =~= swapped(before.push((k + 1) as usize), k + 1, j as int));
        }
        k += 1;
    }
    proof {
        assert(draws@.take(k as int) =~= draws@);
        lemma_arrangement_is_permutation(draws@);
    }
    order
}

/// A random arrangement of the numbers `0..n`, each arrangement equally likely.
pub fn random_permutation(rng: &mut ThreadRng, n: usize) -> (order: Vec<usize>)
    ensures
        order@.len() == n,
        is_permutation(order@),
{
    if n == 0 {
        return Vec::new();
    }
    let mut draws: Vec<usize> = Vec::new();
    let mut k: usize = 0;
    while k < n - 1
        invariant
            k <= n - 1,
            draws@.len() == k,
            draws_in_range(draws@),
        decreases n - 1 - k,
    {
        let j = random_below(rng, k + 2);
        draws.push(j);
        k += 1;
    }
    permutation_from_draws(draws.as_slice())
}

} // verus!
