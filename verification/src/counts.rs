//! The mathematical model of a transition graph: a map from each ordered pair
//! of punch kinds to the number of times that transition was seen, together
//! with the laws that the model obeys.

use crate::punch::PunchKind;
use vstd::prelude::*;

verus! {

/// Every ordered pair of punch kinds.
pub open spec fn all_pairs() -> Set<(PunchKind, PunchKind)> {
    Set::new(|pair: (PunchKind, PunchKind)| true)
}

/// The counts before anything was seen: every pair is there, with count 0.
pub open spec fn fresh() -> Map<(PunchKind, PunchKind), nat> {
    Map::new(|pair: (PunchKind, PunchKind)| true, |pair: (PunchKind, PunchKind)| 0nat)
}

/// The counts after one more transition from `first` to `next` was seen.
pub open spec fn observe(
    counts: Map<(PunchKind, PunchKind), nat>,
    first: PunchKind,
    next: PunchKind,
) -> Map<(PunchKind, PunchKind), nat> {
    counts.insert((first, next), counts[(first, next)] + 1)
}

/// What is known of the transition from `first` to `next` so far: nothing if
/// it was never seen, else how often it was.
pub open spec fn prior(
    counts: Map<(PunchKind, PunchKind), nat>,
    first: PunchKind,
    next: PunchKind,
) -> Option<nat> {
    if counts[(first, next)] == 0 {
        None
    } else {
        Some(counts[(first, next)])
    }
}

/// The counts after the transition from `first` to `next` was seen `times`
/// times in a row.
pub open spec fn observe_times(
    counts: Map<(PunchKind, PunchKind), nat>,
    first: PunchKind,
    next: PunchKind,
    times: nat,
) -> Map<(PunchKind, PunchKind), nat>
    decreases times,
{
    if times == 0 {
        counts
    } else {
        observe(observe_times(counts, first, next, (times - 1) as nat), first, next)
    }
}

spec fn kind_at(i: int) -> PunchKind {
    if i == 0 {
        PunchKind::Jab
    } else if i == 1 {
        PunchKind::Cross
    } else if i == 2 {
        PunchKind::LeadHook
    } else if i == 3 {
        PunchKind::RearHook
    } else if i == 4 {
        PunchKind::LeadUppercut
    } else {
        PunchKind::RearUppercut
    }
}

spec fn pair_at(i: int) -> (PunchKind, PunchKind) {
    (kind_at(i / 6), kind_at(i % 6))
}

/// There are exactly 36 ordered pairs of punch kinds.
pub proof fn lemma_thirty_six_pairs()
    ensures
        all_pairs().finite(),
        all_pairs().len() == 36,
{
    let pairs = Seq::new(36, |i: int| pair_at(i));
    assert(pairs.no_duplicates());
    assert forall|pair: (PunchKind, PunchKind)| pairs.contains(pair) by {
        let i = (pair.0.code() - 1) * 6 + (pair.1.code() - 1);
        assert(pairs[i] == pair);
    }
    assert(pairs.to_set() =~= all_pairs());
    pairs.unique_seq_to_set();
    vstd::seq_lib::seq_to_set_is_finite(pairs);
}

/// A fresh graph holds each of the 36 pairs, and no transition was seen yet.
pub proof fn lemma_fresh_is_complete_and_zero()
    ensures
        fresh().dom() == all_pairs(),
        fresh().dom().len() == 36,
        forall|first: PunchKind, next: PunchKind| #[trigger] fresh()[(first, next)] == 0,
        forall|first: PunchKind, next: PunchKind| #[trigger] prior(fresh(), first, next) is None,
{
    lemma_thirty_six_pairs();
    assert(fresh().dom() =~= all_pairs());
}

/// Seeing a transition leaves the set of pairs as it was. It adds one to the
/// count of the pair that was seen and changes no other count.
pub proof fn lemma_observe_keeps_pairs(
    counts: Map<(PunchKind, PunchKind), nat>,
    first: PunchKind,
    next: PunchKind,
)
    requires
        counts.dom() == all_pairs(),
    ensures
        observe(counts, first, next).dom() == counts.dom(),
        observe(counts, first, next)[(first, next)] == counts[(first, next)] + 1,
        forall|pair: (PunchKind, PunchKind)|
            pair != (first, next) ==> #[trigger] observe(counts, first, next)[pair] == counts[pair],
{
    assert(observe(counts, first, next).dom() =~= counts.dom());
}

/// Seeing one transition `times` times leaves the set of pairs as it was,
/// adds `times` to the count of that pair and changes no other count.
pub proof fn lemma_observe_times(
    counts: Map<(PunchKind, PunchKind), nat>,
    first: PunchKind,
    next: PunchKind,
    times: nat,
)
    requires
        counts.dom() == all_pairs(),
    ensures
        observe_times(counts, first, next, times).dom() == counts.dom(),
        observe_times(counts, first, next, times)[(first, next)] == counts[(first, next)] + times,
        forall|pair: (PunchKind, PunchKind)|
            pair != (first, next) ==> #[trigger] observe_times(counts, first, next, times)[pair]
                == counts[pair],
    decreases times,
{
    if times > 0 {
        let before = observe_times(counts, first, next, (times - 1) as nat);
        lemma_observe_times(counts, first, next, (times - 1) as nat);
        lemma_observe_keeps_pairs(before, first, next);
    }
}

/// On a fresh graph, after a transition was seen `k` times its count is `k`.
/// The `k`-th sighting finds nothing known of the transition if it is the
/// first one, and finds the count `k - 1` otherwise.
pub proof fn lemma_kth_observation(first: PunchKind, next: PunchKind, k: nat)
    requires
        k >= 1,
    ensures
        observe_times(fresh(), first, next, k)[(first, next)] == k,
        prior(observe_times(fresh(), first, next, (k - 1) as nat), first, next) == if k == 1 {
            None
        } else {
            Some((k - 1) as nat)
        },
{
    lemma_fresh_is_complete_and_zero();
    lemma_observe_times(fresh(), first, next, k);
    lemma_observe_times(fresh(), first, next, (k - 1) as nat);
}

} // verus!
