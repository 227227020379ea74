//! The transition graph: for each ordered pair of punch kinds, how often the
//! second was seen to follow the first.

use crate::counts::{all_pairs, fresh, observe, prior};
use crate::punch::PunchKind;
use crate::weight::{Edge, Weight};
use core::marker::PhantomData;
use std::collections::HashMap;
use vstd::prelude::*;

verus! {

/// Where a pair's weight is kept in the table: the pairs are numbered from 0
/// to 35, row by row.
spec fn slot(first: PunchKind, next: PunchKind) -> u8 {
    ((first.code() - 1) * 6 + (next.code() - 1)) as u8
}

/// A complete directed graph whose edges are named by keys of type `K` and
/// labelled with values of type `E`. The labels are kept in a table under the
/// number of each key's slot.
///
/// The graph of punches, `Graph<(PunchKind, PunchKind), Weight>`, has an edge
/// for every ordered pair of punch kinds from the moment it is made, and
/// never gains or loses one.
#[derive(Debug)]
pub struct Graph<K, E: Edge> {
    nodes: HashMap<u8, E>,
    key: PhantomData<K>,
}

impl View for Graph<(PunchKind, PunchKind), Weight> {
    type V = Map<(PunchKind, PunchKind), nat>;

    /// The pairs whose slot is in the table, each with the count of its
    /// weight.
    closed spec fn view(&self) -> Map<(PunchKind, PunchKind), nat> {
        Map::new(
            |pair: (PunchKind, PunchKind)| self.nodes@.contains_key(slot(pair.0, pair.1)),
            |pair: (PunchKind, PunchKind)| self.nodes@[slot(pair.0, pair.1)]@,
        )
    }
}

impl Graph<(PunchKind, PunchKind), Weight> {
    /// The table holds the 36 slots of the pairs and nothing else.
    pub closed spec fn wf(&self) -> bool {
        self.nodes@.dom() =~= Set::new(|s: u8| s < 36)
    }

    /// A well-formed graph holds every ordered pair of punch kinds.
    pub proof fn lemma_complete(&self)
        requires
            self.wf(),
        ensures
            self@.dom() == all_pairs(),
    {
        assert(self@.dom() =~= all_pairs());
    }

    fn index(first: PunchKind, next: PunchKind) -> (i: u8)
        ensures
            i == slot(first, next),
            i < 36,
    {
        (first.as_u8() - 1) * 6 + (next.as_u8() - 1)
    }

    /// A graph in which every pair is present and no transition was seen yet.
    pub fn new() -> (graph: Self)
        ensures
            graph.wf(),
            graph@ == fresh(),
    {
        Self::default()
    }

    /// Records one transition from `first` to `next`: the pair's weight goes
    /// up by one, and nothing else changes. Returns what was known of the
    /// transition before: `None` if this is the first time it is seen, else
    /// the weight it had.
    pub fn insert(&mut self, first: &PunchKind, next: PunchKind) -> (seen: Option<Weight>)
        requires
            old(self).wf(),
            old(self)@[(*first, next)] < usize::MAX,
        ensures
            final(self).wf(),
            final(self)@ == observe(old(self)@, *first, next),
            final(self)@.dom() == old(self)@.dom(),
            prior(old(self)@, *first, next) == match seen {
                Some(weight) => Some(weight@),
                None => None,
            },
    {
        // Every pair has had its slot since the graph was made, so the
        // lookup cannot fail.
        let i: u8 = Self::index(*first, next);
        let prev_val = *self.nodes.get(&i).unwrap();
        self.nodes.insert(i, prev_val + 1);
        assert(self@ =~= observe(old(self)@, *first, next));
        assert(self@.dom() =~= old(self)@.dom());

        let zero = Weight::from(0);
        proof {
            Weight::lemma_view_injective(prev_val, zero);
        }
        if prev_val == zero {
            None
        } else {
            Some(prev_val)
        }
    }

    /// The weight of a pair. Every pair is present, so there always is one.
    pub fn get(&self, pair: &(PunchKind, PunchKind)) -> (found: Option<&Weight>)
        requires
            self.wf(),
        ensures
            found matches Some(weight) && weight@ == self@[*pair],
    {
        let i: u8 = Self::index(pair.0, pair.1);
        self.nodes.get(&i)
    }
}

impl Default for Graph<(PunchKind, PunchKind), Weight> {
    fn default() -> (graph: Self)
        ensures
            graph.wf(),
            graph@ == fresh(),
    {
        let punches = [
            PunchKind::Jab,
            PunchKind::Cross,
            PunchKind::LeadHook,
            PunchKind::RearHook,
            PunchKind::LeadUppercut,
            PunchKind::RearUppercut,
        ];

        let mut nodes: HashMap<u8, Weight> = HashMap::new();
        let mut row: usize = 0;
        while row < 6
            invariant
                row <= 6,
                punches@.len() == 6,
                forall|k: int| 0 <= k < 6 ==> (#[trigger] punches@[k]).code() == k + 1,
                nodes@.dom() =~= Set::new(|s: u8| s < 6 * row),
                forall|s: u8| s < 6 * row ==> (#[trigger] nodes@[s])@ == 0,
            decreases 6 - row,
        {
            let mut column: usize = 0;
            while column < 6
                invariant
                    row < 6,
                    column <= 6,
                    punches@.len() == 6,
                    forall|k: int| 0 <= k < 6 ==> (#[trigger] punches@[k]).code() == k + 1,
                    nodes@.dom() =~= Set::new(|s: u8| s < 6 * row + column),
                    forall|s: u8| s < 6 * row + column ==> (#[trigger] nodes@[s])@ == 0,
                decreases 6 - column,
            {
                let i: u8 = Self::index(punches[row], punches[column]);
                nodes.insert(i, Weight::new(0));
                column += 1;
            }
            row += 1;
        }

        let graph = Self { nodes, key: PhantomData };
        assert(graph@ =~= fresh());
        graph
    }
}

} // verus!
