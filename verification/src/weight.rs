//! Edge labels, and the counter that labels a transition.

use core::cmp::Ordering;
use core::ops::{Add, AddAssign};
use vstd::prelude::*;

verus! {

/// Marks a type whose values can label the edges of a [`Graph`](crate::Graph).
pub trait Edge {

}

/// How many times a transition has been seen. Weights are ordered and
/// compared by that count.
#[derive(Debug, Clone, Copy, PartialEq, Eq, Ord, Structural)]
pub struct Weight(usize);

impl Edge for Weight {

}

impl View for Weight {
    type V = nat;

    /// The count that the weight stands for.
    closed spec fn view(&self) -> nat {
        self.0 as nat
    }
}

impl Weight {
    /// The weight of a transition seen `weight` times.
    pub fn new(weight: usize) -> (w: Self)
        ensures
            w@ == weight,
    {
        Self(weight)
    }

    /// The count as a machine integer.
    pub fn as_usize(self) -> (count: usize)
        ensures
            count == self@,
    {
        self.0
    }

    /// A weight is nothing but its count: two weights are equal exactly when
    /// their counts are, and every count fits a machine integer.
    pub proof fn lemma_view_injective(a: Weight, b: Weight)
        ensures
            a@ == b@ <==> a == b,
            a@ <= usize::MAX,
    {
    }
}

impl PartialOrd for Weight {
    fn partial_cmp(&self, other: &Weight) -> (order: Option<Ordering>) {
        if self.0 < other.0 {
            Some(Ordering::Less)
        } else if self.0 > other.0 {
            Some(Ordering::Greater)
        } else {
            Some(Ordering::Equal)
        }
    }
}

impl vstd::std_specs::cmp::PartialOrdSpecImpl for Weight {
    open spec fn obeys_partial_cmp_spec() -> bool {
        true
    }

    /// Weights are totally ordered, by their counts.
    open spec fn partial_cmp_spec(&self, other: &Weight) -> Option<Ordering> {
        if self@ < other@ {
            Some(Ordering::Less)
        } else if self@ > other@ {
            Some(Ordering::Greater)
        } else {
            Some(Ordering::Equal)
        }
    }
}

impl vstd::std_specs::convert::FromSpecImpl<usize> for Weight {
    open spec fn obeys_from_spec() -> bool {
        true
    }

    closed spec fn from_spec(weight: usize) -> Weight {
        Weight(weight)
    }
}

impl From<usize> for Weight {
    fn from(weight: usize) -> (w: Weight)
        ensures
            w@ == weight,
    {
        Weight::new(weight)
    }
}

impl vstd::std_specs::ops::AddSpecImpl<Weight> for Weight {
    open spec fn obeys_add_spec() -> bool {
        true
    }

    /// The sum has to fit a machine integer.
    open spec fn add_req(self, rhs: Weight) -> bool {
        self@ + rhs@ <= usize::MAX
    }

    closed spec fn add_spec(self, rhs: Weight) -> Weight {
        Weight((self.0 + rhs.0) as usize)
    }
}

impl Add<Weight> for Weight {
    type Output = Weight;

    fn add(self, rhs: Weight) -> (sum: Weight)
        ensures
            sum@ == self@ + rhs@,
    {
        self + rhs.0
    }
}

impl vstd::std_specs::ops::AddSpecImpl<usize> for Weight {
    open spec fn obeys_add_spec() -> bool {
        true
    }

    /// The sum has to fit a machine integer.
    open spec fn add_req(self, rhs: usize) -> bool {
        self@ + rhs <= usize::MAX
    }

    closed spec fn add_spec(self, rhs: usize) -> Weight {
        Weight((self.0 + rhs) as usize)
    }
}

impl Add<usize> for Weight {
    type Output = Weight;

    fn add(self, rhs: usize) -> (sum: Weight)
        ensures
            sum@ == self@ + rhs,
    {
        let sum: usize = self.0 + rhs;
        Self::from(sum)
    }
}

impl AddAssign<Weight> for Weight {
    fn add_assign(&mut self, rhs: Weight)
        requires
            old(self)@ + rhs@ <= usize::MAX,
        ensures
            final(self)@ == old(self)@ + rhs@,
    {
        self.add_assign(rhs.0);
    }
}

impl AddAssign<usize> for Weight {
    fn add_assign(&mut self, rhs: usize)
        requires
            old(self)@ + rhs <= usize::MAX,
        ensures
            final(self)@ == old(self)@ + rhs,
    {
        let sum: usize = self.0 + rhs;
        *self = Self::from(sum);
    }
}

} // verus!
