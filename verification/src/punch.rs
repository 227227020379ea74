//! Punch kinds, their one-byte codes, and combos of punches.

use vstd::prelude::*;

verus! {

/// The six kinds of punch. The set is closed: every transition the crate
/// records runs from one of these to one of these.
#[derive(Debug, Clone, Copy, PartialEq, Eq, Hash, Structural)]
pub enum PunchKind {
    Jab,
    Cross,
    LeadHook,
    RearHook,
    LeadUppercut,
    RearUppercut,
}

impl PunchKind {
    /// The code that stands for a punch outside the program: the kinds are
    /// numbered from 1 in the order of their declaration.
    pub open spec fn code(self) -> u8 {
        match self {
            PunchKind::Jab => 1,
            PunchKind::Cross => 2,
            PunchKind::LeadHook => 3,
            PunchKind::RearHook => 4,
            PunchKind::LeadUppercut => 5,
            PunchKind::RearUppercut => 6,
        }
    }

    /// The punch's code as a byte.
    pub fn as_u8(self) -> (code: u8)
        ensures
            code == self.code(),
    {
        u8::from(self)
    }

    /// Codes identify punches: two kinds share a code only if they are the
    /// same kind, every code lies between 1 and 6, and each number from 1 to 6
    /// is the code of some kind.
    pub proof fn lemma_code_bijective(a: PunchKind, b: PunchKind, n: u8)
        ensures
            a.code() == b.code() <==> a == b,
            1 <= a.code() <= 6,
            1 <= n <= 6 <==> exists|kind: PunchKind| #[trigger] kind.code() == n,
    {
        if 1 <= n <= 6 {
            assert(PunchKind::Jab.code() == 1);
            assert(PunchKind::Cross.code() == 2);
            assert(PunchKind::LeadHook.code() == 3);
            assert(PunchKind::RearHook.code() == 4);
            assert(PunchKind::LeadUppercut.code() == 5);
            assert(PunchKind::RearUppercut.code() == 6);
        }
    }
}

impl vstd::std_specs::convert::FromSpecImpl<PunchKind> for u8 {
    open spec fn obeys_from_spec() -> bool {
        true
    }

    open spec fn from_spec(punch: PunchKind) -> u8 {
        punch.code()
    }
}

impl From<PunchKind> for u8 {
    fn from(punch: PunchKind) -> (code: u8) {
        match punch {
            PunchKind::Jab => 1,
            PunchKind::Cross => 2,
            PunchKind::LeadHook => 3,
            PunchKind::RearHook => 4,
            PunchKind::LeadUppercut => 5,
            PunchKind::RearUppercut => 6,
        }
    }
}

/// A sequence of punches thrown one after another. It only holds the
/// punches; nothing is computed from them.
#[derive(Debug)]
pub struct Combo(Vec<PunchKind>);

impl View for Combo {
    type V = Seq<PunchKind>;

    closed spec fn view(&self) -> Seq<PunchKind> {
        self.0@
    }
}

impl Combo {
    /// A combo of the given punches, in the given order.
    pub fn new(punches: &[PunchKind]) -> (combo: Self)
        ensures
            combo@ == punches@,
    {
        let owned_punches = vstd::slice::slice_to_vec(punches);
        Self(owned_punches)
    }
}

impl Clone for Combo {
    fn clone(&self) -> (copy: Self)
        ensures
            copy@ == self@,
    {
        let punches = self.0.clone();
        assert(punches@ =~= self.0@);
        Self(punches)
    }
}

impl PartialEq for Combo {
    /// Two combos are equal when they hold the same punches in the same order.
    fn eq(&self, other: &Combo) -> (same: bool) {
        if self.0.len() != other.0.len() {
            return false;
        }
        let mut i: usize = 0;
        while i < self.0.len()
            invariant
                i <= self.0.len(),
                self.0.len() == other.0.len(),
                forall|j: int| 0 <= j < i ==> self.0@[j] == other.0@[j],
            decreases self.0.len() - i,
        {
            if self.0[i] != other.0[i] {
                return false;
            }
            i += 1;
        }
        assert(self.0@ =~= other.0@);
        true
    }
}

impl vstd::std_specs::cmp::PartialEqSpecImpl for Combo {
    open spec fn obeys_eq_spec() -> bool {
        true
    }

    open spec fn eq_spec(&self, other: &Combo) -> bool {
        self@ == other@
    }
}

impl Eq for Combo {

}

} // verus!
