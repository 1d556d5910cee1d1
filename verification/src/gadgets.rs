//! A constraint system reduced to the one thing the relation needs of it,
//! whether every relation enforced so far holds, and the gates that enforce
//! relations on it.

use crate::field::{half_modulus, Fe};
use vstd::prelude::*;

verus! {

/// Why synthesis could not be carried out.
#[derive(Clone, Copy, Debug, PartialEq, Eq, Structural)]
pub enum SynthesisError {
    /// A value that a gate needs was not supplied.
    AssignmentMissing,
}

/// The relations enforced so far, as their conjunction.
#[derive(Clone, Copy, Debug, PartialEq, Eq, Structural)]
pub struct ConstraintSystem {
    satisfied: bool,
}

impl ConstraintSystem {
    /// Whether every relation enforced so far holds.
    pub closed spec fn spec_is_satisfied(&self) -> bool {
        self.satisfied
    }

    /// A system on which nothing has been enforced yet.
    pub fn new() -> (cs: ConstraintSystem)
        ensures
            cs.spec_is_satisfied(),
    {
        ConstraintSystem { satisfied: true }
    }

    /// Whether every relation enforced so far holds.
    pub fn is_satisfied(&self) -> (r: bool)
        ensures
            r == self.spec_is_satisfied(),
    {
        self.satisfied
    }

    /// Enforces that `flag` is true.
    pub fn enforce(&mut self, flag: bool)
        ensures
            final(self).spec_is_satisfied() == (old(self).spec_is_satisfied() && flag),
    {
        self.satisfied = self.satisfied && flag;
    }

    /// Enforces `a == b`.
    pub fn enforce_equal(&mut self, a: &Fe, b: &Fe)
        ensures
            final(self).spec_is_satisfied() == (old(self).spec_is_satisfied() && a@ == b@),
    {
        let same = a.is_eq(b);
        self.enforce(same);
    }

    /// Enforces `a == b` where `condition` holds, and nothing where it does not.
    pub fn conditional_enforce_equal(&mut self, a: &Fe, b: &Fe, condition: bool)
        ensures
            final(self).spec_is_satisfied() == (old(self).spec_is_satisfied() && (condition ==> a@
                == b@)),
    {
        let same = a.is_eq(b);
        self.enforce(!condition || same);
    }

    /// Enforces `a < b`, and that both are at most `half_modulus()`: values are
    /// compared as integers, which is only meaningful in the lower half of the
    /// field.
    pub fn enforce_less(&mut self, a: &Fe, b: &Fe)
        ensures
            final(self).spec_is_satisfied() == (old(self).spec_is_satisfied() && spec_less(
                a@,
                b@,
            )),
    {
        let fits = a.in_lower_half() && b.in_lower_half();
        let below = a.is_less(b);
        self.enforce(fits && below);
    }
}

/// What the ordering gate enforces of two values.
pub open spec fn spec_less(a: nat, b: nat) -> bool {
    a <= half_modulus() && b <= half_modulus() && a < b
}

/// `a` where `condition` holds, `b` where it does not.
pub fn conditionally_select(condition: bool, a: &Fe, b: &Fe) -> (r: Fe)
    ensures
        r == if condition { *a } else { *b },
{
    if condition {
        *a
    } else {
        *b
    }
}

} // verus!
