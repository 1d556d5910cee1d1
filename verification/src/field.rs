//! Elements of the scalar field of BN254, held as four 64-bit limbs.

use vstd::prelude::*;

verus! {

/// The order of the field.
pub open spec fn modulus() -> nat {
    limbs_value(MODULUS_LIMB_0, MODULUS_LIMB_1, MODULUS_LIMB_2, MODULUS_LIMB_3)
}

/// `(modulus() - 1) / 2`: the largest value that an ordering gate accepts.
pub open spec fn half_modulus() -> nat {
    limbs_value(HALF_LIMB_0, HALF_LIMB_1, HALF_LIMB_2, HALF_LIMB_3)
}

/// The number that four limbs stand for, least significant limb first.
pub open spec fn limbs_value(l0: u64, l1: u64, l2: u64, l3: u64) -> nat {
    (l0 as nat) + 0x1_0000_0000_0000_0000 * ((l1 as nat) + 0x1_0000_0000_0000_0000 * ((l2 as nat)
        + 0x1_0000_0000_0000_0000 * (l3 as nat)))
}

/// `a - b` in the field, for operands below the modulus.
pub open spec fn field_sub(a: nat, b: nat) -> nat {
    if a >= b {
        (a - b) as nat
    } else {
        (modulus() + a - b) as nat
    }
}

pub const MODULUS_LIMB_0: u64 = 0x43e1f593f0000001;
pub const MODULUS_LIMB_1: u64 = 0x2833e84879b97091;
pub const MODULUS_LIMB_2: u64 = 0xb85045b68181585d;
pub const MODULUS_LIMB_3: u64 = 0x30644e72e131a029;

pub const HALF_LIMB_0: u64 = 0xa1f0fac9f8000000;
pub const HALF_LIMB_1: u64 = 0x9419f4243cdcb848;
pub const HALF_LIMB_2: u64 = 0xdc2822db40c0ac2e;
pub const HALF_LIMB_3: u64 = 0x183227397098d014;

/// The order of two numbers, read off their limbs from the most significant down.
pub open spec fn limbs_before(
    a0: u64,
    a1: u64,
    a2: u64,
    a3: u64,
    b0: u64,
    b1: u64,
    b2: u64,
    b3: u64,
) -> bool {
    if a3 != b3 {
        a3 < b3
    } else if a2 != b2 {
        a2 < b2
    } else if a1 != b1 {
        a1 < b1
    } else {
        a0 < b0
    }
}

/// Comparing limb by limb from the top orders numbers as their values do.
pub proof fn lemma_limbs_order(
    a0: u64,
    a1: u64,
    a2: u64,
    a3: u64,
    b0: u64,
    b1: u64,
    b2: u64,
    b3: u64,
)
    ensures
        limbs_before(a0, a1, a2, a3, b0, b1, b2, b3) == (limbs_value(a0, a1, a2, a3) < limbs_value(
            b0,
            b1,
            b2,
            b3,
        )),
{
}

/// Whether the first four limbs stand for a smaller number than the last four.
pub fn limbs_less(a0: u64, a1: u64, a2: u64, a3: u64, b0: u64, b1: u64, b2: u64, b3: u64) -> (r:
    bool)
    ensures
        r == (limbs_value(a0, a1, a2, a3) < limbs_value(b0, b1, b2, b3)),
{
    proof {
        lemma_limbs_order(a0, a1, a2, a3, b0, b1, b2, b3);
    }
    if a3 != b3 {
        a3 < b3
    } else if a2 != b2 {
        a2 < b2
    } else if a1 != b1 {
        a1 < b1
    } else {
        a0 < b0
    }
}

/// Limbs that stand for the same number are the same limbs.
pub proof fn lemma_limbs_injective(
    a0: u64,
    a1: u64,
    a2: u64,
    a3: u64,
    b0: u64,
    b1: u64,
    b2: u64,
    b3: u64,
)
    requires
        limbs_value(a0, a1, a2, a3) == limbs_value(b0, b1, b2, b3),
    ensures
        a0 == b0 && a1 == b1 && a2 == b2 && a3 == b3,
{
    lemma_limbs_order(a0, a1, a2, a3, b0, b1, b2, b3);
    lemma_limbs_order(b0, b1, b2, b3, a0, a1, a2, a3);
}

/// A field element in canonical form: its value is below the modulus.
#[derive(Clone, Copy, Debug, PartialEq, Eq)]
pub struct Fe {
    pub(crate) l0: u64,
    pub(crate) l1: u64,
    pub(crate) l2: u64,
    pub(crate) l3: u64,
}

impl View for Fe {
    type V = nat;

    closed spec fn view(&self) -> nat {
        limbs_value(self.l0, self.l1, self.l2, self.l3)
    }
}

impl Fe {
    /// Canonical: below the modulus.
    pub open spec fn wf(&self) -> bool {
        self@ < modulus()
    }

    #[verifier::type_invariant]
    closed spec fn canonical(&self) -> bool {
        self.wf()
    }

    /// The limbs, least significant first.
    pub closed spec fn spec_limbs(&self) -> (u64, u64, u64, u64) {
        (self.l0, self.l1, self.l2, self.l3)
    }

    /// Two elements with the same value are the same element.
    pub proof fn lemma_view_injective(&self, other: &Fe)
        requires
            self@ == other@,
        ensures
            *self == *other,
    {
        lemma_limbs_injective(
            self.l0, self.l1, self.l2, self.l3,
            other.l0, other.l1, other.l2, other.l3,
        );
    }

    /// The element that the limbs stand for, where they stand for one.
    pub fn new(l0: u64, l1: u64, l2: u64, l3: u64) -> (r: Option<Fe>)
        ensures
            r.is_some() == (limbs_value(l0, l1, l2, l3) < modulus()),
            r.is_some() ==> r.unwrap()@ == limbs_value(l0, l1, l2, l3) && r.unwrap().spec_limbs()
                == (l0, l1, l2, l3),
            r.is_some() ==> r.unwrap().wf(),
    {
        if limbs_less(
            l0, l1, l2, l3,
            MODULUS_LIMB_0, MODULUS_LIMB_1, MODULUS_LIMB_2, MODULUS_LIMB_3,
        ) {
            Some(Fe { l0, l1, l2, l3 })
        } else {
            None
        }
    }

    /// The limbs, least significant first.
    pub fn limbs(&self) -> (r: (u64, u64, u64, u64))
        ensures
            r == self.spec_limbs(),
            limbs_value(r.0, r.1, r.2, r.3) == self@,
            self.wf(),
    {
        proof {
            use_type_invariant(self);
        }
        (self.l0, self.l1, self.l2, self.l3)
    }

    pub fn zero() -> (r: Fe)
        ensures
            r@ == 0,
    {
        Fe { l0: 0, l1: 0, l2: 0, l3: 0 }
    }

    pub fn from_u64(v: u64) -> (r: Fe)
        ensures
            r@ == v,
    {
        Fe { l0: v, l1: 0, l2: 0, l3: 0 }
    }

    /// The element `2^64`, one past the largest value of 64 bits.
    pub fn two_to_64() -> (r: Fe)
        ensures
            r@ == 0x1_0000_0000_0000_0000,
    {
        Fe { l0: 0, l1: 1, l2: 0, l3: 0 }
    }

    /// `a - b` in the field.
    pub fn difference(a: u64, b: u64) -> (r: Fe)
        ensures
            r@ == field_sub(a as nat, b as nat),
    {
        if a >= b {
            Fe { l0: a - b, l1: 0, l2: 0, l3: 0 }
        } else {
            let d: u64 = b - a;
            if d <= MODULUS_LIMB_0 {
                Fe {
                    l0: MODULUS_LIMB_0 - d,
                    l1: MODULUS_LIMB_1,
                    l2: MODULUS_LIMB_2,
                    l3: MODULUS_LIMB_3,
                }
            } else {
                Fe {
                    l0: (u64::MAX - d) + MODULUS_LIMB_0 + 1,
                    l1: MODULUS_LIMB_1 - 1,
                    l2: MODULUS_LIMB_2,
                    l3: MODULUS_LIMB_3,
                }
            }
        }
    }

    /// Whether two elements are the same.
    pub fn is_eq(&self, other: &Fe) -> (r: bool)
        ensures
            r == (self@ == other@),
            r == (*self == *other),
    {
        proof {
            if self@ == other@ {
                self.lemma_view_injective(other);
            }
        }
        self.l0 == other.l0 && self.l1 == other.l1 && self.l2 == other.l2 && self.l3 == other.l3
    }

    /// Whether this element's value is below the other's.
    pub fn is_less(&self, other: &Fe) -> (r: bool)
        ensures
            r == (self@ < other@),
    {
        limbs_less(
            self.l0, self.l1, self.l2, self.l3,
            other.l0, other.l1, other.l2, other.l3,
        )
    }

    /// Whether this element's value is at most half the modulus, rounded down.
    pub fn in_lower_half(&self) -> (r: bool)
        ensures
            r == (self@ <= half_modulus()),
    {
        !limbs_less(
            HALF_LIMB_0, HALF_LIMB_1, HALF_LIMB_2, HALF_LIMB_3,
            self.l0, self.l1, self.l2, self.l3,
        )
    }
}

} // verus!
