//! The Poseidon sponge over the field, as a function from parameters and
//! inputs to one digest.

use crate::field::Fe;
use ark_bn254::Fr;
use ark_crypto_primitives::sponge::poseidon::{PoseidonConfig, PoseidonSponge};
use ark_crypto_primitives::sponge::{CryptographicSponge, FieldBasedCryptographicSponge};
use ark_ff::{BigInt, PrimeField};
use vstd::prelude::*;

verus! {

/// The first field element that a fresh Poseidon sponge with the given
/// parameters squeezes after it has absorbed `inputs` in one call.
pub uninterp spec fn poseidon_digest(
    full_rounds: nat,
    partial_rounds: nat,
    alpha: nat,
    rate: nat,
    capacity: nat,
    ark: Seq<Seq<nat>>,
    mds: Seq<Seq<nat>>,
    inputs: Seq<nat>,
) -> nat;

/// The values of a sequence of field elements.
pub open spec fn values(s: Seq<Fe>) -> Seq<nat> {
    Seq::new(s.len(), |i: int| s[i]@)
}

/// The values of a matrix of field elements, row by row.
pub open spec fn rows(m: Seq<Vec<Fe>>) -> Seq<Seq<nat>> {
    Seq::new(m.len(), |i: int| values(m[i]@))
}

/// Every row of `m` has `width` entries.
pub open spec fn rows_are_wide(m: Seq<Vec<Fe>>, width: int) -> bool {
    forall|i: int| 0 <= i < m.len() ==> (#[trigger] m[i])@.len() == width
}

/// The shape that the permutation needs: a non-empty rate, one row of round
/// keys per round, a square mixing matrix, and every row as wide as the state.
pub open spec fn shape_fits(
    full_rounds: int,
    partial_rounds: int,
    rate: int,
    capacity: int,
    ark: Seq<Vec<Fe>>,
    mds: Seq<Vec<Fe>>,
) -> bool {
    &&& rate >= 1
    &&& rate + capacity <= usize::MAX
    &&& ark.len() == full_rounds + partial_rounds
    &&& mds.len() == rate + capacity
    &&& rows_are_wide(ark, rate + capacity)
    &&& rows_are_wide(mds, rate + capacity)
}

/// Parameters of one Poseidon instance, of a shape that the permutation accepts.
pub struct PoseidonParams {
    full_rounds: usize,
    partial_rounds: usize,
    alpha: u64,
    ark: Vec<Vec<Fe>>,
    mds: Vec<Vec<Fe>>,
    rate: usize,
    capacity: usize,
}

fn rows_have_width(m: &Vec<Vec<Fe>>, width: usize) -> (r: bool)
    ensures
        r == rows_are_wide(m@, width as int),
{
    let mut i: usize = 0;
    while i < m.len()
        invariant
            i <= m@.len(),
            forall|j: int| 0 <= j < i ==> (#[trigger] m@[j])@.len() == width,
        decreases m@.len() - i,
    {
        if m[i].len() != width {
            return false;
        }
        i += 1;
    }
    true
}

/// Runs `PoseidonSponge::new`, `absorb` and `squeeze_native_field_elements(1)`
/// of ark-crypto-primitives on the parameters and inputs, converted limb for
/// limb into the sponge's own field type. Believed, not proved: the element
/// that comes back is the named digest of exactly these parameters and
/// inputs, in canonical form. The shape demanded is the one under which the
/// permutation indexes inside its tables and the absorbing loop ends; that
/// every element converts is the invariant of `Fe`, whose limbs always stand
/// for a value below the modulus.
#[verifier::external_body]
fn sponge_digest(p: &PoseidonParams, inputs: &Vec<Fe>) -> (d: Fe)
    requires
        p.well_formed(),
    ensures
        d@ == poseidon_digest(
            p.full_rounds as nat,
            p.partial_rounds as nat,
            p.alpha as nat,
            p.rate as nat,
            p.capacity as nat,
            rows(p.ark@),
            rows(p.mds@),
            values(inputs@),
        ),
        d.wf(),
{
    let fr = |e: &Fe| Fr::from(BigInt([e.l0, e.l1, e.l2, e.l3]));
    let row = |r: &Vec<Fe>| r.iter().map(fr).collect::<Vec<Fr>>();
    let config = PoseidonConfig::new(
        p.full_rounds,
        p.partial_rounds,
        p.alpha,
        p.mds.iter().map(row).collect(),
        p.ark.iter().map(row).collect(),
        p.rate,
        p.capacity,
    );
    let mut sponge = PoseidonSponge::new(&config);
    sponge.absorb(&row(inputs));
    let [l0, l1, l2, l3] = sponge.squeeze_native_field_elements(1)[0].into_bigint().0;
    Fe { l0, l1, l2, l3 }
}

impl PoseidonParams {
    #[verifier::type_invariant]
    pub closed spec fn well_formed(&self) -> bool {
        shape_fits(
            self.full_rounds as int,
            self.partial_rounds as int,
            self.rate as int,
            self.capacity as int,
            self.ark@,
            self.mds@,
        )
    }

    /// The digest of `inputs` under these parameters.
    pub closed spec fn digest_of(&self, inputs: Seq<nat>) -> nat {
        poseidon_digest(
            self.full_rounds as nat,
            self.partial_rounds as nat,
            self.alpha as nat,
            self.rate as nat,
            self.capacity as nat,
            rows(self.ark@),
            rows(self.mds@),
            inputs,
        )
    }

    /// The parameters, where their shape fits; `None` where it does not.
    pub fn new(
        full_rounds: usize,
        partial_rounds: usize,
        alpha: u64,
        mds: Vec<Vec<Fe>>,
        ark: Vec<Vec<Fe>>,
        rate: usize,
        capacity: usize,
    ) -> (r: Option<PoseidonParams>)
        ensures
            r.is_some() == shape_fits(
                full_rounds as int,
                partial_rounds as int,
                rate as int,
                capacity as int,
                ark@,
                mds@,
            ),
            r.is_some() ==> r.unwrap().well_formed() && forall|inputs: Seq<nat>|
                #[trigger] r.unwrap().digest_of(inputs) == poseidon_digest(
                    full_rounds as nat,
                    partial_rounds as nat,
                    alpha as nat,
                    rate as nat,
                    capacity as nat,
                    rows(ark@),
                    rows(mds@),
                    inputs,
                ),
    {
        if rate < 1 {
            return None;
        }
        let width: usize = match rate.checked_add(capacity) {
            Some(w) => w,
            None => { return None; },
        };
        let keyed: usize = ark.len();
        let rounds: usize = match full_rounds.checked_add(partial_rounds) {
            Some(n) => n,
            None => { return None; },
        };
        if keyed != rounds || mds.len() != width {
            return None;
        }
        if !rows_have_width(&ark, width) || !rows_have_width(&mds, width) {
            return None;
        }
        Some(PoseidonParams { full_rounds, partial_rounds, alpha, ark, mds, rate, capacity })
    }

    /// Hashes `inputs` to one field element.
    pub fn hash(&self, inputs: &Vec<Fe>) -> (d: Fe)
        ensures
            d@ == self.digest_of(values(inputs@)),
            d.wf(),
    {
        proof {
            use_type_invariant(self);
        }
        sponge_digest(self, inputs)
    }
}

} // verus!
