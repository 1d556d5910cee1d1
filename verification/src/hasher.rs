//! The six hash derivations that commitments, states, nullifiers and
//! transcript digests are made of, each with Poseidon parameters of its own.

use crate::field::Fe;
use crate::note::{Note, Point};
use crate::poseidon::{values, PoseidonParams};
use vstd::prelude::*;

verus! {

/// The parameters of the six derivations. Never changed after construction.
pub struct Hasher {
    pub id: PoseidonParams,
    pub note: PoseidonParams,
    pub blind: PoseidonParams,
    pub state: PoseidonParams,
    pub nullifier: PoseidonParams,
    pub tx: PoseidonParams,
}

impl Hasher {
    /// The commitment to a note with the given six values.
    pub open spec fn spec_note(&self, fields: Seq<nat>) -> nat {
        self.note.digest_of(fields)
    }

    /// The blinded form of a commitment.
    pub open spec fn spec_blind_note(&self, commitment: nat, blind: nat) -> nat {
        self.blind.digest_of(seq![commitment, blind])
    }

    /// The digest of the two slots of a state.
    pub open spec fn spec_state(&self, left: nat, right: nat) -> nat {
        self.state.digest_of(seq![left, right])
    }

    /// The tag that marks a commitment as spent by the holder of a key.
    pub open spec fn spec_nullifier(&self, commitment: nat, nullifier_key: nat) -> nat {
        self.nullifier.digest_of(seq![commitment, nullifier_key])
    }

    /// The transcript digest of one input and two output commitments.
    pub open spec fn spec_sighash(&self, input: nat, output_0: nat, output_1: nat) -> nat {
        self.tx.digest_of(seq![input, output_0, output_1])
    }

    /// The identity commitment of a nullifier key and a public key.
    pub open spec fn spec_id_commitment(&self, nullifier_key: nat, x: nat, y: nat) -> nat {
        self.id.digest_of(seq![nullifier_key, x, y])
    }

    pub fn note(&self, note: &Note) -> (r: Fe)
        ensures
            r@ == self.spec_note(note.fields()),
    {
        let mut inputs: Vec<Fe> = Vec::new();
        inputs.push(note.asset_hash);
        inputs.push(note.owner);
        inputs.push(note.value);
        inputs.push(note.step);
        inputs.push(note.parent_note);
        inputs.push(note.out_index);
        assert(values(inputs@) =~= note.fields());
        self.note.hash(&inputs)
    }

    pub fn blind_note(&self, commitment: &Fe, blind: &Fe) -> (r: Fe)
        ensures
            r@ == self.spec_blind_note(commitment@, blind@),
    {
        let mut inputs: Vec<Fe> = Vec::new();
        inputs.push(*commitment);
        inputs.push(*blind);
        assert(values(inputs@) =~= seq![commitment@, blind@]);
        self.blind.hash(&inputs)
    }

    pub fn state(&self, left: &Fe, right: &Fe) -> (r: Fe)
        ensures
            r@ == self.spec_state(left@, right@),
    {
        let mut inputs: Vec<Fe> = Vec::new();
        inputs.push(*left);
        inputs.push(*right);
        assert(values(inputs@) =~= seq![left@, right@]);
        self.state.hash(&inputs)
    }

    pub fn nullifier(&self, commitment: &Fe, nullifier_key: &Fe) -> (r: Fe)
        ensures
            r@ == self.spec_nullifier(commitment@, nullifier_key@),
    {
        let mut inputs: Vec<Fe> = Vec::new();
        inputs.push(*commitment);
        inputs.push(*nullifier_key);
        assert(values(inputs@) =~= seq![commitment@, nullifier_key@]);
        self.nullifier.hash(&inputs)
    }

    pub fn sighash(&self, input: &Fe, output_0: &Fe, output_1: &Fe) -> (r: Fe)
        ensures
            r@ == self.spec_sighash(input@, output_0@, output_1@),
    {
        let mut inputs: Vec<Fe> = Vec::new();
        inputs.push(*input);
        inputs.push(*output_0);
        inputs.push(*output_1);
        assert(values(inputs@) =~= seq![input@, output_0@, output_1@]);
        self.tx.hash(&inputs)
    }

    pub fn id_commitment(&self, nullifier_key: &Fe, public_key: &Point) -> (r: Fe)
        ensures
            r@ == self.spec_id_commitment(nullifier_key@, public_key.x@, public_key.y@),
    {
        let mut inputs: Vec<Fe> = Vec::new();
        inputs.push(*nullifier_key);
        inputs.push(public_key.x);
        inputs.push(public_key.y);
        assert(values(inputs@) =~= seq![nullifier_key@, public_key.x@, public_key.y@]);
        self.id.hash(&inputs)
    }
}

} // verus!
