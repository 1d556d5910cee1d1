//! The relation that one ledger step must satisfy, and its synthesis gate by
//! gate.
//!
//! Both kinds of step are always evaluated. Whether the step is an issuance is
//! read off the published step number, and only the equations of the kind
//! that it selects are bound to the published claims. The identity
//! commitment, the input slot and the ordering of the output values are
//! enforced whichever kind is selected.

use crate::field::{field_sub, Fe};
use crate::gadgets::{conditionally_select, spec_less, ConstraintSystem, SynthesisError};
use crate::hasher::Hasher;
use crate::note::{Note, NoteOutIndex, Point, Scalar, Signature};
use vstd::prelude::*;

verus! {

/// The published claims, in the order in which a verifier supplies them.
#[derive(Clone, Copy, Debug, PartialEq, Eq)]
pub struct PublicInput {
    pub step: Fe,
    pub asset_hash: Fe,
    pub sender: Fe,
    pub state_in: Fe,
    pub state_out: Fe,
    pub nullifier: Fe,
}

impl PublicInput {
    /// The six claims in the order in which a verifier supplies them: step,
    /// asset hash, sender, state before, state after, nullifier.
    pub fn wire(&self) -> (r: Vec<Fe>)
        ensures
            r@ == seq![
                self.step,
                self.asset_hash,
                self.sender,
                self.state_in,
                self.state_out,
                self.nullifier,
            ],
    {
        let mut r: Vec<Fe> = Vec::new();
        r.push(self.step);
        r.push(self.asset_hash);
        r.push(self.sender);
        r.push(self.state_in);
        r.push(self.state_out);
        r.push(self.nullifier);
        assert(r@ =~= seq![
            self.step,
            self.asset_hash,
            self.sender,
            self.state_in,
            self.state_out,
            self.nullifier,
        ]);
        r
    }
}

/// The private data of one step. `value_out` is the value of the issued note,
/// or of the second output of a split; the value of the first output of a
/// split is `value_in - value_out`.
#[derive(Clone, Copy, Debug, PartialEq, Eq)]
pub struct Witness {
    pub value_in: u64,
    pub value_out: u64,
    pub blind_in: Fe,
    pub blind_out_0: Fe,
    pub blind_out_1: Fe,
    pub sibling: Fe,
    pub parent: Fe,
    pub input_index: NoteOutIndex,
    pub nullifier_key: Fe,
    pub receiver: Fe,
    pub public_key: Point,
    pub signature: Signature,
}

/// One step to synthesize: the hasher, and the claims and the witness where
/// they are known.
pub struct Circuit {
    pub h: Hasher,
    pub public: Option<PublicInput>,
    pub aux: Option<Witness>,
}

/// The signature check that synthesis leaves to be made: `(r, s)` must verify
/// under `public_key` for `message`.
#[derive(Clone, Copy, Debug, PartialEq, Eq)]
pub struct SignatureGate {
    pub public_key: Point,
    pub r: Point,
    pub s: Scalar,
    pub message: Fe,
}

/// Whether the published step number selects the issuance.
pub open spec fn is_issue(pi: PublicInput) -> bool {
    pi.step@ == 0
}

/// The commitment to the note that an issuance creates.
pub open spec fn issue_commitment(h: Hasher, pi: PublicInput, w: Witness) -> nat {
    h.spec_note(
        seq![
            pi.asset_hash@,
            pi.sender@,
            w.value_out as nat,
            pi.step@,
            0,
            NoteOutIndex::Issue.spec_inner(),
        ],
    )
}

/// The state after an issuance: nothing on the left, the blinded commitment
/// of the issued note on the right.
pub open spec fn issue_state_out(h: Hasher, pi: PublicInput, w: Witness) -> nat {
    h.spec_state(0, h.spec_blind_note(issue_commitment(h, pi, w), w.blind_out_0@))
}

/// The transcript digest of an issuance.
pub open spec fn issue_sighash(h: Hasher, pi: PublicInput, w: Witness) -> nat {
    h.spec_sighash(0, issue_commitment(h, pi, w), 0)
}

/// The commitment to the note that a split spends.
pub open spec fn input_commitment(h: Hasher, pi: PublicInput, w: Witness) -> nat {
    h.spec_note(
        seq![
            pi.asset_hash@,
            pi.sender@,
            w.value_in as nat,
            pi.step@,
            w.parent@,
            w.input_index.spec_inner(),
        ],
    )
}

/// The blinded commitment of the spent note.
pub open spec fn input_blinded(h: Hasher, pi: PublicInput, w: Witness) -> nat {
    h.spec_blind_note(input_commitment(h, pi, w), w.blind_in@)
}

/// The state that a split starts from: the spent note in the slot that
/// `input_index` names, the sibling in the other.
pub open spec fn split_state_in(h: Hasher, pi: PublicInput, w: Witness) -> nat {
    if w.input_index == NoteOutIndex::Out0 {
        h.spec_state(input_blinded(h, pi, w), w.sibling@)
    } else {
        h.spec_state(w.sibling@, input_blinded(h, pi, w))
    }
}

/// The nullifier of the spent note.
pub open spec fn split_nullifier(h: Hasher, pi: PublicInput, w: Witness) -> nat {
    h.spec_nullifier(input_commitment(h, pi, w), w.nullifier_key@)
}

/// The commitment to the first output of a split, which goes to the receiver
/// and holds what the second output leaves of the input value.
pub open spec fn output_commitment_0(h: Hasher, pi: PublicInput, w: Witness) -> nat {
    h.spec_note(
        seq![
            pi.asset_hash@,
            w.receiver@,
            field_sub(w.value_in as nat, w.value_out as nat),
            pi.step@,
            input_blinded(h, pi, w),
            NoteOutIndex::Out0.spec_inner(),
        ],
    )
}

/// The commitment to the second output of a split, which stays with the
/// sender.
pub open spec fn output_commitment_1(h: Hasher, pi: PublicInput, w: Witness) -> nat {
    h.spec_note(
        seq![
            pi.asset_hash@,
            pi.sender@,
            w.value_out as nat,
            pi.step@,
            input_blinded(h, pi, w),
            NoteOutIndex::Out1.spec_inner(),
        ],
    )
}

/// The state after a split. Both slots blind the commitment of the second
/// output, each with its own blinding factor; the commitment of the first
/// output enters the transcript digest only.
pub open spec fn split_state_out(h: Hasher, pi: PublicInput, w: Witness) -> nat {
    h.spec_state(
        h.spec_blind_note(output_commitment_1(h, pi, w), w.blind_out_0@),
        h.spec_blind_note(output_commitment_1(h, pi, w), w.blind_out_1@),
    )
}

/// The transcript digest of a split.
pub open spec fn split_sighash(h: Hasher, pi: PublicInput, w: Witness) -> nat {
    h.spec_sighash(
        input_commitment(h, pi, w),
        output_commitment_0(h, pi, w),
        output_commitment_1(h, pi, w),
    )
}

/// The transcript digest that the owner must have signed.
pub open spec fn selected_sighash(h: Hasher, pi: PublicInput, w: Witness) -> nat {
    if is_issue(pi) {
        issue_sighash(h, pi, w)
    } else {
        split_sighash(h, pi, w)
    }
}

/// The input slot is one of the two outputs of a split.
pub open spec fn slot_is_valid(w: Witness) -> bool {
    w.input_index == NoteOutIndex::Out0 || w.input_index == NoteOutIndex::Out1
}

/// The first output value is below the second: the second output does not
/// exceed the input, and what it leaves is less than itself.
pub open spec fn values_are_ordered(w: Witness) -> bool {
    w.value_out <= w.value_in && w.value_in - w.value_out < w.value_out
}

/// The equations bound to the claims when the step is an issuance.
pub open spec fn issue_holds(h: Hasher, pi: PublicInput, w: Witness) -> bool {
    &&& pi.state_in@ == pi.asset_hash@
    &&& pi.state_out@ == issue_state_out(h, pi, w)
}

/// The equations bound to the claims when the step is a split.
pub open spec fn split_holds(h: Hasher, pi: PublicInput, w: Witness) -> bool {
    &&& pi.state_in@ == split_state_in(h, pi, w)
    &&& pi.nullifier@ == split_nullifier(h, pi, w)
    &&& pi.state_out@ == split_state_out(h, pi, w)
}

/// Everything that synthesis enforces short of the signature.
pub open spec fn relation(h: Hasher, pi: PublicInput, w: Witness) -> bool {
    &&& pi.sender@ == h.spec_id_commitment(w.nullifier_key@, w.public_key.x@, w.public_key.y@)
    &&& slot_is_valid(w)
    &&& values_are_ordered(w)
    &&& is_issue(pi) ==> issue_holds(h, pi, w)
    &&& !is_issue(pi) ==> split_holds(h, pi, w)
}

/// What must hold for a proof of the step to exist: the relation, and a
/// signature that verified for the selected transcript digest.
pub open spec fn accepts(h: Hasher, pi: PublicInput, w: Witness, verified: bool) -> bool {
    relation(h, pi, w) && verified
}

/// The ordering gates on field elements enforce what `values_are_ordered`
/// says of the integers: a difference that wrapped round the modulus is in
/// the upper half of the field, and no 64-bit value reaches `2^64`.
pub proof fn lemma_ordering_gates(w: Witness)
    ensures
        values_are_ordered(w) == spec_less(
            field_sub(w.value_in as nat, w.value_out as nat),
            w.value_out as nat,
        ),
        spec_less(w.value_out as nat, 0x1_0000_0000_0000_0000),
{
}

/// Evaluates both kinds of step on the claims and the witness, enforces on
/// `cs` every relation short of the signature, and hands back the signature
/// check that remains. Fails, with `cs` untouched, where the claims or the
/// witness are missing.
pub fn synth(cs: &mut ConstraintSystem, cir: &Circuit) -> (r: Result<SignatureGate, SynthesisError>)
    ensures
        r.is_ok() == (cir.public.is_some() && cir.aux.is_some()),
        r.is_err() ==> r == Err::<SignatureGate, SynthesisError>(SynthesisError::AssignmentMissing)
            && *final(cs) == *old(cs),
        r.is_ok() ==> final(cs).spec_is_satisfied() == (old(cs).spec_is_satisfied() && relation(
            cir.h,
            cir.public.unwrap(),
            cir.aux.unwrap(),
        )),
        r.is_ok() ==> r.unwrap().message@ == selected_sighash(
            cir.h,
            cir.public.unwrap(),
            cir.aux.unwrap(),
        ),
        r.is_ok() ==> r.unwrap().public_key == cir.aux.unwrap().public_key && r.unwrap().r
            == cir.aux.unwrap().signature.r && r.unwrap().s == cir.aux.unwrap().signature.s,
{
    let pi = match &cir.public {
        Some(pi) => pi,
        None => { return Err(SynthesisError::AssignmentMissing); },
    };
    let aux = match &cir.aux {
        Some(aux) => aux,
        None => { return Err(SynthesisError::AssignmentMissing); },
    };
    proof {
        lemma_ordering_gates(*aux);
    }

    let const_zero = Fe::zero();
    let index_issue = NoteOutIndex::Issue.inner();
    let index_0 = NoteOutIndex::Out0.inner();
    let index_1 = NoteOutIndex::Out1.inner();

    // identity commitment integrity
    let pubkey = aux.public_key;
    let nullifier_key = aux.nullifier_key;
    let sender = cir.h.id_commitment(&nullifier_key, &pubkey);
    cs.enforce_equal(&pi.sender, &sender);

    // issuance
    let is_issue_tx = pi.step.is_eq(&const_zero);
    let value = Fe::from_u64(aux.value_out);
    let note = Note::new(&pi.asset_hash, &pi.sender, &value, &pi.step, &const_zero, &index_issue);
    let note_hash = cir.h.note(&note);
    let blind_note_hash = cir.h.blind_note(&note_hash, &aux.blind_out_0);
    // an issuance starts from the asset's own hash
    cs.conditional_enforce_equal(&pi.state_in, &pi.asset_hash, is_issue_tx);
    let state_out = cir.h.state(&const_zero, &blind_note_hash);
    cs.conditional_enforce_equal(&pi.state_out, &state_out, is_issue_tx);
    let sighash_issue = cir.h.sighash(&const_zero, &note_hash, &const_zero);

    // split
    let is_split_tx = !is_issue_tx;

    // input leg
    let value_in = Fe::from_u64(aux.value_in);
    let index = aux.input_index.inner();
    let is_i0 = index.is_eq(&index_0);
    let is_i1 = index.is_eq(&index_1);
    cs.enforce(is_i0 || is_i1);
    let note_in = Note::new(
        &pi.asset_hash,
        &pi.sender,
        &value_in,
        &pi.step,
        &aux.parent,
        &index,
    );
    let note_in_hash = cir.h.note(&note_in);
    let blind_note_in_hash = cir.h.blind_note(&note_in_hash, &aux.blind_in);
    let lhs = conditionally_select(is_i0, &blind_note_in_hash, &aux.sibling);
    let rhs = conditionally_select(is_i1, &blind_note_in_hash, &aux.sibling);
    let state_in = cir.h.state(&lhs, &rhs);
    cs.conditional_enforce_equal(&pi.state_in, &state_in, is_split_tx);
    let nullifier = cir.h.nullifier(&note_in_hash, &nullifier_key);
    cs.conditional_enforce_equal(&pi.nullifier, &nullifier, is_split_tx);

    // output leg
    let value_out_1 = Fe::from_u64(aux.value_out);
    let note_out_1 = Note::new(
        &pi.asset_hash,
        &pi.sender,
        &value_out_1,
        &pi.step,
        &blind_note_in_hash,
        &index_1,
    );
    let note_hash_1 = cir.h.note(&note_out_1);
    let blind_note_hash_1 = cir.h.blind_note(&note_hash_1, &aux.blind_out_1);
    let value_out_0 = Fe::difference(aux.value_in, aux.value_out);
    let bound = Fe::two_to_64();
    cs.enforce_less(&value_out_0, &value_out_1);
    cs.enforce_less(&value_out_1, &bound);
    let note_out_0 = Note::new(
        &pi.asset_hash,
        &aux.receiver,
        &value_out_0,
        &pi.step,
        &blind_note_in_hash,
        &index_0,
    );
    let note_hash_0 = cir.h.note(&note_out_0);
    let blind_note_hash_0 = cir.h.blind_note(&note_hash_1, &aux.blind_out_0);
    let state_out = cir.h.state(&blind_note_hash_0, &blind_note_hash_1);
    cs.conditional_enforce_equal(&pi.state_out, &state_out, is_split_tx);
    let sighash_split = cir.h.sighash(&note_in_hash, &note_hash_0, &note_hash_1);

    // the digest of the kind that the step number selects
    let sighash = conditionally_select(is_issue_tx, &sighash_issue, &sighash_split);

    Ok(SignatureGate { public_key: pubkey, r: aux.signature.r, s: aux.signature.s, message: sighash })
}

/// Binds the outcome of the signature check that `synth` handed back: the
/// system stays satisfied only where the signature verified.
pub fn verify_signature(cs: &mut ConstraintSystem, gate: &SignatureGate, verified: bool)
    ensures
        final(cs).spec_is_satisfied() == (old(cs).spec_is_satisfied() && verified),
{
    cs.enforce(verified);
}

} // verus!
