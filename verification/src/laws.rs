//! What holds of the relation for every hasher, every claim and every witness.

use crate::circuit::{
    accepts, input_blinded, input_commitment, is_issue, issue_commitment, issue_state_out,
    relation, selected_sighash, slot_is_valid, split_nullifier, split_state_in, split_state_out,
    PublicInput, Witness,
};
use crate::hasher::Hasher;
use crate::note::NoteOutIndex;
use vstd::prelude::*;

verus! {

/// The witness of an issuance, with the two fields that only a split reads
/// set so that the gates enforced on every step hold: the input value equal
/// to the issued value, and the input slot the first output.
pub open spec fn completed_for_issue(w: Witness) -> Witness {
    Witness { value_in: w.value_out, input_index: NoteOutIndex::Out0, ..w }
}

/// An issuance is accepted: at step 0, with a sender that is the identity
/// commitment of the witnessed keys, a state that starts at the asset hash
/// and ends at the state of the one blinded note, and a signature that
/// verified, the completed witness satisfies the relation, whatever the asset
/// hash, the blinding factor and the value, as long as the value is not zero.
/// A value of zero is refused on every step by the ordering gate.
pub proof fn law_issue_accepted(h: Hasher, pi: PublicInput, w: Witness)
    requires
        pi.step@ == 0,
        w.value_out >= 1,
        pi.sender@ == h.spec_id_commitment(w.nullifier_key@, w.public_key.x@, w.public_key.y@),
        pi.state_in@ == pi.asset_hash@,
        pi.state_out@ == h.spec_state(
            0,
            h.spec_blind_note(
                h.spec_note(
                    seq![pi.asset_hash@, pi.sender@, w.value_out as nat, 0, 0, 0],
                ),
                w.blind_out_0@,
            ),
        ),
    ensures
        accepts(h, pi, completed_for_issue(w), true),
{
    let c = completed_for_issue(w);
    assert(issue_commitment(h, pi, c) == h.spec_note(
        seq![pi.asset_hash@, pi.sender@, w.value_out as nat, 0, 0, 0],
    ));
}

/// An issued value of zero is never accepted.
pub proof fn law_zero_value_refused(h: Hasher, pi: PublicInput, w: Witness, verified: bool)
    requires
        w.value_out == 0,
    ensures
        !accepts(h, pi, w, verified),
{
}

/// A split is accepted: past step 0, with output values that add up to the
/// input value, the first below the second, an input note linked through its
/// parent and sibling to the claimed prior state, the nullifier and the new
/// state derived from it, and a signature that verified.
pub proof fn law_split_accepted(h: Hasher, pi: PublicInput, w: Witness, value_out_0: u64)
    requires
        pi.step@ != 0,
        w.value_in == value_out_0 + w.value_out,
        value_out_0 < w.value_out,
        slot_is_valid(w),
        pi.sender@ == h.spec_id_commitment(w.nullifier_key@, w.public_key.x@, w.public_key.y@),
        pi.state_in@ == (if w.input_index == NoteOutIndex::Out0 {
            h.spec_state(input_blinded(h, pi, w), w.sibling@)
        } else {
            h.spec_state(w.sibling@, input_blinded(h, pi, w))
        }),
        pi.nullifier@ == h.spec_nullifier(input_commitment(h, pi, w), w.nullifier_key@),
        pi.state_out@ == split_state_out(h, pi, w),
    ensures
        accepts(h, pi, w, true),
        split_nullifier(h, pi, w) == pi.nullifier@,
{
}

/// An input slot other than the two outputs of a split is never accepted,
/// whichever kind of step the claims select.
pub proof fn law_invalid_slot_refused(h: Hasher, pi: PublicInput, w: Witness, verified: bool)
    requires
        w.input_index != NoteOutIndex::Out0,
        w.input_index != NoteOutIndex::Out1,
    ensures
        !accepts(h, pi, w, verified),
{
}

/// Accepted output values are ordered and conserve the input value: the
/// first is what the second leaves of the input, and is below the second.
pub proof fn law_values_conserved(h: Hasher, pi: PublicInput, w: Witness, verified: bool)
    requires
        accepts(h, pi, w, verified),
    ensures
        w.value_out <= w.value_in,
        (w.value_in - w.value_out) + w.value_out == w.value_in,
        w.value_in - w.value_out < w.value_out,
{
}

/// Output values in the wrong order are never accepted: of a witness and the
/// one with its two output values swapped, at most one is.
pub proof fn law_swapped_values_refused(
    h: Hasher,
    pi: PublicInput,
    w: Witness,
    swapped: Witness,
    verified: bool,
)
    requires
        accepts(h, pi, w, verified),
        swapped.value_in == w.value_in,
        swapped.value_out == w.value_in - w.value_out,
    ensures
        !accepts(h, pi, swapped, verified),
{
}

/// Only the selected kind is bound. At step 0 neither the claimed nullifier
/// nor what the witness holds for a split alone (sibling, parent, the
/// blinding factors of the input and of the second output, the receiver, the
/// signature) bears on acceptance or on the digest to be signed.
pub proof fn law_issue_ignores_split(
    h: Hasher,
    a: PublicInput,
    b: PublicInput,
    v: Witness,
    w: Witness,
)
    requires
        is_issue(a),
        b == (PublicInput { nullifier: b.nullifier, ..a }),
        w == (Witness {
            sibling: w.sibling,
            parent: w.parent,
            blind_in: w.blind_in,
            blind_out_1: w.blind_out_1,
            receiver: w.receiver,
            signature: w.signature,
            ..v
        }),
    ensures
        relation(h, a, v) == relation(h, b, w),
        selected_sighash(h, a, v) == selected_sighash(h, b, w),
{
}

/// The identity commitment of the keys that a witness holds.
pub open spec fn witnessed_sender(h: Hasher, w: Witness) -> nat {
    h.spec_id_commitment(w.nullifier_key@, w.public_key.x@, w.public_key.y@)
}

/// With the claims fixed, a changed witness is refused as soon as one digest
/// that is bound to the claims changes with it: the identity commitment on
/// every step, the state after an issuance, or the state before, the
/// nullifier or the state after a split. It can pass only where every one of
/// them collides.
pub proof fn law_changed_witness_refused(h: Hasher, pi: PublicInput, w: Witness, changed: Witness)
    requires
        relation(h, pi, w),
        witnessed_sender(h, changed) != witnessed_sender(h, w) || (is_issue(pi) && issue_state_out(
            h,
            pi,
            changed,
        ) != issue_state_out(h, pi, w)) || (!is_issue(pi) && (split_state_in(h, pi, changed)
            != split_state_in(h, pi, w) || split_nullifier(h, pi, changed) != split_nullifier(
            h,
            pi,
            w,
        ) || split_state_out(h, pi, changed) != split_state_out(h, pi, w))),
    ensures
        !relation(h, pi, changed),
{
}

/// A signature that did not verify is never accepted.
pub proof fn law_unverified_refused(h: Hasher, pi: PublicInput, w: Witness)
    ensures
        !accepts(h, pi, w, false),
{
}

/// A witness fixes the claims: two sets of claims for the same step and
/// asset that one witness satisfies agree on the sender and on both states,
/// and, for a split, on the nullifier.
pub proof fn law_witness_fixes_claims(h: Hasher, a: PublicInput, b: PublicInput, w: Witness)
    requires
        relation(h, a, w),
        relation(h, b, w),
        a.step == b.step,
        a.asset_hash == b.asset_hash,
    ensures
        a.sender == b.sender,
        a.state_in == b.state_in,
        a.state_out == b.state_out,
        !is_issue(a) ==> a.nullifier == b.nullifier,
{
    a.sender.lemma_view_injective(&b.sender);
    a.state_in.lemma_view_injective(&b.state_in);
    a.state_out.lemma_view_injective(&b.state_out);
    if !is_issue(a) {
        a.nullifier.lemma_view_injective(&b.nullifier);
    }
}

} // verus!
