use ark_bn254::Fr;
use ark_crypto_primitives::sponge::poseidon::find_poseidon_ark_and_mds;
use ark_ff::PrimeField;
use ivcnotes::circuit::{synth, verify_signature, Circuit, PublicInput, SignatureGate, Witness};
use ivcnotes::field::Fe;
use ivcnotes::gadgets::{conditionally_select, ConstraintSystem, SynthesisError};
use ivcnotes::hasher::Hasher;
use ivcnotes::note::{Note, NoteOutIndex, Point, Scalar, Signature};
use ivcnotes::poseidon::PoseidonParams;

fn element(x: &Fr) -> Fe {
    let l = x.into_bigint().0;
    Fe::new(l[0], l[1], l[2], l[3]).unwrap()
}

fn matrix(m: &Vec<Vec<Fr>>) -> Vec<Vec<Fe>> {
    m.iter().map(|r| r.iter().map(element).collect()).collect()
}

fn instance(rate: usize, skip: u64) -> PoseidonParams {
    let (ark, mds) = find_poseidon_ark_and_mds::<Fr>(254, rate, 8, 57, skip);
    PoseidonParams::new(8, 57, 5, matrix(&mds), matrix(&ark), rate, 1).unwrap()
}

fn new_hasher() -> Hasher {
    Hasher {
        id: instance(3, 0),
        note: instance(6, 0),
        blind: instance(2, 0),
        state: instance(2, 1),
        nullifier: instance(2, 2),
        tx: instance(3, 1),
    }
}

fn asset() -> Fe {
    Fe::from_u64(0xa55e7)
}

fn key() -> Point {
    Point {
        x: Fe::from_u64(1001),
        y: Fe::from_u64(1002),
    }
}

fn nullifier_key() -> Fe {
    Fe::from_u64(2001)
}

fn base_witness() -> Witness {
    Witness {
        value_in: 100,
        value_out: 100,
        blind_in: Fe::from_u64(31),
        blind_out_0: Fe::from_u64(32),
        blind_out_1: Fe::from_u64(33),
        sibling: Fe::from_u64(34),
        parent: Fe::from_u64(35),
        input_index: NoteOutIndex::Out0,
        nullifier_key: nullifier_key(),
        receiver: Fe::from_u64(36),
        public_key: key(),
        signature: Signature {
            r: Point {
                x: Fe::from_u64(41),
                y: Fe::from_u64(42),
            },
            s: Scalar {
                l0: 43,
                l1: 0,
                l2: 0,
                l3: 0,
            },
        },
    }
}

/// The claims and the witness of an issuance of `value`, with the issued commitment.
fn issue(h: &Hasher, value: u64) -> (PublicInput, Witness, Fe) {
    let mut w = base_witness();
    w.value_in = value;
    w.value_out = value;
    let sender = h.id_commitment(&w.nullifier_key, &w.public_key);
    let note = Note::new(
        &asset(),
        &sender,
        &Fe::from_u64(value),
        &Fe::zero(),
        &Fe::zero(),
        &NoteOutIndex::Issue.inner(),
    );
    let commitment = h.note(&note);
    let blinded = h.blind_note(&commitment, &w.blind_out_0);
    let pi = PublicInput {
        step: Fe::zero(),
        asset_hash: asset(),
        sender,
        state_in: asset(),
        state_out: h.state(&Fe::zero(), &blinded),
        nullifier: Fe::from_u64(999),
    };
    (pi, w, commitment)
}

/// The claims and the witness of a split at step 1 of a note of `value_in`
/// into `value_in - value_out` and `value_out`, with the three commitments.
fn split(
    h: &Hasher,
    value_in: u64,
    value_out: u64,
    slot: NoteOutIndex,
) -> (PublicInput, Witness, (Fe, Fe, Fe)) {
    let mut w = base_witness();
    w.value_in = value_in;
    w.value_out = value_out;
    w.input_index = slot;
    let step = Fe::from_u64(1);
    let sender = h.id_commitment(&w.nullifier_key, &w.public_key);
    let note_in = Note::new(
        &asset(),
        &sender,
        &Fe::from_u64(value_in),
        &step,
        &w.parent,
        &slot.inner(),
    );
    let c_in = h.note(&note_in);
    let b_in = h.blind_note(&c_in, &w.blind_in);
    let state_in = if slot == NoteOutIndex::Out0 {
        h.state(&b_in, &w.sibling)
    } else {
        h.state(&w.sibling, &b_in)
    };
    let note_0 = Note::new(
        &asset(),
        &w.receiver,
        &Fe::difference(value_in, value_out),
        &step,
        &b_in,
        &NoteOutIndex::Out0.inner(),
    );
    let note_1 = Note::new(
        &asset(),
        &sender,
        &Fe::from_u64(value_out),
        &step,
        &b_in,
        &NoteOutIndex::Out1.inner(),
    );
    let c_0 = h.note(&note_0);
    let c_1 = h.note(&note_1);
    let state_out = h.state(
        &h.blind_note(&c_1, &w.blind_out_0),
        &h.blind_note(&c_1, &w.blind_out_1),
    );
    let pi = PublicInput {
        step,
        asset_hash: asset(),
        sender,
        state_in,
        state_out,
        nullifier: h.nullifier(&c_in, &w.nullifier_key),
    };
    (pi, w, (c_in, c_0, c_1))
}

fn run(h: Hasher, pi: PublicInput, w: Witness) -> (bool, SignatureGate) {
    let mut cs = ConstraintSystem::new();
    let cir = Circuit {
        h,
        public: Some(pi),
        aux: Some(w),
    };
    let gate = synth(&mut cs, &cir).unwrap();
    (cs.is_satisfied(), gate)
}

fn holds(pi: PublicInput, w: Witness) -> bool {
    run(new_hasher(), pi, w).0
}

#[test]
fn issue_of_100_is_satisfied() {
    let h = new_hasher();
    let (pi, w, commitment) = issue(&h, 100);
    let expected_message = h.sighash(&Fe::zero(), &commitment, &Fe::zero());
    let (ok, gate) = run(h, pi, w);
    assert!(ok);
    assert_eq!(gate.message, expected_message);
    assert_eq!(gate.public_key, w.public_key);
    assert_eq!(gate.r, w.signature.r);
    assert_eq!(gate.s, w.signature.s);
}

#[test]
fn issue_is_satisfied_for_other_values_and_blinds() {
    let h = new_hasher();
    for value in [1u64, 2, 77, u64::MAX] {
        let (pi, w, _) = issue(&h, value);
        assert!(holds(pi, w));
    }
}

#[test]
fn issue_ignores_the_claimed_nullifier() {
    let h = new_hasher();
    let (mut pi, w, _) = issue(&h, 100);
    pi.nullifier = Fe::from_u64(123456);
    assert!(holds(pi, w));
}

#[test]
fn issue_of_zero_is_refused() {
    let h = new_hasher();
    let (pi, w, _) = issue(&h, 0);
    assert!(!holds(pi, w));
}

#[test]
fn issue_with_wrong_claims_is_refused() {
    let h = new_hasher();
    let (pi, w, _) = issue(&h, 100);
    let mut other = pi;
    other.state_in = Fe::from_u64(1);
    assert!(!holds(other, w));
    let mut other = pi;
    other.state_out = Fe::from_u64(1);
    assert!(!holds(other, w));
    let mut other = pi;
    other.sender = Fe::from_u64(1);
    assert!(!holds(other, w));
    let mut other = pi;
    other.asset_hash = Fe::from_u64(1);
    assert!(!holds(other, w));
}

#[test]
fn split_of_100_into_30_and_70_is_satisfied() {
    let h = new_hasher();
    let (pi, w, (c_in, c_0, c_1)) = split(&h, 100, 70, NoteOutIndex::Out1);
    let expected_message = h.sighash(&c_in, &c_0, &c_1);
    let expected_nullifier = h.nullifier(&c_in, &w.nullifier_key);
    let (ok, gate) = run(h, pi, w);
    assert!(ok);
    assert_eq!(gate.message, expected_message);
    assert_eq!(pi.nullifier, expected_nullifier);
}

#[test]
fn split_is_satisfied_from_either_slot() {
    let h = new_hasher();
    let (pi, w, _) = split(&h, 100, 70, NoteOutIndex::Out0);
    assert!(holds(pi, w));
    let (pi, w, _) = split(&h, 100, 70, NoteOutIndex::Out1);
    assert!(holds(pi, w));
}

#[test]
fn split_with_swapped_values_is_refused() {
    let h = new_hasher();
    let (pi, w, _) = split(&h, 100, 30, NoteOutIndex::Out1);
    assert!(!holds(pi, w));
}

#[test]
fn split_into_equal_halves_is_refused() {
    let h = new_hasher();
    let (pi, w, _) = split(&h, 100, 50, NoteOutIndex::Out1);
    assert!(!holds(pi, w));
    let (pi, w, _) = split(&h, 101, 51, NoteOutIndex::Out1);
    assert!(holds(pi, w));
}

#[test]
fn split_that_creates_value_is_refused() {
    let h = new_hasher();
    let (pi, w, _) = split(&h, 100, 101, NoteOutIndex::Out1);
    assert!(!holds(pi, w));
}

#[test]
fn split_of_the_largest_values_is_satisfied() {
    let h = new_hasher();
    let (pi, w, _) = split(&h, u64::MAX, u64::MAX, NoteOutIndex::Out0);
    assert!(holds(pi, w));
}

#[test]
fn split_cannot_spend_the_state_of_an_issuance() {
    let h = new_hasher();
    let (issued, _, _) = issue(&h, 100);
    let (mut pi, mut w, _) = split(&h, 100, 70, NoteOutIndex::Out1);
    pi.state_in = issued.state_out;
    w.sibling = Fe::zero();
    w.parent = Fe::zero();
    w.blind_in = w.blind_out_0;
    assert!(!holds(pi, w));
}

#[test]
fn mutated_witness_is_refused() {
    let h = new_hasher();
    let (pi, w, _) = split(&h, 100, 70, NoteOutIndex::Out1);
    assert!(holds(pi, w));
    let mut m = w;
    m.value_in = 100 ^ 1;
    assert!(!holds(pi, m));
    let mut m = w;
    m.value_out = 70 ^ 4;
    assert!(!holds(pi, m));
    let mut m = w;
    m.nullifier_key = Fe::from_u64(2002);
    assert!(!holds(pi, m));
    let mut m = w;
    m.sibling = Fe::from_u64(35);
    assert!(!holds(pi, m));
    let mut m = w;
    m.parent = Fe::from_u64(34);
    assert!(!holds(pi, m));
    let mut m = w;
    m.blind_in = Fe::from_u64(1);
    assert!(!holds(pi, m));
    let mut m = w;
    m.blind_out_0 = Fe::from_u64(1);
    assert!(!holds(pi, m));
    let mut m = w;
    m.blind_out_1 = Fe::from_u64(1);
    assert!(!holds(pi, m));
    let mut m = w;
    m.input_index = NoteOutIndex::Out0;
    assert!(!holds(pi, m));
    let mut m = w;
    m.public_key = Point {
        x: Fe::from_u64(1002),
        y: Fe::from_u64(1001),
    };
    assert!(!holds(pi, m));
}

#[test]
fn mutated_issue_witness_is_refused() {
    let h = new_hasher();
    let (pi, w, _) = issue(&h, 100);
    let mut m = w;
    m.value_out = 101;
    assert!(!holds(pi, m));
    let mut m = w;
    m.blind_out_0 = Fe::from_u64(1);
    assert!(!holds(pi, m));
    let mut m = w;
    m.nullifier_key = Fe::from_u64(2002);
    assert!(!holds(pi, m));
}

#[test]
fn input_slot_of_an_issuance_is_refused() {
    let h = new_hasher();
    let (pi, mut w, _) = issue(&h, 100);
    w.input_index = NoteOutIndex::Issue;
    assert!(!holds(pi, w));
    let (pi, w, _) = split(&h, 100, 70, NoteOutIndex::Issue);
    assert!(!holds(pi, w));
}

#[test]
fn message_changes_with_each_commitment() {
    let h = new_hasher();
    let (pi, w, _) = split(&h, 100, 70, NoteOutIndex::Out1);
    let (_, gate) = run(new_hasher(), pi, w);
    // the input commitment
    let mut m = w;
    m.parent = Fe::from_u64(77);
    assert_ne!(run(new_hasher(), pi, m).1.message, gate.message);
    // the first output commitment
    let mut m = w;
    m.receiver = Fe::from_u64(77);
    assert_ne!(run(new_hasher(), pi, m).1.message, gate.message);
    // the second output commitment
    let mut m = w;
    m.value_out = 71;
    assert_ne!(run(new_hasher(), pi, m).1.message, gate.message);
    let (_, same) = run(h, pi, w);
    assert_eq!(same.message, gate.message);
}

#[test]
fn missing_claims_or_witness_fail_synthesis() {
    let h = new_hasher();
    let (pi, w, _) = issue(&h, 100);
    let mut cs = ConstraintSystem::new();
    let cir = Circuit {
        h,
        public: Some(pi),
        aux: None,
    };
    assert_eq!(
        synth(&mut cs, &cir).unwrap_err(),
        SynthesisError::AssignmentMissing
    );
    assert!(cs.is_satisfied());
    let cir = Circuit {
        h: new_hasher(),
        public: None,
        aux: Some(w),
    };
    assert_eq!(
        synth(&mut cs, &cir).unwrap_err(),
        SynthesisError::AssignmentMissing
    );
    assert!(cs.is_satisfied());
}

#[test]
fn unsatisfied_system_stays_unsatisfied() {
    let h = new_hasher();
    let (pi, w, _) = issue(&h, 100);
    let mut cs = ConstraintSystem::new();
    cs.enforce(false);
    let cir = Circuit {
        h,
        public: Some(pi),
        aux: Some(w),
    };
    assert!(synth(&mut cs, &cir).is_ok());
    assert!(!cs.is_satisfied());
}

#[test]
fn signature_outcome_is_bound() {
    let h = new_hasher();
    let (pi, w, _) = issue(&h, 100);
    let mut cs = ConstraintSystem::new();
    let cir = Circuit {
        h,
        public: Some(pi),
        aux: Some(w),
    };
    let gate = synth(&mut cs, &cir).unwrap();
    let mut accepted = cs;
    verify_signature(&mut accepted, &gate, true);
    assert!(accepted.is_satisfied());
    let mut refused = cs;
    verify_signature(&mut refused, &gate, false);
    assert!(!refused.is_satisfied());
    verify_signature(&mut refused, &gate, true);
    assert!(!refused.is_satisfied());
}

#[test]
fn gates_enforce_their_relations() {
    let a = Fe::from_u64(30);
    let b = Fe::from_u64(70);
    let mut cs = ConstraintSystem::new();
    cs.enforce_equal(&a, &a);
    cs.conditional_enforce_equal(&a, &b, false);
    cs.enforce_less(&a, &b);
    cs.enforce(true);
    assert!(cs.is_satisfied());
    let mut c = cs;
    c.enforce_equal(&a, &b);
    assert!(!c.is_satisfied());
    let mut c = cs;
    c.conditional_enforce_equal(&a, &b, true);
    assert!(!c.is_satisfied());
    let mut c = cs;
    c.enforce_less(&b, &a);
    assert!(!c.is_satisfied());
    let mut c = cs;
    c.enforce_less(&a, &a);
    assert!(!c.is_satisfied());
    let mut c = cs;
    c.enforce_less(&a, &Fe::difference(0, 1));
    assert!(!c.is_satisfied());
    assert_eq!(conditionally_select(true, &a, &b), a);
    assert_eq!(conditionally_select(false, &a, &b), b);
}

#[test]
fn address_is_the_identity_commitment() {
    let h = new_hasher();
    let auth = ivcnotes::id::Auth::generate(&h, nullifier_key(), key());
    assert_eq!(*auth.address(), h.id_commitment(&nullifier_key(), &key()));
    assert_eq!(*auth.nullifier_key(), nullifier_key());
    assert_eq!(*auth.public_key(), key());
    let (pi, _, _) = issue(&h, 100);
    assert_eq!(pi.sender, *auth.address());
    let other = ivcnotes::id::Auth::generate(&h, Fe::from_u64(2002), key());
    assert_ne!(*other.address(), *auth.address());
}

#[test]
fn claims_go_on_the_wire_in_their_order() {
    let pi = PublicInput {
        step: Fe::from_u64(1),
        asset_hash: Fe::from_u64(2),
        sender: Fe::from_u64(3),
        state_in: Fe::from_u64(4),
        state_out: Fe::from_u64(5),
        nullifier: Fe::from_u64(6),
    };
    let expected: Vec<Fe> = (1u64..=6).map(Fe::from_u64).collect();
    assert_eq!(pi.wire(), expected);
}
