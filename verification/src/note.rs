//! Notes, the slots they can occupy, and the points and scalars that
//! accompany them.

use crate::field::Fe;
use vstd::prelude::*;

verus! {

/// The slot of a note among the outputs of the step that created it.
#[derive(Clone, Copy, Debug, PartialEq, Eq, Structural)]
pub enum NoteOutIndex {
    /// The single output of an issuance.
    Issue,
    /// The first output of a split.
    Out0,
    /// The second output of a split.
    Out1,
}

impl NoteOutIndex {
    /// The number that stands for the slot inside a note.
    pub open spec fn spec_inner(&self) -> nat {
        match self {
            NoteOutIndex::Issue => 0,
            NoteOutIndex::Out0 => 1,
            NoteOutIndex::Out1 => 2,
        }
    }

    /// The field element that stands for the slot inside a note.
    pub fn inner(&self) -> (r: Fe)
        ensures
            r@ == self.spec_inner(),
    {
        match self {
            NoteOutIndex::Issue => Fe::from_u64(0),
            NoteOutIndex::Out0 => Fe::from_u64(1),
            NoteOutIndex::Out1 => Fe::from_u64(2),
        }
    }
}

/// What a note commits to. `out_index` is held as a field element, as it is
/// hashed; `value` likewise, its width being the caller's concern.
#[derive(Clone, Copy, Debug, PartialEq, Eq)]
pub struct Note {
    pub asset_hash: Fe,
    pub owner: Fe,
    pub value: Fe,
    pub step: Fe,
    pub parent_note: Fe,
    pub out_index: Fe,
}

impl Note {
    pub fn new(
        asset_hash: &Fe,
        owner: &Fe,
        value: &Fe,
        step: &Fe,
        parent_note: &Fe,
        out_index: &Fe,
    ) -> (r: Note)
        ensures
            r == (Note {
                asset_hash: *asset_hash,
                owner: *owner,
                value: *value,
                step: *step,
                parent_note: *parent_note,
                out_index: *out_index,
            }),
    {
        Note {
            asset_hash: *asset_hash,
            owner: *owner,
            value: *value,
            step: *step,
            parent_note: *parent_note,
            out_index: *out_index,
        }
    }

    /// The six values that are hashed, in the order in which they are hashed.
    pub open spec fn fields(&self) -> Seq<nat> {
        seq![
            self.asset_hash@,
            self.owner@,
            self.value@,
            self.step@,
            self.parent_note@,
            self.out_index@,
        ]
    }
}

/// A point of the signature curve, by its affine coordinates.
#[derive(Clone, Copy, Debug, PartialEq, Eq)]
pub struct Point {
    pub x: Fe,
    pub y: Fe,
}

/// A scalar of the signature curve. Its field is not the one the relation is
/// stated over, so it is carried as limbs and never computed with.
#[derive(Clone, Copy, Debug, PartialEq, Eq, Structural)]
pub struct Scalar {
    pub l0: u64,
    pub l1: u64,
    pub l2: u64,
    pub l3: u64,
}

/// A signature: a curve point and a scalar.
#[derive(Clone, Copy, Debug, PartialEq, Eq)]
pub struct Signature {
    pub r: Point,
    pub s: Scalar,
}

} // verus!
