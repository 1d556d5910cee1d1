//! One step of a confidential, note-based value-transfer ledger, stated as a
//! relation between published claims and private witness data.
//!
//! A step either issues a new note or splits one spent note into two. The
//! relation re-derives every commitment, the state digests, the nullifier and
//! the transcript digest that the owner must have signed, and binds them to
//! the published claims.

pub mod field;
pub mod poseidon;
pub mod note;
pub mod hasher;
pub mod gadgets;
pub mod circuit;
pub mod laws;
pub mod id;
