//! The identity of a note holder: a nullifier key, a public key, and the
//! address that commits to both.

use crate::field::Fe;
use crate::hasher::Hasher;
use crate::note::Point;
use vstd::prelude::*;

verus! {

/// The secrets of a note holder that the relation reads, and the holder's
/// public address.
#[derive(Clone, Copy, Debug, PartialEq, Eq)]
pub struct Auth {
    nullifier_key: Fe,
    public_key: Point,
    address: Fe,
}

impl Auth {
    pub closed spec fn spec_nullifier_key(&self) -> Fe {
        self.nullifier_key
    }

    pub closed spec fn spec_public_key(&self) -> Point {
        self.public_key
    }

    pub closed spec fn spec_address(&self) -> Fe {
        self.address
    }

    /// The identity of the holder of a freshly drawn nullifier key and of the
    /// signing key that `public_key` belongs to. Its address is the identity
    /// commitment of the two, which is what a step must name as its sender.
    pub fn generate(h: &Hasher, nullifier_key: Fe, public_key: Point) -> (auth: Auth)
        ensures
            auth.spec_nullifier_key() == nullifier_key,
            auth.spec_public_key() == public_key,
            auth.spec_address()@ == h.spec_id_commitment(
                nullifier_key@,
                public_key.x@,
                public_key.y@,
            ),
    {
        let address = h.id_commitment(&nullifier_key, &public_key);
        Auth { nullifier_key, public_key, address }
    }

    pub fn address(&self) -> (r: &Fe)
        ensures
            *r == self.spec_address(),
    {
        &self.address
    }

    pub fn nullifier_key(&self) -> (r: &Fe)
        ensures
            *r == self.spec_nullifier_key(),
    {
        &self.nullifier_key
    }

    pub fn public_key(&self) -> (r: &Point)
        ensures
            *r == self.spec_public_key(),
    {
        &self.public_key
    }
}

} // verus!
