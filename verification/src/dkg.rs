//! Distributed-key-generation public keys.
//!
//! The DKG public key type itself belongs to an outside crate; this library
//! reads nothing of it but its canonical fixed-size byte encoding, so the key
//! is modeled as exactly those bytes. Equality and AAD derivation thereby
//! operate on the canonical encoding, as the protocol demands.

use vstd::prelude::*;

use crate::backend::random_dkg_key_bytes;
use crate::codec::clone_bytes;

verus! {

/// The canonical compressed encoding length of a DKG public key.
pub const DKG_PUBLIC_KEY_SIZE: usize = 48;

/// A distributed-key-generation public key, held in its canonical 48-byte
/// compressed encoding. Equality is equality of that encoding.
#[derive(Debug, PartialEq, Eq)]
pub struct DkgPublicKey {
    bytes: Vec<u8>,
}

impl View for DkgPublicKey {
    type V = Seq<u8>;

    closed spec fn view(&self) -> Seq<u8> {
        self.bytes@
    }
}

impl DkgPublicKey {
    #[verifier::type_invariant]
    spec fn type_inv(self) -> bool {
        self.bytes@.len() == DKG_PUBLIC_KEY_SIZE
    }

    /// Wraps a canonical key encoding; `None` unless exactly
    /// [`DKG_PUBLIC_KEY_SIZE`] bytes are given. Nothing here checks that the
    /// bytes name a curve point: the key is carried and compared by its
    /// canonical encoding alone, and point validation belongs to the outside
    /// DKG type that produces and consumes these keys.
    pub fn from_bytes(bytes: Vec<u8>) -> (r: Option<Self>)
        ensures
            match r {
                Some(k) => k@ == bytes@ && bytes@.len() == DKG_PUBLIC_KEY_SIZE,
                None => bytes@.len() != DKG_PUBLIC_KEY_SIZE,
            },
    {
        if bytes.len() == DKG_PUBLIC_KEY_SIZE {
            Some(DkgPublicKey { bytes })
        } else {
            None
        }
    }

    /// A fresh random key, for testing.
    pub fn random() -> (r: Self)
        ensures
            r@.len() == DKG_PUBLIC_KEY_SIZE,
    {
        DkgPublicKey { bytes: random_dkg_key_bytes() }
    }

    /// The canonical byte encoding; never fails for a well-formed key.
    pub fn to_bytes(&self) -> (r: Vec<u8>)
        ensures
            r@ == self@,
            r@.len() == DKG_PUBLIC_KEY_SIZE,
    {
        proof {
            use_type_invariant(self);
        }
        clone_bytes(&self.bytes)
    }

    /// The canonical byte encoding, borrowed.
    pub fn as_bytes(&self) -> (r: &Vec<u8>)
        ensures
            r@ == self@,
            r@.len() == DKG_PUBLIC_KEY_SIZE,
    {
        proof {
            use_type_invariant(self);
        }
        &self.bytes
    }
}

impl Clone for DkgPublicKey {
    fn clone(&self) -> (r: Self)
        ensures
            r@ == self@,
    {
        proof {
            use_type_invariant(self);
        }
        DkgPublicKey { bytes: clone_bytes(&self.bytes) }
    }
}

} // verus!
