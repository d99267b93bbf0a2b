//! Signing and encryption keys.
//!
//! These model the outside crate's key types by their canonical byte
//! encodings: a secret key as its big-endian scalar bytes (valid by
//! construction), a public key as its compressed point bytes. All key
//! arithmetic stays in the outside crate, behind the trusted boundary.

use vstd::prelude::*;

use crate::backend::{
    pk_of, public_key_bytes_of, random_secret_key, sig_valid, sign_bytes, sk_scalar,
};
use crate::codec::clone_bytes;

verus! {

/// A secret key: the outside crate's key value, carried opaquely. The view
/// of a secret key is its secret scalar's bytes; the contracts of everything
/// keyed by it speak of the key through that view, never of the scalar
/// itself.
pub struct UmbralSecretKey {
    backend: umbral_pre::SecretKey,
}

impl View for UmbralSecretKey {
    type V = Seq<u8>;

    closed spec fn view(&self) -> Seq<u8> {
        sk_scalar(self.backend)
    }
}

impl UmbralSecretKey {
    #[verifier::type_invariant]
    spec fn type_inv(self) -> bool {
        pk_of(sk_scalar(self.backend)) is Some
    }

    /// A fresh random secret key.
    pub fn random() -> (r: Self)
        ensures
            pk_of(r@) is Some,
    {
        UmbralSecretKey { backend: random_secret_key() }
    }

    /// The public key matching this secret key.
    pub fn public_key(&self) -> (r: PublicKey)
        ensures
            Some(r@) == pk_of(self@),
    {
        proof {
            use_type_invariant(self);
        }
        PublicKey { bytes: public_key_bytes_of(&self.backend) }
    }

    /// The outside key value, for the trusted boundary.
    pub(crate) fn backend(&self) -> (r: &umbral_pre::SecretKey)
        ensures
            sk_scalar(*r) == self@,
            pk_of(self@) is Some,
    {
        proof {
            use_type_invariant(self);
        }
        &self.backend
    }
}

/// A public key, as its canonical compressed point bytes. Equality is
/// equality of that encoding.
#[derive(Debug, PartialEq, Eq)]
pub struct PublicKey {
    bytes: Vec<u8>,
}

impl View for PublicKey {
    type V = Seq<u8>;

    closed spec fn view(&self) -> Seq<u8> {
        self.bytes@
    }
}

impl PublicKey {
    /// Wraps a compressed-point encoding. Nothing is validated here: a key
    /// that parses as no point simply verifies and encrypts nothing.
    pub fn from_bytes(bytes: Vec<u8>) -> (r: Self)
        ensures
            r@ == bytes@,
    {
        PublicKey { bytes }
    }

    /// The canonical byte encoding.
    pub fn as_bytes(&self) -> (r: &Vec<u8>)
        ensures
            r@ == self@,
    {
        &self.bytes
    }
}

impl Clone for PublicKey {
    fn clone(&self) -> (r: Self)
        ensures
            r@ == self@,
    {
        PublicKey { bytes: clone_bytes(&self.bytes) }
    }
}

/// A signing capability around a secret key.
pub struct Signer {
    secret: UmbralSecretKey,
}

impl View for Signer {
    type V = Seq<u8>;

    closed spec fn view(&self) -> Seq<u8> {
        self.secret@
    }
}

impl Signer {
    /// Creates a signer out of a secret key.
    pub fn new(secret: UmbralSecretKey) -> (r: Self)
        ensures
            r@ == secret@,
    {
        Signer { secret }
    }

    /// Signs `message`: the produced signature bytes verify under this
    /// signer's verifying key for exactly `message`.
    pub fn sign(&self, message: &Vec<u8>) -> (r: Vec<u8>)
        ensures
            sig_valid(pk_of(self@).unwrap(), message@, r@),
            r@.len() == 64,
    {
        sign_bytes(self.secret.backend(), message)
    }

    /// The public key that verifies this signer's signatures.
    pub fn verifying_key(&self) -> (r: PublicKey)
        ensures
            Some(r@) == pk_of(self@),
    {
        self.secret.public_key()
    }
}

} // verus!
