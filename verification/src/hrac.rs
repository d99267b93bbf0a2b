//! Policy identifiers.
//!
//! An HRAC is an opaque, fixed-size byte identifier that binds a set of key
//! fragments to one access policy. Its derivation algorithm lives outside
//! this library; here it is only carried and spliced into signed messages.

use vstd::prelude::*;

use crate::codec::clone_bytes;

verus! {

/// The byte length of every policy identifier.
pub const HRAC_SIZE: usize = 16;

/// An opaque policy identifier of exactly [`HRAC_SIZE`] bytes.
#[derive(Debug, PartialEq, Eq)]
pub struct Hrac {
    bytes: Vec<u8>,
}

impl View for Hrac {
    type V = Seq<u8>;

    closed spec fn view(&self) -> Seq<u8> {
        self.bytes@
    }
}

impl Hrac {
    #[verifier::type_invariant]
    spec fn type_inv(self) -> bool {
        self.bytes@.len() == HRAC_SIZE
    }

    /// Wraps identifier bytes; `None` unless exactly [`HRAC_SIZE`] bytes are
    /// given.
    pub fn from_bytes(bytes: Vec<u8>) -> (r: Option<Self>)
        ensures
            match r {
                Some(h) => h@ == bytes@ && bytes@.len() == HRAC_SIZE,
                None => bytes@.len() != HRAC_SIZE,
            },
    {
        if bytes.len() == HRAC_SIZE {
            Some(Hrac { bytes })
        } else {
            None
        }
    }

    /// The identifier bytes.
    pub fn as_bytes(&self) -> (r: &Vec<u8>)
        ensures
            r@ == self@,
            r@.len() == HRAC_SIZE,
    {
        proof {
            use_type_invariant(self);
        }
        &self.bytes
    }
}

impl Clone for Hrac {
    fn clone(&self) -> (r: Self)
        ensures
            r@ == self@,
    {
        proof {
            use_type_invariant(self);
        }
        Hrac { bytes: clone_bytes(&self.bytes) }
    }
}

} // verus!
