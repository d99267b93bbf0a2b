//! Condition expressions.
//!
//! A condition is an opaque, byte-encodable expression attached to encrypted
//! data. This library never evaluates conditions; it only carries their UTF-8
//! byte encoding, compares it, and splices it into AAD strings and wire
//! payloads. The view of a `Conditions` value is that byte encoding.

use vstd::prelude::*;
use vstd::slice::slice_to_vec;
use vstd::string::StringSliceAdditionalSpecFns;
use vstd::utf8::valid_utf8;

use crate::backend::is_valid_utf8;
use crate::codec::clone_bytes;

verus! {

/// An opaque condition expression, held as the UTF-8 bytes of its textual
/// form. Equality is value equality of that byte encoding.
#[derive(Debug, PartialEq, Eq)]
pub struct Conditions {
    bytes: Vec<u8>,
}

impl View for Conditions {
    type V = Seq<u8>;

    closed spec fn view(&self) -> Seq<u8> {
        self.bytes@
    }
}

impl Conditions {
    /// Wraps a condition expression given as text.
    pub fn new(condition: &str) -> (r: Self)
        ensures
            r@ == condition.spec_bytes(),
            valid_utf8(r@),
    {
        proof {
            vstd::utf8::encode_utf8_valid_utf8(condition@);
        }
        Conditions { bytes: slice_to_vec(condition.as_bytes()) }
    }

    /// Wraps a condition expression already in its byte encoding; `None`
    /// unless the bytes are well-formed UTF-8, as the textual form demands.
    pub fn from_bytes(bytes: Vec<u8>) -> (r: Option<Self>)
        ensures
            match r {
                Some(c) => c@ == bytes@ && valid_utf8(bytes@),
                None => !valid_utf8(bytes@),
            },
    {
        if is_valid_utf8(&bytes) {
            Some(Conditions { bytes })
        } else {
            None
        }
    }

    /// The byte encoding of the condition expression.
    pub fn as_bytes(&self) -> (r: &Vec<u8>)
        ensures
            r@ == self@,
    {
        &self.bytes
    }
}

impl Clone for Conditions {
    fn clone(&self) -> (r: Self)
        ensures
            r@ == self@,
    {
        Conditions { bytes: clone_bytes(&self.bytes) }
    }
}

} // verus!
