//! Wire-level protocol objects for authorizing, encrypting, and transporting
//! the fragments of a proxy re-encryption key in a threshold access-control
//! scheme. Every object serializes through a versioned, brand-tagged binary
//! envelope; key fragments are bound to a policy identifier by signature and
//! then encrypted for a single recipient.

pub mod access_control;
pub mod backend;
pub mod codec;
pub mod conditions;
pub mod dkg;
pub mod hrac;
pub mod key_frag;
pub mod keys;
