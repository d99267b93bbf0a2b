//! The boundary to the outside cryptographic crates.
//!
//! Every function here is trusted: its body makes the outside call, and its
//! contract states only what the outside crate's source shows. The rest of
//! the library is verified against these contracts. Results that are pure
//! functions of the arguments (base64, signature verification, decryption)
//! are given names; results that depend on randomness (key generation,
//! signing, encryption) get no name, and their contracts state what holds of
//! every outcome.

use vstd::prelude::*;

use base64::Engine;
use umbral_pre::{DefaultDeserialize, DefaultSerialize};

verus! {

/// The largest byte string handed to base64 encoding. The wire format's
/// four-byte length cap would allow roughly three times as much; one binary
/// gigabyte is a deliberately conservative round figure, far beyond any
/// authorization proof or fragment ciphertext, that keeps every derived
/// length comfortably inside the cap.
pub const MAX_B64_INPUT_LEN: u64 = 0x40000000;

/// The base64 encoding (standard alphabet, padded) of `s`, as UTF-8 bytes.
pub uninterp spec fn b64_of(s: Seq<u8>) -> Seq<u8>;

/// What base64 decoding returns on `s`: the encoded bytes where `s` is a
/// well-formed encoding, and nothing otherwise.
pub uninterp spec fn b64_dec(s: Seq<u8>) -> Option<Seq<u8>>;

/// Whether `pk` is the compressed encoding of a curve point, i.e. whether
/// umbral-pre's `PublicKey::try_from_compressed_bytes` accepts it: a pure
/// function of the bytes.
pub uninterp spec fn pk_parses(pk: Seq<u8>) -> bool;

/// The compressed public key belonging to the secret scalar `sk`, if `sk` is
/// a valid big-endian secret scalar: the result of umbral-pre's
/// `SecretKey::try_from_be_bytes` followed by `SecretKey::public_key` and
/// `PublicKey::to_compressed_bytes`.
pub uninterp spec fn pk_of(sk: Seq<u8>) -> Option<Seq<u8>>;

/// Whether `sig` verifies under `pk` for `msg`: the result of umbral-pre's
/// `Signature::verify`, with the signature and the key rebuilt from their
/// canonical bytes.
pub uninterp spec fn sig_valid(pk: Seq<u8>, msg: Seq<u8>, sig: Seq<u8>) -> bool;

/// What umbral-pre's `decrypt_original` returns for the secret scalar `sk`,
/// the MessagePack-serialized `capsule` and the ciphertext `ct`: decryption
/// is deterministic in the three.
pub uninterp spec fn umbral_decrypt(sk: Seq<u8>, capsule: Seq<u8>, ct: Seq<u8>) -> Option<Seq<u8>>;

/// Relies on base64's `STANDARD` engine: encoding is deterministic, emits
/// four output bytes for every three input bytes (padded), and decoding
/// inverts it exactly.
#[verifier::external_body]
pub(crate) fn b64_encode(b: &Vec<u8>) -> (r: Vec<u8>)
    requires
        b@.len() <= MAX_B64_INPUT_LEN,
    ensures
        r@ == b64_of(b@),
        r@.len() == 4 * ((b@.len() + 2) / 3),
        b64_dec(r@) == Some(b@),
{
    base64::engine::general_purpose::STANDARD.encode(b).into_bytes()
}

/// Relies on base64's `STANDARD` engine: decoding is deterministic and
/// returns at most three bytes for every four input bytes.
#[verifier::external_body]
pub(crate) fn b64_decode(s: &Vec<u8>) -> (r: Option<Vec<u8>>)
    ensures
        match r {
            Some(v) => b64_dec(s@) == Some(v@) && v@.len() <= s@.len(),
            None => b64_dec(s@) is None,
        },
{
    base64::engine::general_purpose::STANDARD.decode(s).ok()
}

/// The outside secret key type, carried opaquely inside the library's
/// [`crate::keys::UmbralSecretKey`].
#[verifier::external_type_specification]
#[verifier::external_body]
pub struct ExSecretKey(umbral_pre::SecretKey);

/// The big-endian secret scalar bytes of a secret key: names the result of
/// umbral-pre's `SecretKey::to_be_bytes`. Every contract over a secret key
/// speaks of the key through this name.
pub uninterp spec fn sk_scalar(k: umbral_pre::SecretKey) -> Seq<u8>;

/// Relies on umbral-pre's `SecretKey::random`: a fresh secret key, whose
/// scalar is by construction a valid one.
#[verifier::external_body]
pub(crate) fn random_secret_key() -> (r: umbral_pre::SecretKey)
    ensures
        pk_of(sk_scalar(r)) is Some,
{
    umbral_pre::SecretKey::random()
}

/// Relies on umbral-pre's `SecretKey::public_key` and
/// `PublicKey::to_compressed_bytes`: the public key is a function of the
/// secret scalar alone, and its compressed encoding parses back
/// (`PublicKey::try_from_compressed_bytes` inverts `to_compressed_bytes`).
#[verifier::external_body]
pub(crate) fn public_key_bytes_of(k: &umbral_pre::SecretKey) -> (r: Vec<u8>)
    requires
        pk_of(sk_scalar(*k)) is Some,
    ensures
        Some(r@) == pk_of(sk_scalar(*k)),
        pk_parses(r@),
{
    k.public_key().to_compressed_bytes().to_vec()
}

/// Relies on umbral-pre's `Signer::sign`: the produced signature verifies
/// under the signer's own verifying key for exactly the signed message.
/// Signing is randomized, so nothing more is stated of the bytes beyond
/// their fixed 64-byte big-endian form.
#[verifier::external_body]
pub(crate) fn sign_bytes(k: &umbral_pre::SecretKey, msg: &Vec<u8>) -> (r: Vec<u8>)
    requires
        pk_of(sk_scalar(*k)) is Some,
    ensures
        sig_valid(pk_of(sk_scalar(*k)).unwrap(), msg@, r@),
        r@.len() == 64,
{
    let signer = umbral_pre::Signer::new(k.clone());
    signer.sign(msg).to_be_bytes().to_vec()
}

/// Relies on umbral-pre's `Signature::verify`, with the signature rebuilt by
/// `Signature::try_from_be_bytes` and the key by
/// `PublicKey::try_from_compressed_bytes`: deterministic in its arguments;
/// bytes that parse as no signature or no key verify as nothing.
#[verifier::external_body]
pub(crate) fn verify_bytes(pk: &Vec<u8>, msg: &Vec<u8>, sig: &Vec<u8>) -> (r: bool)
    ensures
        r == sig_valid(pk@, msg@, sig@),
{
    let pk = match umbral_pre::PublicKey::try_from_compressed_bytes(pk) {
        Ok(k) => k,
        Err(_) => return false,
    };
    let sig = match umbral_pre::Signature::try_from_be_bytes(sig) {
        Ok(s) => s,
        Err(_) => return false,
    };
    sig.verify(&pk, msg)
}

/// Relies on umbral-pre's `encrypt` and the capsule's MessagePack
/// serialization. It succeeds exactly where the recipient key bytes parse as
/// a curve point: for a plaintext under the stated cap (far below the AEAD's
/// own message limit), the symmetric step cannot fail, and serializing a
/// capsule into a vector cannot either. The ciphertext is the plaintext plus
/// a 24-byte nonce and a 16-byte tag; the capsule serializes as three
/// fixed-size components with a few framing bytes. Whoever holds the secret
/// key matching `pk` can decrypt the result back to `pt`. Encryption is
/// randomized, so nothing else is stated of the output bytes.
#[verifier::external_body]
pub(crate) fn encrypt_for(pk: &Vec<u8>, pt: &Vec<u8>) -> (r: Option<(Vec<u8>, Vec<u8>)>)
    requires
        pt@.len() <= 0x400000000,
    ensures
        r is Some <==> pk_parses(pk@),
        r matches Some(p) ==> p.0@.len() <= 256 && p.1@.len() == pt@.len() + 40 && (
        forall|sk: Seq<u8>|
            pk_of(sk) == Some(pk@) ==> umbral_decrypt(sk, p.0@, p.1@) == Some(pt@)),
{
    let pk = umbral_pre::PublicKey::try_from_compressed_bytes(pk).ok()?;
    let (capsule, ct) = umbral_pre::encrypt(&pk, pt).ok()?;
    let cap_bytes = capsule.to_bytes().ok()?;
    Some((cap_bytes.to_vec(), ct.to_vec()))
}

/// Relies on umbral-pre's `decrypt_original`, with the capsule rebuilt from
/// its byte form: deterministic in the secret scalar, the capsule bytes and
/// the ciphertext; bytes that parse as no capsule, and ciphertexts that do
/// not authenticate, decrypt to nothing.
#[verifier::external_body]
pub(crate) fn decrypt_with(k: &umbral_pre::SecretKey, capsule: &Vec<u8>, ct: &Vec<u8>) -> (r: Option<
    Vec<u8>,
>)
    ensures
        match r {
            Some(v) => umbral_decrypt(sk_scalar(*k), capsule@, ct@) == Some(v@),
            None => umbral_decrypt(sk_scalar(*k), capsule@, ct@) is None,
        },
{
    let capsule = umbral_pre::Capsule::from_bytes(capsule.as_slice()).ok()?;
    umbral_pre::decrypt_original(k, &capsule, ct.as_slice()).ok().map(|b| b.to_vec())
}

/// Relies on `core::str::from_utf8`: returns whether `v` is well-formed
/// UTF-8, which is what `vstd`'s `valid_utf8` states of a byte sequence.
#[verifier::external_body]
pub(crate) fn is_valid_utf8(v: &Vec<u8>) -> (r: bool)
    ensures
        r == vstd::utf8::valid_utf8(v@),
{
    core::str::from_utf8(v).is_ok()
}

/// Relies on ferveo's `DkgPublicKey::random` and `DkgPublicKey::to_bytes`: a
/// fresh distributed-key-generation public key in its canonical 48-byte
/// compressed form.
#[verifier::external_body]
pub(crate) fn random_dkg_key_bytes() -> (r: Vec<u8>)
    ensures
        r@.len() == 48,
{
    let k = ferveo_pre_release::api::DkgPublicKey::random();
    k.to_bytes().unwrap().to_vec()
}

} // verus!
