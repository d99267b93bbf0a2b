//! Authorized and encrypted key fragments.
//!
//! A re-encryption key fragment is bound to one access policy by a signature
//! over the policy identifier and the fragment's canonical bytes, in that
//! order, with no delimiters. The signed bundle is then asymmetrically
//! encrypted for exactly one recipient. Trust in a received fragment is
//! established purely by the detached signature check: the wire format
//! carries no verification flag.

use vstd::prelude::*;

use crate::backend::{
    decrypt_with, encrypt_for, pk_of, pk_parses, sig_valid, umbral_decrypt, verify_bytes,
    MAX_B64_INPUT_LEN, b64_dec, b64_decode, b64_encode, b64_of,
};
use crate::codec::{
    clone_bytes, enc_bin, enc_str, lemma_parse_envelope_enc, lemma_read_bin_enc,
    lemma_read_bin_props, lemma_read_str_enc, parse_envelope, push_all, read_bin, read_str,
    spec_envelope, spec_parse_envelope, spec_read_bin, spec_read_str, write_bin, write_envelope,
    write_str, ProtocolError, TAG_FIXARRAY2,
};
use crate::hrac::Hrac;
use crate::keys::{PublicKey, Signer, UmbralSecretKey};

verus! {

/// The message that an authorizing signature covers: the policy identifier's
/// bytes, then the fragment's canonical bytes, with no length delimiters.
pub open spec fn signed_message(hrac: Seq<u8>, kfrag: Seq<u8>) -> Seq<u8> {
    hrac + kfrag
}

/// Whether the holder has established trust in a fragment. The wire format
/// never carries this: it is local state, rebuilt by a signature check.
#[derive(Debug, PartialEq, Eq, Clone, Copy, Structural)]
pub enum KeyFragStatus {
    Verified,
    Unverified,
}

/// One share of a split re-encryption key, opaque to this library beyond its
/// canonical byte form, tagged with its local verification status. Moving
/// between statuses is an explicit, non-failing projection.
#[derive(Debug, PartialEq, Eq)]
pub struct KeyFrag {
    bytes: Vec<u8>,
    status: KeyFragStatus,
}

impl View for KeyFrag {
    type V = Seq<u8>;

    closed spec fn view(&self) -> Seq<u8> {
        self.bytes@
    }
}

impl KeyFrag {
    pub closed spec fn is_verified(&self) -> bool {
        self.status == KeyFragStatus::Verified
    }

    /// Wraps fragment bytes of unestablished trust.
    pub fn from_bytes(bytes: Vec<u8>) -> (r: Self)
        ensures
            r@ == bytes@,
            !r.is_verified(),
    {
        KeyFrag { bytes, status: KeyFragStatus::Unverified }
    }

    /// Wraps fragment bytes whose trust the caller has established elsewhere.
    pub fn from_verified_bytes(bytes: Vec<u8>) -> (r: Self)
        ensures
            r@ == bytes@,
            r.is_verified(),
    {
        KeyFrag { bytes, status: KeyFragStatus::Verified }
    }

    /// Forgets the verification status: the byte layout is identical.
    pub fn unverify(self) -> (r: Self)
        ensures
            r@ == self@,
            !r.is_verified(),
    {
        KeyFrag { bytes: self.bytes, status: KeyFragStatus::Unverified }
    }

    /// The canonical fragment bytes.
    pub fn as_bytes(&self) -> (r: &Vec<u8>)
        ensures
            r@ == self@,
    {
        &self.bytes
    }
}

impl Clone for KeyFrag {
    fn clone(&self) -> (r: Self)
        ensures
            r@ == self@,
            r.is_verified() == self.is_verified(),
    {
        KeyFrag { bytes: clone_bytes(&self.bytes), status: self.status }
    }
}

/// The mathematical content of an [`AuthorizedKeyFrag`].
pub ghost struct AuthorizedKeyFragView {
    pub signature: Seq<u8>,
    pub kfrag: Seq<u8>,
}

/// A key fragment bound to one policy identifier by a signature over their
/// concatenation, verifiable by anyone holding the signer's public key.
#[derive(Debug, PartialEq, Eq)]
pub struct AuthorizedKeyFrag {
    signature: Vec<u8>,
    kfrag: KeyFrag,
}

impl View for AuthorizedKeyFrag {
    type V = AuthorizedKeyFragView;

    closed spec fn view(&self) -> AuthorizedKeyFragView {
        AuthorizedKeyFragView { signature: self.signature@, kfrag: self.kfrag@ }
    }
}

impl Clone for AuthorizedKeyFrag {
    fn clone(&self) -> (r: Self)
        ensures
            r@ == self@,
    {
        AuthorizedKeyFrag { signature: clone_bytes(&self.signature), kfrag: self.kfrag.clone() }
    }
}

impl AuthorizedKeyFrag {
    /// What a well-formed value looks like: fields short enough to frame.
    pub open spec fn view_wf(v: AuthorizedKeyFragView) -> bool {
        &&& v.signature.len() < 0x100000000
        &&& v.kfrag.len() < 0x100000000
    }

    pub open spec fn wf(&self) -> bool {
        Self::view_wf(self@)
    }

    /// Binds a verified fragment to the policy identified by `hrac`: the
    /// fragment is projected back to its plain byte form (the wire carries no
    /// verification flag) and signed together with the identifier.
    pub fn new(signer: &Signer, hrac: &Hrac, verified_kfrag: &KeyFrag) -> (r: Self)
        requires
            verified_kfrag.is_verified(),
        ensures
            r@.kfrag == verified_kfrag@,
            sig_valid(
                pk_of(signer@).unwrap(),
                signed_message(hrac@, verified_kfrag@),
                r@.signature,
            ),
            r@.signature.len() == 64,
    {
        let kfrag = verified_kfrag.clone().unverify();
        let mut message: Vec<u8> = Vec::new();
        push_all(&mut message, hrac.as_bytes());
        push_all(&mut message, kfrag.as_bytes());
        let signature = signer.sign(&message);
        AuthorizedKeyFrag { signature, kfrag }
    }

    /// What `verify` returns: the fragment bytes, exactly when the stored
    /// signature covers the given identifier and those bytes under the given
    /// key.
    pub open spec fn spec_verify(v: AuthorizedKeyFragView, hrac: Seq<u8>, pk: Seq<u8>) -> Option<
        Seq<u8>,
    > {
        if sig_valid(pk, signed_message(hrac, v.kfrag), v.signature) {
            Some(v.kfrag)
        } else {
            None
        }
    }

    /// Checks the authorization signature against the provided policy
    /// identifier and publisher key; on success the fragment is reinterpreted
    /// as verified. The signature check is the sole authenticity check.
    pub fn verify(&self, hrac: &Hrac, publisher_verifying_key: &PublicKey) -> (r: Option<KeyFrag>)
        ensures
            match Self::spec_verify(self@, hrac@, publisher_verifying_key@) {
                Some(kf) => r matches Some(k) && k@ == kf && k.is_verified(),
                None => r is None,
            },
    {
        let mut message: Vec<u8> = Vec::new();
        push_all(&mut message, hrac.as_bytes());
        push_all(&mut message, self.kfrag.as_bytes());
        if !verify_bytes(publisher_verifying_key.as_bytes(), &message, &self.signature) {
            return None;
        }
        Some(KeyFrag::from_verified_bytes(clone_bytes(self.kfrag.as_bytes())))
    }

    /// Authorization binding: a fragment signed for a policy identifier is
    /// recovered by `verify` under the same identifier and the signer's
    /// verifying key.
    pub proof fn lemma_authorization_binding(
        v: AuthorizedKeyFragView,
        hrac: Seq<u8>,
        pk: Seq<u8>,
    )
        requires
            sig_valid(pk, signed_message(hrac, v.kfrag), v.signature),
        ensures
            Self::spec_verify(v, hrac, pk) == Some(v.kfrag),
    {
    }

    /// The standard, headerless byte form: a two-element record of the
    /// signature and the fragment bytes.
    pub open spec fn spec_std_bytes(v: AuthorizedKeyFragView) -> Seq<u8> {
        seq![TAG_FIXARRAY2] + enc_bin(v.signature) + enc_bin(v.kfrag)
    }

    /// Reads one record at `pos`.
    pub open spec fn spec_read_value(b: Seq<u8>, pos: int) -> Option<(AuthorizedKeyFragView, int)> {
        if !(0 <= pos < b.len() && b[pos] == TAG_FIXARRAY2) {
            None
        } else {
            match spec_read_bin(b, pos + 1) {
                None => None,
                Some((sig, p1)) => match spec_read_bin(b, p1) {
                    None => None,
                    Some(
                        (kf, p2),
                    ) => Some((AuthorizedKeyFragView { signature: sig, kfrag: kf }, p2)),
                },
            }
        }
    }

    /// The standard decoding: one record filling the whole buffer.
    pub open spec fn spec_from_std_bytes(b: Seq<u8>) -> Option<AuthorizedKeyFragView> {
        match Self::spec_read_value(b, 0) {
            Some((v, end)) => if end == b.len() {
                Some(v)
            } else {
                None
            },
            None => None,
        }
    }

    /// Round trip: decoding an encoded record yields the record back.
    pub proof fn lemma_std_round_trip(v: AuthorizedKeyFragView)
        requires
            Self::view_wf(v),
        ensures
            Self::spec_from_std_bytes(Self::spec_std_bytes(v)) == Some(v),
    {
        let b = Self::spec_std_bytes(v);
        let pre1 = seq![TAG_FIXARRAY2];
        assert(b =~= pre1 + enc_bin(v.signature) + enc_bin(v.kfrag));
        lemma_read_bin_enc(pre1, v.signature, enc_bin(v.kfrag));
        let p1 = pre1.len() as int + enc_bin(v.signature).len() as int;
        let pre2 = pre1 + enc_bin(v.signature);
        assert(b =~= pre2 + enc_bin(v.kfrag) + Seq::<u8>::empty());
        lemma_read_bin_enc(pre2, v.kfrag, Seq::<u8>::empty());
        assert(p1 + enc_bin(v.kfrag).len() as int == b.len() as int);
    }

    /// Serializes into the standard, headerless byte form.
    pub fn to_std_bytes(&self) -> (r: Vec<u8>)
        requires
            self.wf(),
        ensures
            r@ == Self::spec_std_bytes(self@),
    {
        let mut out: Vec<u8> = Vec::new();
        out.push(TAG_FIXARRAY2);
        write_bin(&mut out, &self.signature);
        write_bin(&mut out, self.kfrag.as_bytes());
        proof {
            assert(out@ =~= Self::spec_std_bytes(self@));
        }
        out
    }

    /// Decodes the standard, headerless byte form.
    pub fn from_std_bytes(bytes: &Vec<u8>) -> (r: Option<Self>)
        ensures
            match Self::spec_from_std_bytes(bytes@) {
                Some(v) => r matches Some(x) && x@ == v && x.wf(),
                None => r is None,
            },
    {
        if bytes.len() == 0 || bytes[0] != TAG_FIXARRAY2 {
            return None;
        }
        let (sig, p1) = match read_bin(bytes, 1) {
            Some(p) => p,
            None => {
                return None;
            },
        };
        let (kf, p2) = match read_bin(bytes, p1) {
            Some(p) => p,
            None => {
                return None;
            },
        };
        proof {
            lemma_read_bin_props(bytes@, 1);
            lemma_read_bin_props(bytes@, p1 as int);
        }
        if p2 == bytes.len() {
            Some(AuthorizedKeyFrag { signature: sig, kfrag: KeyFrag::from_bytes(kf) })
        } else {
            None
        }
    }
}

/// Asymmetric encryption rejected its inputs.
#[derive(Debug, PartialEq, Eq, Clone, Copy, Structural)]
pub struct EncryptionError;

/// How decryption of an [`EncryptedKeyFrag`] can fail.
#[derive(Debug, PartialEq, Eq, Clone, Copy, Structural)]
pub enum DecryptionFailure {
    /// The bundle did not decrypt under this key: a wrong key, a corrupted
    /// ciphertext, or a tampered capsule. Expected, ordinary control flow.
    NotForMe,
    /// The bundle decrypted, but the recovered bytes are no authorized
    /// fragment: an encryption/decryption inconsistency in the protocol, not
    /// ordinary bad input.
    InvalidPayload,
}

/// The mathematical content of an [`EncryptedKeyFrag`].
pub ghost struct EncryptedKeyFragView {
    pub capsule: Seq<u8>,
    pub ciphertext: Seq<u8>,
}

/// An authorized key fragment encrypted for exactly one recipient: the
/// encapsulation capsule and the ciphertext. Single-recipient, single-use.
#[derive(Debug, PartialEq, Eq)]
pub struct EncryptedKeyFrag {
    capsule: Vec<u8>,
    ciphertext: Vec<u8>,
}

impl View for EncryptedKeyFrag {
    type V = EncryptedKeyFragView;

    closed spec fn view(&self) -> EncryptedKeyFragView {
        EncryptedKeyFragView { capsule: self.capsule@, ciphertext: self.ciphertext@ }
    }
}

impl Clone for EncryptedKeyFrag {
    fn clone(&self) -> (r: Self)
        ensures
            r@ == self@,
    {
        EncryptedKeyFrag {
            capsule: clone_bytes(&self.capsule),
            ciphertext: clone_bytes(&self.ciphertext),
        }
    }
}

impl EncryptedKeyFrag {
    pub open spec fn view_wf(v: EncryptedKeyFragView) -> bool {
        &&& v.capsule.len() < 0x100000000
        &&& v.ciphertext.len() <= MAX_B64_INPUT_LEN
    }

    pub open spec fn wf(&self) -> bool {
        Self::view_wf(self@)
    }

    /// Encrypts an authorized fragment's standard byte form for the holder
    /// of the secret key matching `recipient_key`. It fails exactly where
    /// the underlying primitive rejects the recipient key (bytes that parse
    /// as no curve point), or the fragment's byte form would overrun the
    /// frame cap; there is no other failure mode. On success, decryption
    /// under any matching secret key recovers exactly the encrypted bytes.
    pub fn new(recipient_key: &PublicKey, authorized_kfrag: &AuthorizedKeyFrag) -> (r: Result<
        Self,
        EncryptionError,
    >)
        requires
            authorized_kfrag.wf(),
        ensures
            r is Ok <==> pk_parses(recipient_key@) && AuthorizedKeyFrag::spec_std_bytes(
                authorized_kfrag@,
            ).len() + 40 <= MAX_B64_INPUT_LEN,
            r matches Ok(ekf) ==> ekf.wf() && (forall|sk: Seq<u8>|
                pk_of(sk) == Some(recipient_key@) ==> umbral_decrypt(sk, ekf@.capsule, ekf@.ciphertext)
                    == Some(AuthorizedKeyFrag::spec_std_bytes(authorized_kfrag@))),
    {
        let plaintext = authorized_kfrag.to_std_bytes();
        if plaintext.len() as u64 > MAX_B64_INPUT_LEN - 40 {
            return Err(EncryptionError);
        }
        match encrypt_for(recipient_key.as_bytes(), &plaintext) {
            Some((capsule, ciphertext)) => Ok(EncryptedKeyFrag { capsule, ciphertext }),
            None => Err(EncryptionError),
        }
    }

    /// What `decrypt` returns: the authorized fragment whose standard byte
    /// form the ciphertext decrypts to under `sk`, where it decrypts and
    /// parses at all.
    pub open spec fn spec_decrypt(v: EncryptedKeyFragView, sk: Seq<u8>) -> Option<
        AuthorizedKeyFragView,
    > {
        match umbral_decrypt(sk, v.capsule, v.ciphertext) {
            None => None,
            Some(pt) => AuthorizedKeyFrag::spec_from_std_bytes(pt),
        }
    }

    /// What `decrypt_detailed` returns: the fragment, or which of the two
    /// failures occurred.
    pub open spec fn spec_decrypt_detailed(v: EncryptedKeyFragView, sk: Seq<u8>) -> Result<
        AuthorizedKeyFragView,
        DecryptionFailure,
    > {
        match umbral_decrypt(sk, v.capsule, v.ciphertext) {
            None => Err(DecryptionFailure::NotForMe),
            Some(pt) => match AuthorizedKeyFrag::spec_from_std_bytes(pt) {
                Some(m) => Ok(m),
                None => Err(DecryptionFailure::InvalidPayload),
            },
        }
    }

    /// Decrypts with the recipient's secret key, keeping the severity of the
    /// two failures apart: a bundle that does not decrypt is ordinary control
    /// flow, while one that decrypts to bytes that are no authorized fragment
    /// signals a protocol inconsistency.
    pub fn decrypt_detailed(&self, sk: &UmbralSecretKey) -> (r: Result<
        AuthorizedKeyFrag,
        DecryptionFailure,
    >)
        ensures
            match Self::spec_decrypt_detailed(self@, sk@) {
                Ok(m) => r matches Ok(a) && a@ == m && a.wf(),
                Err(e) => r matches Err(e2) && e2 == e,
            },
    {
        match decrypt_with(sk.backend(), &self.capsule, &self.ciphertext) {
            None => Err(DecryptionFailure::NotForMe),
            Some(pt) => match AuthorizedKeyFrag::from_std_bytes(&pt) {
                Some(a) => Ok(a),
                None => Err(DecryptionFailure::InvalidPayload),
            },
        }
    }

    /// Decrypts with the recipient's secret key. A wrong key, a corrupted
    /// ciphertext, a tampered capsule, or a payload that fails to parse all
    /// surface as one `None`: "not for me or corrupted". Callers who must
    /// keep the last case's severity apart use [`Self::decrypt_detailed`].
    pub fn decrypt(self, sk: &UmbralSecretKey) -> (r: Option<AuthorizedKeyFrag>)
        ensures
            match Self::spec_decrypt(self@, sk@) {
                Some(m) => r matches Some(a) && a@ == m && a.wf(),
                None => r is None,
            },
    {
        match self.decrypt_detailed(sk) {
            Ok(a) => Some(a),
            Err(_) => None,
        }
    }

    /// Encryption correctness: a bundle made for a public key decrypts,
    /// under any secret key matching that public key, back to the authorized
    /// fragment that was encrypted.
    pub proof fn lemma_encryption_correctness(
        v: AuthorizedKeyFragView,
        e: EncryptedKeyFragView,
        sk: Seq<u8>,
    )
        requires
            AuthorizedKeyFrag::view_wf(v),
            umbral_decrypt(sk, e.capsule, e.ciphertext) == Some(
                AuthorizedKeyFrag::spec_std_bytes(v),
            ),
        ensures
            Self::spec_decrypt(e, sk) == Some(v),
    {
        AuthorizedKeyFrag::lemma_std_round_trip(v);
    }

    /// The brand tag `EKFr`.
    pub open spec fn spec_brand() -> Seq<u8> {
        seq![0x45u8, 0x4bu8, 0x46u8, 0x72u8]
    }

    /// The current `(major, minor)` version of this type's wire format.
    pub fn version() -> (r: (u16, u16))
        ensures
            r == (1u16, 0u16),
    {
        (1, 0)
    }

    /// The brand tag `EKFr`.
    pub fn brand() -> (r: Vec<u8>)
        ensures
            r@ == Self::spec_brand(),
    {
        let mut v: Vec<u8> = Vec::new();
        v.push(0x45);
        v.push(0x4b);
        v.push(0x46);
        v.push(0x72);
        proof {
            assert(v@ =~= Self::spec_brand());
        }
        v
    }

    /// The headerless payload: a two-element record of the capsule bytes and
    /// the base64 of the ciphertext.
    pub open spec fn spec_unversioned_bytes(v: EncryptedKeyFragView) -> Seq<u8> {
        seq![TAG_FIXARRAY2] + enc_bin(v.capsule) + enc_str(b64_of(v.ciphertext))
    }

    /// Reads one record at `pos`.
    pub open spec fn spec_read_value(b: Seq<u8>, pos: int) -> Option<(EncryptedKeyFragView, int)> {
        if !(0 <= pos < b.len() && b[pos] == TAG_FIXARRAY2) {
            None
        } else {
            match spec_read_bin(b, pos + 1) {
                None => None,
                Some((cap, p1)) => match spec_read_str(b, p1) {
                    None => None,
                    Some((s, p2)) => match b64_dec(s) {
                        None => None,
                        Some(ct) => if ct.len() <= MAX_B64_INPUT_LEN {
                            Some(
                                (EncryptedKeyFragView { capsule: cap, ciphertext: ct }, p2),
                            )
                        } else {
                            None
                        },
                    },
                },
            }
        }
    }

    pub open spec fn spec_unversioned_from_bytes(minor: int, b: Seq<u8>) -> Option<
        Result<EncryptedKeyFragView, ProtocolError>,
    > {
        if minor == 0 {
            Some(
                match Self::spec_read_value(b, 0) {
                    Some((v, end)) => if end == b.len() {
                        Ok(v)
                    } else {
                        Err(ProtocolError::DeserializationError)
                    },
                    None => Err(ProtocolError::DeserializationError),
                },
            )
        } else {
            None
        }
    }

    /// Decodes a payload under the given minor version; `None` where the
    /// minor version is unknown.
    pub fn unversioned_from_bytes(minor: u16, bytes: &Vec<u8>) -> (r: Option<
        Result<Self, ProtocolError>,
    >)
        ensures
            match Self::spec_unversioned_from_bytes(minor as int, bytes@) {
                None => r is None,
                Some(Ok(v)) => r matches Some(Ok(x)) && x@ == v && x.wf(),
                Some(Err(e)) => r matches Some(Err(e2)) && e2 == e,
            },
    {
        if minor != 0 {
            return None;
        }
        match Self::read_value(bytes, 0) {
            Some((x, end)) => if end == bytes.len() {
                Some(Ok(x))
            } else {
                Some(Err(ProtocolError::DeserializationError))
            },
            None => Some(Err(ProtocolError::DeserializationError)),
        }
    }

    /// Reads one record at `pos`, as a value.
    fn read_value(buf: &Vec<u8>, pos: usize) -> (r: Option<(Self, usize)>)
        ensures
            match Self::spec_read_value(buf@, pos as int) {
                Some((v, end)) => r matches Some(p) && p.0@ == v && p.0.wf() && p.1 as int == end,
                None => r is None,
            },
    {
        if pos >= buf.len() || buf[pos] != TAG_FIXARRAY2 {
            return None;
        }
        let (cap, p1) = match read_bin(buf, pos + 1) {
            Some(p) => p,
            None => {
                return None;
            },
        };
        let (s, p2) = match read_str(buf, p1) {
            Some(p) => p,
            None => {
                return None;
            },
        };
        let ct = match b64_decode(&s) {
            Some(c) => c,
            None => {
                return None;
            },
        };
        proof {
            lemma_read_bin_props(buf@, pos as int + 1);
        }
        if ct.len() as u64 <= MAX_B64_INPUT_LEN {
            Some((EncryptedKeyFrag { capsule: cap, ciphertext: ct }, p2))
        } else {
            None
        }
    }

    /// Serializes the payload without the envelope header; the round trip
    /// back through the payload decoder is part of the contract.
    pub fn unversioned_to_bytes(&self) -> (r: Vec<u8>)
        requires
            self.wf(),
        ensures
            r@ == Self::spec_unversioned_bytes(self@),
            Self::spec_read_value(r@, 0) == Some((self@, r@.len() as int)),
    {
        let b64ct = b64_encode(&self.ciphertext);
        proof {
            assert(4 * ((self.ciphertext@.len() + 2) / 3) < 0x100000000) by (nonlinear_arith)
                requires
                    self.ciphertext@.len() <= 0x40000000,
            ;
        }
        let mut out: Vec<u8> = Vec::new();
        out.push(TAG_FIXARRAY2);
        write_bin(&mut out, &self.capsule);
        write_str(&mut out, &b64ct);
        proof {
            assert(out@ =~= Self::spec_unversioned_bytes(self@));
            let pre1 = seq![TAG_FIXARRAY2];
            lemma_read_bin_enc(pre1, self.capsule@, enc_str(b64ct@));
            assert(out@ =~= pre1 + enc_bin(self.capsule@) + enc_str(b64ct@));
            let pre2 = pre1 + enc_bin(self.capsule@);
            lemma_read_str_enc(pre2, b64ct@, Seq::<u8>::empty());
            assert(out@ =~= pre2 + enc_str(b64ct@) + Seq::<u8>::empty());
        }
        out
    }

    /// The full wire form.
    pub open spec fn spec_to_bytes(v: EncryptedKeyFragView) -> Seq<u8> {
        spec_envelope(Self::spec_brand(), 1, 0, Self::spec_unversioned_bytes(v))
    }

    /// The full wire decoding, with the error taxonomy of the codec.
    pub open spec fn spec_from_bytes(b: Seq<u8>) -> Result<EncryptedKeyFragView, ProtocolError> {
        match spec_parse_envelope(Self::spec_brand(), 1, b) {
            Err(e) => Err(e),
            Ok((minor, payload)) => match Self::spec_unversioned_from_bytes(minor, payload) {
                None => Err(ProtocolError::VersionError),
                Some(res) => res,
            },
        }
    }

    /// Serializes into the enveloped wire form. Decoding the result yields
    /// the value back: the round trip is part of the contract.
    pub fn to_bytes(&self) -> (r: Vec<u8>)
        requires
            self.wf(),
        ensures
            r@ == Self::spec_to_bytes(self@),
            Self::spec_from_bytes(r@) == Ok::<EncryptedKeyFragView, ProtocolError>(self@),
    {
        let payload = self.unversioned_to_bytes();
        let brand = Self::brand();
        let r = write_envelope(&brand, 1, 0, &payload);
        proof {
            lemma_parse_envelope_enc(Self::spec_brand(), 1, 0, payload@);
        }
        r
    }

    /// Decodes a value from its enveloped wire form.
    pub fn from_bytes(buf: &Vec<u8>) -> (r: Result<Self, ProtocolError>)
        ensures
            match Self::spec_from_bytes(buf@) {
                Ok(v) => r matches Ok(x) && x@ == v && x.wf(),
                Err(e) => r matches Err(e2) && e2 == e,
            },
    {
        let brand = Self::brand();
        match parse_envelope(buf, &brand, 1) {
            Err(e) => Err(e),
            Ok((minor, payload)) => match Self::unversioned_from_bytes(minor, &payload) {
                None => Err(ProtocolError::VersionError),
                Some(res) => res,
            },
        }
    }
}

} // verus!
