//! Authenticated data and access control policies.
//!
//! Authenticated data couples a DKG public key with an optional condition
//! expression and derives a deterministic additional-authenticated-data (AAD)
//! byte string from the two. An access control policy couples authenticated
//! data with an opaque authorization proof; the proof never participates in
//! AAD derivation. Both types serialize through the versioned envelope; the
//! authorization proof travels base64-encoded inside the payload.

use vstd::prelude::*;

use crate::backend::{b64_dec, b64_decode, b64_encode, b64_of, MAX_B64_INPUT_LEN};
use crate::codec::{
    enc_bin, enc_str, lemma_parse_envelope_enc, lemma_read_bin_enc, lemma_read_str_enc,
    parse_envelope, push_all, read_bin, read_str, spec_envelope, spec_parse_envelope,
    spec_read_bin, spec_read_str, write_envelope, write_str, ProtocolError, TAG_FIXARRAY2,
    TAG_NIL,
};
use crate::conditions::Conditions;
use crate::dkg::{DkgPublicKey, DKG_PUBLIC_KEY_SIZE};
use vstd::utf8::valid_utf8;

verus! {

/// The mathematical content of an [`AuthenticatedData`] value: the canonical
/// key encoding and the condition bytes, if any.
pub ghost struct AuthenticatedDataView {
    pub public_key: Seq<u8>,
    pub conditions: Option<Seq<u8>>,
}

/// Authenticated data for encrypted data: the public key the data was
/// encrypted under, and the conditions gating its decryption. Equality is
/// equality of the canonical key encoding and of the condition bytes.
#[derive(Debug, PartialEq, Eq)]
pub struct AuthenticatedData {
    /// The public key for the encrypted data.
    pub public_key: DkgPublicKey,
    /// The conditions associated with the encrypted data.
    pub conditions: Option<Conditions>,
}

impl View for AuthenticatedData {
    type V = AuthenticatedDataView;

    open spec fn view(&self) -> AuthenticatedDataView {
        AuthenticatedDataView {
            public_key: self.public_key@,
            conditions: match self.conditions {
                Some(c) => Some(c@),
                None => None,
            },
        }
    }
}

impl Clone for AuthenticatedData {
    fn clone(&self) -> (r: Self)
        ensures
            r@ == self@,
    {
        AuthenticatedData {
            public_key: self.public_key.clone(),
            conditions: match &self.conditions {
                Some(c) => Some(c.clone()),
                None => None,
            },
        }
    }
}

impl AuthenticatedData {
    /// What a well-formed value looks like: the canonical key length, and
    /// condition bytes that are well-formed UTF-8 (they encode text) and
    /// short enough to frame.
    pub open spec fn view_wf(v: AuthenticatedDataView) -> bool {
        &&& v.public_key.len() == DKG_PUBLIC_KEY_SIZE
        &&& (v.conditions matches Some(c) ==> c.len() < 0x100000000 && valid_utf8(c))
    }

    pub open spec fn wf(&self) -> bool {
        Self::view_wf(self@)
    }

    /// Creates new authenticated data; the key and the conditions are copied.
    pub fn new(public_key: &DkgPublicKey, conditions: Option<&Conditions>) -> (r: Self)
        ensures
            r@.public_key == public_key@,
            match conditions {
                Some(c) => r@.conditions == Some(c@),
                None => r@.conditions is None,
            },
    {
        AuthenticatedData {
            public_key: public_key.clone(),
            conditions: match conditions {
                Some(c) => Some(c.clone()),
                None => None,
            },
        }
    }

    /// The AAD of a value: the canonical key encoding followed by the
    /// condition bytes, nothing else. Deterministic by construction.
    pub open spec fn spec_aad(v: AuthenticatedDataView) -> Seq<u8> {
        v.public_key + v.conditions.unwrap()
    }

    /// Returns the AAD. Conditions must be present: authenticated data used
    /// for AAD derivation always carries conditions.
    pub fn aad(&self) -> (r: Vec<u8>)
        requires
            self@.conditions is Some,
        ensures
            r@ == Self::spec_aad(self@),
    {
        let mut out: Vec<u8> = Vec::new();
        push_all(&mut out, self.public_key.as_bytes());
        match &self.conditions {
            Some(c) => push_all(&mut out, c.as_bytes()),
            None => {
                proof {
                    assert(false);
                }
            },
        }
        out
    }

    /// AAD determinism: values whose keys and conditions encode to identical
    /// bytes derive identical AAD strings, however they were constructed.
    pub proof fn lemma_aad_deterministic(a: AuthenticatedDataView, b: AuthenticatedDataView)
        requires
            a.public_key == b.public_key,
            a.conditions == b.conditions,
        ensures
            Self::spec_aad(a) == Self::spec_aad(b),
    {
    }

    /// The brand tag `AuDa`.
    pub open spec fn spec_brand() -> Seq<u8> {
        seq![0x41u8, 0x75u8, 0x44u8, 0x61u8]
    }

    /// The current `(major, minor)` version of this type's wire format.
    pub fn version() -> (r: (u16, u16))
        ensures
            r == (1u16, 0u16),
    {
        (1, 0)
    }

    /// The brand tag `AuDa`.
    pub fn brand() -> (r: Vec<u8>)
        ensures
            r@ == Self::spec_brand(),
    {
        let mut v: Vec<u8> = Vec::new();
        v.push(0x41);
        v.push(0x75);
        v.push(0x44);
        v.push(0x61);
        proof {
            assert(v@ =~= Self::spec_brand());
        }
        v
    }

    /// The headerless payload: a two-element record of the key bytes and the
    /// conditions (`nil` where absent).
    pub open spec fn spec_unversioned_bytes(v: AuthenticatedDataView) -> Seq<u8> {
        seq![TAG_FIXARRAY2] + enc_bin(v.public_key) + (match v.conditions {
            Some(c) => enc_str(c),
            None => seq![TAG_NIL],
        })
    }

    /// Reads one authenticated-data record at `pos`.
    pub open spec fn spec_read_value(b: Seq<u8>, pos: int) -> Option<(AuthenticatedDataView, int)> {
        if !(0 <= pos < b.len() && b[pos] == TAG_FIXARRAY2) {
            None
        } else {
            match spec_read_bin(b, pos + 1) {
                None => None,
                Some((pk, p1)) => if pk.len() != DKG_PUBLIC_KEY_SIZE {
                    None
                } else if p1 < b.len() && b[p1] == TAG_NIL {
                    Some((AuthenticatedDataView { public_key: pk, conditions: None }, p1 + 1))
                } else {
                    match spec_read_str(b, p1) {
                        None => None,
                        Some((c, p2)) => if valid_utf8(c) {
                            Some(
                                (AuthenticatedDataView { public_key: pk, conditions: Some(c) }, p2),
                            )
                        } else {
                            None
                        },
                    }
                },
            }
        }
    }

    /// Reading a record where one was written recovers it, whatever stands
    /// before and after.
    pub proof fn lemma_read_value_enc(pre: Seq<u8>, v: AuthenticatedDataView, post: Seq<u8>)
        requires
            Self::view_wf(v),
        ensures
            Self::spec_read_value(pre + Self::spec_unversioned_bytes(v) + post, pre.len() as int)
                == Some(
                (v, pre.len() as int + Self::spec_unversioned_bytes(v).len() as int),
            ),
    {
        let e = Self::spec_unversioned_bytes(v);
        let b = pre + e + post;
        let tail = match v.conditions {
            Some(c) => enc_str(c),
            None => seq![TAG_NIL],
        };
        let pre1 = pre + seq![TAG_FIXARRAY2];
        assert(b =~= pre1 + enc_bin(v.public_key) + (tail + post));
        lemma_read_bin_enc(pre1, v.public_key, tail + post);
        let p1 = pre1.len() as int + enc_bin(v.public_key).len() as int;
        assert(b[pre.len() as int] == TAG_FIXARRAY2);
        assert(spec_read_bin(b, pre.len() as int + 1) == Some((v.public_key, p1)));
        match v.conditions {
            None => {
                assert(b[p1] == (tail + post)[0]);
                assert(b[p1] == TAG_NIL);
                assert(p1 + 1 == pre.len() as int + e.len() as int);
            },
            Some(c) => {
                let pre2 = pre1 + enc_bin(v.public_key);
                assert(b =~= pre2 + enc_str(c) + post);
                lemma_read_str_enc(pre2, c, post);
                assert(b[p1] == enc_str(c)[0]);
                assert(enc_str(c)[0] != TAG_NIL);
                assert(spec_read_str(b, p1) == Some(
                    (c, p1 + enc_str(c).len() as int),
                ));
                assert(p1 + enc_str(c).len() as int == pre.len() as int + e.len() as int);
            },
        }
    }

    /// Reads one record at `pos`, as a value.
    pub(crate) fn read_value(buf: &Vec<u8>, pos: usize) -> (r: Option<(Self, usize)>)
        ensures
            match Self::spec_read_value(buf@, pos as int) {
                Some((v, end)) => r matches Some(p) && p.0@ == v && p.0.wf() && p.1 as int == end,
                None => r is None,
            },
    {
        if pos >= buf.len() || buf[pos] != TAG_FIXARRAY2 {
            return None;
        }
        let (pk_bytes, p1) = match read_bin(buf, pos + 1) {
            Some(p) => p,
            None => {
                return None;
            },
        };
        let pk = match DkgPublicKey::from_bytes(pk_bytes) {
            Some(k) => k,
            None => {
                return None;
            },
        };
        if p1 < buf.len() && buf[p1] == TAG_NIL {
            Some((AuthenticatedData { public_key: pk, conditions: None }, p1 + 1))
        } else {
            let (c, p2) = match read_str(buf, p1) {
                Some(p) => p,
                None => {
                    return None;
                },
            };
            proof {
                crate::codec::lemma_read_str_props(buf@, p1 as int);
            }
            let cond = match Conditions::from_bytes(c) {
                Some(cond) => cond,
                None => {
                    return None;
                },
            };
            Some((AuthenticatedData { public_key: pk, conditions: Some(cond) }, p2))
        }
    }

    /// Serializes the payload without the envelope header.
    pub fn unversioned_to_bytes(&self) -> (r: Vec<u8>)
        requires
            self.wf(),
        ensures
            r@ == Self::spec_unversioned_bytes(self@),
    {
        let mut out: Vec<u8> = Vec::new();
        out.push(TAG_FIXARRAY2);
        crate::codec::write_bin(&mut out, self.public_key.as_bytes());
        match &self.conditions {
            Some(c) => write_str(&mut out, c.as_bytes()),
            None => out.push(TAG_NIL),
        }
        proof {
            assert(out@ =~= Self::spec_unversioned_bytes(self@));
        }
        out
    }

    /// The minor-version dispatch: minor version 0 is the baseline layout;
    /// newer minors are unknown.
    pub open spec fn spec_unversioned_from_bytes(minor: int, b: Seq<u8>) -> Option<
        Result<AuthenticatedDataView, ProtocolError>,
    > {
        if minor == 0 {
            Some(
                match Self::spec_read_value(b, 0) {
                    Some((v, end)) => if end == b.len() {
                        Ok(v)
                    } else {
                        Err(ProtocolError::DeserializationError)
                    },
                    None => Err(ProtocolError::DeserializationError),
                },
            )
        } else {
            None
        }
    }

    /// Decodes a payload under the given minor version; `None` where the
    /// minor version is unknown.
    pub fn unversioned_from_bytes(minor: u16, bytes: &Vec<u8>) -> (r: Option<
        Result<Self, ProtocolError>,
    >)
        ensures
            match Self::spec_unversioned_from_bytes(minor as int, bytes@) {
                None => r is None,
                Some(Ok(v)) => r matches Some(Ok(x)) && x@ == v && x.wf(),
                Some(Err(e)) => r matches Some(Err(e2)) && e2 == e,
            },
    {
        if minor == 0 {
            match Self::read_value(bytes, 0) {
                Some((x, end)) => if end == bytes.len() {
                    Some(Ok(x))
                } else {
                    Some(Err(ProtocolError::DeserializationError))
                },
                None => Some(Err(ProtocolError::DeserializationError)),
            }
        } else {
            None
        }
    }

    /// The full wire form.
    pub open spec fn spec_to_bytes(v: AuthenticatedDataView) -> Seq<u8> {
        spec_envelope(Self::spec_brand(), 1, 0, Self::spec_unversioned_bytes(v))
    }

    /// The full wire decoding, with the error taxonomy of the codec.
    pub open spec fn spec_from_bytes(b: Seq<u8>) -> Result<AuthenticatedDataView, ProtocolError> {
        match spec_parse_envelope(Self::spec_brand(), 1, b) {
            Err(e) => Err(e),
            Ok((minor, payload)) => match Self::spec_unversioned_from_bytes(minor, payload) {
                None => Err(ProtocolError::VersionError),
                Some(res) => res,
            },
        }
    }

    /// Round trip: decoding an encoded value yields the value back.
    pub proof fn lemma_round_trip(v: AuthenticatedDataView)
        requires
            Self::view_wf(v),
        ensures
            Self::spec_from_bytes(Self::spec_to_bytes(v)) == Ok::<
                AuthenticatedDataView,
                ProtocolError,
            >(v),
    {
        let payload = Self::spec_unversioned_bytes(v);
        lemma_parse_envelope_enc(Self::spec_brand(), 1, 0, payload);
        Self::lemma_read_value_enc(Seq::<u8>::empty(), v, Seq::<u8>::empty());
        assert(Seq::<u8>::empty() + payload + Seq::<u8>::empty() =~= payload);
    }

    /// Serializes the value into its enveloped wire form.
    pub fn to_bytes(&self) -> (r: Vec<u8>)
        requires
            self.wf(),
        ensures
            r@ == Self::spec_to_bytes(self@),
            Self::spec_from_bytes(r@) == Ok::<AuthenticatedDataView, ProtocolError>(self@),
    {
        let payload = self.unversioned_to_bytes();
        let brand = Self::brand();
        let r = write_envelope(&brand, 1, 0, &payload);
        proof {
            Self::lemma_round_trip(self@);
        }
        r
    }

    /// Decodes a value from its enveloped wire form.
    pub fn from_bytes(buf: &Vec<u8>) -> (r: Result<Self, ProtocolError>)
        ensures
            match Self::spec_from_bytes(buf@) {
                Ok(v) => r matches Ok(x) && x@ == v && x.wf(),
                Err(e) => r matches Err(e2) && e2 == e,
            },
    {
        let brand = Self::brand();
        match parse_envelope(buf, &brand, 1) {
            Err(e) => Err(e),
            Ok((minor, payload)) => match Self::unversioned_from_bytes(minor, &payload) {
                None => Err(ProtocolError::VersionError),
                Some(res) => res,
            },
        }
    }
}

/// The mathematical content of an [`AccessControlPolicy`].
pub ghost struct AccessControlPolicyView {
    pub auth_data: AuthenticatedDataView,
    pub authorization: Seq<u8>,
}

/// Access control policy data: authenticated data together with an opaque
/// authorization proof. The proof is carried, never validated here, and never
/// participates in AAD derivation.
#[derive(Debug, PartialEq, Eq)]
pub struct AccessControlPolicy {
    /// The authenticated data for the access control policy.
    pub auth_data: AuthenticatedData,
    /// The authorization proof for the authenticated data.
    pub authorization: Vec<u8>,
}

impl View for AccessControlPolicy {
    type V = AccessControlPolicyView;

    open spec fn view(&self) -> AccessControlPolicyView {
        AccessControlPolicyView { auth_data: self.auth_data@, authorization: self.authorization@ }
    }
}

impl AccessControlPolicy {
    pub open spec fn view_wf(v: AccessControlPolicyView) -> bool {
        &&& AuthenticatedData::view_wf(v.auth_data)
        &&& v.authorization.len() <= MAX_B64_INPUT_LEN
    }

    pub open spec fn wf(&self) -> bool {
        Self::view_wf(self@)
    }

    /// Creates a new access control policy; both inputs are copied.
    pub fn new(auth_data: &AuthenticatedData, authorization: &[u8]) -> (r: Self)
        ensures
            r@.auth_data == auth_data@,
            r@.authorization == authorization@,
    {
        AccessControlPolicy {
            auth_data: auth_data.clone(),
            authorization: vstd::slice::slice_to_vec(authorization),
        }
    }

    /// The policy's AAD: exactly the AAD of its authenticated data. The
    /// authorization proof never participates.
    pub open spec fn spec_aad(v: AccessControlPolicyView) -> Seq<u8> {
        AuthenticatedData::spec_aad(v.auth_data)
    }

    /// AAD propagation: two policies over the same authenticated data derive
    /// the same AAD, whatever their authorization proofs.
    pub proof fn lemma_aad_propagation(a: AccessControlPolicyView, b: AccessControlPolicyView)
        requires
            a.auth_data == b.auth_data,
        ensures
            Self::spec_aad(a) == Self::spec_aad(b),
            Self::spec_aad(a) == AuthenticatedData::spec_aad(a.auth_data),
    {
    }

    /// Returns the AAD, delegating to the embedded authenticated data.
    pub fn aad(&self) -> (r: Vec<u8>)
        requires
            self@.auth_data.conditions is Some,
        ensures
            r@ == Self::spec_aad(self@),
            r@ == AuthenticatedData::spec_aad(self@.auth_data),
    {
        self.auth_data.aad()
    }

    /// Returns a copy of the DKG public key.
    pub fn public_key(&self) -> (r: DkgPublicKey)
        ensures
            r@ == self@.auth_data.public_key,
    {
        self.auth_data.public_key.clone()
    }

    /// Returns a copy of the conditions.
    pub fn conditions(&self) -> (r: Option<Conditions>)
        ensures
            match r {
                Some(c) => self@.auth_data.conditions == Some(c@),
                None => self@.auth_data.conditions is None,
            },
    {
        match &self.auth_data.conditions {
            Some(c) => Some(c.clone()),
            None => None,
        }
    }

    /// The brand tag `ACPo`.
    pub open spec fn spec_brand() -> Seq<u8> {
        seq![0x41u8, 0x43u8, 0x50u8, 0x6fu8]
    }

    /// The current `(major, minor)` version of this type's wire format.
    pub fn version() -> (r: (u16, u16))
        ensures
            r == (1u16, 0u16),
    {
        (1, 0)
    }

    /// The brand tag `ACPo`.
    pub fn brand() -> (r: Vec<u8>)
        ensures
            r@ == Self::spec_brand(),
    {
        let mut v: Vec<u8> = Vec::new();
        v.push(0x41);
        v.push(0x43);
        v.push(0x50);
        v.push(0x6f);
        proof {
            assert(v@ =~= Self::spec_brand());
        }
        v
    }

    /// The headerless payload: a two-element record of the nested
    /// authenticated-data record and the base64 of the authorization proof.
    pub open spec fn spec_unversioned_bytes(v: AccessControlPolicyView) -> Seq<u8> {
        seq![TAG_FIXARRAY2] + AuthenticatedData::spec_unversioned_bytes(v.auth_data) + enc_str(
            b64_of(v.authorization),
        )
    }

    /// Reads one policy record at `pos`.
    pub open spec fn spec_read_value(b: Seq<u8>, pos: int) -> Option<
        (AccessControlPolicyView, int),
    > {
        if !(0 <= pos < b.len() && b[pos] == TAG_FIXARRAY2) {
            None
        } else {
            match AuthenticatedData::spec_read_value(b, pos + 1) {
                None => None,
                Some((ad, p1)) => match spec_read_str(b, p1) {
                    None => None,
                    Some((s, p2)) => match b64_dec(s) {
                        None => None,
                        Some(auth) => if auth.len() <= MAX_B64_INPUT_LEN {
                            Some(
                                (
                                    AccessControlPolicyView {
                                        auth_data: ad,
                                        authorization: auth,
                                    },
                                    p2,
                                ),
                            )
                        } else {
                            None
                        },
                    },
                },
            }
        }
    }

    pub open spec fn spec_unversioned_from_bytes(minor: int, b: Seq<u8>) -> Option<
        Result<AccessControlPolicyView, ProtocolError>,
    > {
        if minor == 0 {
            Some(
                match Self::spec_read_value(b, 0) {
                    Some((v, end)) => if end == b.len() {
                        Ok(v)
                    } else {
                        Err(ProtocolError::DeserializationError)
                    },
                    None => Err(ProtocolError::DeserializationError),
                },
            )
        } else {
            None
        }
    }

    /// Decodes a payload under the given minor version; `None` where the
    /// minor version is unknown.
    pub fn unversioned_from_bytes(minor: u16, bytes: &Vec<u8>) -> (r: Option<
        Result<Self, ProtocolError>,
    >)
        ensures
            match Self::spec_unversioned_from_bytes(minor as int, bytes@) {
                None => r is None,
                Some(Ok(v)) => r matches Some(Ok(x)) && x@ == v && x.wf(),
                Some(Err(e)) => r matches Some(Err(e2)) && e2 == e,
            },
    {
        if minor != 0 {
            return None;
        }
        let end_or_none = Self::read_value(bytes, 0);
        match end_or_none {
            Some((x, end)) => if end == bytes.len() {
                Some(Ok(x))
            } else {
                Some(Err(ProtocolError::DeserializationError))
            },
            None => Some(Err(ProtocolError::DeserializationError)),
        }
    }

    /// Reads one policy record at `pos`, as a value.
    fn read_value(buf: &Vec<u8>, pos: usize) -> (r: Option<(Self, usize)>)
        ensures
            match Self::spec_read_value(buf@, pos as int) {
                Some((v, end)) => r matches Some(p) && p.0@ == v && p.0.wf() && p.1 as int == end,
                None => r is None,
            },
    {
        if pos >= buf.len() || buf[pos] != TAG_FIXARRAY2 {
            return None;
        }
        let (ad, p1) = match AuthenticatedData::read_value(buf, pos + 1) {
            Some(p) => p,
            None => {
                return None;
            },
        };
        let (s, p2) = match read_str(buf, p1) {
            Some(p) => p,
            None => {
                return None;
            },
        };
        let auth = match b64_decode(&s) {
            Some(a) => a,
            None => {
                return None;
            },
        };
        if auth.len() as u64 <= MAX_B64_INPUT_LEN {
            Some((AccessControlPolicy { auth_data: ad, authorization: auth }, p2))
        } else {
            None
        }
    }

    /// Serializes the payload without the envelope header; the round trip
    /// back through the payload decoder is part of the contract.
    pub fn unversioned_to_bytes(&self) -> (r: Vec<u8>)
        requires
            self.wf(),
        ensures
            r@ == Self::spec_unversioned_bytes(self@),
            Self::spec_read_value(r@, 0) == Some((self@, r@.len() as int)),
    {
        let b64auth = b64_encode(&self.authorization);
        proof {
            assert(4 * ((self.authorization@.len() + 2) / 3) < 0x100000000) by (nonlinear_arith)
                requires
                    self.authorization@.len() <= 0x40000000,
            ;
        }
        let ad_bytes = self.auth_data.unversioned_to_bytes();
        let mut out: Vec<u8> = Vec::new();
        out.push(TAG_FIXARRAY2);
        push_all(&mut out, &ad_bytes);
        write_str(&mut out, &b64auth);
        proof {
            assert(out@ =~= Self::spec_unversioned_bytes(self@));
            let pre1 = seq![TAG_FIXARRAY2];
            AuthenticatedData::lemma_read_value_enc(pre1, self@.auth_data, enc_str(b64auth@));
            assert(out@ =~= pre1 + AuthenticatedData::spec_unversioned_bytes(self@.auth_data)
                + enc_str(b64auth@));
            let pre2 = pre1 + AuthenticatedData::spec_unversioned_bytes(self@.auth_data);
            lemma_read_str_enc(pre2, b64auth@, Seq::<u8>::empty());
            assert(out@ =~= pre2 + enc_str(b64auth@) + Seq::<u8>::empty());
        }
        out
    }

    /// The full wire form.
    pub open spec fn spec_to_bytes(v: AccessControlPolicyView) -> Seq<u8> {
        spec_envelope(Self::spec_brand(), 1, 0, Self::spec_unversioned_bytes(v))
    }

    /// The full wire decoding, with the error taxonomy of the codec.
    pub open spec fn spec_from_bytes(b: Seq<u8>) -> Result<
        AccessControlPolicyView,
        ProtocolError,
    > {
        match spec_parse_envelope(Self::spec_brand(), 1, b) {
            Err(e) => Err(e),
            Ok((minor, payload)) => match Self::spec_unversioned_from_bytes(minor, payload) {
                None => Err(ProtocolError::VersionError),
                Some(res) => res,
            },
        }
    }

    /// Serializes the policy into its enveloped wire form. Decoding the
    /// result yields the policy back: the round trip is part of the
    /// contract.
    pub fn to_bytes(&self) -> (r: Vec<u8>)
        requires
            self.wf(),
        ensures
            r@ == Self::spec_to_bytes(self@),
            Self::spec_from_bytes(r@) == Ok::<AccessControlPolicyView, ProtocolError>(self@),
    {
        let payload = self.unversioned_to_bytes();
        let brand = Self::brand();
        let r = write_envelope(&brand, 1, 0, &payload);
        proof {
            lemma_parse_envelope_enc(Self::spec_brand(), 1, 0, payload@);
        }
        r
    }

    /// Decodes a policy from its enveloped wire form.
    pub fn from_bytes(buf: &Vec<u8>) -> (r: Result<Self, ProtocolError>)
        ensures
            match Self::spec_from_bytes(buf@) {
                Ok(v) => r matches Ok(x) && x@ == v && x.wf(),
                Err(e) => r matches Err(e2) && e2 == e,
            },
    {
        let brand = Self::brand();
        match parse_envelope(buf, &brand, 1) {
            Err(e) => Err(e),
            Ok((minor, payload)) => match Self::unversioned_from_bytes(minor, &payload) {
                None => Err(ProtocolError::VersionError),
                Some(res) => res,
            },
        }
    }
}

} // verus!
