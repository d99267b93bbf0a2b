use nucypher_core::access_control::{AccessControlPolicy, AuthenticatedData};
use nucypher_core::codec::ProtocolError;
use nucypher_core::conditions::Conditions;
use nucypher_core::dkg::DkgPublicKey;
use nucypher_core::hrac::Hrac;
use nucypher_core::key_frag::{
    AuthorizedKeyFrag, DecryptionFailure, EncryptedKeyFrag, EncryptionError, KeyFrag,
};
use nucypher_core::keys::{Signer, UmbralSecretKey};

#[test]
fn authenticated_data() {
    let dkg_pk = DkgPublicKey::random();
    let conditions = Conditions::new("abcd");

    let auth_data = AuthenticatedData::new(&dkg_pk, Some(&conditions));

    // check aad for auth data; expected to be dkg public key + conditions
    let mut expected_aad = dkg_pk.to_bytes();
    expected_aad.extend_from_slice(conditions.as_bytes());
    let auth_data_aad = auth_data.aad();
    assert_eq!(expected_aad, auth_data_aad);

    assert_eq!(auth_data.public_key, dkg_pk);
    assert_eq!(auth_data.conditions, Some(conditions));

    let auth_data_2 = AuthenticatedData::new(&dkg_pk, Some(&Conditions::new("abcd")));
    assert_eq!(auth_data, auth_data_2);

    // mimic serialization/deserialization over the wire
    let serialized_auth_data = auth_data.to_bytes();
    let deserialized_auth_data = AuthenticatedData::from_bytes(&serialized_auth_data).unwrap();
    assert_eq!(auth_data.public_key, deserialized_auth_data.public_key);
    assert_eq!(auth_data.conditions, deserialized_auth_data.conditions);
}

#[test]
fn access_control_policy() {
    let dkg_pk = DkgPublicKey::random();
    let conditions = Conditions::new("abcd");

    let auth_data = AuthenticatedData::new(&dkg_pk, Some(&conditions));
    let authorization = b"we_dont_need_no_stinking_badges";
    let acp = AccessControlPolicy::new(&auth_data, authorization);

    // check that aad for auth_data and acp are the same
    assert_eq!(auth_data.aad(), acp.aad());

    // mimic serialization/deserialization over the wire
    let serialized_acp = acp.to_bytes();
    let deserialized_acp = AccessControlPolicy::from_bytes(&serialized_acp).unwrap();
    assert_eq!(auth_data.public_key, deserialized_acp.public_key());
    assert_eq!(auth_data.conditions, deserialized_acp.conditions());
    assert_eq!(authorization.to_vec(), deserialized_acp.authorization);
}

#[test]
fn authorization_travels_base64_encoded() {
    let dkg_pk = DkgPublicKey::random();
    let auth_data = AuthenticatedData::new(&dkg_pk, Some(&Conditions::new("abcd")));
    let acp = AccessControlPolicy::new(&auth_data, b"we_dont_need_no_stinking_badges");

    let serialized = acp.to_bytes();
    let expected: &[u8] = b"d2VfZG9udF9uZWVkX25vX3N0aW5raW5nX2JhZGdlcw==";
    assert!(serialized.windows(expected.len()).any(|w| w == expected));
    assert!(!serialized
        .windows(b"we_dont_need_no_stinking_badges".len())
        .any(|w| w == b"we_dont_need_no_stinking_badges"));
}

#[test]
fn aad_deterministic() {
    let dkg_pk = DkgPublicKey::random();
    let a = AuthenticatedData::new(&dkg_pk, Some(&Conditions::new("abcd")));
    let b = AuthenticatedData::new(&dkg_pk, Some(&Conditions::new("abcd")));
    assert_eq!(a.aad(), b.aad());
}

#[test]
fn aad_concrete_scenario() {
    let key_bytes: Vec<u8> = (0u8..48).collect();
    let k = DkgPublicKey::from_bytes(key_bytes.clone()).unwrap();
    let auth_data = AuthenticatedData::new(&k, Some(&Conditions::new("abcd")));

    let mut expected = key_bytes.clone();
    expected.extend_from_slice("abcd".as_bytes());
    assert_eq!(auth_data.aad(), expected);
    // stable across repeated calls
    assert_eq!(auth_data.aad(), auth_data.aad());
    // and across a wire round trip
    let round_tripped = AuthenticatedData::from_bytes(&auth_data.to_bytes()).unwrap();
    assert_eq!(round_tripped.aad(), expected);
}

#[test]
fn authenticated_data_without_conditions_round_trip() {
    let dkg_pk = DkgPublicKey::random();
    let auth_data = AuthenticatedData::new(&dkg_pk, None);
    let decoded = AuthenticatedData::from_bytes(&auth_data.to_bytes()).unwrap();
    assert_eq!(decoded, auth_data);
    assert_eq!(decoded.conditions, None);
}

#[test]
fn authorized_key_frag_verify() {
    let signer = Signer::new(UmbralSecretKey::random());
    let hrac = Hrac::from_bytes(vec![7u8; 16]).unwrap();
    let kfrag_bytes: Vec<u8> = (0u8..100).collect();
    let verified_kfrag = KeyFrag::from_verified_bytes(kfrag_bytes.clone());

    let akf = AuthorizedKeyFrag::new(&signer, &hrac, &verified_kfrag);

    // the right identifier and the signer's own key recover the fragment
    let recovered = akf.verify(&hrac, &signer.verifying_key()).unwrap();
    assert_eq!(recovered.as_bytes(), &kfrag_bytes);

    // a different identifier yields nothing
    let other_hrac = Hrac::from_bytes(vec![8u8; 16]).unwrap();
    assert!(akf.verify(&other_hrac, &signer.verifying_key()).is_none());

    // a different verifying key yields nothing
    let other_key = UmbralSecretKey::random().public_key();
    assert!(akf.verify(&hrac, &other_key).is_none());
}

#[test]
fn authorized_key_frag_std_round_trip() {
    let signer = Signer::new(UmbralSecretKey::random());
    let hrac = Hrac::from_bytes(vec![3u8; 16]).unwrap();
    let verified_kfrag = KeyFrag::from_verified_bytes(vec![9u8; 40]);
    let akf = AuthorizedKeyFrag::new(&signer, &hrac, &verified_kfrag);

    let bytes = akf.to_std_bytes();
    assert_eq!(AuthorizedKeyFrag::from_std_bytes(&bytes), Some(akf));
}

#[test]
fn encrypted_key_frag_decrypt() {
    let signer = Signer::new(UmbralSecretKey::random());
    let hrac = Hrac::from_bytes(vec![5u8; 16]).unwrap();
    let verified_kfrag = KeyFrag::from_verified_bytes((0u8..200).collect());
    let akf = AuthorizedKeyFrag::new(&signer, &hrac, &verified_kfrag);

    let recipient_sk = UmbralSecretKey::random();
    let recipient_pk = recipient_sk.public_key();
    let ekf = EncryptedKeyFrag::new(&recipient_pk, &akf).unwrap();

    // the matching secret key recovers the authorized fragment
    let decrypted = ekf.clone().decrypt(&recipient_sk);
    assert_eq!(decrypted, Some(akf));

    // an unrelated secret key recovers nothing, and the detailed form names
    // the failure as ordinary "not for me"
    let other_sk = UmbralSecretKey::random();
    assert_eq!(ekf.decrypt_detailed(&other_sk), Err(DecryptionFailure::NotForMe));
    assert!(ekf.decrypt(&other_sk).is_none());
}

#[test]
fn encrypted_key_frag_wire_round_trip() {
    let signer = Signer::new(UmbralSecretKey::random());
    let hrac = Hrac::from_bytes(vec![6u8; 16]).unwrap();
    let verified_kfrag = KeyFrag::from_verified_bytes(vec![1u8; 64]);
    let akf = AuthorizedKeyFrag::new(&signer, &hrac, &verified_kfrag);

    let recipient_sk = UmbralSecretKey::random();
    let ekf = EncryptedKeyFrag::new(&recipient_sk.public_key(), &akf).unwrap();

    let bytes = ekf.to_bytes();
    let decoded = EncryptedKeyFrag::from_bytes(&bytes).unwrap();
    assert_eq!(decoded, ekf);

    // the round-tripped bundle still decrypts
    assert_eq!(decoded.decrypt(&recipient_sk), Some(akf));
}

#[test]
fn encryption_rejects_malformed_recipient_key() {
    let signer = Signer::new(UmbralSecretKey::random());
    let hrac = Hrac::from_bytes(vec![2u8; 16]).unwrap();
    let verified_kfrag = KeyFrag::from_verified_bytes(vec![4u8; 8]);
    let akf = AuthorizedKeyFrag::new(&signer, &hrac, &verified_kfrag);

    let bogus_key = nucypher_core::keys::PublicKey::from_bytes(vec![0u8; 5]);
    assert_eq!(EncryptedKeyFrag::new(&bogus_key, &akf), Err(EncryptionError));
}

#[test]
fn version_and_brand_rejection() {
    let dkg_pk = DkgPublicKey::random();
    let auth_data = AuthenticatedData::new(&dkg_pk, Some(&Conditions::new("abcd")));
    let good = auth_data.to_bytes();

    // a buffer shorter than the header
    assert_eq!(
        AuthenticatedData::from_bytes(&vec![1u8, 2, 3]),
        Err(ProtocolError::FormatError)
    );

    // a foreign brand tag, with otherwise-valid version and payload bytes
    let mut wrong_brand = good.clone();
    wrong_brand[0] = b'X';
    assert_eq!(
        AuthenticatedData::from_bytes(&wrong_brand),
        Err(ProtocolError::BrandMismatch)
    );

    // a major version newer than the current one
    let mut wrong_major = good.clone();
    wrong_major[4] = 0;
    wrong_major[5] = 2;
    assert_eq!(
        AuthenticatedData::from_bytes(&wrong_major),
        Err(ProtocolError::VersionError)
    );

    // a minor version newer than the current one, same major
    let mut wrong_minor = good.clone();
    wrong_minor[6] = 0;
    wrong_minor[7] = 1;
    assert_eq!(
        AuthenticatedData::from_bytes(&wrong_minor),
        Err(ProtocolError::VersionError)
    );

    // a structurally invalid payload
    let mut bad_payload = good.clone();
    bad_payload[8] = 0x00;
    assert_eq!(
        AuthenticatedData::from_bytes(&bad_payload),
        Err(ProtocolError::DeserializationError)
    );

    // feeding one type's bytes to another type is a brand mismatch
    let acp_bytes = AccessControlPolicy::new(&auth_data, b"proof").to_bytes();
    assert_eq!(
        AuthenticatedData::from_bytes(&acp_bytes),
        Err(ProtocolError::BrandMismatch)
    );
}

#[test]
fn fixstr_conditions_accepted() {
    // brand "AuDa", version (1, 0), then a two-element record: a 48-byte key
    // and the conditions "abcd" in MessagePack's one-byte fixstr form, which
    // general writers emit for strings shorter than 32 bytes
    let mut buf = vec![b'A', b'u', b'D', b'a', 0, 1, 0, 0, 0x92, 0xc4, 48];
    buf.extend_from_slice(&[7u8; 48]);
    buf.push(0xa4);
    buf.extend_from_slice(b"abcd");

    let decoded = AuthenticatedData::from_bytes(&buf).unwrap();
    assert_eq!(decoded.conditions, Some(Conditions::new("abcd")));
    assert_eq!(decoded.public_key, DkgPublicKey::from_bytes(vec![7u8; 48]).unwrap());
}

#[test]
fn invalid_utf8_conditions_rejected() {
    // same record, but the conditions str holds bytes that are no UTF-8
    let mut buf = vec![b'A', b'u', b'D', b'a', 0, 1, 0, 0, 0x92, 0xc4, 48];
    buf.extend_from_slice(&[7u8; 48]);
    buf.extend_from_slice(&[0xd9, 2, 0xff, 0xfe]);

    assert_eq!(
        AuthenticatedData::from_bytes(&buf),
        Err(ProtocolError::DeserializationError)
    );
}

#[test]
fn hrac_length_checked() {
    assert!(Hrac::from_bytes(vec![0u8; 15]).is_none());
    assert!(Hrac::from_bytes(vec![0u8; 17]).is_none());
    assert!(Hrac::from_bytes(vec![0u8; 16]).is_some());
}

#[test]
fn dkg_key_length_checked() {
    assert!(DkgPublicKey::from_bytes(vec![0u8; 47]).is_none());
    assert!(DkgPublicKey::from_bytes(vec![0u8; 48]).is_some());
}

#[test]
fn distinct_keys_differ() {
    let a = UmbralSecretKey::random().public_key();
    let b = UmbralSecretKey::random().public_key();
    assert_ne!(a, b);
    assert_ne!(DkgPublicKey::random(), DkgPublicKey::random());
}

#[test]
fn key_frag_status_projections() {
    let kf = KeyFrag::from_bytes(vec![1u8, 2, 3]);
    let vkf = KeyFrag::from_verified_bytes(vec![1u8, 2, 3]);
    // same byte layout, different local status
    assert_eq!(kf.as_bytes(), vkf.as_bytes());
    assert_ne!(kf, vkf);
    assert_eq!(vkf.unverify(), kf);
}
