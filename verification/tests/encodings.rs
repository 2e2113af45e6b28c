use hsm_demo::hsm::crypto::{
    normalize_public_key, parse_public_key, parse_signature, prefixed, public_key_outcome,
    signature_outcome, verify_prehash,
};
use hsm_demo::hsm::client::open_outcome;
use hsm_demo::hsm::operations::{
    delete_outcome, fetched_key_outcome, listing_outcome, object_info_outcome, sign_outcome,
    verify_outcome,
};
use hsm_demo::hsm::{
    verify, Algorithm, ErrorKind, HsmClient, HsmConfig, ObjectEntry, ObjectInfo, ObjectType,
    PublicKey,
};
use p256::ecdsa::signature::hazmat::PrehashSigner;
use p256::ecdsa::{Signature, SigningKey};
use yubihsm::{asymmetric, Capability, Client, Connector, Credentials, Domain};

/// SHA-256 of the five bytes `hello`.
const HELLO_DIGEST: [u8; 32] = [
    0x2c, 0xf2, 0x4d, 0xba, 0x5f, 0xb0, 0xa3, 0x0e, 0x26, 0xe8, 0x3b, 0x2a, 0xc5, 0xb9, 0xe2, 0x9e,
    0x1b, 0x16, 0x1e, 0x5c, 0x1f, 0xa7, 0x42, 0x5e, 0x73, 0x04, 0x33, 0x62, 0x93, 0x8b, 0x98, 0x24,
];

/// The order of the P-256 group, big-endian.
const ORDER: [u8; 32] = [
    0xff, 0xff, 0xff, 0xff, 0x00, 0x00, 0x00, 0x00, 0xff, 0xff, 0xff, 0xff, 0xff, 0xff, 0xff, 0xff,
    0xbc, 0xe6, 0xfa, 0xad, 0xa7, 0x17, 0x9e, 0x84, 0xf3, 0xb9, 0xca, 0xc2, 0xfc, 0x63, 0x25, 0x51,
];

const PRIVATE_KEY: [u8; 32] = [0x11; 32];

fn signing_key() -> SigningKey {
    SigningKey::from_slice(&PRIVATE_KEY).unwrap()
}

/// The public key as a device hands it out: `x‖y`.
fn device_key() -> Vec<u8> {
    signing_key().verifying_key().to_encoded_point(false).as_bytes()[1..].to_vec()
}

fn hello_signature() -> Signature {
    signing_key().sign_prehash(&HELLO_DIGEST).unwrap()
}

fn with_front(front: u8, rest: &[u8]) -> Vec<u8> {
    let mut bytes = vec![front];
    bytes.extend_from_slice(rest);
    bytes
}

fn raw_signature(r: &[u8; 32], s: &[u8; 32]) -> Vec<u8> {
    let mut raw = r.to_vec();
    raw.extend_from_slice(s);
    raw
}

fn one() -> [u8; 32] {
    let mut n = [0u8; 32];
    n[31] = 1;
    n
}

fn order_less_one() -> [u8; 32] {
    let mut n = ORDER;
    n[31] -= 1;
    n
}

#[test]
fn key_of_64_bytes_gets_the_tag_in_front() {
    let key = device_key();
    assert_eq!(key.len(), 64);
    let sec1 = normalize_public_key(&key).unwrap();
    assert_eq!(sec1.len(), 65);
    assert_eq!(sec1[0], 0x04);
    assert_eq!(&sec1[1..], &key[..]);
}

#[test]
fn key_of_65_bytes_with_the_tag_stays() {
    let key = with_front(0x04, &device_key());
    assert_eq!(normalize_public_key(&key).unwrap(), key);
}

#[test]
fn both_encodings_of_a_key_normalize_alike() {
    let key = device_key();
    let tagged = with_front(0x04, &key);
    assert_eq!(normalize_public_key(&key).unwrap(), normalize_public_key(&tagged).unwrap());
    assert_eq!(parse_public_key(&key).unwrap(), parse_public_key(&tagged).unwrap());
}

#[test]
fn key_of_another_length_is_refused_with_its_length() {
    for (len, text) in [(0usize, "0"), (1, "1"), (33, "33"), (63, "63"), (66, "66"), (130, "130")] {
        let e = normalize_public_key(&vec![0x04u8; len]).unwrap_err();
        assert_eq!(e.kind(), ErrorKind::InvalidKey);
        assert_eq!(
            e.detail_text(),
            &format!("Unexpected public key length: {} bytes (expected 64 or 65)", text)
        );
    }
}

#[test]
fn key_of_65_bytes_without_the_tag_is_refused() {
    for front in [0x00u8, 0x02, 0x03, 0x05, 0xff] {
        let key = with_front(front, &device_key());
        let e = normalize_public_key(&key).unwrap_err();
        assert_eq!(e.kind(), ErrorKind::InvalidKey);
        assert_eq!(
            e.message(),
            "Invalid key: Unexpected public key length: 65 bytes (expected 64 or 65)"
        );
    }
}

#[test]
fn bytes_that_are_no_point_are_refused() {
    let e = parse_public_key(&[0x01u8; 64]).unwrap_err();
    assert_eq!(e.kind(), ErrorKind::InvalidKey);
    assert!(e.detail_text().starts_with("Invalid public key (raw): "));
    let e = parse_public_key(&with_front(0x04, &[0x01u8; 64])).unwrap_err();
    assert_eq!(e.kind(), ErrorKind::InvalidKey);
    assert!(e.detail_text().starts_with("Invalid public key (SEC1): "));
    let e = parse_public_key(&[0u8; 64]).unwrap_err();
    assert_eq!(e.kind(), ErrorKind::InvalidKey);
}

#[test]
fn der_signature_is_read_as_its_numbers() {
    let signature = hello_signature();
    let der = signature.to_der().as_bytes().to_vec();
    assert!(der.len() > 64);
    assert_eq!(der[0], 0x30);
    let raw = parse_signature(&der).unwrap();
    assert_eq!(raw, signature.to_bytes().to_vec());
    assert_ne!(raw, der);
}

#[test]
fn raw_signature_is_read_as_it_is() {
    let raw = hello_signature().to_bytes().to_vec();
    assert_eq!(parse_signature(&raw).unwrap(), raw);
}

#[test]
fn raw_signature_needs_both_numbers_in_range() {
    let zero = [0u8; 32];
    assert!(parse_signature(&raw_signature(&one(), &one())).is_ok());
    assert!(parse_signature(&raw_signature(&order_less_one(), &one())).is_ok());
    assert!(parse_signature(&raw_signature(&one(), &order_less_one())).is_ok());
    for raw in [
        raw_signature(&zero, &one()),
        raw_signature(&one(), &zero),
        raw_signature(&ORDER, &one()),
        raw_signature(&one(), &ORDER),
        raw_signature(&[0xff; 32], &[0xff; 32]),
    ] {
        let e = parse_signature(&raw).unwrap_err();
        assert_eq!(e.kind(), ErrorKind::InvalidInput);
        assert!(e.detail_text().starts_with("Invalid raw signature format: "));
    }
}

#[test]
fn signature_of_another_shape_is_refused_with_its_length() {
    let mut short_der = hello_signature().to_der().as_bytes().to_vec();
    short_der.truncate(63);
    for (bytes, len) in [
        (vec![], "0"),
        (vec![0x30u8; 63], "63"),
        (short_der, "63"),
        (vec![0x31u8; 65], "65"),
        (vec![0x00u8; 72], "72"),
    ] {
        let e = parse_signature(&bytes).unwrap_err();
        assert_eq!(e.kind(), ErrorKind::InvalidInput);
        assert_eq!(
            e.detail_text(),
            &format!(
                "Invalid signature length: {} bytes (expected 64 for raw or >64 for DER)",
                len
            )
        );
    }
}

#[test]
fn malformed_der_is_refused() {
    let mut der = hello_signature().to_der().as_bytes().to_vec();
    der.push(0);
    let e = parse_signature(&der).unwrap_err();
    assert_eq!(e.kind(), ErrorKind::InvalidInput);
    assert!(e.detail_text().starts_with("Invalid DER signature format: "));
    let e = parse_signature(&[0x30u8; 72]).unwrap_err();
    assert_eq!(e.kind(), ErrorKind::InvalidInput);
}

#[test]
fn verification_over_a_digest() {
    let key = device_key();
    let raw = hello_signature().to_bytes().to_vec();
    assert_eq!(verify_prehash(&key, &HELLO_DIGEST, &raw).unwrap(), true);
    let mut other = HELLO_DIGEST;
    other[0] ^= 1;
    assert_eq!(verify_prehash(&key, &other, &raw).unwrap(), false);
    assert_eq!(verify_prehash(&key, b"hello", &raw).unwrap(), false);
}

#[test]
fn both_encodings_of_a_key_verify_alike() {
    let key = device_key();
    let tagged = with_front(0x04, &key);
    let raw = hello_signature().to_bytes().to_vec();
    let mut wrong = raw.clone();
    wrong[40] ^= 0x10;
    for signature in [&raw, &wrong] {
        let by_key = verify_prehash(&key, &HELLO_DIGEST, signature).unwrap();
        let by_tagged = verify_prehash(&tagged, &HELLO_DIGEST, signature).unwrap();
        assert_eq!(by_key, by_tagged);
    }
    assert_eq!(verify_prehash(&tagged, &HELLO_DIGEST, &raw).unwrap(), true);
    assert_eq!(verify_prehash(&tagged, &HELLO_DIGEST, &wrong).unwrap(), false);
}

#[test]
fn both_encodings_of_a_signature_verify_alike() {
    let key = device_key();
    let signature = hello_signature();
    let der = signature.to_der().as_bytes().to_vec();
    let raw = signature.to_bytes().to_vec();
    assert_eq!(verify_prehash(&key, &HELLO_DIGEST, &der).unwrap(), true);
    assert_eq!(verify_prehash(&key, &HELLO_DIGEST, &raw).unwrap(), true);
    let other = [0x5au8; 32];
    assert_eq!(verify_prehash(&key, &other, &der).unwrap(), false);
    assert_eq!(verify_prehash(&key, &other, &raw).unwrap(), false);
}

#[test]
fn key_is_examined_before_the_signature_is() {
    let e = verify_prehash(&[0u8; 10], &HELLO_DIGEST, &[0u8; 10]).unwrap_err();
    assert_eq!(e.kind(), ErrorKind::InvalidKey);
    let e = verify_prehash(&[0x01u8; 64], &HELLO_DIGEST, &[0u8; 10]).unwrap_err();
    assert_eq!(e.kind(), ErrorKind::InvalidKey);
    let e = verify_prehash(&device_key(), &HELLO_DIGEST, &[0u8; 10]).unwrap_err();
    assert_eq!(e.kind(), ErrorKind::InvalidInput);
}

#[test]
fn message_is_hashed_with_sha256_before_verification() {
    let connector = Connector::mockhsm();
    let provisioner = Client::open(connector.clone(), Credentials::default(), true).unwrap();
    provisioner
        .put_asymmetric_key(
            0x0100,
            "imported".into(),
            Domain::DOM1,
            Capability::SIGN_ECDSA,
            asymmetric::Algorithm::EcP256,
            PRIVATE_KEY.to_vec(),
        )
        .unwrap();
    let mut client = HsmClient::open(connector, HsmConfig::default()).unwrap();
    let raw = hello_signature().to_bytes().to_vec();
    assert_eq!(verify(&mut client, 0x0100, b"hello", &raw).unwrap(), true);
    assert_eq!(verify(&mut client, 0x0100, b"hello!", &raw).unwrap(), false);
    assert_eq!(verify(&mut client, 0x0100, &HELLO_DIGEST, &raw).unwrap(), false);
}

#[test]
fn prefixed_puts_the_words_in_front() {
    assert_eq!(prefixed("Failed: ", "reason"), "Failed: reason");
    assert_eq!(prefixed("", "reason"), "reason");
    assert_eq!(prefixed("Failed: ", ""), "Failed: ");
}

#[test]
fn outcome_of_signing_follows_the_device() {
    assert_eq!(sign_outcome(Ok(vec![1, 2, 3])).unwrap(), vec![1, 2, 3]);
    let e = sign_outcome(Err("device said no".to_string())).unwrap_err();
    assert_eq!(e.kind(), ErrorKind::SigningFailed);
    assert_eq!(e.detail_text(), "device said no");
    assert_eq!(e.message(), "Signing failed: device said no");
}

#[test]
fn outcome_of_deletion_follows_the_device() {
    assert!(delete_outcome(Ok(())).is_ok());
    let e = delete_outcome(Err("device said no".to_string())).unwrap_err();
    assert_eq!(e.kind(), ErrorKind::DeletionFailed);
    assert_eq!(e.detail_text(), "Failed to delete object: device said no");
}

#[test]
fn outcome_of_verification_follows_the_device() {
    let raw = hello_signature().to_bytes().to_vec();
    let e = verify_outcome(Err("no such key".to_string()), &HELLO_DIGEST, &raw).unwrap_err();
    assert_eq!(e.kind(), ErrorKind::InvalidKey);
    assert_eq!(e.message(), "Invalid key: Failed to get public key: no such key");
    let key = PublicKey {
        algorithm: Algorithm { code: 0x0c, name: "EcP256".to_string() },
        bytes: device_key(),
    };
    assert_eq!(verify_outcome(Ok(key.clone()), &HELLO_DIGEST, &raw).unwrap(), true);
    assert_eq!(verify_outcome(Ok(key), &[0u8; 32], &raw).unwrap(), false);
}

#[test]
fn outcome_of_the_check_of_a_key() {
    let key = device_key();
    let sec1 = with_front(0x04, &key);
    assert_eq!(public_key_outcome(&key, sec1.clone(), Ok(())).unwrap(), sec1);
    let e = public_key_outcome(&key, sec1.clone(), Err("no point".to_string())).unwrap_err();
    assert_eq!(e.kind(), ErrorKind::InvalidKey);
    assert_eq!(e.detail_text(), "Invalid public key (raw): no point");
    let e = public_key_outcome(&sec1, sec1.clone(), Err("no point".to_string())).unwrap_err();
    assert_eq!(e.message(), "Invalid key: Invalid public key (SEC1): no point");
}

#[test]
fn outcome_of_the_reading_of_a_signature() {
    let raw = hello_signature().to_bytes().to_vec();
    let der = hello_signature().to_der().as_bytes().to_vec();
    assert_eq!(signature_outcome(&der, Ok(raw.clone())).unwrap(), raw);
    let e = signature_outcome(&der, Err("bad".to_string())).unwrap_err();
    assert_eq!(e.kind(), ErrorKind::InvalidInput);
    assert_eq!(e.detail_text(), "Invalid DER signature format: bad");
    let e = signature_outcome(&raw, Err("bad".to_string())).unwrap_err();
    assert_eq!(e.message(), "Invalid input: Invalid raw signature format: bad");
}

#[test]
fn outcome_of_a_description_follows_the_device() {
    let info = ObjectInfo {
        object_id: 0x0102,
        object_type: ObjectType::HmacKey,
        algorithm: Algorithm { code: 0x13, name: "Hmac(Sha1)".to_string() },
        label: "a label".to_string(),
        sequence: 4,
    };
    let found = object_info_outcome(Ok(info)).unwrap();
    assert_eq!(found.object_id, 0x0102);
    assert_eq!(found.object_type, ObjectType::HmacKey);
    assert_eq!(found.algorithm.code, 0x13);
    assert_eq!(found.algorithm.name, "Hmac(Sha1)");
    assert_eq!(found.label, "a label");
    assert_eq!(found.sequence, 4);
    let e = object_info_outcome(Err("no such object".to_string())).unwrap_err();
    assert_eq!(e.kind(), ErrorKind::ListingFailed);
    assert_eq!(e.message(), "Listing failed: Failed to get object info: no such object");
}

#[test]
fn outcome_of_a_key_request_follows_the_device() {
    let key = PublicKey {
        algorithm: Algorithm { code: 0x0c, name: "EcP256".to_string() },
        bytes: vec![1, 2, 3],
    };
    let found = fetched_key_outcome(Ok(key)).unwrap();
    assert_eq!(found.bytes, vec![1, 2, 3]);
    assert_eq!(found.algorithm.name, "EcP256");
    let e = fetched_key_outcome(Err("no such key".to_string())).unwrap_err();
    assert_eq!(e.kind(), ErrorKind::GetPublicKeyFailed);
    assert_eq!(e.message(), "Failed to get public key: Failed to get public key: no such key");
}

#[test]
fn outcome_of_a_listing_follows_the_device() {
    let entries = vec![
        ObjectEntry { object_id: 2, object_type: ObjectType::WrapKey, sequence: 0 },
        ObjectEntry { object_id: 1, object_type: ObjectType::Opaque, sequence: 9 },
    ];
    assert_eq!(listing_outcome(Ok(entries.clone())).unwrap(), entries);
    assert_eq!(listing_outcome(Ok(vec![])).unwrap(), vec![]);
    let e = listing_outcome(Err("device said no".to_string())).unwrap_err();
    assert_eq!(e.kind(), ErrorKind::ListingFailed);
    assert_eq!(e.detail_text(), "device said no");
}

#[test]
fn outcome_of_a_refused_opening_carries_the_detail() {
    let e = match open_outcome(Err("authentication failed".to_string())) {
        Ok(_) => panic!("a refusal opened a session"),
        Err(e) => e,
    };
    assert_eq!(e.kind(), ErrorKind::AuthenticationFailed);
    assert_eq!(e.message(), "Authentication failed: authentication failed");
}
