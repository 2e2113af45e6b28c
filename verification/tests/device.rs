use hsm_demo::config::{DEFAULT_AUTH_KEY_ID, DEFAULT_SIGNING_KEY_ID};
use hsm_demo::hsm::{
    delete_object, get_object_info, get_public_key, list_object_summaries, list_objects, sign,
    verify, ErrorKind, HsmClient, HsmConfig, ObjectType, SessionManager,
};
use yubihsm::{asymmetric, Capability, Client, Connector, Credentials, Domain};

/// A simulated device that holds the default authentication key and a P-256
/// signing key under the default identifier.
fn device_with_signing_key() -> Connector {
    let connector = Connector::mockhsm();
    let provisioner = Client::open(connector.clone(), Credentials::default(), true).unwrap();
    provisioner
        .generate_asymmetric_key(
            DEFAULT_SIGNING_KEY_ID,
            "signing key".into(),
            Domain::DOM1,
            Capability::SIGN_ECDSA,
            asymmetric::Algorithm::EcP256,
        )
        .unwrap();
    connector
}

fn open_session(connector: Connector) -> HsmClient {
    HsmClient::open(connector, HsmConfig::default()).unwrap()
}

#[test]
fn default_config_is_key_one_and_the_default_password() {
    let config = HsmConfig::default();
    assert_eq!(config.auth_key_id, 1);
    assert_eq!(config.auth_password, "password");
    assert_eq!(DEFAULT_AUTH_KEY_ID, 1);
    assert_eq!(DEFAULT_SIGNING_KEY_ID, 0xf35b);
}

#[test]
fn sign_then_verify_hello() {
    let mut client = open_session(device_with_signing_key());
    let signature = sign(&mut client, 0xf35b, b"hello").unwrap();
    assert!(
        signature.len() == 64 || (70..=72).contains(&signature.len()),
        "unexpected signature length {}",
        signature.len()
    );
    assert_eq!(verify(&mut client, 0xf35b, b"hello", &signature).unwrap(), true);
    assert_eq!(verify(&mut client, 0xf35b, b"hell0", &signature).unwrap(), false);
}

#[test]
fn sign_then_verify_many_messages() {
    let mut client = open_session(device_with_signing_key());
    let messages: [&[u8]; 4] = [b"a", b"hello world", &[0u8; 1], &[0xffu8; 300]];
    for message in messages {
        let signature = sign(&mut client, 0xf35b, message).unwrap();
        assert_eq!(verify(&mut client, 0xf35b, message, &signature).unwrap(), true);
    }
}

#[test]
fn signature_of_the_device_comes_back_unchanged() {
    let mut client = open_session(device_with_signing_key());
    let signature = sign(&mut client, 0xf35b, b"hello").unwrap();
    assert_eq!(signature[0], 0x30);
    assert!(p256::ecdsa::Signature::from_der(&signature).is_ok());
}

#[test]
fn empty_message_is_refused() {
    let mut client = open_session(device_with_signing_key());
    let e = sign(&mut client, 0xf35b, b"").unwrap_err();
    assert_eq!(e.kind(), ErrorKind::InvalidInput);
    assert_eq!(e.message(), "Invalid input: Data cannot be empty");
    let e = verify(&mut client, 0xf35b, b"", &[0u8; 64]).unwrap_err();
    assert_eq!(e.kind(), ErrorKind::InvalidInput);
    assert_eq!(e.detail_text(), "Data cannot be empty");
}

#[test]
fn empty_message_is_refused_before_the_key_is_looked_up() {
    let mut client = open_session(Connector::mockhsm());
    let e = sign(&mut client, 0x0bad, b"").unwrap_err();
    assert_eq!(e.kind(), ErrorKind::InvalidInput);
    let e = verify(&mut client, 0x0bad, b"", b"").unwrap_err();
    assert_eq!(e.kind(), ErrorKind::InvalidInput);
}

#[test]
fn signing_with_a_missing_key_fails_as_signing_failed() {
    let mut client = open_session(Connector::mockhsm());
    let e = sign(&mut client, 0xf35b, b"hello").unwrap_err();
    assert_eq!(e.kind(), ErrorKind::SigningFailed);
    assert!(e.message().starts_with("Signing failed: "));
}

#[test]
fn verifying_with_a_missing_key_fails_as_invalid_key() {
    let mut client = open_session(Connector::mockhsm());
    let e = verify(&mut client, 0xf35b, b"hello", &[1u8; 64]).unwrap_err();
    assert_eq!(e.kind(), ErrorKind::InvalidKey);
    assert!(e.detail_text().starts_with("Failed to get public key: "));
}

#[test]
fn key_is_examined_before_the_signature() {
    let mut client = open_session(Connector::mockhsm());
    let e = verify(&mut client, 0xf35b, b"hello", &[1u8; 10]).unwrap_err();
    assert_eq!(e.kind(), ErrorKind::InvalidKey);
}

#[test]
fn signature_of_unexpected_length_is_invalid_input() {
    let mut client = open_session(device_with_signing_key());
    let e = verify(&mut client, 0xf35b, b"hello", &[0x30u8; 10]).unwrap_err();
    assert_eq!(e.kind(), ErrorKind::InvalidInput);
    assert_eq!(
        e.detail_text(),
        "Invalid signature length: 10 bytes (expected 64 for raw or >64 for DER)"
    );
    let e = verify(&mut client, 0xf35b, b"hello", &[0x31u8; 70]).unwrap_err();
    assert_eq!(
        e.detail_text(),
        "Invalid signature length: 70 bytes (expected 64 for raw or >64 for DER)"
    );
}

#[test]
fn malformed_signature_is_invalid_input() {
    let mut client = open_session(device_with_signing_key());
    let e = verify(&mut client, 0xf35b, b"hello", &[0x30u8; 70]).unwrap_err();
    assert_eq!(e.kind(), ErrorKind::InvalidInput);
    assert!(e.detail_text().starts_with("Invalid DER signature format: "));
    let e = verify(&mut client, 0xf35b, b"hello", &[0u8; 64]).unwrap_err();
    assert_eq!(e.kind(), ErrorKind::InvalidInput);
    assert!(e.detail_text().starts_with("Invalid raw signature format: "));
}

#[test]
fn every_single_bit_change_of_the_signature_is_answered_false() {
    let mut client = open_session(device_with_signing_key());
    let der = sign(&mut client, 0xf35b, b"hello").unwrap();
    let raw = p256::ecdsa::Signature::from_der(&der).unwrap().to_bytes().to_vec();
    assert_eq!(verify(&mut client, 0xf35b, b"hello", &raw).unwrap(), true);
    for bit in 0..raw.len() * 8 {
        let mut altered = raw.clone();
        altered[bit / 8] ^= 1 << (bit % 8);
        let answer = verify(&mut client, 0xf35b, b"hello", &altered);
        if p256::ecdsa::Signature::from_slice(&altered).is_ok() {
            assert_eq!(answer.unwrap(), false, "bit {}", bit);
        } else {
            assert_eq!(answer.unwrap_err().kind(), ErrorKind::InvalidInput);
        }
    }
}

#[test]
fn der_and_raw_signature_verify_alike() {
    let mut client = open_session(device_with_signing_key());
    let der = sign(&mut client, 0xf35b, b"hello").unwrap();
    let raw = p256::ecdsa::Signature::from_der(&der).unwrap().to_bytes().to_vec();
    assert_eq!(raw.len(), 64);
    for message in [&b"hello"[..], &b"hell0"[..]] {
        let by_der = verify(&mut client, 0xf35b, message, &der).unwrap();
        let by_raw = verify(&mut client, 0xf35b, message, &raw).unwrap();
        assert_eq!(by_der, by_raw);
    }
}

#[test]
fn listing_shows_the_authentication_key_and_the_signing_key() {
    let mut client = open_session(device_with_signing_key());
    let summaries = list_object_summaries(&mut client).unwrap();
    assert_eq!(summaries.len(), 2);
    assert_eq!(summaries[0].object_id, 0x0001);
    assert_eq!(summaries[0].object_type, ObjectType::AuthenticationKey);
    assert!(summaries[0].public_key_hex.is_none());
    assert_eq!(summaries[1].object_id, 0xf35b);
    assert_eq!(summaries[1].object_type, ObjectType::AsymmetricKey);
    assert_eq!(summaries[1].label, "signing key");
    assert_eq!(summaries[1].algorithm.name, "Asymmetric(EcP256)");
    assert_eq!(summaries[1].algorithm.code, 0x0c);
    let hex = summaries[1].public_key_hex.as_ref().unwrap();
    assert!(!hex.is_empty());
    let key = get_public_key(&mut client, 0xf35b).unwrap();
    assert_eq!(key.bytes.len(), 64);
    assert_eq!(key.algorithm.name, "EcP256");
    assert_eq!(hex, &hex::encode(&key.bytes));
    assert_eq!(hex.len(), 128);
    assert!(hex.chars().all(|c| c.is_ascii_digit() || ('a'..='f').contains(&c)));
}

#[test]
fn listing_of_a_fresh_device_has_one_row() {
    let mut client = open_session(Connector::mockhsm());
    let summaries = list_object_summaries(&mut client).unwrap();
    assert_eq!(summaries.len(), 1);
    assert_eq!(summaries[0].object_id, 1);
    assert_eq!(summaries[0].object_type, ObjectType::AuthenticationKey);
    assert_eq!(summaries[0].label, "DEFAULT AUTHKEY CHANGE THIS ASAP");
    assert_eq!(summaries[0].sequence, 1);
    assert_eq!(summaries[0].public_key_hex, None);
}

#[test]
fn listing_is_read_anew_each_time() {
    let connector = device_with_signing_key();
    let mut client = open_session(connector.clone());
    assert_eq!(list_object_summaries(&mut client).unwrap().len(), 2);
    let provisioner = Client::open(connector, Credentials::default(), true).unwrap();
    provisioner
        .generate_asymmetric_key(
            0x0200,
            "second".into(),
            Domain::DOM1,
            Capability::SIGN_ECDSA,
            asymmetric::Algorithm::EcP256,
        )
        .unwrap();
    let summaries = list_object_summaries(&mut client).unwrap();
    assert_eq!(summaries.len(), 3);
    assert_eq!(summaries[1].object_id, 0x0200);
    assert_eq!(summaries[2].object_id, 0xf35b);
}

#[test]
fn listing_as_text_names_every_object() {
    let mut client = open_session(device_with_signing_key());
    let key = get_public_key(&mut client, 0xf35b).unwrap();
    let hex = hex::encode(&key.bytes);
    let text = list_objects(&mut client).unwrap();
    let expected = format!(
        "Objects on YubiHSM2 (visible to current auth key):\n\
         - id 0x0001 (AuthenticationKey), algorithm: Authentication(YubicoAes), label: DEFAULT AUTHKEY CHANGE THIS ASAP, sequence: 1\n\
         - id 0xf35b (AsymmetricKey), algorithm: Asymmetric(EcP256), label: signing key, sequence: {}\n  \
         Public Key:\n    Algorithm: Asymmetric(EcP256)\n    Bytes (64 bytes, hex):\n    {}\n    {}\n",
        list_object_summaries(&mut client).unwrap()[1].sequence,
        &hex[..64],
        &hex[64..]
    );
    assert_eq!(text, expected);
}

#[test]
fn object_info_of_the_signing_key() {
    let mut client = open_session(device_with_signing_key());
    let info = get_object_info(&mut client, 0xf35b, ObjectType::AsymmetricKey).unwrap();
    assert_eq!(info.object_id, 0xf35b);
    assert_eq!(info.object_type, ObjectType::AsymmetricKey);
    assert_eq!(info.label, "signing key");
    assert_eq!(info.algorithm.name, "Asymmetric(EcP256)");
}

#[test]
fn object_info_of_a_missing_object_fails_as_listing_failed() {
    let mut client = open_session(Connector::mockhsm());
    let e = get_object_info(&mut client, 0xf35b, ObjectType::AsymmetricKey).unwrap_err();
    assert_eq!(e.kind(), ErrorKind::ListingFailed);
    assert!(e.detail_text().starts_with("Failed to get object info: "));
}

#[test]
fn public_key_of_a_missing_key_fails_as_get_public_key_failed() {
    let mut client = open_session(Connector::mockhsm());
    let e = get_public_key(&mut client, 0xf35b).unwrap_err();
    assert_eq!(e.kind(), ErrorKind::GetPublicKeyFailed);
    assert!(e.message().starts_with("Failed to get public key: Failed to get public key: "));
}

#[test]
fn authentication_key_is_never_deleted() {
    let mut client = open_session(device_with_signing_key());
    for object_id in [0u16, 1, 2, 0xf35b, 0xffff] {
        let e = delete_object(&mut client, object_id, ObjectType::AuthenticationKey).unwrap_err();
        assert_eq!(e.kind(), ErrorKind::InvalidInput);
        assert_eq!(e.detail_text(), "Deleting authentication keys is not allowed");
    }
    let summaries = list_object_summaries(&mut client).unwrap();
    assert_eq!(summaries.len(), 2);
    assert_eq!(summaries[0].object_type, ObjectType::AuthenticationKey);
}

#[test]
fn deleting_the_signing_key_removes_it() {
    let mut client = open_session(device_with_signing_key());
    delete_object(&mut client, 0xf35b, ObjectType::AsymmetricKey).unwrap();
    let summaries = list_object_summaries(&mut client).unwrap();
    assert_eq!(summaries.len(), 1);
    assert_eq!(summaries[0].object_type, ObjectType::AuthenticationKey);
    let e = sign(&mut client, 0xf35b, b"hello").unwrap_err();
    assert_eq!(e.kind(), ErrorKind::SigningFailed);
}

#[test]
fn deleting_a_missing_object_fails_as_deletion_failed() {
    let mut client = open_session(Connector::mockhsm());
    let e = delete_object(&mut client, 0xf35b, ObjectType::AsymmetricKey).unwrap_err();
    assert_eq!(e.kind(), ErrorKind::DeletionFailed);
    assert!(e.detail_text().starts_with("Failed to delete object: "));
    assert!(e.message().starts_with("Deletion failed: Failed to delete object: "));
}

#[test]
fn wrong_password_fails_as_authentication_failed() {
    let config = HsmConfig { auth_key_id: 1, auth_password: "not the password".to_string() };
    let e = match HsmClient::open(Connector::mockhsm(), config) {
        Ok(_) => panic!("a session was opened with a wrong password"),
        Err(e) => e,
    };
    assert_eq!(e.kind(), ErrorKind::AuthenticationFailed);
    assert!(e.message().starts_with("Authentication failed: "));
}

#[test]
fn session_is_available_between_connect_and_disconnect() {
    let mut session = SessionManager::new();
    assert!(!session.is_authenticated());
    let e = match session.active_client() {
        Ok(_) => panic!("a session was handed out before any was opened"),
        Err(e) => e,
    };
    assert_eq!(e.kind(), ErrorKind::AuthenticationFailed);
    assert_eq!(e.detail_text(), "No active session");
    assert_eq!(e.message(), "Authentication failed: No active session");

    session.open(device_with_signing_key(), HsmConfig::default()).unwrap();
    assert!(session.is_authenticated());
    {
        let client = session.active_client().unwrap();
        let signature = sign(client, 0xf35b, b"hello").unwrap();
        assert_eq!(verify(client, 0xf35b, b"hello", &signature).unwrap(), true);
    }

    session.disconnect();
    assert!(!session.is_authenticated());
    assert!(session.active_client().is_err());
    session.disconnect();
    assert!(!session.is_authenticated());
}

#[test]
fn failed_attempt_leaves_the_open_session() {
    let mut session = SessionManager::new();
    session.open(device_with_signing_key(), HsmConfig::default()).unwrap();
    let wrong = HsmConfig { auth_key_id: 1, auth_password: "wrong".to_string() };
    let e = session.open(Connector::mockhsm(), wrong).unwrap_err();
    assert_eq!(e.kind(), ErrorKind::AuthenticationFailed);
    assert!(session.is_authenticated());
    let client = session.active_client().unwrap();
    assert!(sign(client, 0xf35b, b"hello").is_ok());
}

#[test]
fn failed_attempt_leaves_the_manager_without_a_session() {
    let mut session = SessionManager::new();
    let wrong = HsmConfig { auth_key_id: 1, auth_password: "wrong".to_string() };
    assert!(session.open(Connector::mockhsm(), wrong).is_err());
    assert!(!session.is_authenticated());
    assert!(session.active_client().is_err());
}

#[test]
fn connecting_without_a_device_fails_as_authentication_failed() {
    let e = match HsmClient::connect(HsmConfig::default()) {
        Ok(_) => return,
        Err(e) => e,
    };
    assert_eq!(e.kind(), ErrorKind::AuthenticationFailed);
    let mut session = SessionManager::new();
    assert!(session.connect(HsmConfig::default()).is_err());
    assert!(!session.is_authenticated());
}
