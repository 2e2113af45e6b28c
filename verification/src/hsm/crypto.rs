//! The cryptographic adapter: digests, the encodings of P-256 public keys
//! and ECDSA signatures, and verification over a digest.

use sha2::Digest;
use signature::hazmat::PrehashVerifier;
use vstd::prelude::*;
use vstd::slice::slice_to_vec;
use vstd::string::*;

use super::error::{fails_only_with, fails_with, ErrorKind, HsmError, HsmResult};
use crate::text::{decimal, push_decimal};

verus! {

/// The SHA-256 digest of a message.
pub uninterp spec fn sha256(message: Seq<u8>) -> Seq<u8>;

/// Whether a SEC1 encoding is that of a P-256 public key: a point of the
/// curve other than the point at infinity.
pub uninterp spec fn sec1_public_key(sec1: Seq<u8>) -> bool;

/// The signature that an ASN.1 DER encoding stands for, as `r‖s` with 32
/// bytes each, if the encoding is well formed.
pub uninterp spec fn der_signature(der: Seq<u8>) -> Option<Seq<u8>>;

/// Whether ECDSA over P-256 accepts the signature `r‖s` for the digest under
/// the public key.
pub uninterp spec fn ecdsa_accepts(sec1: Seq<u8>, digest: Seq<u8>, raw: Seq<u8>) -> bool;

/// The number that a byte string is in big-endian order.
pub open spec fn big_endian(bytes: Seq<u8>) -> nat
    decreases bytes.len(),
{
    if bytes.len() == 0 {
        0
    } else {
        big_endian(bytes.drop_last()) * 256 + bytes.last() as nat
    }
}

/// The order of the P-256 group.
pub open spec fn p256_order() -> nat {
    0xffffffff00000000ffffffffffffffffbce6faada7179e84f3b9cac2fc632551nat
}

/// Whether 64 bytes are a signature `r‖s`: both halves, read as big-endian
/// numbers, lie between 1 and the group order less 1.
pub open spec fn raw_signature(raw: Seq<u8>) -> bool {
    &&& raw.len() == 64
    &&& 0 < big_endian(raw.subrange(0, 32)) < p256_order()
    &&& 0 < big_endian(raw.subrange(32, 64)) < p256_order()
}

/// `sha2::Sha256::digest`: the SHA-256 digest of `message`, 32 bytes.
#[verifier::external_body]
pub(crate) fn sha256_digest(message: &[u8]) -> (digest: Vec<u8>)
    ensures
        digest@ == sha256(message@),
        digest@.len() == 32,
{
    sha2::Sha256::digest(message).to_vec()
}

/// `p256::ecdsa::VerifyingKey::from_sec1_bytes`: accepts exactly the SEC1
/// encodings of P-256 public keys. A refusal comes back as its `Display` text.
#[verifier::external_body]
fn check_public_key(sec1: &[u8]) -> (checked: Result<(), String>)
    ensures
        checked is Ok <==> sec1_public_key(sec1@),
{
    match p256::ecdsa::VerifyingKey::from_sec1_bytes(sec1) {
        Ok(_) => Ok(()),
        Err(e) => Err(format!("{}", e)),
    }
}

/// `p256::ecdsa::Signature::from_der`, then `to_bytes`: the signature that
/// the DER encoding stands for, as `r‖s`. What is accepted is a signature
/// with both numbers in range. A refusal comes back as its `Display` text.
#[verifier::external_body]
fn parse_der_signature(der: &[u8]) -> (parsed: Result<Vec<u8>, String>)
    ensures
        parsed matches Ok(raw) ==> der_signature(der@) == Some(raw@) && raw_signature(raw@),
        parsed is Err ==> der_signature(der@) is None,
{
    match p256::ecdsa::Signature::from_der(der) {
        Ok(signature) => Ok(signature.to_bytes().to_vec()),
        Err(e) => Err(format!("{}", e)),
    }
}

/// `p256::ecdsa::Signature::from_slice`: accepts exactly the 64-byte strings
/// whose halves are both between 1 and the group order less 1. A refusal
/// comes back as its `Display` text.
#[verifier::external_body]
fn check_raw_signature(raw: &[u8]) -> (checked: Result<(), String>)
    ensures
        checked is Ok <==> raw_signature(raw@),
{
    match p256::ecdsa::Signature::from_slice(raw) {
        Ok(_) => Ok(()),
        Err(e) => Err(format!("{}", e)),
    }
}

/// `PrehashVerifier::verify_prehash` of `p256::ecdsa::VerifyingKey`, on the
/// key and the signature that the bytes stand for: whether the signature is
/// valid for the digest, which is not hashed again.
#[verifier::external_body]
fn ecdsa_verify(sec1: &[u8], digest: &[u8], raw: &[u8]) -> (accepted: bool)
    requires
        sec1_public_key(sec1@),
        raw_signature(raw@),
    ensures
        accepted == ecdsa_accepts(sec1@, digest@, raw@),
{
    let key = match p256::ecdsa::VerifyingKey::from_sec1_bytes(sec1) {
        Ok(key) => key,
        Err(_) => return false,
    };
    let signature = match p256::ecdsa::Signature::from_slice(raw) {
        Ok(signature) => signature,
        Err(_) => return false,
    };
    key.verify_prehash(digest, &signature).is_ok()
}

/// The uncompressed SEC1 encoding that a device's public key stands for: 65
/// bytes that begin with `0x04` are one already; 64 bytes get `0x04` in front.
pub open spec fn normalized_key(key: Seq<u8>) -> Option<Seq<u8>> {
    if key.len() == 65 && key[0] == 0x04 {
        Some(key)
    } else if key.len() == 64 {
        Some(seq![0x04u8] + key)
    } else {
        None
    }
}

/// The signature `r‖s` that the bytes stand for: more than 64 bytes that
/// begin with `0x30` are read as DER, 64 bytes as `r‖s`.
pub open spec fn normalized_signature(signature: Seq<u8>) -> Option<Seq<u8>> {
    if signature.len() > 64 && signature[0] == 0x30 {
        der_signature(signature)
    } else if signature.len() == 64 && raw_signature(signature) {
        Some(signature)
    } else {
        None
    }
}

/// What verification of a signature over a digest comes to: the key is
/// examined first, then the signature, and only then is the signature checked.
pub open spec fn verification(key: Seq<u8>, digest: Seq<u8>, signature: Seq<u8>) -> Result<
    bool,
    ErrorKind,
> {
    match normalized_key(key) {
        None => Err(ErrorKind::InvalidKey),
        Some(sec1) => if !sec1_public_key(sec1) {
            Err(ErrorKind::InvalidKey)
        } else {
            match normalized_signature(signature) {
                None => Err(ErrorKind::InvalidInput),
                Some(raw) => Ok(ecdsa_accepts(sec1, digest, raw)),
            }
        },
    }
}

/// The detail of the failure on a public key of `len` bytes.
pub open spec fn key_length_detail(len: nat) -> Seq<char> {
    "Unexpected public key length: "@ + decimal(len) + " bytes (expected 64 or 65)"@
}

/// The detail of the failure on a signature of `len` bytes.
pub open spec fn signature_length_detail(len: nat) -> Seq<char> {
    "Invalid signature length: "@ + decimal(len) + " bytes (expected 64 for raw or >64 for DER)"@
}

/// `prefix` followed by `detail`.
pub fn prefixed(prefix: &str, detail: &str) -> (text: String)
    ensures
        text@ == prefix@ + detail@,
        prefix@.is_prefix_of(text@),
{
    let mut text = String::from_str(prefix);
    text.append(detail);
    text
}

/// The words that begin the detail of the failure on a key that is no point
/// of the curve.
pub open spec fn key_refusal_words(key: Seq<u8>) -> Seq<char> {
    if key.len() == 65 {
        "Invalid public key (SEC1): "@
    } else {
        "Invalid public key (raw): "@
    }
}

/// The words that begin the detail of the failure on a signature that has
/// the length of one and cannot be read.
pub open spec fn signature_refusal_words(signature: Seq<u8>) -> Seq<char> {
    if signature.len() == 64 {
        "Invalid raw signature format: "@
    } else {
        "Invalid DER signature format: "@
    }
}

/// The uncompressed SEC1 encoding of a public key handed out by the device.
pub fn normalize_public_key(key: &[u8]) -> (normalized: HsmResult<Vec<u8>>)
    ensures
        normalized matches Ok(sec1) ==> normalized_key(key@) == Some(sec1@),
        normalized matches Err(e) ==> normalized_key(key@) is None && e.is(
            ErrorKind::InvalidKey,
            key_length_detail(key@.len()),
        ),
{
    if key.len() == 65 && key[0] == 0x04 {
        let sec1 = slice_to_vec(key);
        Ok(sec1)
    } else if key.len() == 64 {
        let mut sec1: Vec<u8> = Vec::new();
        sec1.push(0x04);
        sec1.extend_from_slice(key);
        Ok(sec1)
    } else {
        let mut detail = String::from_str("Unexpected public key length: ");
        push_decimal(&mut detail, key.len() as u64);
        detail.append(" bytes (expected 64 or 65)");
        Err(HsmError::InvalidKey(detail))
    }
}

/// What `parse_public_key` returns for the answer on the normalized key:
/// the key that was accepted, or the refusal as `InvalidKey`.
pub fn public_key_outcome(key: &[u8], sec1: Vec<u8>, checked: Result<(), String>) -> (parsed:
    HsmResult<Vec<u8>>)
    ensures
        checked is Ok ==> parsed == Ok::<Vec<u8>, HsmError>(sec1),
        checked matches Err(detail) ==> fails_with(
            parsed,
            ErrorKind::InvalidKey,
            key_refusal_words(key@) + detail@,
        ),
        checked is Err ==> fails_only_with(parsed, ErrorKind::InvalidKey, key_refusal_words(key@)),
{
    match checked {
        Ok(()) => Ok(sec1),
        Err(detail) => {
            let words = if key.len() == 65 {
                "Invalid public key (SEC1): "
            } else {
                "Invalid public key (raw): "
            };
            Err(HsmError::InvalidKey(prefixed(words, detail.as_str())))
        },
    }
}

/// The P-256 public key that the device's bytes stand for, in uncompressed
/// SEC1 encoding.
pub fn parse_public_key(key: &[u8]) -> (parsed: HsmResult<Vec<u8>>)
    ensures
        parsed matches Ok(sec1) ==> normalized_key(key@) == Some(sec1@) && sec1_public_key(sec1@),
        parsed matches Err(e) ==> e.kind() == ErrorKind::InvalidKey,
        parsed is Err ==> (normalized_key(key@) matches Some(sec1) ==> !sec1_public_key(sec1)),
        parsed matches Err(e) ==> (normalized_key(key@) is None ==> e.detail() == key_length_detail(
            key@.len(),
        )),
        parsed matches Err(e) ==> (normalized_key(key@) is Some ==> key_refusal_words(
            key@,
        ).is_prefix_of(e.detail())),
{
    let sec1 = normalize_public_key(key)?;
    let checked = check_public_key(sec1.as_slice());
    public_key_outcome(key, sec1, checked)
}

/// What `parse_signature` returns for the answer on a signature that has
/// the length of one: the numbers that were read, or the refusal as
/// `InvalidInput`.
pub fn signature_outcome(signature: &[u8], read: Result<Vec<u8>, String>) -> (parsed: HsmResult<
    Vec<u8>,
>)
    ensures
        read matches Ok(raw) ==> parsed == Ok::<Vec<u8>, HsmError>(raw),
        read matches Err(detail) ==> fails_with(
            parsed,
            ErrorKind::InvalidInput,
            signature_refusal_words(signature@) + detail@,
        ),
        read is Err ==> fails_only_with(
            parsed,
            ErrorKind::InvalidInput,
            signature_refusal_words(signature@),
        ),
{
    match read {
        Ok(raw) => Ok(raw),
        Err(detail) => {
            let words = if signature.len() == 64 {
                "Invalid raw signature format: "
            } else {
                "Invalid DER signature format: "
            };
            Err(HsmError::InvalidInput(prefixed(words, detail.as_str())))
        },
    }
}

/// The signature `r‖s` that the caller's bytes stand for.
pub fn parse_signature(signature: &[u8]) -> (parsed: HsmResult<Vec<u8>>)
    ensures
        parsed matches Ok(raw) ==> normalized_signature(signature@) == Some(raw@) && raw_signature(
            raw@,
        ),
        parsed matches Err(e) ==> normalized_signature(signature@) is None && e.kind()
            == ErrorKind::InvalidInput,
        parsed matches Err(e) ==> (if signature@.len() == 64 || (signature@.len() > 64
            && signature@[0] == 0x30) {
            signature_refusal_words(signature@).is_prefix_of(e.detail())
        } else {
            e.detail() == signature_length_detail(signature@.len())
        }),
{
    if signature.len() > 64 && signature[0] == 0x30 {
        signature_outcome(signature, parse_der_signature(signature))
    } else if signature.len() == 64 {
        let read = match check_raw_signature(signature) {
            Ok(()) => Ok(slice_to_vec(signature)),
            Err(detail) => Err(detail),
        };
        signature_outcome(signature, read)
    } else {
        let mut detail = String::from_str("Invalid signature length: ");
        push_decimal(&mut detail, signature.len() as u64);
        detail.append(" bytes (expected 64 for raw or >64 for DER)");
        Err(HsmError::InvalidInput(detail))
    }
}

/// What the detail of a failed verification says: of the key, if the key
/// cannot be read; else of the signature.
pub open spec fn refusal_detail(key: Seq<u8>, signature: Seq<u8>, detail: Seq<char>) -> bool {
    match normalized_key(key) {
        None => detail == key_length_detail(key.len()),
        Some(sec1) => if !sec1_public_key(sec1) {
            key_refusal_words(key).is_prefix_of(detail)
        } else if signature.len() == 64 || (signature.len() > 64 && signature[0] == 0x30) {
            signature_refusal_words(signature).is_prefix_of(detail)
        } else {
            detail == signature_length_detail(signature.len())
        },
    }
}

/// Verifies a signature over a digest under a public key as the device hands
/// it out. A key or a signature that cannot be read is a failure; a signature
/// that can be read and is not valid is `Ok(false)`.
pub fn verify_prehash(key: &[u8], digest: &[u8], signature: &[u8]) -> (verified: HsmResult<bool>)
    ensures
        verified matches Ok(valid) ==> verification(key@, digest@, signature@) == Ok::<
            bool,
            ErrorKind,
        >(valid),
        verified matches Err(e) ==> verification(key@, digest@, signature@) == Err::<
            bool,
            ErrorKind,
        >(e.kind()),
        verified matches Err(e) ==> refusal_detail(key@, signature@, e.detail()),
{
    let sec1 = parse_public_key(key)?;
    let raw = parse_signature(signature)?;
    Ok(ecdsa_verify(sec1.as_slice(), digest, raw.as_slice()))
}

} // verus!
