//! What holds of the adapter's encodings, whatever the key and the signature.

use vstd::prelude::*;

use super::client::Exchange;
use super::crypto::{
    der_signature, normalized_key, normalized_signature, raw_signature, sec1_public_key,
    verification,
};
use super::object::{ObjectEntry, ObjectSummaryView, ObjectType};
use super::operations::{complete_row, inventory_made};

verus! {

/// A public key of 64 bytes and the same key behind the byte `0x04` stand
/// for the same point, so every signature is verified alike under both.
pub proof fn key_encodings_agree(key: Seq<u8>, digest: Seq<u8>, signature: Seq<u8>)
    requires
        key.len() == 64,
    ensures
        normalized_key(seq![0x04u8] + key) == normalized_key(key),
        normalized_key(key) == Some(seq![0x04u8] + key),
        verification(seq![0x04u8] + key, digest, signature) == verification(
            key,
            digest,
            signature,
        ),
{
}

/// A DER encoding that is read as one (more than 64 bytes, beginning with
/// `0x30`) and the `r‖s` that it stands for are verified alike under every
/// key and for every digest.
pub proof fn signature_encodings_agree(
    key: Seq<u8>,
    digest: Seq<u8>,
    der: Seq<u8>,
    raw: Seq<u8>,
)
    requires
        der.len() > 64,
        der[0] == 0x30,
        der_signature(der) == Some(raw),
        raw_signature(raw),
    ensures
        normalized_signature(der) == normalized_signature(raw),
        verification(key, digest, der) == verification(key, digest, raw),
{
}

/// Verification is attempted, and answers `true` or `false`, exactly when
/// the key stands for a point of the curve and the signature can be read;
/// otherwise it fails.
pub proof fn verification_attempted(key: Seq<u8>, digest: Seq<u8>, signature: Seq<u8>)
    ensures
        verification(key, digest, signature) is Ok <==> (normalized_key(key) matches Some(sec1)
            && sec1_public_key(sec1) && normalized_signature(signature) is Some),
{
}

/// Changing a signature into another that can still be read never turns an
/// answer into a failure.
pub proof fn altered_signature_is_answered(
    key: Seq<u8>,
    digest: Seq<u8>,
    signature: Seq<u8>,
    altered: Seq<u8>,
)
    requires
        verification(key, digest, signature) is Ok,
        normalized_signature(altered) is Some,
    ensures
        verification(key, digest, altered) is Ok,
{
}

/// An inventory has one row for each entry, and a row carries a public key,
/// in lower-case hexadecimal, if and only if its object is an asymmetric key.
pub proof fn inventory_rows_are_complete(
    entries: Seq<ObjectEntry>,
    rows: Seq<ObjectSummaryView>,
    exchanges: Seq<Exchange>,
)
    requires
        inventory_made(entries, rows, exchanges),
    ensures
        rows.len() == entries.len(),
        forall|i: int| 0 <= i < rows.len() ==> complete_row(#[trigger] rows[i]),
    decreases entries.len(),
{
    if entries.len() > 0 {
        let n = if rows.last().object_type == ObjectType::AsymmetricKey {
            exchanges.len() - 2
        } else {
            exchanges.len() - 1
        };
        inventory_rows_are_complete(entries.drop_last(), rows.drop_last(), exchanges.take(n));
        assert forall|i: int| 0 <= i < rows.len() implies complete_row(#[trigger] rows[i]) by {
            if i < rows.len() - 1 {
                assert(rows[i] == rows.drop_last()[i]);
            }
        }
    }
}

} // verus!
