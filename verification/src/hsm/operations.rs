//! What can be asked of an open session: signatures, their verification,
//! the inventory of objects, and deletion.

use vstd::prelude::*;
use vstd::string::*;

use super::client::{
    device_delete, device_object_info, device_objects, device_public_key, device_sign,
    listed_entries, Command, DescribedObject, Exchange, HsmClient, ListedObject, Reply,
};
use super::crypto::{
    prefixed, refusal_detail, sha256, sha256_digest, verification, verify_prehash,
};
use super::error::{fails_only_as, fails_with, ErrorKind, HsmError, HsmResult};
use super::object::{
    ObjectEntry, ObjectInfo, ObjectInfoView, ObjectSummary, ObjectSummaryView, ObjectType,
    PublicKey,
};
use crate::text::{decimal, hex_encode, hex_lower, hex_u16, push_decimal, push_hex_u16};

verus! {

/// What `sign` returns for the device's answer: the signature as it came, or
/// the device's failure as `SigningFailed`.
pub fn sign_outcome(reply: Result<Vec<u8>, String>) -> (signed: HsmResult<Vec<u8>>)
    ensures
        reply matches Ok(signature) ==> signed == Ok::<Vec<u8>, HsmError>(signature),
        reply matches Err(detail) ==> fails_with(signed, ErrorKind::SigningFailed, detail@),
{
    match reply {
        Ok(signature) => Ok(signature),
        Err(detail) => Err(HsmError::SigningFailed(detail)),
    }
}

/// The answer of the device that a result of `sign` stands for.
pub open spec fn signing_reply(signed: HsmResult<Vec<u8>>) -> Reply {
    match signed {
        Ok(signature) => Reply::Signature(signature@),
        Err(e) => Reply::Failed(e.detail()),
    }
}

/// Signs `data` with the P-256 key `key_id`: the device signs the SHA-256
/// digest of 32 bytes, and what it answers is returned as it came, a failure
/// as `SigningFailed`. Empty data is refused before anything is asked of the
/// device.
pub fn sign(client: &mut HsmClient, key_id: u16, data: &[u8]) -> (signed: HsmResult<Vec<u8>>)
    ensures
        data@.len() == 0 ==> final(client).untouched(*old(client)),
        data@.len() == 0 ==> fails_with(signed, ErrorKind::InvalidInput, "Data cannot be empty"@),
        data@.len() > 0 ==> sha256(data@).len() == 32,
        data@.len() > 0 ==> final(client).answered(
            *old(client),
            Command::SignPrehash { key_id, digest: sha256(data@) },
            signing_reply(signed),
        ),
        data@.len() > 0 ==> fails_only_as(signed, ErrorKind::SigningFailed),
{
    if data.len() == 0 {
        return Err(HsmError::InvalidInput(String::from_str("Data cannot be empty")));
    }
    let digest = sha256_digest(data);
    let reply = device_sign(client, key_id, digest);
    sign_outcome(reply)
}

/// What `verify` returns for the device's answer to the request for the
/// public key: the device's failure as `InvalidKey`, or the verification of
/// the signature over the digest under the key that came.
pub fn verify_outcome(
    reply: Result<PublicKey, String>,
    digest: &[u8],
    signature: &[u8],
) -> (verified: HsmResult<bool>)
    ensures
        reply matches Err(detail) ==> fails_with(
            verified,
            ErrorKind::InvalidKey,
            "Failed to get public key: "@ + detail@,
        ),
        reply matches Ok(key) ==> (verified matches Ok(valid) ==> verification(
            key.bytes@,
            digest@,
            signature@,
        ) == Ok::<bool, ErrorKind>(valid)),
        reply matches Ok(key) ==> (verified matches Err(e) ==> verification(
            key.bytes@,
            digest@,
            signature@,
        ) == Err::<bool, ErrorKind>(e.kind()) && refusal_detail(
            key.bytes@,
            signature@,
            e.detail(),
        )),
{
    match reply {
        Err(detail) => Err(
            HsmError::InvalidKey(prefixed("Failed to get public key: ", detail.as_str())),
        ),
        Ok(key) => verify_prehash(key.bytes.as_slice(), digest, signature),
    }
}

/// What verification comes to for the device's answer to the request for
/// the public key.
pub open spec fn verify_reply(reply: Reply, digest: Seq<u8>, signature: Seq<u8>) -> Result<
    bool,
    ErrorKind,
> {
    match reply {
        Reply::PublicKey(key) => verification(key.bytes, digest, signature),
        _ => Err(ErrorKind::InvalidKey),
    }
}

/// What the detail of a failed `verify` says for the device's answer.
pub open spec fn verify_refusal(reply: Reply, signature: Seq<u8>, detail: Seq<char>) -> bool {
    match reply {
        Reply::PublicKey(key) => refusal_detail(key.bytes, signature, detail),
        Reply::Failed(refusal) => detail == "Failed to get public key: "@ + refusal,
        _ => false,
    }
}

/// Verifies `signature` over `data` under the public key of `key_id`, which
/// the device hands out. `Ok(false)` says that the signature was read and is
/// not valid; a failure says that verification could not be attempted. Empty
/// data is refused before anything is asked of the device.
pub fn verify(client: &mut HsmClient, key_id: u16, data: &[u8], signature: &[u8]) -> (verified:
    HsmResult<bool>)
    ensures
        data@.len() == 0 ==> final(client).untouched(*old(client)),
        data@.len() == 0 ==> fails_with(verified, ErrorKind::InvalidInput, "Data cannot be empty"@),
        data@.len() > 0 ==> final(client).asked(*old(client), Command::GetPublicKey { key_id }),
        data@.len() > 0 ==> (verified matches Ok(valid) ==> verify_reply(
            final(client).last_reply(),
            sha256(data@),
            signature@,
        ) == Ok::<bool, ErrorKind>(valid)),
        data@.len() > 0 ==> (verified matches Err(e) ==> verify_reply(
            final(client).last_reply(),
            sha256(data@),
            signature@,
        ) == Err::<bool, ErrorKind>(e.kind()) && verify_refusal(
            final(client).last_reply(),
            signature@,
            e.detail(),
        )),
{
    if data.len() == 0 {
        return Err(HsmError::InvalidInput(String::from_str("Data cannot be empty")));
    }
    let digest = sha256_digest(data);
    let reply = device_public_key(client, key_id);
    verify_outcome(reply, digest.as_slice(), signature)
}

/// What the device told of an object, with the type that its byte stands for.
fn described(object: DescribedObject) -> (info: ObjectInfo)
    requires
        1 <= object.type_code <= 7,
    ensures
        info@ == object.info(),
{
    let object_type = match ObjectType::from_code(object.type_code) {
        Some(object_type) => object_type,
        // Not taken: the byte is one of 1 to 7.
        None => ObjectType::Opaque,
    };
    ObjectInfo {
        object_id: object.object_id,
        object_type,
        algorithm: object.algorithm,
        label: object.label,
        sequence: object.sequence,
    }
}

/// What `get_object_info` returns for the device's answer: the description
/// as it came, or the device's failure as `ListingFailed`.
pub fn object_info_outcome(reply: Result<ObjectInfo, String>) -> (found: HsmResult<ObjectInfo>)
    ensures
        reply matches Ok(info) ==> found == Ok::<ObjectInfo, HsmError>(info),
        reply matches Err(detail) ==> fails_with(
            found,
            ErrorKind::ListingFailed,
            "Failed to get object info: "@ + detail@,
        ),
{
    match reply {
        Ok(info) => Ok(info),
        Err(detail) => Err(
            HsmError::ListingFailed(prefixed("Failed to get object info: ", detail.as_str())),
        ),
    }
}

/// What a result of `get_object_info` is for the device's answer.
pub open spec fn info_answer(reply: Reply, found: HsmResult<ObjectInfo>) -> bool {
    match reply {
        Reply::Info(info) => found matches Ok(told) && told@ == info,
        Reply::Failed(refusal) => fails_with(
            found,
            ErrorKind::ListingFailed,
            "Failed to get object info: "@ + refusal,
        ),
        _ => false,
    }
}

/// Asks the device to describe the object of the given identifier and type,
/// and returns what it told, a failure as `ListingFailed`.
pub fn get_object_info(client: &mut HsmClient, object_id: u16, object_type: ObjectType) -> (found:
    HsmResult<ObjectInfo>)
    ensures
        final(client).asked(*old(client), Command::GetObjectInfo { object_id, object_type }),
        info_answer(final(client).last_reply(), found),
{
    let reply = match device_object_info(client, object_id, object_type.code()) {
        Ok(object) => Ok(described(object)),
        Err(detail) => Err(detail),
    };
    object_info_outcome(reply)
}

/// What `get_public_key` returns for the device's answer: the key as it
/// came, or the device's failure as `GetPublicKeyFailed`.
pub fn fetched_key_outcome(reply: Result<PublicKey, String>) -> (found: HsmResult<PublicKey>)
    ensures
        reply matches Ok(key) ==> found == Ok::<PublicKey, HsmError>(key),
        reply matches Err(detail) ==> fails_with(
            found,
            ErrorKind::GetPublicKeyFailed,
            "Failed to get public key: "@ + detail@,
        ),
{
    match reply {
        Ok(key) => Ok(key),
        Err(detail) => Err(
            HsmError::GetPublicKeyFailed(prefixed("Failed to get public key: ", detail.as_str())),
        ),
    }
}

/// What a result of `get_public_key` is for the device's answer.
pub open spec fn key_answer(reply: Reply, found: HsmResult<PublicKey>) -> bool {
    match reply {
        Reply::PublicKey(key) => found matches Ok(handed) && handed@ == key,
        Reply::Failed(refusal) => fails_with(
            found,
            ErrorKind::GetPublicKeyFailed,
            "Failed to get public key: "@ + refusal,
        ),
        _ => false,
    }
}

/// Asks the device for the public key of the key pair `key_id`, and returns
/// what it handed out, a failure as `GetPublicKeyFailed`.
pub fn get_public_key(client: &mut HsmClient, key_id: u16) -> (found: HsmResult<PublicKey>)
    ensures
        final(client).asked(*old(client), Command::GetPublicKey { key_id }),
        key_answer(final(client).last_reply(), found),
{
    let reply = device_public_key(client, key_id);
    fetched_key_outcome(reply)
}

/// The row of the inventory for an object: what the device told of it and,
/// where a public key came with it, the key in hexadecimal.
pub open spec fn summary_of(info: ObjectInfoView, key: Option<Seq<u8>>) -> ObjectSummaryView {
    ObjectSummaryView {
        object_id: info.object_id,
        object_type: info.object_type,
        algorithm: info.algorithm,
        label: info.label,
        sequence: info.sequence,
        public_key_hex: match key {
            Some(bytes) => Some(hex_lower(bytes)),
            None => None,
        },
    }
}

/// The rows that a list of summaries stands for.
pub open spec fn rows(summaries: Seq<ObjectSummary>) -> Seq<ObjectSummaryView> {
    summaries.map_values(|summary: ObjectSummary| summary@)
}

/// A row is complete: it carries a public key if and only if its object is
/// an asymmetric key, and the key is written in lower-case hexadecimal.
pub open spec fn complete_row(row: ObjectSummaryView) -> bool {
    &&& row.public_key_hex is Some <==> row.object_type == ObjectType::AsymmetricKey
    &&& row.public_key_hex matches Some(hex) ==> exists|bytes: Seq<u8>| hex == hex_lower(bytes)
}

/// The exchanges are those of an inventory of the entries, and the rows are
/// what it came to. Entry by entry, in the entries' order: the device was
/// asked to describe the object as the entry names it; if what it told says
/// that the object is an asymmetric key, it was asked next for the public
/// key under the identifier that it told; and the row is made of what it
/// told and of the key that came. Nothing else was asked.
pub open spec fn inventory_made(
    entries: Seq<ObjectEntry>,
    rows: Seq<ObjectSummaryView>,
    exchanges: Seq<Exchange>,
) -> bool
    decreases entries.len(),
{
    if entries.len() == 0 {
        rows.len() == 0 && exchanges.len() == 0
    } else if rows.len() != entries.len() || exchanges.len() == 0 {
        false
    } else {
        let entry = entries.last();
        let row = rows.last();
        let asked = Command::GetObjectInfo {
            object_id: entry.object_id,
            object_type: entry.object_type,
        };
        if row.object_type == ObjectType::AsymmetricKey {
            let n = exchanges.len() - 2;
            &&& n >= 0
            &&& exchanges[n].command == asked
            &&& exchanges[n].reply matches Reply::Info(info)
            &&& exchanges[n + 1].command == Command::GetPublicKey { key_id: info.object_id }
            &&& exchanges[n + 1].reply matches Reply::PublicKey(key)
            &&& row == summary_of(info, Some(key.bytes))
            &&& inventory_made(entries.drop_last(), rows.drop_last(), exchanges.take(n))
        } else {
            let n = exchanges.len() - 1;
            &&& exchanges[n].command == asked
            &&& exchanges[n].reply matches Reply::Info(info)
            &&& row == summary_of(info, None)
            &&& inventory_made(entries.drop_last(), rows.drop_last(), exchanges.take(n))
        }
    }
}

/// The words that begin the detail of the failure of a lookup.
pub open spec fn lookup_failure_words(command: Command) -> Seq<char> {
    if command is GetPublicKey {
        "Failed to get public key: "@
    } else {
        "Failed to get object info: "@
    }
}

/// The exchanges are those of an inventory of the entries that stopped at
/// its first failure, after it had made the rows `done`, one for each of the
/// first entries. The lookups for those entries went well; then the device
/// was asked to describe the next entry's object, or, after it had told that
/// the object is an asymmetric key, for the public key under the identifier
/// that it told; that failed, nothing more was asked, and `detail` is what
/// came back behind the words for that lookup.
pub open spec fn inventory_stopped(
    entries: Seq<ObjectEntry>,
    done: Seq<ObjectSummaryView>,
    exchanges: Seq<Exchange>,
    detail: Seq<char>,
) -> bool {
    &&& done.len() < entries.len()
    &&& exchanges.len() > 0
    &&& exchanges.last().reply matches Reply::Failed(refusal)
    &&& detail == lookup_failure_words(exchanges.last().command) + refusal
    &&& {
        let entry = entries[done.len() as int];
        let asked = Command::GetObjectInfo {
            object_id: entry.object_id,
            object_type: entry.object_type,
        };
        let earlier = entries.take(done.len() as int);
        if exchanges.last().command is GetPublicKey {
            let n = exchanges.len() - 2;
            &&& n >= 0
            &&& exchanges[n].command == asked
            &&& exchanges[n].reply matches Reply::Info(info)
            &&& info.object_type == ObjectType::AsymmetricKey
            &&& exchanges.last().command == Command::GetPublicKey { key_id: info.object_id }
            &&& inventory_made(earlier, done, exchanges.take(n))
        } else {
            &&& exchanges.last().command == asked
            &&& inventory_made(earlier, done, exchanges.drop_last())
        }
    }
}

/// The exchanges are those of an inventory of the entries that failed with
/// this detail: it stopped at its first failure.
pub open spec fn inventory_failed(
    entries: Seq<ObjectEntry>,
    exchanges: Seq<Exchange>,
    detail: Seq<char>,
) -> bool {
    exists|done: Seq<ObjectSummaryView>| #[trigger] inventory_stopped(entries, done, exchanges, detail)
}

/// Builds the row of the inventory for an object.
pub fn summarize(info: ObjectInfo, key: Option<PublicKey>) -> (summary: ObjectSummary)
    ensures
        summary@ == summary_of(
            info@,
            match key {
                Some(k) => Some(k.bytes@),
                None => None,
            },
        ),
{
    let public_key_hex = match key {
        Some(k) => Some(hex_encode(k.bytes.as_slice())),
        None => None,
    };
    ObjectSummary {
        object_id: info.object_id,
        object_type: info.object_type,
        algorithm: info.algorithm,
        label: info.label,
        sequence: info.sequence,
        public_key_hex,
    }
}

/// Builds the inventory for the objects of a listing, in the listing's
/// order: each object is described by the device, and the public key of each
/// asymmetric key is fetched. The first lookup that fails fails the whole
/// inventory as `ListingFailed`, and nothing more is asked; without entries
/// nothing is asked and the inventory is empty.
pub fn summarize_entries(client: &mut HsmClient, entries: &Vec<ObjectEntry>) -> (listed: HsmResult<
    Vec<ObjectSummary>,
>)
    ensures
        final(client).opening() == old(client).opening(),
        old(client).record().is_prefix_of(final(client).record()),
        entries@.len() == 0 ==> listed is Ok,
        listed matches Ok(summaries) ==> inventory_made(
            entries@,
            rows(summaries@),
            final(client).record().skip(old(client).record().len() as int),
        ),
        listed matches Err(e) ==> e.kind() == ErrorKind::ListingFailed && inventory_failed(
            entries@,
            final(client).record().skip(old(client).record().len() as int),
            e.detail(),
        ),
{
    let ghost start = client.record();
    let mut summaries: Vec<ObjectSummary> = Vec::new();
    let mut i: usize = 0;
    while i < entries.len()
        invariant
            i <= entries.len(),
            summaries@.len() == i,
            start == old(client).record(),
            client.opening() == old(client).opening(),
            start.is_prefix_of(client.record()),
            inventory_made(
                entries@.take(i as int),
                rows(summaries@),
                client.record().skip(start.len() as int),
            ),
        decreases entries.len() - i,
    {
        let entry = entries[i];
        let ghost earlier = rows(summaries@);
        let ghost before = client.record();
        let info = match get_object_info(client, entry.object_id, entry.object_type) {
            Ok(info) => info,
            Err(e) => {
                proof {
                    let made = client.record().skip(start.len() as int);
                    assert(made.drop_last() =~= before.skip(start.len() as int));
                    assert(inventory_stopped(entries@, earlier, made, e.detail()));
                }
                return Err(e);
            },
        };
        let key = if info.object_type == ObjectType::AsymmetricKey {
            match device_public_key(client, info.object_id) {
                Ok(key) => Some(key),
                Err(detail) => {
                    let e = HsmError::ListingFailed(
                        prefixed("Failed to get public key: ", detail.as_str()),
                    );
                    proof {
                        let made = client.record().skip(start.len() as int);
                        let n = before.len() - start.len();
                        assert(made.take(n) =~= before.skip(start.len() as int));
                        assert(inventory_stopped(entries@, earlier, made, e.detail()));
                    }
                    return Err(e);
                },
            }
        } else {
            None
        };
        let summary = summarize(info, key);
        proof {
            let row = summary@;
            let made = client.record().skip(start.len() as int);
            let n = before.len() - start.len();
            assert(rows(summaries@.push(summary)) =~= earlier.push(row));
            assert(earlier.push(row).drop_last() =~= earlier);
            assert(entries@.take(i + 1).drop_last() =~= entries@.take(i as int));
            assert(made.take(n) =~= before.skip(start.len() as int));
        }
        summaries.push(summary);
        i += 1;
    }
    assert(entries@.take(i as int) =~= entries@);
    Ok(summaries)
}

/// The entries of a listing, each with the type that its byte stands for.
fn entries_of(listed: &Vec<ListedObject>) -> (entries: Vec<ObjectEntry>)
    requires
        forall|i: int| 0 <= i < listed@.len() ==> 1 <= (#[trigger] listed@[i]).type_code <= 7,
    ensures
        entries@ == listed_entries(listed@),
{
    let mut entries: Vec<ObjectEntry> = Vec::new();
    let mut i: usize = 0;
    while i < listed.len()
        invariant
            i <= listed.len(),
            forall|j: int| 0 <= j < listed@.len() ==> 1 <= (#[trigger] listed@[j]).type_code <= 7,
            entries@ == listed_entries(listed@.take(i as int)),
        decreases listed.len() - i,
    {
        let object_type = match ObjectType::from_code(listed[i].type_code) {
            Some(object_type) => object_type,
            // Not taken: the byte is one of 1 to 7.
            None => ObjectType::Opaque,
        };
        entries.push(
            ObjectEntry { object_id: listed[i].object_id, object_type, sequence: listed[i].sequence },
        );
        i += 1;
    }
    entries
}

/// What `list_object_summaries` does with the device's answer to the
/// request for a listing: a failure is handed on as `ListingFailed` with the
/// device's detail, and the entries that came are taken as they are.
pub fn listing_outcome(reply: Result<Vec<ObjectEntry>, String>) -> (listed: HsmResult<
    Vec<ObjectEntry>,
>)
    ensures
        reply matches Ok(entries) ==> listed == Ok::<Vec<ObjectEntry>, HsmError>(entries),
        reply matches Err(detail) ==> fails_with(listed, ErrorKind::ListingFailed, detail@),
{
    match reply {
        Ok(entries) => Ok(entries),
        Err(detail) => Err(HsmError::ListingFailed(detail)),
    }
}

/// Since `before`, the device was asked for a listing and then nothing but
/// what belongs to the inventory of what it listed.
pub open spec fn listing_asked(before: Seq<Exchange>, after: Seq<Exchange>) -> bool {
    &&& before.len() < after.len()
    &&& before.is_prefix_of(after)
    &&& after[before.len() as int].command == Command::ListObjects
}

/// Since `before`, a listing was made and the rows are what it came to: the
/// device listed its objects, and the inventory of them, in the device's
/// order, gave the rows.
pub open spec fn listing_made(
    before: Seq<Exchange>,
    after: Seq<Exchange>,
    rows: Seq<ObjectSummaryView>,
) -> bool {
    &&& listing_asked(before, after)
    &&& after[before.len() as int].reply matches Reply::Objects(entries)
    &&& inventory_made(entries, rows, after.skip((before.len() + 1) as int))
}

/// Since `before`, a listing was tried and failed with this detail: either
/// the device did not list its objects, the detail is what it answered and
/// nothing more was asked; or the inventory of what it listed failed.
pub open spec fn listing_failed(
    before: Seq<Exchange>,
    after: Seq<Exchange>,
    detail: Seq<char>,
) -> bool {
    &&& listing_asked(before, after)
    &&& match after[before.len() as int].reply {
        Reply::Failed(refusal) => detail == refusal && after.len() == before.len() + 1,
        Reply::Objects(entries) => inventory_failed(
            entries,
            after.skip((before.len() + 1) as int),
            detail,
        ),
        _ => false,
    }
}

/// Lists every object that the session can see, in the device's order, each
/// with what the device tells of it and, for an asymmetric key, its public
/// key. Nothing is kept from an earlier listing, and any failure fails the
/// whole listing as `ListingFailed`: no row is dropped in silence.
pub fn list_object_summaries(client: &mut HsmClient) -> (listed: HsmResult<Vec<ObjectSummary>>)
    ensures
        final(client).opening() == old(client).opening(),
        listed matches Ok(summaries) ==> listing_made(
            old(client).record(),
            final(client).record(),
            rows(summaries@),
        ),
        listed matches Err(e) ==> e.kind() == ErrorKind::ListingFailed && listing_failed(
            old(client).record(),
            final(client).record(),
            e.detail(),
        ),
{
    let reply = match device_objects(client) {
        Ok(listed) => Ok(entries_of(&listed)),
        Err(detail) => Err(detail),
    };
    let entries = listing_outcome(reply)?;
    summarize_entries(client, &entries)
}

/// Text broken into lines of 64 characters, each line after the first
/// behind a line break and four spaces.
pub open spec fn wrapped(text: Seq<char>) -> Seq<char>
    decreases text.len(),
{
    if text.len() <= 64 {
        text
    } else {
        text.subrange(0, 64) + "\n    "@ + wrapped(text.subrange(64, text.len() as int))
    }
}

/// What a listing says of a public key: its algorithm, its length in bytes,
/// and its hexadecimal digits in lines of 64.
pub open spec fn key_text(algorithm: Seq<char>, hex: Seq<char>) -> Seq<char> {
    "  Public Key:\n    Algorithm: "@ + algorithm + "\n    Bytes ("@ + decimal(hex.len() / 2)
        + " bytes, hex):\n    "@ + wrapped(hex) + "\n"@
}

/// What a listing says of one object: a line with its identifier, type,
/// algorithm, label and sequence number, and its public key where it has one.
pub open spec fn row_text(row: ObjectSummaryView) -> Seq<char> {
    "- id "@ + hex_u16(row.object_id) + " ("@ + row.object_type.spec_name() + "), algorithm: "@
        + row.algorithm.name + ", label: "@ + row.label + ", sequence: "@ + decimal(
        row.sequence as nat,
    ) + "\n"@ + match row.public_key_hex {
        Some(hex) => key_text(row.algorithm.name, hex),
        None => Seq::empty(),
    }
}

/// What a listing says of its objects, one after the other.
pub open spec fn rows_text(rows: Seq<ObjectSummaryView>) -> Seq<char>
    decreases rows.len(),
{
    if rows.len() == 0 {
        Seq::empty()
    } else {
        rows_text(rows.drop_last()) + row_text(rows.last())
    }
}

/// The listing that is shown to the operator.
pub open spec fn object_list_text(rows: Seq<ObjectSummaryView>) -> Seq<char> {
    if rows.len() == 0 {
        "No objects visible for the current authentication key."@
    } else {
        "Objects on YubiHSM2 (visible to current auth key):\n"@ + rows_text(rows)
    }
}

/// Appends `text` to `out` in lines of 64 characters.
fn push_wrapped(out: &mut String, text: &str)
    ensures
        final(out)@ == old(out)@ + wrapped(text@),
{
    let len = text.unicode_len();
    let mut from: usize = 0;
    assert(text@.subrange(0, len as int) =~= text@);
    while len - from > 64
        invariant
            from <= len,
            len == text@.len(),
            out@ + wrapped(text@.subrange(from as int, len as int)) == old(out)@ + wrapped(text@),
        decreases len - from,
    {
        let ghost rest = text@.subrange(from as int, len as int);
        out.append(text.substring_char(from, from + 64));
        out.append("\n    ");
        assert(rest.subrange(64, rest.len() as int) =~= text@.subrange(from + 64, len as int));
        from += 64;
    }
    out.append(text.substring_char(from, len));
}

/// What a listing says of one object.
fn row_string(summary: &ObjectSummary) -> (text: String)
    ensures
        text@ == row_text(summary@),
{
    let mut text = String::from_str("- id ");
    push_hex_u16(&mut text, summary.object_id);
    text.append(" (");
    text.append(summary.object_type.name());
    text.append("), algorithm: ");
    text.append(summary.algorithm.name.as_str());
    text.append(", label: ");
    text.append(summary.label.as_str());
    text.append(", sequence: ");
    push_decimal(&mut text, summary.sequence as u64);
    text.append("\n");
    match &summary.public_key_hex {
        Some(hex) => {
            let mut key = String::from_str("  Public Key:\n    Algorithm: ");
            key.append(summary.algorithm.name.as_str());
            key.append("\n    Bytes (");
            push_decimal(&mut key, (hex.as_str().unicode_len() / 2) as u64);
            key.append(" bytes, hex):\n    ");
            push_wrapped(&mut key, hex.as_str());
            key.append("\n");
            text.append(key.as_str());
        },
        None => {
        },
    }
    text
}

/// Writes the inventory as the text that is shown to the operator.
pub fn render_object_list(summaries: &Vec<ObjectSummary>) -> (text: String)
    ensures
        text@ == object_list_text(rows(summaries@)),
{
    if summaries.len() == 0 {
        return String::from_str("No objects visible for the current authentication key.");
    }
    let ghost header = "Objects on YubiHSM2 (visible to current auth key):\n"@;
    let mut text = String::from_str("Objects on YubiHSM2 (visible to current auth key):\n");
    let mut i: usize = 0;
    while i < summaries.len()
        invariant
            i <= summaries.len(),
            header == "Objects on YubiHSM2 (visible to current auth key):\n"@,
            text@ == header + rows_text(rows(summaries@).take(i as int)),
        decreases summaries.len() - i,
    {
        let row = row_string(&summaries[i]);
        text.append(row.as_str());
        assert(rows(summaries@).take(i + 1).drop_last() =~= rows(summaries@).take(i as int));
        i += 1;
    }
    assert(rows(summaries@).take(i as int) =~= rows(summaries@));
    text
}

/// Lists every object that the session can see, as text for the operator:
/// the listing of `list_object_summaries`, written out, or its failure.
pub fn list_objects(client: &mut HsmClient) -> (listed: HsmResult<String>)
    ensures
        final(client).opening() == old(client).opening(),
        listed matches Ok(text) ==> exists|shown: Seq<ObjectSummaryView>|
            #[trigger] listing_made(old(client).record(), final(client).record(), shown) && text@
                == object_list_text(shown),
        listed matches Err(e) ==> e.kind() == ErrorKind::ListingFailed && listing_failed(
            old(client).record(),
            final(client).record(),
            e.detail(),
        ),
{
    let summaries = list_object_summaries(client)?;
    Ok(render_object_list(&summaries))
}

/// What `delete_object` returns for the device's answer.
pub fn delete_outcome(reply: Result<(), String>) -> (deleted: HsmResult<()>)
    ensures
        reply is Ok ==> deleted is Ok,
        reply matches Err(detail) ==> fails_with(
            deleted,
            ErrorKind::DeletionFailed,
            "Failed to delete object: "@ + detail@,
        ),
{
    match reply {
        Ok(()) => Ok(()),
        Err(detail) => Err(
            HsmError::DeletionFailed(prefixed("Failed to delete object: ", detail.as_str())),
        ),
    }
}

/// What a result of `delete_object` is for the device's answer.
pub open spec fn deletion_answer(reply: Reply, deleted: HsmResult<()>) -> bool {
    match reply {
        Reply::Deleted => deleted is Ok,
        Reply::Failed(refusal) => fails_with(
            deleted,
            ErrorKind::DeletionFailed,
            "Failed to delete object: "@ + refusal,
        ),
        _ => false,
    }
}

/// Deletes an object from the device. An authentication key is never
/// deleted: the request for it is refused before anything is asked of the
/// device.
pub fn delete_object(client: &mut HsmClient, object_id: u16, object_type: ObjectType) -> (deleted:
    HsmResult<()>)
    ensures
        object_type == ObjectType::AuthenticationKey ==> final(client).untouched(*old(client)),
        object_type == ObjectType::AuthenticationKey ==> fails_with(
            deleted,
            ErrorKind::InvalidInput,
            "Deleting authentication keys is not allowed"@,
        ),
        object_type != ObjectType::AuthenticationKey ==> final(client).asked(
            *old(client),
            Command::DeleteObject { object_id, object_type },
        ),
        object_type != ObjectType::AuthenticationKey ==> deletion_answer(
            final(client).last_reply(),
            deleted,
        ),
{
    if object_type == ObjectType::AuthenticationKey {
        return Err(
            HsmError::InvalidInput(
                String::from_str("Deleting authentication keys is not allowed"),
            ),
        );
    }
    let reply = device_delete(client, object_id, object_type.code());
    delete_outcome(reply)
}

} // verus!
