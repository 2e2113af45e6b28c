//! The session with the device: how it is opened, who holds it, and the
//! requests that go through it.

use vstd::prelude::*;
use vstd::string::*;

use super::error::{fails_only_as, fails_with, ErrorKind, HsmError, HsmResult};
use super::object::{
    Algorithm, ObjectEntry, ObjectInfoView, ObjectType, PublicKey, PublicKeyView,
};

verus! {

/// `yubihsm::Client`: an authenticated connection to a device.
#[verifier::external_type_specification]
#[verifier::external_body]
pub struct ExClient(yubihsm::Client);

/// `yubihsm::Connector`: a way to reach a device (USB, HTTP, a simulation).
#[verifier::external_type_specification]
#[verifier::external_body]
pub struct ExConnector(yubihsm::Connector);

/// What is needed to open a session.
#[derive(Clone)]
pub struct HsmConfig {
    pub auth_key_id: u16,
    pub auth_password: String,
}

impl Default for HsmConfig {
    fn default() -> (config: Self)
        ensures
            config.auth_key_id == 1,
            config.auth_password@ == "password"@,
    {
        HsmConfig { auth_key_id: 1, auth_password: String::from_str("password") }
    }
}

/// What a session was opened with.
pub struct Opening {
    pub auth_key_id: u16,
    pub password: Seq<char>,
}

/// An attempt to open a session: what it was made with, and the detail of
/// the refusal if it was refused.
pub struct Attempt {
    pub opening: Opening,
    pub refusal: Option<Seq<char>>,
}

/// The record of the attempts to open a session.
pub struct OpeningLog {
    attempts: Ghost<Seq<Attempt>>,
}

impl OpeningLog {
    /// The attempts, oldest first.
    pub closed spec fn attempts(&self) -> Seq<Attempt> {
        self.attempts@
    }

    /// A record without attempts.
    pub fn new() -> (log: Self)
        ensures
            log.attempts() == Seq::<Attempt>::empty(),
    {
        OpeningLog { attempts: Ghost(Seq::empty()) }
    }
}

/// A request that the library makes of the device.
pub enum Command {
    /// Sign a digest with the private key `key_id`.
    SignPrehash { key_id: u16, digest: Seq<u8> },
    /// Hand out the public key of the key pair `key_id`.
    GetPublicKey { key_id: u16 },
    /// List every object that the session's authentication key can see.
    ListObjects,
    /// Describe one object.
    GetObjectInfo { object_id: u16, object_type: ObjectType },
    /// Delete one object.
    DeleteObject { object_id: u16, object_type: ObjectType },
}

/// What came back for a request.
pub enum Reply {
    /// The request failed, with this detail.
    Failed(Seq<char>),
    /// The signature that the device made.
    Signature(Seq<u8>),
    /// The public key that the device handed out.
    PublicKey(PublicKeyView),
    /// The objects that the device listed, in its order.
    Objects(Seq<ObjectEntry>),
    /// What the device told of an object.
    Info(ObjectInfoView),
    /// The object was deleted.
    Deleted,
}

/// A request and what came back for it.
pub struct Exchange {
    pub command: Command,
    pub reply: Reply,
}

/// One authenticated session, with what it was opened with and the record
/// of what was asked in it and what came back.
pub struct HsmClient {
    client: yubihsm::Client,
    opening: Ghost<Opening>,
    record: Ghost<Seq<Exchange>>,
}

impl HsmClient {
    /// What this session was opened with.
    pub closed spec fn opening(&self) -> Opening {
        self.opening@
    }

    /// What was asked of the device in this session and what came back,
    /// oldest first.
    pub closed spec fn record(&self) -> Seq<Exchange> {
        self.record@
    }

    /// What came back for the last request.
    pub open spec fn last_reply(&self) -> Reply {
        self.record().last().reply
    }

    /// The session is as it was: nothing was asked in it.
    pub open spec fn untouched(&self, before: HsmClient) -> bool {
        self.record() == before.record() && self.opening() == before.opening()
    }

    /// Since `before`, exactly one request was made in this session, `command`.
    pub open spec fn asked(&self, before: HsmClient, command: Command) -> bool {
        self.opening() == before.opening() && self.record() == before.record().push(
            Exchange { command, reply: self.last_reply() },
        )
    }

    /// Since `before`, exactly one request was made in this session,
    /// `command`, and `reply` came back.
    pub open spec fn answered(&self, before: HsmClient, command: Command, reply: Reply) -> bool {
        self.opening() == before.opening() && self.record() == before.record().push(
            Exchange { command, reply },
        )
    }
}

/// `yubihsm::Connector::usb` with `yubihsm::UsbConfig::default()`: a
/// connector for the first device found on the USB bus. Nothing is claimed
/// of it; no device is contacted until a session is opened.
#[verifier::external_body]
pub(crate) fn usb_connector() -> (connector: yubihsm::Connector) {
    yubihsm::Connector::usb(&yubihsm::UsbConfig::default())
}

/// `yubihsm::Client::open` with `yubihsm::Credentials::from_password` of the
/// key and the password, reconnecting when the session has closed. Whether
/// it succeeds is the device's to say; a failure comes back as its `Debug`
/// text. The attempt is put on the log with what it was made with and how it
/// went. A session that was opened is noted as opened with that key and
/// password, and nothing has been asked in it.
#[verifier::external_body]
fn open_session(
    log: &mut OpeningLog,
    connector: yubihsm::Connector,
    auth_key_id: u16,
    password: &str,
) -> (reply: Result<HsmClient, String>)
    ensures
        final(log).attempts() == old(log).attempts().push(
            (Attempt {
                opening: Opening { auth_key_id, password: password@ },
                refusal: match reply {
                    Ok(_) => None,
                    Err(detail) => Some(detail@),
                },
            }),
        ),
        reply matches Ok(client) ==> client.opening() == (Opening {
            auth_key_id,
            password: password@,
        }) && client.record() == Seq::<Exchange>::empty(),
{
    let credentials = yubihsm::Credentials::from_password(auth_key_id, password.as_bytes());
    match yubihsm::Client::open(connector, credentials, true) {
        Ok(client) => Ok(
            HsmClient { client, opening: Ghost(arbitrary()), record: Ghost(arbitrary()) },
        ),
        Err(e) => Err(format!("{:?}", e)),
    }
}

/// What opening a session returns for the device's answer: the session, or
/// the device's failure as `AuthenticationFailed`.
pub fn open_outcome(reply: Result<HsmClient, String>) -> (opened: HsmResult<HsmClient>)
    ensures
        reply matches Ok(client) ==> opened == Ok::<HsmClient, HsmError>(client),
        reply matches Err(detail) ==> fails_with(
            opened,
            ErrorKind::AuthenticationFailed,
            detail@,
        ),
{
    match reply {
        Ok(client) => Ok(client),
        Err(detail) => Err(HsmError::AuthenticationFailed(detail)),
    }
}

/// How an attempt went that came to `opened`.
pub open spec fn refusal_of<T>(opened: HsmResult<T>) -> Option<Seq<char>> {
    match opened {
        Ok(_) => None,
        Err(e) => Some(e.detail()),
    }
}

impl HsmClient {
    /// Opens a session through `connector` with the key and password of
    /// `config`, and puts the attempt on `log`. Whether the session opens is
    /// the device's to say.
    pub fn open_noting(
        log: &mut OpeningLog,
        connector: yubihsm::Connector,
        config: HsmConfig,
    ) -> (opened: HsmResult<Self>)
        ensures
            final(log).attempts() == old(log).attempts().push(
                (Attempt {
                    opening: Opening {
                        auth_key_id: config.auth_key_id,
                        password: config.auth_password@,
                    },
                    refusal: refusal_of(opened),
                }),
            ),
            opened matches Ok(client) ==> client.opening() == (Opening {
                auth_key_id: config.auth_key_id,
                password: config.auth_password@,
            }) && client.record() == Seq::<Exchange>::empty(),
            fails_only_as(opened, ErrorKind::AuthenticationFailed),
    {
        let reply = open_session(
            log,
            connector,
            config.auth_key_id,
            config.auth_password.as_str(),
        );
        open_outcome(reply)
    }

    /// Opens a session through `connector` with the key and password of
    /// `config`. Whether it opens is the device's to say.
    pub fn open(connector: yubihsm::Connector, config: HsmConfig) -> (opened: HsmResult<Self>)
        ensures
            opened matches Ok(client) ==> client.opening() == (Opening {
                auth_key_id: config.auth_key_id,
                password: config.auth_password@,
            }) && client.record() == Seq::<Exchange>::empty(),
            fails_only_as(opened, ErrorKind::AuthenticationFailed),
    {
        let mut log = OpeningLog::new();
        HsmClient::open_noting(&mut log, connector, config)
    }

    /// Opens a session over USB with the key and password of `config`.
    pub fn connect(config: HsmConfig) -> (opened: HsmResult<Self>)
        ensures
            opened matches Ok(client) ==> client.opening() == (Opening {
                auth_key_id: config.auth_key_id,
                password: config.auth_password@,
            }) && client.record() == Seq::<Exchange>::empty(),
            fails_only_as(opened, ErrorKind::AuthenticationFailed),
    {
        HsmClient::open(usb_connector(), config)
    }
}

/// `yubihsm::Client::sign_ecdsa_prehash_raw`: asks the device for an ECDSA
/// signature over a digest of 32 bytes under `key_id`. What the device
/// answers is its own to say; a failure comes back as its `Debug` text. The
/// request and what came back are put on the session's record.
#[verifier::external_body]
pub(crate) fn device_sign(client: &mut HsmClient, key_id: u16, digest: Vec<u8>) -> (reply: Result<
    Vec<u8>,
    String,
>)
    requires
        digest@.len() == 32,
    ensures
        final(client).answered(
            *old(client),
            Command::SignPrehash { key_id, digest: digest@ },
            match reply {
                Ok(signature) => Reply::Signature(signature@),
                Err(detail) => Reply::Failed(detail@),
            },
        ),
{
    client.client.sign_ecdsa_prehash_raw(key_id, digest).map_err(|e| format!("{:?}", e))
}

/// `yubihsm::Client::get_public_key`: asks the device for the public key of
/// the key pair `key_id`. The answer is the device's to give: the key's bytes
/// as they came, with the algorithm's byte and its `Debug` name, or the
/// failure's `Debug` text. The request and what came back are put on the
/// session's record.
#[verifier::external_body]
pub(crate) fn device_public_key(client: &mut HsmClient, key_id: u16) -> (reply: Result<
    PublicKey,
    String,
>)
    ensures
        final(client).answered(
            *old(client),
            Command::GetPublicKey { key_id },
            match reply {
                Ok(key) => Reply::PublicKey(key@),
                Err(detail) => Reply::Failed(detail@),
            },
        ),
{
    match client.client.get_public_key(key_id) {
        Ok(key) => Ok(
            PublicKey {
                algorithm: Algorithm {
                    code: key.algorithm.to_u8(),
                    name: format!("{:?}", key.algorithm),
                },
                bytes: key.bytes,
            },
        ),
        Err(e) => Err(format!("{:?}", e)),
    }
}

/// One entry of a listing as the device sends it, the object's type by its byte.
pub(crate) struct ListedObject {
    pub object_id: u16,
    pub type_code: u8,
    pub sequence: u8,
}

impl ListedObject {
    /// The entry that this stands for.
    pub(crate) open spec fn entry(self) -> ObjectEntry {
        ObjectEntry {
            object_id: self.object_id,
            object_type: ObjectType::spec_from_code(self.type_code)->0,
            sequence: self.sequence,
        }
    }
}

/// The entries that a listing stands for.
pub(crate) open spec fn listed_entries(listed: Seq<ListedObject>) -> Seq<ObjectEntry> {
    listed.map_values(|object: ListedObject| object.entry())
}

/// `yubihsm::Client::list_objects` without a filter: asks the device for
/// every object that the session can see. The entries come in the device's
/// order, each type as `Type::to_u8` gives it, which is one of the bytes 1 to
/// 7. The request and what came back are put on the session's record.
#[verifier::external_body]
pub(crate) fn device_objects(client: &mut HsmClient) -> (reply: Result<Vec<ListedObject>, String>)
    ensures
        final(client).answered(
            *old(client),
            Command::ListObjects,
            match reply {
                Ok(listed) => Reply::Objects(listed_entries(listed@)),
                Err(detail) => Reply::Failed(detail@),
            },
        ),
        reply matches Ok(listed) ==> forall|i: int|
            0 <= i < listed@.len() ==> 1 <= (#[trigger] listed@[i]).type_code <= 7,
{
    match client.client.list_objects(&[]) {
        Ok(entries) => Ok(
            entries.iter().map(
                |e|
                    ListedObject {
                        object_id: e.object_id,
                        type_code: e.object_type.to_u8(),
                        sequence: e.sequence,
                    },
            ).collect(),
        ),
        Err(e) => Err(format!("{:?}", e)),
    }
}

/// What the device tells of one object, the object's type by its byte.
pub(crate) struct DescribedObject {
    pub object_id: u16,
    pub type_code: u8,
    pub algorithm: Algorithm,
    pub label: String,
    pub sequence: u8,
}

impl DescribedObject {
    /// The description that this stands for.
    pub(crate) open spec fn info(self) -> ObjectInfoView {
        ObjectInfoView {
            object_id: self.object_id,
            object_type: ObjectType::spec_from_code(self.type_code)->0,
            algorithm: self.algorithm@,
            label: self.label@,
            sequence: self.sequence,
        }
    }
}

/// `yubihsm::Client::get_object_info`: asks the device to describe the object
/// of the given identifier and type (`Type::from_u8` of the type's byte, which
/// knows the bytes 1 to 7). In an answer the type is as `Type::to_u8` gives
/// it, one of the bytes 1 to 7; algorithm and label come with their `Debug`
/// text. The request and what came back are put on the session's record.
#[verifier::external_body]
pub(crate) fn device_object_info(client: &mut HsmClient, object_id: u16, type_code: u8) -> (reply:
    Result<DescribedObject, String>)
    requires
        1 <= type_code <= 7,
    ensures
        final(client).answered(
            *old(client),
            Command::GetObjectInfo {
                object_id,
                object_type: ObjectType::spec_from_code(type_code)->0,
            },
            match reply {
                Ok(described) => Reply::Info(described.info()),
                Err(detail) => Reply::Failed(detail@),
            },
        ),
        reply matches Ok(described) ==> 1 <= described.type_code <= 7,
{
    let asked = yubihsm::object::Type::from_u8(type_code).map_err(|e| format!("{:?}", e))?;
    let info = client.client.get_object_info(object_id, asked).map_err(|e| format!("{:?}", e))?;
    Ok(
        DescribedObject {
            object_id: info.object_id,
            type_code: info.object_type.to_u8(),
            algorithm: Algorithm {
                code: info.algorithm.to_u8(),
                name: format!("{:?}", info.algorithm),
            },
            label: format!("{:?}", info.label),
            sequence: info.sequence,
        },
    )
}

/// `yubihsm::Client::delete_object`: asks the device to delete the object of
/// the given identifier and type (`Type::from_u8` of the type's byte, which
/// knows the bytes 1 to 7). Whether the object is deleted is the device's to
/// say. No caller may ask this of an authentication key, whose byte is 2.
/// The request and what came back are put on the session's record.
#[verifier::external_body]
pub(crate) fn device_delete(client: &mut HsmClient, object_id: u16, type_code: u8) -> (reply:
    Result<(), String>)
    requires
        1 <= type_code <= 7,
        type_code != 2,
    ensures
        final(client).answered(
            *old(client),
            Command::DeleteObject {
                object_id,
                object_type: ObjectType::spec_from_code(type_code)->0,
            },
            match reply {
                Ok(_) => Reply::Deleted,
                Err(detail) => Reply::Failed(detail@),
            },
        ),
{
    let asked = yubihsm::object::Type::from_u8(type_code).map_err(|e| format!("{:?}", e))?;
    client.client.delete_object(object_id, asked).map_err(|e| format!("{:?}", e))
}

/// Holds at most one session, and hands it to the operations.
pub struct SessionManager {
    active_client: Option<HsmClient>,
    openings: OpeningLog,
}

impl SessionManager {
    /// Whether a session is open.
    pub open spec fn authenticated(&self) -> bool {
        self.client() is Some
    }

    /// The session that is open, if one is.
    pub closed spec fn client(&self) -> Option<HsmClient> {
        self.active_client
    }

    /// The attempts to open a session that this manager has made, oldest first.
    pub closed spec fn attempts(&self) -> Seq<Attempt> {
        self.openings.attempts()
    }

    /// What `active_client` answers.
    pub open spec fn access(&self) -> Result<HsmClient, (ErrorKind, Seq<char>)> {
        match self.client() {
            Some(client) => Ok(client),
            None => Err((ErrorKind::AuthenticationFailed, "No active session"@)),
        }
    }

    /// What an attempt with `config` that came to `connected` makes of a
    /// manager: the attempt is on its record; a session that was opened is
    /// the active one, opened with the key and password of `config`, and
    /// nothing has been asked in it; a failed attempt leaves the session
    /// that the manager had.
    pub open spec fn attempted(
        &self,
        before: SessionManager,
        config: HsmConfig,
        connected: HsmResult<()>,
    ) -> bool {
        let opening = Opening { auth_key_id: config.auth_key_id, password: config.auth_password@ };
        &&& self.attempts() == before.attempts().push(
            Attempt { opening, refusal: refusal_of(connected) },
        )
        &&& match connected {
            Ok(_) => self.client() matches Some(client) && client.opening() == opening
                && client.record() == Seq::<Exchange>::empty(),
            Err(e) => e.kind() == ErrorKind::AuthenticationFailed && self.client()
                == before.client(),
        }
    }

    pub fn new() -> (manager: Self)
        ensures
            !manager.authenticated(),
            manager.attempts() == Seq::<Attempt>::empty(),
    {
        SessionManager { active_client: None, openings: OpeningLog::new() }
    }

    /// Opens a session through `connector` and makes it the active one. A
    /// failed attempt leaves the session that the manager had.
    pub fn open(&mut self, connector: yubihsm::Connector, config: HsmConfig) -> (connected:
        HsmResult<()>)
        ensures
            final(self).attempted(*old(self), config, connected),
    {
        match HsmClient::open_noting(&mut self.openings, connector, config) {
            Ok(client) => {
                self.active_client = Some(client);
                Ok(())
            },
            Err(e) => Err(e),
        }
    }

    /// Opens a session over USB and makes it the active one. A failed attempt
    /// leaves the session that the manager had.
    pub fn connect(&mut self, config: HsmConfig) -> (connected: HsmResult<()>)
        ensures
            final(self).attempted(*old(self), config, connected),
    {
        self.open(usb_connector(), config)
    }

    #[verifier::when_used_as_spec(authenticated)]
    pub fn is_authenticated(&self) -> (yes: bool)
        ensures
            yes == self.authenticated(),
    {
        self.active_client.is_some()
    }

    /// The open session, for one operation.
    pub fn active_client(&mut self) -> (active: HsmResult<&mut HsmClient>)
        ensures
            active is Ok <==> old(self).authenticated(),
            final(self).attempts() == old(self).attempts(),
            active matches Ok(client) ==> old(self).access() == Ok::<
                HsmClient,
                (ErrorKind, Seq<char>),
            >(*client) && final(self).client() == Some(*final(client)),
            active matches Err(e) ==> old(self).access() == Err::<
                HsmClient,
                (ErrorKind, Seq<char>),
            >((e.kind(), e.detail())),
            active matches Err(e) ==> e.is(
                ErrorKind::AuthenticationFailed,
                "No active session"@,
            ) && *final(self) == *old(self),
    {
        match &mut self.active_client {
            Some(client) => Ok(client),
            None => Err(HsmError::AuthenticationFailed(String::from_str("No active session"))),
        }
    }

    /// Closes the session, if one is open.
    pub fn disconnect(&mut self)
        ensures
            !final(self).authenticated(),
            final(self).attempts() == old(self).attempts(),
    {
        self.active_client = None;
    }
}

/// The session is handed out exactly while one is open: not by a manager
/// that never opened one, at once by a manager that has opened one, and no
/// longer by a manager that has closed it. What is refused is refused as
/// `AuthenticationFailed`.
pub proof fn session_gate(fresh: SessionManager, connected: SessionManager, closed: SessionManager)
    requires
        !fresh.authenticated(),
        connected.authenticated(),
        !closed.authenticated(),
    ensures
        fresh.access() == Err::<HsmClient, (ErrorKind, Seq<char>)>(
            (ErrorKind::AuthenticationFailed, "No active session"@),
        ),
        connected.access() == Ok::<HsmClient, (ErrorKind, Seq<char>)>(connected.client()->0),
        closed.access() == fresh.access(),
{
}

} // verus!
