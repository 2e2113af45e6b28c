//! The state behind the application's screens, and what each action of the
//! operator does to it.

use vstd::prelude::*;
use vstd::string::*;

use crate::config::{DEFAULT_AUTH_KEY_ID, DEFAULT_SIGNING_KEY_ID};
use crate::hsm::client::{
    usb_connector, Attempt, Command, Exchange, HsmConfig, Opening, Reply, SessionManager,
};
use crate::hsm::crypto::sha256;
use crate::hsm::error::{kind_prefix, ErrorKind, HsmResult};
use crate::hsm::object::{ObjectSummary, ObjectSummaryView, ObjectType};
use crate::hsm::operations::{
    delete_object, list_object_summaries, listing_failed, listing_made, rows, sign, verify,
    verify_refusal, verify_reply,
};
use crate::text::{
    decimal, decimal_text, hex_digits, hex_encode, hex_lower, hex_u16, push_decimal, push_hex,
    push_hex_u16, trimmed,
};

verus! {

/// The screens of the application.
#[derive(Clone, Copy, Debug, PartialEq, Eq, Structural)]
pub enum Screen {
    Auth,
    SignVerify,
    KeysConfig,
}

/// What the application holds between two actions of the operator: the
/// session, the last signature, the inventory as it was last read, the row
/// selected in it, and the texts on the screens.
pub struct HsmApp {
    auth_status: String,
    session: SessionManager,
    output_text: String,
    signature: Option<Vec<u8>>,
    current_screen: Screen,
    keys_output: String,
    keys_data: Vec<ObjectSummary>,
    selected_key_row: Option<usize>,
}

/// What the application holds, as the contracts see it.
pub struct AppView {
    /// The attempts to open a session, oldest first.
    pub attempts: Seq<Attempt>,
    /// Whether a session is open.
    pub authenticated: bool,
    /// What the open session was opened with.
    pub opening: Option<Opening>,
    /// What was asked of the device in the open session and what came back.
    pub record: Seq<Exchange>,
    /// The last signature, if one is held.
    pub signature: Option<Seq<u8>>,
    /// The screen that is shown once a session is open.
    pub screen: Screen,
    /// The text on the authentication screen.
    pub status: Seq<char>,
    /// The text in the output area of the signing screen.
    pub output: Seq<char>,
    /// The text above the inventory.
    pub keys_status: Seq<char>,
    /// The inventory as it was last read.
    pub keys: Seq<ObjectSummaryView>,
    /// The row selected in the inventory, if one is.
    pub selected: Option<usize>,
}

impl View for HsmApp {
    type V = AppView;

    closed spec fn view(&self) -> AppView {
        AppView {
            attempts: self.session.attempts(),
            authenticated: self.session.authenticated(),
            opening: match self.session.client() {
                Some(client) => Some(client.opening()),
                None => None,
            },
            record: match self.session.client() {
                Some(client) => client.record(),
                None => Seq::empty(),
            },
            signature: match self.signature {
                Some(signature) => Some(signature@),
                None => None,
            },
            screen: self.current_screen,
            status: self.auth_status@,
            output: self.output_text@,
            keys_status: self.keys_output@,
            keys: rows(self.keys_data@),
            selected: self.selected_key_row,
        }
    }
}

/// What the authentication screen says before anything was tried.
pub open spec fn please_authenticate() -> Seq<char> {
    "Please authenticate to the YubiHSM session."@
}

/// What the output area says while there is nothing to report.
pub open spec fn ready() -> Seq<char> {
    "Ready. Type text and click Sign."@
}

/// What the inventory screen says before a listing was asked for.
pub open spec fn click_list_keys() -> Seq<char> {
    "Click \"List keys\" to query objects from the YubiHSM2."@
}

/// The message of the failure to find an open session.
pub open spec fn no_session_message() -> Seq<char> {
    kind_prefix(ErrorKind::AuthenticationFailed) + "No active session"@
}

/// What is reported when an action needs a session and none is open.
pub open spec fn no_session_text() -> Seq<char> {
    "Failed to use YubiHSM2 session: "@ + no_session_message()
        + "\n\nGo to the Auth screen and authenticate first."@
}

/// What is reported after a signature was made.
pub open spec fn signed_text(text: Seq<char>, signature: Seq<u8>) -> Seq<char> {
    "✓ Successfully signed text\n\nInput: '"@ + text + "'\n\nSignature (hex):\n"@ + hex_lower(
        signature,
    ) + "\n\nLength: "@ + decimal(signature.len()) + " bytes"@
}

/// What is reported when the device did not sign.
pub open spec fn signing_failed_text(message: Seq<char>) -> Seq<char> {
    "Signing failed: "@ + message + "\n\nMake sure key ID 0x"@ + hex_digits(
        DEFAULT_SIGNING_KEY_ID as nat,
    ) + " exists in your YubiHSM2 (secp256r1/ECDSA type)"@
}

/// What is reported when the last signature is valid for the text.
pub open spec fn verified_text(text: Seq<char>) -> Seq<char> {
    "✓ Signature verification SUCCESSFUL\n\nInput: '"@ + text + "'\n\nThe signature is valid!"@
}

/// What is reported when the last signature is not valid for the text.
pub open spec fn rejected_text(text: Seq<char>) -> Seq<char> {
    "✗ Signature verification FAILED\n\nInput: '"@ + text
        + "'\n\nThe signature does not match the text."@
}

/// What is reported after the inventory was read.
pub open spec fn found_text(count: nat) -> Seq<char> {
    "Found "@ + decimal(count)
        + " object(s) visible to the current authentication key.\nClick a row to select, then use Delete button (auth keys cannot be deleted)."@
}

/// What is reported after an object was deleted.
pub open spec fn deleted_text(object_id: u16, object_type: ObjectType) -> Seq<char> {
    "Successfully deleted object "@ + hex_u16(object_id) + " ("@ + object_type.spec_name() + ")."@
}

/// The application as it starts: no session, nothing signed, nothing listed.
pub open spec fn initial() -> AppView {
    AppView {
        attempts: Seq::empty(),
        authenticated: false,
        opening: None,
        record: Seq::empty(),
        signature: None,
        screen: Screen::Auth,
        status: please_authenticate(),
        output: ready(),
        keys_status: click_list_keys(),
        keys: Seq::empty(),
        selected: None,
    }
}

/// What the application holds after the session was closed: what it held
/// when it started, but for the status text and the attempts made so far.
pub open spec fn disconnected(attempts: Seq<Attempt>) -> AppView {
    AppView {
        attempts,
        status: "Disconnected. Please authenticate to the YubiHSM session."@,
        ..initial()
    }
}

/// Without an open session there is no signature, no inventory and no selection.
pub open spec fn session_scoped(app: AppView) -> bool {
    !app.authenticated ==> app.signature is None && app.keys.len() == 0 && app.selected is None
        && app.record.len() == 0 && app.opening is None
}

/// What an attempt to authenticate makes of the state. A password that is
/// empty, or of which nothing is left without the white space at its ends, is
/// refused and nothing is attempted. Else one attempt is made, with the
/// default authentication key and the password. A session that was opened is
/// a new one; the signing screen is shown and the password field is to be
/// cleared. A refusal is reported with what came back, and changes nothing
/// else.
pub open spec fn authenticated_step(
    before: AppView,
    password: Seq<char>,
    after: AppView,
    clear_password: bool,
) -> bool {
    if password.len() == 0 || trimmed(password).len() == 0 {
        !clear_password && after == (AppView { status: "Password cannot be empty."@, ..before })
    } else {
        let opening = Opening { auth_key_id: DEFAULT_AUTH_KEY_ID, password };
        let refusal = after.attempts.last().refusal;
        let attempts = before.attempts.push(Attempt { opening, refusal });
        match refusal {
            None => clear_password && after == (AppView {
                attempts,
                authenticated: true,
                opening: Some(opening),
                record: Seq::empty(),
                status: "Successfully authenticated to YubiHSM session."@,
                screen: Screen::SignVerify,
                ..before
            }),
            Some(detail) => !clear_password && after == (AppView {
                attempts,
                status: "Authentication failed: "@ + (kind_prefix(
                    ErrorKind::AuthenticationFailed,
                ) + detail),
                ..before
            }),
        }
    }
}

/// What `sign_text` makes of the state. An empty text and a missing session
/// are reported and nothing is asked of the device. Else the device is asked
/// for a signature over the digest of the text: the signature that came is
/// kept as the last one and reported; a failure is reported with what came
/// back, and the last signature stays.
pub open spec fn signed_step(before: AppView, text: Seq<char>, after: AppView) -> bool {
    if text.len() == 0 {
        after == (AppView { output: "Error: Input text is empty"@, ..before })
    } else if !before.authenticated {
        after == (AppView { output: no_session_text(), ..before })
    } else {
        let reply = after.record.last().reply;
        let record = before.record.push(
            Exchange {
                command: Command::SignPrehash {
                    key_id: DEFAULT_SIGNING_KEY_ID,
                    digest: sha256(vstd::utf8::encode_utf8(text)),
                },
                reply,
            },
        );
        match reply {
            Reply::Signature(signature) => after == (AppView {
                record,
                signature: Some(signature),
                output: signed_text(text, signature),
                ..before
            }),
            Reply::Failed(refusal) => after == (AppView {
                record,
                output: signing_failed_text(kind_prefix(ErrorKind::SigningFailed) + refusal),
                ..before
            }),
            _ => false,
        }
    }
}

/// What `verify_text` makes of the state. An empty text, a missing signature
/// and a missing session are reported and nothing is asked of the device.
/// Else the device is asked for the public key, and the output says what the
/// verification of the last signature for the text came to under the key
/// that came: valid, not valid, or why that could not be told. Nothing but
/// the output changes.
pub open spec fn verified_step(before: AppView, text: Seq<char>, after: AppView) -> bool {
    if text.len() == 0 {
        after == (AppView { output: "Error: Input text is empty"@, ..before })
    } else if before.signature is None {
        after == (AppView { output: "Error: No signature to verify. Sign text first."@, ..before })
    } else if !before.authenticated {
        after == (AppView { output: no_session_text(), ..before })
    } else {
        let reply = after.record.last().reply;
        let record = before.record.push(
            Exchange { command: Command::GetPublicKey { key_id: DEFAULT_SIGNING_KEY_ID }, reply },
        );
        let signature = before.signature->0;
        &&& after == (AppView { record, output: after.output, ..before })
        &&& match verify_reply(reply, sha256(vstd::utf8::encode_utf8(text)), signature) {
            Ok(valid) => after.output == if valid {
                verified_text(text)
            } else {
                rejected_text(text)
            },
            Err(kind) => exists|detail: Seq<char>|
                #[trigger] verify_refusal(reply, signature, detail) && after.output
                    == "Verification failed: "@ + (kind_prefix(kind) + detail),
        }
    }
}

/// What reading the inventory makes of the state. The selection is dropped.
/// Without a session nothing is asked and the inventory is emptied. Else a
/// listing is made: the rows that it came to replace the inventory, and a
/// failure empties it and is reported.
pub open spec fn loaded_step(before: AppView, after: AppView, loaded: bool) -> bool {
    if !before.authenticated {
        !loaded && after == (AppView {
            selected: None,
            keys: Seq::empty(),
            keys_status: no_session_text(),
            ..before
        })
    } else {
        &&& after == (AppView {
            record: after.record,
            selected: None,
            keys: after.keys,
            keys_status: after.keys_status,
            ..before
        })
        &&& if loaded {
            &&& listing_made(before.record, after.record, after.keys)
            &&& after.keys_status == found_text(after.keys.len())
        } else {
            &&& after.keys.len() == 0
            &&& exists|detail: Seq<char>|
                #[trigger] listing_failed(before.record, after.record, detail) && after.keys_status
                    == "Failed to list objects from YubiHSM2: "@ + (kind_prefix(
                    ErrorKind::ListingFailed,
                ) + detail)
        }
    }
}

/// Whether the selected row can be deleted: a row of the inventory is
/// selected, and it is no authentication key.
pub open spec fn deletable(app: AppView) -> bool {
    app.selected matches Some(row) && row < app.keys.len() && app.keys[row as int].object_type
        != ObjectType::AuthenticationKey
}

/// What is reported when the device did not delete the object.
pub open spec fn deletion_failed_text(refusal: Seq<char>) -> Seq<char> {
    "Failed to delete object: "@ + (kind_prefix(ErrorKind::DeletionFailed) + (
    "Failed to delete object: "@ + refusal))
}

/// What deleting the selected row makes of the state. Without a deletable
/// row, or without a session, the reason is reported and nothing is asked of
/// the device. Else the device is asked to delete the object: a failure is
/// reported with what came back, and after a deletion the inventory is read
/// again. `reloaded` says whether it was read again and, if so, whether
/// there are rows to show.
pub open spec fn deleted_step(before: AppView, after: AppView, reloaded: Option<bool>) -> bool {
    if before.selected is None {
        reloaded is None && after == (AppView {
            keys_status: "No key selected for deletion."@,
            ..before
        })
    } else if before.selected->0 >= before.keys.len() {
        reloaded is None && after == (AppView {
            keys_status: "Selected key no longer exists."@,
            ..before
        })
    } else if !deletable(before) {
        reloaded is None && after == (AppView {
            keys_status: "Cannot delete authentication keys for safety reasons."@,
            ..before
        })
    } else if !before.authenticated {
        reloaded is None && after == (AppView {
            keys_status: "Failed to access HSM session: "@ + no_session_message(),
            ..before
        })
    } else {
        let row = before.keys[before.selected->0 as int];
        let reply = after.record[before.record.len() as int].reply;
        let record = before.record.push(
            Exchange {
                command: Command::DeleteObject {
                    object_id: row.object_id,
                    object_type: row.object_type,
                },
                reply,
            },
        );
        &&& before.record.len() < after.record.len()
        &&& match reply {
            Reply::Deleted => reloaded matches Some(loaded) && loaded_step(
                AppView {
                    record,
                    keys_status: deleted_text(row.object_id, row.object_type),
                    ..before
                },
                after,
                loaded,
            ),
            Reply::Failed(refusal) => reloaded is None && after == (AppView {
                record,
                keys_status: deletion_failed_text(refusal),
                ..before
            }),
            _ => false,
        }
    }
}

/// What selecting a row makes of the state: a row of the inventory becomes
/// the selected one, any other number changes nothing.
pub open spec fn selected_step(before: AppView, row: usize, after: AppView) -> bool {
    if row < before.keys.len() {
        after == (AppView { selected: Some(row), ..before })
    } else {
        after == before
    }
}

/// The columns of the inventory table, from left to right.
#[derive(Clone, Copy, Debug, PartialEq, Eq, Structural)]
pub enum KeyColumn {
    Id,
    Type,
    Algorithm,
    Label,
    Sequence,
    PublicKey,
}

/// The number of columns of the inventory table.
pub const KEY_COLUMNS: usize = 6;

/// What the table shows of a public key: its first 32 hexadecimal digits,
/// and a mark where more follow.
pub open spec fn key_preview(hex: Seq<char>) -> Seq<char> {
    if hex.len() > 32 {
        hex.subrange(0, 32) + "â€¦"@
    } else {
        hex
    }
}

/// What the table shows in one cell.
pub open spec fn cell(row: ObjectSummaryView, column: KeyColumn) -> Seq<char> {
    match column {
        KeyColumn::Id => hex_u16(row.object_id),
        KeyColumn::Type => row.object_type.spec_name(),
        KeyColumn::Algorithm => row.algorithm.name,
        KeyColumn::Label => row.label,
        KeyColumn::Sequence => decimal(row.sequence as nat),
        KeyColumn::PublicKey => match row.public_key_hex {
            Some(hex) => key_preview(hex),
            None => "-"@,
        },
    }
}

impl KeyColumn {
    /// The column at a position, counted from 0 at the left.
    pub open spec fn spec_at(position: usize) -> Option<KeyColumn> {
        if position == 0 {
            Some(KeyColumn::Id)
        } else if position == 1 {
            Some(KeyColumn::Type)
        } else if position == 2 {
            Some(KeyColumn::Algorithm)
        } else if position == 3 {
            Some(KeyColumn::Label)
        } else if position == 4 {
            Some(KeyColumn::Sequence)
        } else if position == 5 {
            Some(KeyColumn::PublicKey)
        } else {
            None
        }
    }

    /// The column at a position, counted from 0 at the left.
    pub fn at(position: usize) -> (column: Option<KeyColumn>)
        ensures
            column == KeyColumn::spec_at(position),
            column is Some <==> position < KEY_COLUMNS,
    {
        match position {
            0 => Some(KeyColumn::Id),
            1 => Some(KeyColumn::Type),
            2 => Some(KeyColumn::Algorithm),
            3 => Some(KeyColumn::Label),
            4 => Some(KeyColumn::Sequence),
            5 => Some(KeyColumn::PublicKey),
            _ => None,
        }
    }

    /// The name by which the table knows the column.
    pub fn key(self) -> (key: &'static str)
        ensures
            key@ == match self {
                KeyColumn::Id => "id"@,
                KeyColumn::Type => "ty"@,
                KeyColumn::Algorithm => "alg"@,
                KeyColumn::Label => "label"@,
                KeyColumn::Sequence => "seq"@,
                KeyColumn::PublicKey => "pk"@,
            },
    {
        match self {
            KeyColumn::Id => "id",
            KeyColumn::Type => "ty",
            KeyColumn::Algorithm => "alg",
            KeyColumn::Label => "label",
            KeyColumn::Sequence => "seq",
            KeyColumn::PublicKey => "pk",
        }
    }

    /// The heading of the column.
    pub fn title(self) -> (title: &'static str)
        ensures
            title@ == match self {
                KeyColumn::Id => "ID"@,
                KeyColumn::Type => "Type"@,
                KeyColumn::Algorithm => "Algorithm"@,
                KeyColumn::Label => "Label"@,
                KeyColumn::Sequence => "Seq"@,
                KeyColumn::PublicKey => "Public key (hex)"@,
            },
    {
        match self {
            KeyColumn::Id => "ID",
            KeyColumn::Type => "Type",
            KeyColumn::Algorithm => "Algorithm",
            KeyColumn::Label => "Label",
            KeyColumn::Sequence => "Seq",
            KeyColumn::PublicKey => "Public key (hex)",
        }
    }

    /// The width of the column in pixels.
    pub fn width(self) -> (width: u32)
        ensures
            width == match self {
                KeyColumn::Id => 80u32,
                KeyColumn::Type => 110u32,
                KeyColumn::Algorithm => 140u32,
                KeyColumn::Label => 200u32,
                KeyColumn::Sequence => 60u32,
                KeyColumn::PublicKey => 260u32,
            },
    {
        match self {
            KeyColumn::Id => 80,
            KeyColumn::Type => 110,
            KeyColumn::Algorithm => 140,
            KeyColumn::Label => 200,
            KeyColumn::Sequence => 60,
            KeyColumn::PublicKey => 260,
        }
    }
}

/// The text of one cell of the inventory table.
pub fn cell_text(row: &ObjectSummary, column: KeyColumn) -> (text: String)
    ensures
        text@ == cell(row@, column),
{
    match column {
        KeyColumn::Id => {
            let mut text = String::new();
            push_hex_u16(&mut text, row.object_id);
            text
        },
        KeyColumn::Type => String::from_str(row.object_type.name()),
        KeyColumn::Algorithm => row.algorithm.name.clone(),
        KeyColumn::Label => row.label.clone(),
        KeyColumn::Sequence => decimal_text(row.sequence as u64),
        KeyColumn::PublicKey => match &row.public_key_hex {
            Some(hex) => {
                let len = hex.as_str().unicode_len();
                if len > 32 {
                    let mut text = String::from_str(hex.as_str().substring_char(0, 32));
                    text.append("â€¦");
                    text
                } else {
                    hex.clone()
                }
            },
            None => String::from_str("-"),
        },
    }
}

/// Every action of the operator keeps what is held within the session:
/// where there was no signature, no inventory and no selection without a
/// session before the action, there is none without a session after it.
pub proof fn actions_keep_session_scope(before: AppView, after: AppView)
    requires
        session_scoped(before),
        ({
            ||| after == initial()
            ||| after == disconnected(before.attempts)
            ||| exists|password: Seq<char>, clear_password: bool|
                authenticated_step(before, password, after, clear_password)
            ||| exists|text: Seq<char>| signed_step(before, text, after)
            ||| exists|text: Seq<char>| verified_step(before, text, after)
            ||| exists|loaded: bool| loaded_step(before, after, loaded)
            ||| exists|reloaded: Option<bool>| deleted_step(before, after, reloaded)
            ||| exists|row: usize| selected_step(before, row, after)
            ||| exists|screen: Screen| after == (AppView { screen, ..before })
            ||| exists|output: Seq<char>| after == (AppView { signature: None, output, ..before })
        }),
    ensures
        session_scoped(after),
{
}

impl HsmApp {
    pub fn new() -> (app: Self)
        ensures
            app@ == initial(),
    {
        assert(rows(Seq::<ObjectSummary>::empty()) =~= Seq::empty());
        HsmApp {
            auth_status: String::from_str("Please authenticate to the YubiHSM session."),
            session: SessionManager::new(),
            output_text: String::from_str("Ready. Type text and click Sign."),
            signature: None,
            current_screen: Screen::Auth,
            keys_output: String::from_str(
                "Click \"List keys\" to query objects from the YubiHSM2.",
            ),
            keys_data: Vec::new(),
            selected_key_row: None,
        }
    }

    /// Whether a session is open.
    pub fn is_authenticated(&self) -> (yes: bool)
        ensures
            yes == self@.authenticated,
    {
        self.session.is_authenticated()
    }

    /// The screen that is shown once a session is open.
    pub fn current_screen(&self) -> (screen: Screen)
        ensures
            screen == self@.screen,
    {
        self.current_screen
    }

    /// The text on the authentication screen.
    pub fn auth_status(&self) -> (text: &String)
        ensures
            text@ == self@.status,
    {
        &self.auth_status
    }

    /// The text in the output area of the signing screen.
    pub fn output_text(&self) -> (text: &String)
        ensures
            text@ == self@.output,
    {
        &self.output_text
    }

    /// The text above the inventory.
    pub fn keys_output(&self) -> (text: &String)
        ensures
            text@ == self@.keys_status,
    {
        &self.keys_output
    }

    /// The inventory as it was last read.
    pub fn keys_data(&self) -> (keys: &Vec<ObjectSummary>)
        ensures
            rows(keys@) == self@.keys,
    {
        &self.keys_data
    }

    /// The row selected in the inventory, if one is.
    pub fn selected_key_row(&self) -> (row: Option<usize>)
        ensures
            row == self@.selected,
    {
        self.selected_key_row
    }

    /// The last signature, if one is held.
    pub fn signature(&self) -> (signature: Option<&Vec<u8>>)
        ensures
            signature is Some <==> self@.signature is Some,
            signature matches Some(held) ==> self@.signature == Some(held@),
    {
        self.signature.as_ref()
    }

    /// Shows another screen.
    pub fn show_screen(&mut self, screen: Screen)
        ensures
            final(self)@ == (AppView { screen, ..old(self)@ }),
    {
        self.current_screen = screen;
    }

    /// Takes what the attempt to open a session came to into the state.
    fn authentication_finished(&mut self, attempt: HsmResult<()>) -> (clear_password: bool)
        ensures
            attempt is Ok ==> clear_password && final(self)@ == (AppView {
                status: "Successfully authenticated to YubiHSM session."@,
                screen: Screen::SignVerify,
                ..old(self)@
            }),
            attempt matches Err(e) ==> !clear_password && final(self)@ == (AppView {
                status: "Authentication failed: "@ + e.spec_message(),
                ..old(self)@
            }),
    {
        match attempt {
            Ok(()) => {
                self.auth_status = String::from_str(
                    "Successfully authenticated to YubiHSM session.",
                );
                self.current_screen = Screen::SignVerify;
                true
            },
            Err(e) => {
                let mut status = String::from_str("Authentication failed: ");
                status.append(e.message().as_str());
                self.auth_status = status;
                false
            },
        }
    }

    /// Opens a session through `connector` with the default authentication
    /// key and the password, and says whether the password field is to be
    /// cleared.
    pub fn authenticate_through(
        &mut self,
        connector: yubihsm::Connector,
        password: &str,
    ) -> (clear_password: bool)
        ensures
            authenticated_step(old(self)@, password@, final(self)@, clear_password),
    {
        if password.trim().is_empty() {
            self.auth_status = String::from_str("Password cannot be empty.");
            return false;
        }
        let config = HsmConfig {
            auth_key_id: DEFAULT_AUTH_KEY_ID,
            auth_password: String::from_str(password),
        };
        let attempt = self.session.open(connector, config);
        self.authentication_finished(attempt)
    }

    /// Opens a session over USB with the default authentication key and the
    /// password, and says whether the password field is to be cleared.
    pub fn authenticate_session(&mut self, password: &str) -> (clear_password: bool)
        ensures
            authenticated_step(old(self)@, password@, final(self)@, clear_password),
    {
        self.authenticate_through(usb_connector(), password)
    }

    /// Takes what signing came to into the state: a signature is kept as
    /// the last one and reported, a failure is reported.
    fn signing_finished(&mut self, text: &str, signed: HsmResult<Vec<u8>>)
        ensures
            signed matches Ok(signature) ==> final(self)@ == (AppView {
                signature: Some(signature@),
                output: signed_text(text@, signature@),
                ..old(self)@
            }),
            signed matches Err(e) ==> final(self)@ == (AppView {
                output: signing_failed_text(e.spec_message()),
                ..old(self)@
            }),
    {
        match signed {
            Ok(signature) => {
                let mut output = String::from_str("✓ Successfully signed text\n\nInput: '");
                output.append(text);
                output.append("'\n\nSignature (hex):\n");
                output.append(hex_encode(signature.as_slice()).as_str());
                output.append("\n\nLength: ");
                push_decimal(&mut output, signature.len() as u64);
                output.append(" bytes");
                self.signature = Some(signature);
                self.output_text = output;
            },
            Err(e) => {
                let mut output = String::from_str("Signing failed: ");
                output.append(e.message().as_str());
                output.append("\n\nMake sure key ID 0x");
                push_hex(&mut output, DEFAULT_SIGNING_KEY_ID as u64);
                output.append(" exists in your YubiHSM2 (secp256r1/ECDSA type)");
                self.output_text = output;
            },
        }
    }

    /// Reports that an action needs a session and none is open.
    fn report_no_session(&mut self)
        ensures
            final(self)@ == (AppView { output: no_session_text(), ..old(self)@ }),
    {
        let mut output = String::from_str("Failed to use YubiHSM2 session: ");
        output.append("Authentication failed: ");
        output.append("No active session");
        output.append("\n\nGo to the Auth screen and authenticate first.");
        assert(output@ =~= no_session_text());
        self.output_text = output;
    }

    /// Signs the text with the signing key and keeps the signature as the
    /// last one.
    pub fn sign_text(&mut self, text: &str)
        ensures
            signed_step(old(self)@, text@, final(self)@),
    {
        if text.is_empty() {
            self.output_text = String::from_str("Error: Input text is empty");
            return ;
        }
        let signed = match self.session.active_client() {
            Ok(client) => sign(client, DEFAULT_SIGNING_KEY_ID, text.as_bytes()),
            Err(_) => {
                self.report_no_session();
                return ;
            },
        };
        self.signing_finished(text, signed);
    }

    /// Takes what verification came to into the state: the output says
    /// whether the signature is valid, or why that could not be told.
    fn verification_finished(&mut self, text: &str, verified: HsmResult<bool>)
        ensures
            verified matches Ok(valid) ==> final(self)@ == (AppView {
                output: if valid {
                    verified_text(text@)
                } else {
                    rejected_text(text@)
                },
                ..old(self)@
            }),
            verified matches Err(e) ==> final(self)@ == (AppView {
                output: "Verification failed: "@ + e.spec_message(),
                ..old(self)@
            }),
    {
        let output = match verified {
            Ok(true) => {
                let mut output = String::from_str(
                    "✓ Signature verification SUCCESSFUL\n\nInput: '",
                );
                output.append(text);
                output.append("'\n\nThe signature is valid!");
                output
            },
            Ok(false) => {
                let mut output = String::from_str("✗ Signature verification FAILED\n\nInput: '");
                output.append(text);
                output.append("'\n\nThe signature does not match the text.");
                output
            },
            Err(e) => {
                let mut output = String::from_str("Verification failed: ");
                output.append(e.message().as_str());
                output
            },
        };
        self.output_text = output;
    }

    /// Verifies the last signature for the text under the signing key.
    pub fn verify_text(&mut self, text: &str)
        ensures
            verified_step(old(self)@, text@, final(self)@),
    {
        if text.is_empty() {
            self.output_text = String::from_str("Error: Input text is empty");
            return ;
        }
        let signature = match &self.signature {
            Some(signature) => signature,
            None => {
                self.output_text = String::from_str(
                    "Error: No signature to verify. Sign text first.",
                );
                return ;
            },
        };
        let verified = match self.session.active_client() {
            Ok(client) => verify(
                client,
                DEFAULT_SIGNING_KEY_ID,
                text.as_bytes(),
                signature.as_slice(),
            ),
            Err(_) => {
                self.report_no_session();
                return ;
            },
        };
        self.verification_finished(text, verified);
    }

    /// Forgets the last signature.
    pub fn clear_signature(&mut self)
        ensures
            final(self)@ == (AppView {
                signature: None,
                output: "Cleared. Ready to sign new text."@,
                ..old(self)@
            }),
    {
        self.signature = None;
        self.output_text = String::from_str("Cleared. Ready to sign new text.");
    }

    /// Closes the session and forgets what was signed and listed in it.
    pub fn disconnect_session(&mut self)
        ensures
            final(self)@ == disconnected(old(self)@.attempts),
    {
        self.session.disconnect();
        self.current_screen = Screen::Auth;
        self.auth_status = String::from_str(
            "Disconnected. Please authenticate to the YubiHSM session.",
        );
        self.output_text = String::from_str("Ready. Type text and click Sign.");
        self.keys_output = String::from_str(
            "Click \"List keys\" to query objects from the YubiHSM2.",
        );
        self.signature = None;
        self.keys_data = Vec::new();
        self.selected_key_row = None;
        assert(rows(self.keys_data@) =~= Seq::empty());
    }

    /// Takes what a listing came to into the state: the rows replace the
    /// inventory, a failure empties it and is reported; the selection is
    /// dropped. Says whether there are rows to show.
    fn listing_finished(&mut self, listed: HsmResult<Vec<ObjectSummary>>) -> (loaded: bool)
        ensures
            loaded == listed is Ok,
            listed matches Ok(found) ==> final(self)@ == (AppView {
                selected: None,
                keys: rows(found@),
                keys_status: found_text(found@.len()),
                ..old(self)@
            }),
            listed matches Err(e) ==> final(self)@ == (AppView {
                selected: None,
                keys: Seq::empty(),
                keys_status: "Failed to list objects from YubiHSM2: "@ + e.spec_message(),
                ..old(self)@
            }),
    {
        self.selected_key_row = None;
        match listed {
            Ok(found) => {
                let mut status = String::from_str("Found ");
                push_decimal(&mut status, found.len() as u64);
                status.append(
                    " object(s) visible to the current authentication key.\nClick a row to select, then use Delete button (auth keys cannot be deleted).",
                );
                self.keys_data = found;
                self.keys_output = status;
                true
            },
            Err(e) => {
                let mut status = String::from_str("Failed to list objects from YubiHSM2: ");
                status.append(e.message().as_str());
                self.keys_data = Vec::new();
                self.keys_output = status;
                assert(rows(self.keys_data@) =~= Seq::empty());
                false
            },
        }
    }

    /// Reads the inventory from the device, and says whether there are rows
    /// to show.
    pub fn load_keys_from_hsm(&mut self) -> (loaded: bool)
        ensures
            loaded_step(old(self)@, final(self)@, loaded),
    {
        let listed = match self.session.active_client() {
            Ok(client) => list_object_summaries(client),
            Err(_) => {
                let mut status = String::from_str("Failed to use YubiHSM2 session: ");
                status.append("Authentication failed: ");
                status.append("No active session");
                status.append("\n\nGo to the Auth screen and authenticate first.");
                assert(status@ =~= no_session_text());
                self.selected_key_row = None;
                self.keys_data = Vec::new();
                self.keys_output = status;
                assert(rows(self.keys_data@) =~= Seq::empty());
                return false;
            },
        };
        self.listing_finished(listed)
    }

    /// Selects a row of the inventory.
    pub fn select_row(&mut self, row: usize)
        ensures
            selected_step(old(self)@, row, final(self)@),
    {
        if row < self.keys_data.len() {
            self.selected_key_row = Some(row);
        }
    }

    /// Whether the selected row can be deleted.
    pub fn can_delete(&self) -> (yes: bool)
        ensures
            yes == deletable(self@),
    {
        match self.selected_key_row {
            Some(row) => row < self.keys_data.len() && self.keys_data[row].object_type
                != ObjectType::AuthenticationKey,
            None => false,
        }
    }

    /// Deletes the object of the selected row from the device and reads the
    /// inventory again; says whether it was read again and, if so, whether
    /// there are rows to show.
    pub fn delete_selected_key(&mut self) -> (reloaded: Option<bool>)
        ensures
            deleted_step(old(self)@, final(self)@, reloaded),
    {
        let row = match self.selected_key_row {
            Some(row) => row,
            None => {
                self.keys_output = String::from_str("No key selected for deletion.");
                return None;
            },
        };
        if row >= self.keys_data.len() {
            self.keys_output = String::from_str("Selected key no longer exists.");
            return None;
        }
        let object_id = self.keys_data[row].object_id;
        let object_type = self.keys_data[row].object_type;
        if object_type == ObjectType::AuthenticationKey {
            self.keys_output = String::from_str(
                "Cannot delete authentication keys for safety reasons.",
            );
            return None;
        }
        let deleted = match self.session.active_client() {
            Ok(client) => delete_object(client, object_id, object_type),
            Err(_) => {
                let mut status = String::from_str("Failed to access HSM session: ");
                status.append("Authentication failed: ");
                status.append("No active session");
                assert(status@ =~= "Failed to access HSM session: "@ + no_session_message());
                self.keys_output = status;
                return None;
            },
        };
        match deleted {
            Ok(()) => {
                let mut status = String::from_str("Successfully deleted object ");
                push_hex_u16(&mut status, object_id);
                status.append(" (");
                status.append(object_type.name());
                status.append(").");
                self.keys_output = status;
                Some(self.load_keys_from_hsm())
            },
            Err(e) => {
                let mut status = String::from_str("Failed to delete object: ");
                status.append(e.message().as_str());
                self.keys_output = status;
                None
            },
        }
    }
}

} // verus!
