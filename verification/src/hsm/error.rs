//! The failures that an operation reports.

use vstd::prelude::*;
use vstd::string::*;

verus! {

/// The result of an operation on the device.
pub type HsmResult<T> = Result<T, HsmError>;

/// What went wrong, without the detail.
#[derive(Clone, Copy, Debug, PartialEq, Eq, Structural)]
pub enum ErrorKind {
    AuthenticationFailed,
    SigningFailed,
    ListingFailed,
    VerificationFailed,
    DeletionFailed,
    InvalidKey,
    InvalidInput,
    GetPublicKeyFailed,
}

/// A failed operation: its kind and a detail for the operator.
#[derive(Debug)]
pub enum HsmError {
    /// No session could be opened, or none is open.
    AuthenticationFailed(String),
    /// The device did not sign.
    SigningFailed(String),
    /// The device did not list its objects, or did not describe one of them.
    ListingFailed(String),
    /// Verification could not be carried out by the adapter.
    VerificationFailed(String),
    /// The device did not delete the object.
    DeletionFailed(String),
    /// The public key is missing or is no point of the curve.
    InvalidKey(String),
    /// The caller's input cannot be worked on.
    InvalidInput(String),
    /// The device did not hand out the public key.
    GetPublicKeyFailed(String),
}

/// The words that begin the message of each kind of failure.
pub open spec fn kind_prefix(kind: ErrorKind) -> Seq<char> {
    match kind {
        ErrorKind::AuthenticationFailed => "Authentication failed: "@,
        ErrorKind::SigningFailed => "Signing failed: "@,
        ErrorKind::ListingFailed => "Listing failed: "@,
        ErrorKind::VerificationFailed => "Verification failed: "@,
        ErrorKind::DeletionFailed => "Deletion failed: "@,
        ErrorKind::InvalidKey => "Invalid key: "@,
        ErrorKind::InvalidInput => "Invalid input: "@,
        ErrorKind::GetPublicKeyFailed => "Failed to get public key: "@,
    }
}

/// The operation failed, with a failure of the given kind and detail.
pub open spec fn fails_with<T>(result: HsmResult<T>, kind: ErrorKind, detail: Seq<char>) -> bool {
    result matches Err(e) && e.is(kind, detail)
}

/// The operation succeeded, or failed with a failure of the given kind.
pub open spec fn fails_only_as<T>(result: HsmResult<T>, kind: ErrorKind) -> bool {
    result matches Err(e) ==> e.spec_kind() == kind
}

/// The operation succeeded, or failed with a failure of the given kind whose
/// detail begins with the given words.
pub open spec fn fails_only_with<T>(
    result: HsmResult<T>,
    kind: ErrorKind,
    words: Seq<char>,
) -> bool {
    result matches Err(e) ==> e.spec_kind() == kind && words.is_prefix_of(e.detail())
}

impl HsmError {
    /// The kind of this failure.
    pub open spec fn spec_kind(&self) -> ErrorKind {
        match self {
            HsmError::AuthenticationFailed(_) => ErrorKind::AuthenticationFailed,
            HsmError::SigningFailed(_) => ErrorKind::SigningFailed,
            HsmError::ListingFailed(_) => ErrorKind::ListingFailed,
            HsmError::VerificationFailed(_) => ErrorKind::VerificationFailed,
            HsmError::DeletionFailed(_) => ErrorKind::DeletionFailed,
            HsmError::InvalidKey(_) => ErrorKind::InvalidKey,
            HsmError::InvalidInput(_) => ErrorKind::InvalidInput,
            HsmError::GetPublicKeyFailed(_) => ErrorKind::GetPublicKeyFailed,
        }
    }

    /// The detail that this failure carries.
    pub open spec fn detail(&self) -> Seq<char> {
        match self {
            HsmError::AuthenticationFailed(d) => d@,
            HsmError::SigningFailed(d) => d@,
            HsmError::ListingFailed(d) => d@,
            HsmError::VerificationFailed(d) => d@,
            HsmError::DeletionFailed(d) => d@,
            HsmError::InvalidKey(d) => d@,
            HsmError::InvalidInput(d) => d@,
            HsmError::GetPublicKeyFailed(d) => d@,
        }
    }

    /// This failure is of the given kind and carries the given detail.
    pub open spec fn is(&self, kind: ErrorKind, detail: Seq<char>) -> bool {
        self.spec_kind() == kind && self.detail() == detail
    }

    /// The message shown to the operator: the words of the kind, then the detail.
    pub open spec fn spec_message(&self) -> Seq<char> {
        kind_prefix(self.spec_kind()) + self.detail()
    }

    #[verifier::when_used_as_spec(spec_kind)]
    pub fn kind(&self) -> (kind: ErrorKind)
        ensures
            kind == self.spec_kind(),
    {
        match self {
            HsmError::AuthenticationFailed(_) => ErrorKind::AuthenticationFailed,
            HsmError::SigningFailed(_) => ErrorKind::SigningFailed,
            HsmError::ListingFailed(_) => ErrorKind::ListingFailed,
            HsmError::VerificationFailed(_) => ErrorKind::VerificationFailed,
            HsmError::DeletionFailed(_) => ErrorKind::DeletionFailed,
            HsmError::InvalidKey(_) => ErrorKind::InvalidKey,
            HsmError::InvalidInput(_) => ErrorKind::InvalidInput,
            HsmError::GetPublicKeyFailed(_) => ErrorKind::GetPublicKeyFailed,
        }
    }

    /// The detail of this failure, without the words of its kind.
    pub fn detail_text(&self) -> (text: &String)
        ensures
            text@ == self.detail(),
    {
        match self {
            HsmError::AuthenticationFailed(d) => d,
            HsmError::SigningFailed(d) => d,
            HsmError::ListingFailed(d) => d,
            HsmError::VerificationFailed(d) => d,
            HsmError::DeletionFailed(d) => d,
            HsmError::InvalidKey(d) => d,
            HsmError::InvalidInput(d) => d,
            HsmError::GetPublicKeyFailed(d) => d,
        }
    }

    /// The message shown to the operator.
    pub fn message(&self) -> (text: String)
        ensures
            text@ == self.spec_message(),
    {
        let prefix = match self {
            HsmError::AuthenticationFailed(_) => "Authentication failed: ",
            HsmError::SigningFailed(_) => "Signing failed: ",
            HsmError::ListingFailed(_) => "Listing failed: ",
            HsmError::VerificationFailed(_) => "Verification failed: ",
            HsmError::DeletionFailed(_) => "Deletion failed: ",
            HsmError::InvalidKey(_) => "Invalid key: ",
            HsmError::InvalidInput(_) => "Invalid input: ",
            HsmError::GetPublicKeyFailed(_) => "Failed to get public key: ",
        };
        let mut text = String::from_str(prefix);
        text.append(self.detail_text().as_str());
        text
    }
}

} // verus!
