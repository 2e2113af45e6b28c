//! Identifiers that the application uses unless told otherwise.

use vstd::prelude::*;

verus! {

/// Identifier of the authentication key that opens a session.
pub const DEFAULT_AUTH_KEY_ID: u16 = 1;

/// Identifier of the P-256 signing key held by the device.
pub const DEFAULT_SIGNING_KEY_ID: u16 = 0xf35b;

} // verus!
