//! Signing, verification and object management on a YubiHSM 2, with the
//! session handling and the encoding rules around them stated as contracts.
//!
//! [`hsm`] holds the session manager, the cryptographic adapter, the object
//! inventory and the deletion guard. [`app`] holds the state behind the
//! screens of the desktop application and what each action does to it.
//! [`text`] holds the small formatting routines that the messages and
//! listings are built from, and [`config`] the identifiers used by default.

pub mod app;
pub mod config;
pub mod hsm;
pub mod text;
