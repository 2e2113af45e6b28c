//! Session management and the operations on a device.

pub mod client;
pub mod crypto;
pub mod error;
pub mod laws;
pub mod object;
pub mod operations;

pub use client::{Command, Exchange, HsmClient, HsmConfig, Opening, Reply, SessionManager};
pub use error::{ErrorKind, HsmError, HsmResult};
pub use object::{Algorithm, ObjectEntry, ObjectInfo, ObjectSummary, ObjectType, PublicKey};
pub use operations::{
    delete_object, get_object_info, get_public_key, list_object_summaries, list_objects, sign,
    verify,
};
