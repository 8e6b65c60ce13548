//! Platform-independent heart of the 3FA desktop authenticator.
//!
//! The crate holds the rules of the application: which vault phases follow on
//! which events, who may hold decrypted material, how a file is replaced
//! without ever losing it, and in which order the sign-in, PIN and sync
//! conversations run. Every rule is stated as a contract and proved.

pub mod accounts;
pub mod app_state;
pub mod clipboard;
pub mod controller;
pub mod controller_laws;
pub mod lifecycle_laws;
pub mod notice;
pub mod pin_unlock;
pub mod saving;
pub mod sign_in;
pub mod storage;
pub mod storage_laws;
pub mod sync_run;
pub mod text;

use vstd::prelude::*;

verus! {

/// Default name of the vault file within the data directory.
pub const VAULT_FILENAME: &'static str = "default.vault";

} // verus!
