//! Vault Nova: a local-first password manager.
//!
//! The library holds the logic of the manager: the encrypted vault format,
//! the entry store, the unlock session with its timeout, the password
//! generator and the desktop preferences. Reading and writing files, JSON
//! encoding, the command line and the desktop window live outside.
pub mod text;
pub mod entries;
pub mod vault;
pub mod crypto;
pub mod password;
pub mod clock;
pub mod app_core;
pub mod desktop_prefs;
pub mod desktop;
pub mod location;
