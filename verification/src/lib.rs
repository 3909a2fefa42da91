//! Refreshing temporary AWS session credentials with an MFA code.
//!
//! The library holds the decisions of the refresh: what is read from the
//! credentials file, which operator input counts as an MFA code, what is asked
//! of the session-token service, and what is written back to the file. Reading
//! the keyboard, reaching the network and touching the disk are left to the
//! caller, which hands over plain values and gets plain values back.

pub mod credentials;
pub mod document;
pub mod error;
pub mod file;
pub mod ini_crate;
pub mod reader;
pub mod session;
pub mod token;
pub mod writer;
