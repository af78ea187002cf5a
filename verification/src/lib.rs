//! A verified core for a desktop text-to-speech client: the credentialed
//! request/response pipeline between a caller and the provider's HTTP API.
//!
//! The library validates the caller's request, builds the provider's JSON
//! request from it and the stored API key, classifies the HTTP outcome into
//! an exhaustive error taxonomy, and wraps every result — audio encoded
//! text-safe for the caller boundary, or a stable human-readable message —
//! in a uniform success/error envelope. The outside work itself (the OS
//! keyring, the HTTP POST, the save dialog, the file write) is performed by
//! a driver, which hands its plain outcomes to the library and follows the
//! step values the library returns; every decision along the way is made and
//! proved here.

pub mod classify;
pub mod credential;
pub mod encoding;
pub mod envelope;
pub mod jsonenc;
pub mod messages;
pub mod numerals;
pub mod save;
pub mod strbuild;
pub mod synth;
pub mod textcheck;
pub mod transport;
