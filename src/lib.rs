//! Core of an on-host attestation agent: the measurement-extension protocol
//! that keeps a hardware measurement register and a hash-chained event log in
//! lock-step, together with the hash algorithms, the canonical event encoding,
//! the configuration and the token-type resolution it relies on.

pub mod hash;
pub mod eventlog;
pub mod config;
pub mod error;
pub mod token;
pub mod agent;
