//! Configuration as one resolved snapshot.
//!
//! Raw sources (`config.toml`, environment overrides, credentials) are resolved
//! purely into the settings every caller consumes plus a redacted report of
//! issues and provenance.

pub mod laws;
pub mod provider;
pub mod report;
pub mod resolve;
pub mod resolved;
pub mod snapshot;
pub mod sources;
pub mod strict;
pub mod strict_laws;
pub mod write;
