//! Core of a self-update checker: remote/local version comparison, filename
//! derivation from a download URL, a model of the persisted version marker,
//! chunked download accumulation with progress, and the orchestrator that
//! drives one check-and-maybe-download run as a verified state machine.

pub mod download;
pub mod filename;
pub mod orchestrator;
pub mod store;
pub mod text;
pub mod version;
