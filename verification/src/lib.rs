//! Core of a dynamic-DNS updater: change detection over probed public IP
//! addresses, per-zone name caching, HTTP status classification, and the
//! update loop expressed as a verified state machine. All network and file
//! I/O is performed by an unverified driver that feeds events into the
//! machine and carries out the directives it returns.

pub mod cache;
pub mod config;
pub mod errors;
pub mod ip;
pub mod json;
pub mod laws;
pub mod machine;
pub mod text;
pub mod zones;
