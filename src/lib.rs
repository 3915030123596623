//! Session storage for the newsletter service: a payload type, its JSON codec,
//! session key generation, an in-memory conditional table, and the session
//! protocol (load, save, update, renew, delete) built on single-key
//! conditional writes.

pub mod assoc;
pub mod codec;
pub mod config;
pub mod domain;
pub mod error;
pub mod service_errors;
pub mod key;
pub mod payload;
pub mod store;
pub mod table;
pub mod telemetry;
