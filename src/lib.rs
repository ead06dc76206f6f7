//! Validation and construction core of a service that builds unsigned
//! instruction payloads and performs ed25519 key operations.

pub mod encoding;
pub mod error;
pub mod address;
pub mod keys;
pub mod instructions;
pub mod models;
pub mod handlers;
