//! Arca: a local-first password vault core with a verified machine contract.
pub mod text;
pub mod types;
pub mod wipe;
pub mod clock;
pub mod entry;
pub mod generator;
pub mod secret;
pub mod api;
pub mod error;
pub mod kdbx;
pub mod json;
pub mod history;
pub mod vault;
pub mod mobile_session;
pub mod crypto;
pub mod desktop;
pub mod fuzz;
