//! Core of a local-first, multi-engine database client: sessions, query
//! tracking, statement safety and the credential vault.

pub mod commands;
pub mod engine;
pub mod policy;
pub mod text;
pub mod vault;
