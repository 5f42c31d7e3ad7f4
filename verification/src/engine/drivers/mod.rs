//! What the drivers decide and build before they talk to a server.

pub mod mongodb;
pub mod relational;
pub mod session;
