//! The operations offered to the outside, as far as they decide anything:
//! validation, policy, and the envelopes in which outcomes are reported.

pub mod connection;
pub mod mutation;
pub mod policy;
pub mod query;
pub mod vault;
