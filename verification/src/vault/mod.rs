//! The credential vault: saved connections, their secrets, and the
//! master-password lock in front of them.

pub mod credentials;
pub mod lock;
pub mod storage;

pub use credentials::SavedConnection;
pub use lock::VaultLock;
pub use storage::VaultStorage;
