//! The engine: data model, session and query bookkeeping, statement
//! classification and what the drivers decide before they touch a server.

pub mod drivers;
pub mod error;
pub mod ids;
pub mod query_manager;
pub mod registry;
pub mod session_manager;
pub mod sql_safety;
pub mod ssh_tunnel;
pub mod traits;
pub mod types;
pub mod value;

pub use error::{EngineError, ErrorKind};
pub use ids::{QueryId, SessionId};
pub use query_manager::QueryManager;
pub use registry::DriverRegistry;
pub use session_manager::SessionManager;
