//! What every driver declares of itself: its tag, its name and what it is
//! able to do.

use crate::engine::error::{EngineError, ErrorKind};
use crate::engine::types::CancelSupport;
use crate::text::{eq_ignore_ascii_case, eq_ignoring_ascii_case};
use vstd::prelude::*;
use vstd::string::*;

verus! {

/// What a driver is able to do.
#[derive(Debug, Clone, Copy, PartialEq, Eq, Structural)]
pub struct DriverCapabilities {
    /// Transactions can be begun, committed and rolled back.
    pub transactions: bool,
    /// Rows can be inserted, updated and deleted.
    pub mutations: bool,
    /// How far a running query can be cancelled.
    pub cancel: CancelSupport,
}

/// The engines that are served.
#[derive(Debug, Clone, Copy, PartialEq, Eq, Structural)]
pub enum EngineKind {
    Postgres,
    MySql,
    MongoDb,
}

/// An operation that a driver may lack.
#[derive(Debug, Clone, Copy, PartialEq, Eq, Structural)]
pub enum Operation {
    Cancel,
    Transaction,
    Insert,
    Update,
    Delete,
}

/// The message with which an operation is refused by a driver that lacks
/// it.
pub open spec fn unsupported_message(op: Operation) -> Seq<char> {
    match op {
        Operation::Cancel => "Query cancellation is not supported by this driver"@,
        Operation::Transaction => "Transactions are not supported by this driver"@,
        Operation::Insert => "Insert operations are not supported by this driver"@,
        Operation::Update => "Update operations are not supported by this driver"@,
        Operation::Delete => "Delete operations are not supported by this driver"@,
    }
}

/// The failure with which an operation is refused by a driver that lacks
/// it.
pub fn not_supported(op: Operation) -> (e: EngineError)
    ensures
        e.is(ErrorKind::NotSupported, unsupported_message(op)),
{
    match op {
        Operation::Cancel => EngineError::not_supported(
            "Query cancellation is not supported by this driver",
        ),
        Operation::Transaction => EngineError::not_supported(
            "Transactions are not supported by this driver",
        ),
        Operation::Insert => EngineError::not_supported(
            "Insert operations are not supported by this driver",
        ),
        Operation::Update => EngineError::not_supported(
            "Update operations are not supported by this driver",
        ),
        Operation::Delete => EngineError::not_supported(
            "Delete operations are not supported by this driver",
        ),
    }
}

impl EngineKind {
    /// The tag under which the driver is registered.
    pub open spec fn id(&self) -> Seq<char> {
        match self {
            EngineKind::Postgres => "postgres"@,
            EngineKind::MySql => "mysql"@,
            EngineKind::MongoDb => "mongodb"@,
        }
    }

    /// What the driver of the engine is able to do. The relational
    /// engines have transactions, row mutations and server-side
    /// cancellation; the document store has none of the first two, and
    /// its cancellation is a request that does nothing.
    pub open spec fn abilities(&self) -> DriverCapabilities {
        match self {
            EngineKind::Postgres | EngineKind::MySql => DriverCapabilities {
                transactions: true,
                mutations: true,
                cancel: CancelSupport::Driver,
            },
            EngineKind::MongoDb => DriverCapabilities {
                transactions: false,
                mutations: false,
                cancel: CancelSupport::BestEffort,
            },
        }
    }

    /// The tag under which the driver is registered.
    pub fn driver_id(&self) -> (s: &'static str)
        ensures
            s@ == self.id(),
    {
        match self {
            EngineKind::Postgres => "postgres",
            EngineKind::MySql => "mysql",
            EngineKind::MongoDb => "mongodb",
        }
    }

    /// The name of the engine, as shown.
    pub fn driver_name(&self) -> (s: &'static str)
        ensures
            s@ == (match self {
                EngineKind::Postgres => "PostgreSQL"@,
                EngineKind::MySql => "MySQL / MariaDB"@,
                EngineKind::MongoDb => "MongoDB"@,
            }),
    {
        match self {
            EngineKind::Postgres => "PostgreSQL",
            EngineKind::MySql => "MySQL / MariaDB",
            EngineKind::MongoDb => "MongoDB",
        }
    }

    /// What the driver of the engine is able to do.
    pub fn capabilities(&self) -> (c: DriverCapabilities)
        ensures
            c == self.abilities(),
    {
        match self {
            EngineKind::Postgres | EngineKind::MySql => DriverCapabilities {
                transactions: true,
                mutations: true,
                cancel: CancelSupport::Driver,
            },
            EngineKind::MongoDb => DriverCapabilities {
                transactions: false,
                mutations: false,
                cancel: CancelSupport::BestEffort,
            },
        }
    }

    /// Whether the driver has transactions.
    pub fn supports_transactions(&self) -> (b: bool)
        ensures
            b == self.abilities().transactions,
    {
        self.capabilities().transactions
    }

    /// Whether the driver can insert, update and delete rows.
    pub fn supports_mutations(&self) -> (b: bool)
        ensures
            b == self.abilities().mutations,
    {
        self.capabilities().mutations
    }

    /// How far the driver can cancel a running query.
    pub fn cancel_support(&self) -> (c: CancelSupport)
        ensures
            c == self.abilities().cancel,
    {
        self.capabilities().cancel
    }

    /// Lets an operation through where the driver has it, and refuses it
    /// where it has not.
    pub fn require(&self, op: Operation) -> (r: Result<(), EngineError>)
        ensures
            match op {
                Operation::Cancel => r is Ok,
                Operation::Transaction => if self.abilities().transactions {
                    r is Ok
                } else {
                    r is Err && r->Err_0.is(ErrorKind::NotSupported, unsupported_message(op))
                },
                _ => if self.abilities().mutations {
                    r is Ok
                } else {
                    r is Err && r->Err_0.is(ErrorKind::NotSupported, unsupported_message(op))
                },
            },
    {
        let c = self.capabilities();
        let allowed = match op {
            Operation::Cancel => true,
            Operation::Transaction => c.transactions,
            _ => c.mutations,
        };
        if allowed {
            Ok(())
        } else {
            Err(not_supported(op))
        }
    }

    /// The engine whose driver is registered under a tag, case ignored.
    pub open spec fn of_id(id: Seq<char>) -> Option<EngineKind> {
        if eq_ignoring_ascii_case(id, "postgres"@) {
            Some(EngineKind::Postgres)
        } else if eq_ignoring_ascii_case(id, "mysql"@) {
            Some(EngineKind::MySql)
        } else if eq_ignoring_ascii_case(id, "mongodb"@) {
            Some(EngineKind::MongoDb)
        } else {
            None
        }
    }

    /// The engine whose driver is registered under a tag, case ignored.
    pub fn from_driver_id(id: &str) -> (r: Option<EngineKind>)
        ensures
            r == Self::of_id(id@),
    {
        if eq_ignore_ascii_case(id, "postgres") {
            Some(EngineKind::Postgres)
        } else if eq_ignore_ascii_case(id, "mysql") {
            Some(EngineKind::MySql)
        } else if eq_ignore_ascii_case(id, "mongodb") {
            Some(EngineKind::MongoDb)
        } else {
            None
        }
    }
}

} // verus!
