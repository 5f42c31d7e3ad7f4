//! The closed set of failures the engine reports.

use crate::text::{concat2, concat3, decimal, decimal_string};
use vstd::prelude::*;
use vstd::string::*;

verus! {

/// The kind of a failure, without its detail.
#[derive(Debug, Clone, Copy, PartialEq, Eq, Structural)]
pub enum ErrorKind {
    ConnectionFailed,
    AuthFailed,
    Timeout,
    SessionNotFound,
    DriverNotFound,
    SyntaxError,
    ExecutionError,
    TransactionError,
    NotSupported,
    SshError,
    Internal,
    PolicyBlocked,
}

/// A failure of an engine operation.
#[derive(Debug, Clone)]
pub enum EngineError {
    /// Network or TLS failure, pool acquire failure, tunnel handshake failure.
    ConnectionFailed { message: String },
    /// The server refused the credentials, or the master password was wrong.
    AuthFailed { message: String },
    /// A deadline passed; carries the budget that was exceeded.
    Timeout { timeout_ms: u64 },
    /// The session identifier is not known.
    SessionNotFound { session_id: String },
    /// The driver tag is not registered.
    DriverNotFound { driver_id: String },
    /// The server reported a syntax error.
    SyntaxError { message: String },
    /// The server reported another error, or a cancellation found no target.
    ExecutionError { message: String },
    /// A transaction was begun twice, or ended without having begun.
    TransactionError { message: String },
    /// The driver lacks the capability.
    NotSupported { message: String },
    /// The tunnel process failed to start, died early, or never became ready.
    SshError { message: String },
    /// An invariant was violated or a value could not be serialised.
    Internal { message: String },
    /// A safety rule refused the operation.
    PolicyBlocked { message: String },
}

/// The lead of the rendered message of each kind. A refusal by a safety
/// rule is rendered as its reason alone.
pub open spec fn message_prefix(kind: ErrorKind) -> Seq<char> {
    match kind {
        ErrorKind::ConnectionFailed => "Connection failed: "@,
        ErrorKind::AuthFailed => "Authentication failed: "@,
        ErrorKind::Timeout => "Operation timed out after "@,
        ErrorKind::SessionNotFound => "Session not found: "@,
        ErrorKind::DriverNotFound => "Driver not found: "@,
        ErrorKind::SyntaxError => "Syntax error: "@,
        ErrorKind::ExecutionError => "Execution error: "@,
        ErrorKind::TransactionError => "Transaction error: "@,
        ErrorKind::NotSupported => "Not supported: "@,
        ErrorKind::SshError => "SSH error: "@,
        ErrorKind::Internal => "Internal error: "@,
        ErrorKind::PolicyBlocked => ""@,
    }
}

/// The stable classification string of each kind.
pub open spec fn kind_code(kind: ErrorKind) -> Seq<char> {
    match kind {
        ErrorKind::ConnectionFailed => "connection_failed"@,
        ErrorKind::AuthFailed => "auth_failed"@,
        ErrorKind::Timeout => "timeout"@,
        ErrorKind::SessionNotFound => "session_not_found"@,
        ErrorKind::DriverNotFound => "driver_not_found"@,
        ErrorKind::SyntaxError => "syntax_error"@,
        ErrorKind::ExecutionError => "execution_error"@,
        ErrorKind::TransactionError => "transaction_error"@,
        ErrorKind::NotSupported => "not_supported"@,
        ErrorKind::SshError => "ssh_error"@,
        ErrorKind::Internal => "internal"@,
        ErrorKind::PolicyBlocked => "policy_blocked"@,
    }
}

impl ErrorKind {
    /// The stable classification string of this kind.
    pub fn code(&self) -> (r: &'static str)
        ensures
            r@ == kind_code(*self),
    {
        match self {
            ErrorKind::ConnectionFailed => "connection_failed",
            ErrorKind::AuthFailed => "auth_failed",
            ErrorKind::Timeout => "timeout",
            ErrorKind::SessionNotFound => "session_not_found",
            ErrorKind::DriverNotFound => "driver_not_found",
            ErrorKind::SyntaxError => "syntax_error",
            ErrorKind::ExecutionError => "execution_error",
            ErrorKind::TransactionError => "transaction_error",
            ErrorKind::NotSupported => "not_supported",
            ErrorKind::SshError => "ssh_error",
            ErrorKind::Internal => "internal",
            ErrorKind::PolicyBlocked => "policy_blocked",
        }
    }
}

impl EngineError {
    /// The kind of this failure.
    pub open spec fn kind_spec(&self) -> ErrorKind {
        match self {
            EngineError::ConnectionFailed { .. } => ErrorKind::ConnectionFailed,
            EngineError::AuthFailed { .. } => ErrorKind::AuthFailed,
            EngineError::Timeout { .. } => ErrorKind::Timeout,
            EngineError::SessionNotFound { .. } => ErrorKind::SessionNotFound,
            EngineError::DriverNotFound { .. } => ErrorKind::DriverNotFound,
            EngineError::SyntaxError { .. } => ErrorKind::SyntaxError,
            EngineError::ExecutionError { .. } => ErrorKind::ExecutionError,
            EngineError::TransactionError { .. } => ErrorKind::TransactionError,
            EngineError::NotSupported { .. } => ErrorKind::NotSupported,
            EngineError::SshError { .. } => ErrorKind::SshError,
            EngineError::Internal { .. } => ErrorKind::Internal,
            EngineError::PolicyBlocked { .. } => ErrorKind::PolicyBlocked,
        }
    }

    /// What the failure carries: its message, the identifier that was not
    /// found, or the exceeded budget in decimal followed by `ms`.
    pub open spec fn detail(&self) -> Seq<char> {
        match self {
            EngineError::ConnectionFailed { message } => message@,
            EngineError::AuthFailed { message } => message@,
            EngineError::Timeout { timeout_ms } => decimal(*timeout_ms as nat) + "ms"@,
            EngineError::SessionNotFound { session_id } => session_id@,
            EngineError::DriverNotFound { driver_id } => driver_id@,
            EngineError::SyntaxError { message } => message@,
            EngineError::ExecutionError { message } => message@,
            EngineError::TransactionError { message } => message@,
            EngineError::NotSupported { message } => message@,
            EngineError::SshError { message } => message@,
            EngineError::Internal { message } => message@,
            EngineError::PolicyBlocked { message } => message@,
        }
    }

    /// Whether this failure has the given kind and detail.
    pub open spec fn is(&self, kind: ErrorKind, detail: Seq<char>) -> bool {
        self.kind_spec() == kind && self.detail() == detail
    }

    /// The rendered message: the lead of the kind, then the detail.
    pub open spec fn message_spec(&self) -> Seq<char> {
        message_prefix(self.kind_spec()) + self.detail()
    }

    pub fn connection_failed(message: &str) -> (e: Self)
        ensures
            e.is(ErrorKind::ConnectionFailed, message@),
    {
        EngineError::ConnectionFailed { message: String::from_str(message) }
    }

    pub fn auth_failed(message: &str) -> (e: Self)
        ensures
            e.is(ErrorKind::AuthFailed, message@),
    {
        EngineError::AuthFailed { message: String::from_str(message) }
    }

    pub fn timeout(timeout_ms: u64) -> (e: Self)
        ensures
            e == (EngineError::Timeout { timeout_ms }),
    {
        EngineError::Timeout { timeout_ms }
    }

    pub fn session_not_found(session_id: &str) -> (e: Self)
        ensures
            e.is(ErrorKind::SessionNotFound, session_id@),
    {
        EngineError::SessionNotFound { session_id: String::from_str(session_id) }
    }

    pub fn driver_not_found(driver_id: &str) -> (e: Self)
        ensures
            e.is(ErrorKind::DriverNotFound, driver_id@),
    {
        EngineError::DriverNotFound { driver_id: String::from_str(driver_id) }
    }

    pub fn syntax_error(message: &str) -> (e: Self)
        ensures
            e.is(ErrorKind::SyntaxError, message@),
    {
        EngineError::SyntaxError { message: String::from_str(message) }
    }

    pub fn execution_error(message: &str) -> (e: Self)
        ensures
            e.is(ErrorKind::ExecutionError, message@),
    {
        EngineError::ExecutionError { message: String::from_str(message) }
    }

    pub fn transaction_error(message: &str) -> (e: Self)
        ensures
            e.is(ErrorKind::TransactionError, message@),
    {
        EngineError::TransactionError { message: String::from_str(message) }
    }

    pub fn not_supported(message: &str) -> (e: Self)
        ensures
            e.is(ErrorKind::NotSupported, message@),
    {
        EngineError::NotSupported { message: String::from_str(message) }
    }

    pub fn ssh_error(message: &str) -> (e: Self)
        ensures
            e.is(ErrorKind::SshError, message@),
    {
        EngineError::SshError { message: String::from_str(message) }
    }

    pub fn internal(message: &str) -> (e: Self)
        ensures
            e.is(ErrorKind::Internal, message@),
    {
        EngineError::Internal { message: String::from_str(message) }
    }

    pub fn policy_blocked(message: &str) -> (e: Self)
        ensures
            e.is(ErrorKind::PolicyBlocked, message@),
    {
        EngineError::PolicyBlocked { message: String::from_str(message) }
    }

    /// The kind of this failure.
    pub fn kind(&self) -> (k: ErrorKind)
        ensures
            k == self.kind_spec(),
    {
        match self {
            EngineError::ConnectionFailed { .. } => ErrorKind::ConnectionFailed,
            EngineError::AuthFailed { .. } => ErrorKind::AuthFailed,
            EngineError::Timeout { .. } => ErrorKind::Timeout,
            EngineError::SessionNotFound { .. } => ErrorKind::SessionNotFound,
            EngineError::DriverNotFound { .. } => ErrorKind::DriverNotFound,
            EngineError::SyntaxError { .. } => ErrorKind::SyntaxError,
            EngineError::ExecutionError { .. } => ErrorKind::ExecutionError,
            EngineError::TransactionError { .. } => ErrorKind::TransactionError,
            EngineError::NotSupported { .. } => ErrorKind::NotSupported,
            EngineError::SshError { .. } => ErrorKind::SshError,
            EngineError::Internal { .. } => ErrorKind::Internal,
            EngineError::PolicyBlocked { .. } => ErrorKind::PolicyBlocked,
        }
    }

    /// The stable classification string of this failure.
    pub fn code(&self) -> (r: &'static str)
        ensures
            r@ == kind_code(self.kind_spec()),
    {
        self.kind().code()
    }

    /// The rendered message of this failure.
    pub fn message(&self) -> (r: String)
        ensures
            r@ == self.message_spec(),
    {
        match self {
            EngineError::ConnectionFailed { message } => concat2("Connection failed: ", message),
            EngineError::AuthFailed { message } => concat2("Authentication failed: ", message),
            EngineError::Timeout { timeout_ms } => {
                let n = decimal_string(*timeout_ms);
                let r = concat3("Operation timed out after ", n.as_str(), "ms");
                r
            },
            EngineError::SessionNotFound { session_id } => concat2(
                "Session not found: ",
                session_id,
            ),
            EngineError::DriverNotFound { driver_id } => concat2("Driver not found: ", driver_id),
            EngineError::SyntaxError { message } => concat2("Syntax error: ", message),
            EngineError::ExecutionError { message } => concat2("Execution error: ", message),
            EngineError::TransactionError { message } => concat2("Transaction error: ", message),
            EngineError::NotSupported { message } => concat2("Not supported: ", message),
            EngineError::SshError { message } => concat2("SSH error: ", message),
            EngineError::Internal { message } => concat2("Internal error: ", message),
            EngineError::PolicyBlocked { message } => concat2("", message),
        }
    }
}

} // verus!
