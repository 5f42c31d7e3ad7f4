use qoredb::engine::error::{EngineError, ErrorKind};
use qoredb::engine::traits::{not_supported, EngineKind, Operation};
use qoredb::engine::types::CancelSupport;

#[test]
fn every_kind_has_message_and_code() {
    let cases: Vec<(EngineError, ErrorKind, &str, &str)> = vec![
        (EngineError::connection_failed("x"), ErrorKind::ConnectionFailed, "connection_failed", "Connection failed: x"),
        (EngineError::auth_failed("x"), ErrorKind::AuthFailed, "auth_failed", "Authentication failed: x"),
        (EngineError::timeout(15000), ErrorKind::Timeout, "timeout", "Operation timed out after 15000ms"),
        (EngineError::session_not_found("s"), ErrorKind::SessionNotFound, "session_not_found", "Session not found: s"),
        (EngineError::driver_not_found("d"), ErrorKind::DriverNotFound, "driver_not_found", "Driver not found: d"),
        (EngineError::syntax_error("x"), ErrorKind::SyntaxError, "syntax_error", "Syntax error: x"),
        (EngineError::execution_error("x"), ErrorKind::ExecutionError, "execution_error", "Execution error: x"),
        (EngineError::transaction_error("x"), ErrorKind::TransactionError, "transaction_error", "Transaction error: x"),
        (EngineError::not_supported("x"), ErrorKind::NotSupported, "not_supported", "Not supported: x"),
        (EngineError::ssh_error("x"), ErrorKind::SshError, "ssh_error", "SSH error: x"),
        (EngineError::internal("x"), ErrorKind::Internal, "internal", "Internal error: x"),
        (EngineError::policy_blocked("x"), ErrorKind::PolicyBlocked, "policy_blocked", "x"),
    ];
    for (e, kind, code, message) in cases {
        assert_eq!(e.kind(), kind);
        assert_eq!(e.code(), code);
        assert_eq!(kind.code(), code);
        assert_eq!(e.message(), message);
    }
}

#[test]
fn timeout_message_carries_budget() {
    assert_eq!(EngineError::timeout(0).message(), "Operation timed out after 0ms");
    assert_eq!(
        EngineError::timeout(u64::MAX).message(),
        "Operation timed out after 18446744073709551615ms"
    );
    match EngineError::timeout(10000) {
        EngineError::Timeout { timeout_ms } => assert_eq!(timeout_ms, 10000),
        other => panic!("unexpected: {other:?}"),
    }
}

#[test]
fn capabilities_of_the_engines() {
    for kind in [EngineKind::Postgres, EngineKind::MySql] {
        let c = kind.capabilities();
        assert!(c.transactions && c.mutations);
        assert_eq!(c.cancel, CancelSupport::Driver);
        assert!(kind.supports_transactions());
        assert!(kind.supports_mutations());
        assert_eq!(kind.cancel_support(), CancelSupport::Driver);
        for op in [Operation::Cancel, Operation::Transaction, Operation::Insert, Operation::Update, Operation::Delete] {
            assert!(kind.require(op).is_ok());
        }
    }
    let mongo = EngineKind::MongoDb;
    assert!(!mongo.supports_transactions());
    assert!(!mongo.supports_mutations());
    assert_eq!(mongo.cancel_support(), CancelSupport::BestEffort);
    assert!(mongo.require(Operation::Cancel).is_ok());
    match mongo.require(Operation::Transaction) {
        Err(EngineError::NotSupported { message }) => {
            assert_eq!(message, "Transactions are not supported by this driver")
        }
        other => panic!("unexpected: {other:?}"),
    }
    match mongo.require(Operation::Insert) {
        Err(EngineError::NotSupported { message }) => {
            assert_eq!(message, "Insert operations are not supported by this driver")
        }
        other => panic!("unexpected: {other:?}"),
    }
}

#[test]
fn unsupported_operations_have_their_messages() {
    let expect = [
        (Operation::Cancel, "Query cancellation is not supported by this driver"),
        (Operation::Transaction, "Transactions are not supported by this driver"),
        (Operation::Insert, "Insert operations are not supported by this driver"),
        (Operation::Update, "Update operations are not supported by this driver"),
        (Operation::Delete, "Delete operations are not supported by this driver"),
    ];
    for (op, message) in expect {
        match not_supported(op) {
            EngineError::NotSupported { message: m } => assert_eq!(m, message),
            other => panic!("unexpected: {other:?}"),
        }
    }
}

#[test]
fn engines_have_tags_and_names() {
    assert_eq!(EngineKind::Postgres.driver_id(), "postgres");
    assert_eq!(EngineKind::MySql.driver_id(), "mysql");
    assert_eq!(EngineKind::MongoDb.driver_id(), "mongodb");
    assert_eq!(EngineKind::Postgres.driver_name(), "PostgreSQL");
    assert_eq!(EngineKind::MySql.driver_name(), "MySQL / MariaDB");
    assert_eq!(EngineKind::MongoDb.driver_name(), "MongoDB");
    assert_eq!(EngineKind::from_driver_id("Postgres"), Some(EngineKind::Postgres));
    assert_eq!(EngineKind::from_driver_id("MYSQL"), Some(EngineKind::MySql));
    assert_eq!(EngineKind::from_driver_id("mongodb"), Some(EngineKind::MongoDb));
    assert_eq!(EngineKind::from_driver_id("sqlite"), None);
    assert_eq!(EngineKind::from_driver_id(""), None);
}
