use qoredb::engine::drivers::relational::{
    SqlEngine, POOL_ACQUIRE_TIMEOUT_SECS, POOL_MAX_CONNECTIONS, TEST_ACQUIRE_TIMEOUT_SECS,
    TEST_MAX_CONNECTIONS,
};
use qoredb::engine::drivers::session::{DriverSession, ExecutePlan, Route, TransactionEnd};
use qoredb::engine::error::EngineError;
use qoredb::engine::ids::{QueryId, SessionId};
use qoredb::engine::registry::DriverRegistry;
use qoredb::engine::session_manager::{
    display_name_for, driver_for, timeout_error, tunneled_config, SessionManager,
    CONNECT_TIMEOUT_MS, TEST_TIMEOUT_MS,
};
use qoredb::engine::traits::EngineKind;
use qoredb::engine::types::ConnectionConfig;

fn config(driver: &str, environment: &str, read_only: bool) -> ConnectionConfig {
    ConnectionConfig {
        driver: driver.to_string(),
        host: "db.example.com".to_string(),
        port: 5432,
        username: "app".to_string(),
        password: "pw".to_string(),
        database: Some("shop".to_string()),
        ssl: false,
        environment: environment.to_string(),
        read_only,
        ssh_tunnel: None,
    }
}

#[test]
fn registry_looks_up_by_tag() {
    let mut registry: DriverRegistry<u32> = DriverRegistry::new();
    assert!(registry.is_empty());
    assert_eq!(registry.len(), 0);
    registry.register("postgres", 1);
    registry.register("mysql", 2);
    assert_eq!(registry.len(), 2);
    assert!(!registry.is_empty());
    assert_eq!(registry.get("postgres"), Some(&1));
    assert_eq!(registry.get("mysql"), Some(&2));
    assert_eq!(registry.get("mongodb"), None);
    assert_eq!(registry.get("Postgres"), None);
    assert_eq!(registry.list(), vec!["postgres", "mysql"]);
    // A second registration under a tag replaces the first.
    registry.register("postgres", 3);
    assert_eq!(registry.len(), 2);
    assert_eq!(registry.get("postgres"), Some(&3));
    assert_eq!(registry.get("mysql"), Some(&2));
    assert!(DriverRegistry::<u32>::default().is_empty());
}

#[test]
fn registry_of_the_three_engines() {
    let registry =
        DriverRegistry::with_engines(EngineKind::Postgres, EngineKind::MySql, EngineKind::MongoDb);
    assert_eq!(registry.len(), 3);
    assert_eq!(registry.list(), vec!["postgres", "mysql", "mongodb"]);
    assert_eq!(registry.get("mongodb"), Some(&EngineKind::MongoDb));
    for id in registry.list() {
        assert_eq!(registry.get(id).unwrap().driver_id(), id);
    }
}

#[test]
fn unknown_driver_is_reported() {
    let registry = DriverRegistry::with_engines(1, 2, 3);
    assert_eq!(driver_for(&registry, "mysql").unwrap(), &2);
    match driver_for(&registry, "oracle") {
        Err(EngineError::DriverNotFound { driver_id }) => assert_eq!(driver_id, "oracle"),
        other => panic!("unexpected: {other:?}"),
    }
}

#[test]
fn display_names_follow_convention() {
    let c = config("postgres", "development", false);
    assert_eq!(display_name_for(&c, false), "app@db.example.com:shop");
    assert_eq!(display_name_for(&c, true), "app@db.example.com:shop (SSH)");
    let mut c = c;
    c.database = None;
    assert_eq!(display_name_for(&c, false), "app@db.example.com:default");
}

#[test]
fn tunnel_rewrites_host_and_port_only() {
    let c = config("postgres", "production", true);
    let t = tunneled_config(&c, 50123);
    assert_eq!(t.host, "127.0.0.1");
    assert_eq!(t.port, 50123);
    assert_eq!(t.driver, "postgres");
    assert_eq!(t.username, "app");
    assert_eq!(t.password, "pw");
    assert_eq!(t.database.as_deref(), Some("shop"));
    assert_eq!(t.environment, "production");
    assert!(t.read_only);
}

#[test]
fn timeouts_have_their_budgets() {
    assert_eq!(CONNECT_TIMEOUT_MS, 15000);
    assert_eq!(TEST_TIMEOUT_MS, 10000);
    match timeout_error(TEST_TIMEOUT_MS) {
        EngineError::Timeout { timeout_ms } => assert_eq!(timeout_ms, 10000),
        other => panic!("unexpected: {other:?}"),
    }
}

#[test]
fn session_manager_records_and_forgets_sessions() {
    let registry = DriverRegistry::with_engines("pg", "my", "mongo");
    let mut manager: SessionManager<&str, u16> = SessionManager::new(registry);
    let a = SessionId(1);
    let b = SessionId(2);
    assert!(!manager.session_exists(a));
    assert!(manager.list_sessions().is_empty());

    manager.connect(a, config("postgres", "production", true), Some(40000)).unwrap();
    manager.connect(b, config("mysql", "staging", false), None).unwrap();
    assert_eq!(manager.driver("mongodb").unwrap(), &"mongo");
    assert!(manager.session_exists(a));
    assert!(manager.session_exists(b));
    assert_eq!(manager.is_read_only(a).unwrap(), true);
    assert_eq!(manager.is_read_only(b).unwrap(), false);
    assert_eq!(manager.is_production(a).unwrap(), true);
    assert_eq!(manager.is_production(b).unwrap(), false);
    assert_eq!(manager.get_session_info(a).as_deref(), Some("app@db.example.com:shop (SSH)"));
    assert_eq!(manager.get_session_info(b).as_deref(), Some("app@db.example.com:shop"));
    assert_eq!(manager.get_driver(a).unwrap(), &"pg");
    assert_eq!(manager.get_driver(b).unwrap(), &"my");

    let mut listed = manager.list_sessions();
    listed.sort_by_key(|(id, _)| id.0);
    assert_eq!(
        listed,
        vec![
            (a, "app@db.example.com:shop (SSH)".to_string()),
            (b, "app@db.example.com:shop".to_string()),
        ]
    );

    let removed = manager.disconnect(a).ok().unwrap();
    assert_eq!(removed.driver_id, "postgres");
    assert_eq!(removed.tunnel, Some(40000));
    assert_eq!(removed.config.host, "db.example.com");
    assert!(!manager.session_exists(a));
    assert!(manager.session_exists(b));
    assert_eq!(manager.list_sessions().len(), 1);
}

#[test]
fn unknown_session_is_reported() {
    let registry = DriverRegistry::with_engines("pg", "my", "mongo");
    let mut manager: SessionManager<&str, ()> = SessionManager::new(registry);
    let id = SessionId(0xabc);
    let text = "00000000-0000-0000-0000-000000000abc";
    match manager.is_read_only(id) {
        Err(EngineError::SessionNotFound { session_id }) => assert_eq!(session_id, text),
        other => panic!("unexpected: {other:?}"),
    }
    assert!(manager.is_production(id).is_err());
    assert!(manager.get_session_info(id).is_none());
    match manager.get_driver(id) {
        Err(EngineError::SessionNotFound { session_id }) => assert_eq!(session_id, text),
        other => panic!("unexpected: {other:?}"),
    }
    match manager.disconnect(id) {
        Err(EngineError::SessionNotFound { session_id }) => assert_eq!(session_id, text),
        _ => panic!("a failure was expected"),
    }
    // A session whose driver is not registered is not recorded.
    match manager.connect(id, config("oracle", "development", false), None) {
        Err(EngineError::DriverNotFound { driver_id }) => assert_eq!(driver_id, "oracle"),
        other => panic!("unexpected: {other:?}"),
    }
    assert!(!manager.session_exists(id));
    match manager.driver("oracle") {
        Err(EngineError::DriverNotFound { driver_id }) => assert_eq!(driver_id, "oracle"),
        other => panic!("unexpected: {other:?}"),
    }
}

#[test]
fn production_is_matched_exactly() {
    let mut manager: SessionManager<u8, ()> =
        SessionManager::new(DriverRegistry::with_engines(1, 2, 3));
    manager.connect(SessionId(1), config("postgres", "Production", false), None).unwrap();
    assert_eq!(manager.is_production(SessionId(1)).unwrap(), false);
    manager.connect(SessionId(2), config("postgres", "production", false), None).unwrap();
    assert_eq!(manager.is_production(SessionId(2)).unwrap(), true);
}

#[test]
fn transaction_affinity() {
    let mut session: DriverSession<i32> = DriverSession::new();
    assert!(!session.has_active_transaction());
    assert_eq!(session.route(), Route::Pool);
    assert!(session.begin_transaction().is_ok());
    session.complete_begin(Ok(())).unwrap();
    assert!(session.has_active_transaction());
    assert_eq!(session.route(), Route::Transaction);

    // A second transaction is refused, and the first stays open.
    match session.begin_transaction() {
        Err(EngineError::TransactionError { message }) => {
            assert_eq!(message, "A transaction is already active on this session")
        }
        other => panic!("unexpected: {other:?}"),
    }
    assert!(session.complete_begin(Ok(())).is_err());
    assert!(session.has_active_transaction());

    session.rollback().unwrap();
    assert!(!session.has_active_transaction());
    assert_eq!(session.route(), Route::Pool);
    assert!(session.begin_transaction().is_ok());
    session.complete_begin(Ok(())).unwrap();
    session.commit().unwrap();
    assert!(!session.has_active_transaction());
}

#[test]
fn ending_without_transaction_fails() {
    let mut session: DriverSession<u64> = DriverSession::new();
    match session.commit() {
        Err(EngineError::TransactionError { message }) => {
            assert_eq!(message, "No active transaction to commit")
        }
        other => panic!("unexpected: {other:?}"),
    }
    match session.rollback() {
        Err(EngineError::TransactionError { message }) => {
            assert_eq!(message, "No active transaction to rollback")
        }
        other => panic!("unexpected: {other:?}"),
    }
    assert!(session.end_transaction(TransactionEnd::Commit).is_err());
    assert_eq!(TransactionEnd::Commit.statement(), "COMMIT");
    assert_eq!(TransactionEnd::Rollback.statement(), "ROLLBACK");
}

#[test]
fn failed_begin_leaves_no_transaction() {
    let mut session: DriverSession<u64> = DriverSession::new();
    match session.complete_begin(Err(EngineError::connection_failed("pool timed out"))) {
        Err(EngineError::ConnectionFailed { message }) => assert_eq!(message, "pool timed out"),
        other => panic!("unexpected: {other:?}"),
    }
    assert!(!session.has_active_transaction());
    assert!(session.begin_transaction().is_ok());
}

#[test]
fn cancel_sees_exactly_the_running_queries() {
    let mut session: DriverSession<i32> = DriverSession::new();
    match session.cancel(None) {
        Err(EngineError::ExecutionError { message }) => {
            assert_eq!(message, "No active queries to cancel")
        }
        other => panic!("unexpected: {other:?}"),
    }
    match session.cancel(Some(QueryId(1))) {
        Err(EngineError::ExecutionError { message }) => assert_eq!(message, "Query not found"),
        other => panic!("unexpected: {other:?}"),
    }
    session.query_started(QueryId(1), 101);
    session.query_started(QueryId(2), 102);
    assert_eq!(session.cancel_target(QueryId(1)).unwrap(), 101);
    assert_eq!(session.cancel(Some(QueryId(2))).unwrap(), vec![102]);
    let mut all = session.cancel(None).unwrap();
    all.sort();
    assert_eq!(all, vec![101, 102]);
    let mut running = session.running();
    running.sort_by_key(|(q, _)| q.0);
    assert_eq!(running, vec![(QueryId(1), 101), (QueryId(2), 102)]);

    session.query_finished(QueryId(1));
    assert!(session.cancel_target(QueryId(1)).is_err());
    assert_eq!(session.cancel(None).unwrap(), vec![102]);
    // Forgetting a query leaves the transaction alone.
    session.complete_begin(Ok(())).unwrap();
    session.query_finished(QueryId(2));
    assert!(session.has_active_transaction());
    session.query_started(QueryId(3), 103);
    session.disconnect();
    assert!(!session.has_active_transaction());
    assert!(session.cancel(None).is_err());
}

#[test]
fn statements_share_the_transaction_connection() {
    let mut session: DriverSession<i32> = DriverSession::new();
    assert_eq!(
        session.plan_execute(SqlEngine::Postgres, "SELECT 1"),
        ExecutePlan { route: Route::Pool, returns_rows: true }
    );
    session.complete_begin(Ok(())).unwrap();
    // Every statement issued while the transaction is open runs on its connection.
    for (sql, rows) in [
        ("CREATE TEMP TABLE t(x int)", false),
        ("INSERT INTO t VALUES (1)", false),
        ("SELECT count(*) FROM t", true),
    ] {
        assert_eq!(
            session.plan_execute(SqlEngine::Postgres, sql),
            ExecutePlan { route: Route::Transaction, returns_rows: rows }
        );
    }
    session.rollback().unwrap();
    // After the rollback the next statement is back on the pool.
    assert_eq!(
        session.plan_execute(SqlEngine::Postgres, "SELECT count(*) FROM t"),
        ExecutePlan { route: Route::Pool, returns_rows: true }
    );
    assert_eq!(
        session.plan_execute(SqlEngine::MySql, "WITH c AS (SELECT 1 AS x) SELECT x FROM c"),
        ExecutePlan { route: Route::Pool, returns_rows: true }
    );
    assert_eq!(
        session.plan_execute(SqlEngine::MySql, "DELETE FROM t"),
        ExecutePlan { route: Route::Pool, returns_rows: false }
    );
}

#[test]
fn pools_are_bounded() {
    assert_eq!(POOL_MAX_CONNECTIONS, 5);
    assert_eq!(POOL_ACQUIRE_TIMEOUT_SECS, 30);
    assert_eq!(TEST_MAX_CONNECTIONS, 1);
    assert_eq!(TEST_ACQUIRE_TIMEOUT_SECS, 10);
}
