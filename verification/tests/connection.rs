use qoredb::commands::connection::{
    direct_connect_guard, normalize_config, normalize_environment, normalize_tunnel,
    ConnectionResponse, SessionListItem,
};
use qoredb::commands::mutation::MutationResponse;
use qoredb::commands::policy::SafetyPolicyResponse;
use qoredb::commands::query::{
    CollectionsResponse, NamespacesResponse, QueryResponse, TableSchemaResponse, TransactionResponse,
    TransactionSupportResponse,
};
use qoredb::engine::error::EngineError;
use qoredb::engine::ids::{QueryId, SessionId};
use qoredb::engine::types::{
    ConnectionConfig, Namespace, SshAuth, SshHostKeyPolicy, SshTunnelConfig, TableSchema,
};
use qoredb::engine::value::QueryResult;
use qoredb::policy::SafetyPolicy;

fn config() -> ConnectionConfig {
    ConnectionConfig {
        driver: " postgres ".to_string(),
        host: "\tlocalhost\n".to_string(),
        port: 5432,
        username: " user".to_string(),
        password: " pass ".to_string(),
        database: Some("  ".to_string()),
        ssl: false,
        environment: " PRODUCTION ".to_string(),
        read_only: true,
        ssh_tunnel: None,
    }
}

fn tunnel(auth: SshAuth) -> SshTunnelConfig {
    SshTunnelConfig {
        host: " bastion ".to_string(),
        port: 22,
        username: " jump ".to_string(),
        auth,
        host_key_policy: SshHostKeyPolicy::AcceptNew,
        known_hosts_path: None,
        proxy_jump: None,
        connect_timeout_secs: 10,
        keepalive_interval_secs: 30,
        keepalive_count_max: 3,
    }
}

#[test]
fn environment_is_normalised() {
    assert_eq!(normalize_environment(""), Ok("development".to_string()));
    assert_eq!(normalize_environment("   "), Ok("development".to_string()));
    assert_eq!(normalize_environment("Staging"), Ok("staging".to_string()));
    assert_eq!(normalize_environment(" PRODUCTION\n"), Ok("production".to_string()));
    assert_eq!(normalize_environment("development"), Ok("development".to_string()));
    assert_eq!(normalize_environment(" prod "), Err("Invalid environment:  prod ".to_string()));
    assert_eq!(normalize_environment("test"), Err("Invalid environment: test".to_string()));
}

#[test]
fn config_is_trimmed() {
    let c = normalize_config(config()).unwrap();
    assert_eq!(c.driver, "postgres");
    assert_eq!(c.host, "localhost");
    assert_eq!(c.username, "user");
    // The password is left as it is.
    assert_eq!(c.password, " pass ");
    assert_eq!(c.database, None);
    assert_eq!(c.environment, "production");
    assert!(c.read_only);
    assert_eq!(c.port, 5432);

    let mut with_db = config();
    with_db.database = Some(" shop ".to_string());
    assert_eq!(normalize_config(with_db).unwrap().database.as_deref(), Some("shop"));
}

#[test]
fn config_rules_are_checked_in_order() {
    let mut c = config();
    c.driver = "  ".to_string();
    c.host = String::new();
    assert_eq!(normalize_config(c).unwrap_err(), "Driver is required");

    let mut c = config();
    c.host = " ".to_string();
    c.username = String::new();
    assert_eq!(normalize_config(c).unwrap_err(), "Host is required");

    let mut c = config();
    c.username = "\n".to_string();
    c.port = 0;
    assert_eq!(normalize_config(c).unwrap_err(), "Username is required");

    let mut c = config();
    c.port = 0;
    c.environment = "nope".to_string();
    assert_eq!(normalize_config(c).unwrap_err(), "Port must be greater than 0");

    let mut c = config();
    c.environment = "nope".to_string();
    assert_eq!(normalize_config(c).unwrap_err(), "Invalid environment: nope");
}

#[test]
fn tunnel_rules_are_checked() {
    let key = || SshAuth::Key { private_key_path: "/k".to_string(), passphrase: None };

    let mut t = tunnel(key());
    t.host = " ".to_string();
    assert_eq!(normalize_tunnel(t).unwrap_err(), "SSH host is required");

    let mut t = tunnel(key());
    t.username = String::new();
    assert_eq!(normalize_tunnel(t).unwrap_err(), "SSH username is required");

    let mut t = tunnel(key());
    t.port = 0;
    assert_eq!(normalize_tunnel(t).unwrap_err(), "SSH port must be greater than 0");

    let t = tunnel(SshAuth::Password { password: "  ".to_string() });
    assert_eq!(normalize_tunnel(t).unwrap_err(), "SSH password is required");

    let t = tunnel(SshAuth::Key { private_key_path: " ".to_string(), passphrase: None });
    assert_eq!(normalize_tunnel(t).unwrap_err(), "SSH key path is required");

    let t = normalize_tunnel(tunnel(SshAuth::Password { password: " pw ".to_string() })).unwrap();
    assert_eq!(t.host, "bastion");
    assert_eq!(t.username, "jump");
    match t.auth {
        SshAuth::Password { password } => assert_eq!(password, " pw "),
        other => panic!("unexpected: {other:?}"),
    }

    let mut c = config();
    c.ssh_tunnel = Some(tunnel(SshAuth::Key { private_key_path: String::new(), passphrase: None }));
    assert_eq!(normalize_config(c).unwrap_err(), "SSH key path is required");
    let mut c = config();
    c.ssh_tunnel = Some(tunnel(key()));
    assert_eq!(normalize_config(c).unwrap().ssh_tunnel.unwrap().host, "bastion");
}

#[test]
fn connection_envelopes() {
    let r = ConnectionResponse::from_connect(&Ok(SessionId(1)));
    assert!(r.success);
    assert_eq!(r.session_id.as_deref(), Some("00000000-0000-0000-0000-000000000001"));
    assert_eq!(r.error, None);
    let r = ConnectionResponse::from_connect(&Err(EngineError::timeout(15000)));
    assert!(!r.success);
    assert_eq!(r.session_id, None);
    assert_eq!(r.error.as_deref(), Some("Operation timed out after 15000ms"));
    let r = ConnectionResponse::from_outcome(&Ok(()));
    assert!(r.success && r.session_id.is_none() && r.error.is_none());
    let r = ConnectionResponse::from_outcome(&Err(EngineError::driver_not_found("x")));
    assert_eq!(r.error.as_deref(), Some("Driver not found: x"));
    let r = ConnectionResponse::failed("Vault is locked");
    assert!(!r.success);
    assert_eq!(r.error.as_deref(), Some("Vault is locked"));
    let r = ConnectionResponse::done();
    assert!(r.success);
    let r = ConnectionResponse::connected(SessionId(255));
    assert_eq!(r.session_id.as_deref(), Some("00000000-0000-0000-0000-0000000000ff"));
    let item = SessionListItem::new(SessionId(2), "u@h:db");
    assert_eq!(item.id, "00000000-0000-0000-0000-000000000002");
    assert_eq!(item.display_name, "u@h:db");
}

#[test]
fn query_envelopes() {
    let r = QueryResponse::from_preview(Ok(QueryResult::with_affected_rows(1, 5)));
    assert!(r.success && r.query_id.is_none() && r.error.is_none());
    assert_eq!(r.result.unwrap().affected_rows, Some(1));
    let r = QueryResponse::from_preview(Err(EngineError::syntax_error("x")));
    assert!(!r.success && r.result.is_none());
    assert_eq!(r.error.as_deref(), Some("Syntax error: x"));
    let r = QueryResponse::from_cancel(Ok(()), QueryId(3));
    assert!(r.success && r.result.is_none());
    assert_eq!(r.query_id.as_deref(), Some("00000000-0000-0000-0000-000000000003"));
    let r = QueryResponse::from_cancel(Err(EngineError::execution_error("Query not found")), QueryId(3));
    assert!(!r.success);
    assert_eq!(r.error.as_deref(), Some("Execution error: Query not found"));
    let r = QueryResponse::failed("Operation blocked: read-only mode", None);
    assert!(!r.success && r.query_id.is_none());
    assert_eq!(r.error.as_deref(), Some("Operation blocked: read-only mode"));

    let r = NamespacesResponse::from_outcome(Ok(vec![Namespace::new("a")]));
    assert!(r.success);
    assert_eq!(r.namespaces.unwrap().len(), 1);
    let r = NamespacesResponse::from_outcome(Err(EngineError::session_not_found("s")));
    assert_eq!(r.error.as_deref(), Some("Session not found: s"));
    let r = CollectionsResponse::from_outcome(Ok(Vec::new()));
    assert!(r.success && r.collections.unwrap().is_empty());
    let r = CollectionsResponse::from_outcome(Err(EngineError::execution_error("e")));
    assert!(!r.success && r.collections.is_none());
    let schema = TableSchema { columns: Vec::new(), primary_key: None, row_count_estimate: Some(1) };
    let r = TableSchemaResponse::from_outcome(Ok(schema));
    assert_eq!(r.schema.unwrap().row_count_estimate, Some(1));
    let r = TableSchemaResponse::from_outcome(Err(EngineError::execution_error("e")));
    assert!(!r.success && r.schema.is_none());
}

#[test]
fn transaction_envelopes() {
    let r = TransactionResponse::from_outcome(true, Ok(()));
    assert!(r.success && r.error.is_none());
    let r = TransactionResponse::from_outcome(
        true,
        Err(EngineError::transaction_error("A transaction is already active on this session")),
    );
    assert!(!r.success);
    assert_eq!(
        r.error.as_deref(),
        Some("Transaction error: A transaction is already active on this session")
    );
    let r = TransactionResponse::from_outcome(false, Ok(()));
    assert!(!r.success);
    assert_eq!(r.error.as_deref(), Some("Transactions are not supported by this driver"));
    let r = TransactionResponse::failed("Session not found: s");
    assert_eq!(r.error.as_deref(), Some("Session not found: s"));
    let s = TransactionSupportResponse { supported: true };
    assert!(s.supported);
}

#[test]
fn mutation_envelopes() {
    assert!(MutationResponse::read_only_guard(false).is_none());
    let r = MutationResponse::read_only_guard(true).unwrap();
    assert!(!r.success && r.result.is_none());
    assert_eq!(r.error.as_deref(), Some("Operation blocked: read-only mode"));
    let r = MutationResponse::from_outcome(Ok(QueryResult::with_affected_rows(1, 0)), 2500);
    assert!(r.success);
    let result = r.result.unwrap();
    assert_eq!(result.affected_rows, Some(1));
    assert_eq!(result.execution_time_us, 2500);
    let r = MutationResponse::from_outcome(Err(EngineError::not_supported("x")), 1);
    assert!(!r.success);
    assert_eq!(r.error.as_deref(), Some("Not supported: x"));
}

#[test]
fn policy_envelopes() {
    let p = SafetyPolicy { prod_require_confirmation: true, prod_block_dangerous_sql: true };
    let r = SafetyPolicyResponse::get_safety_policy(&p);
    assert!(r.success);
    assert_eq!(r.policy, Some(p));
    let r = SafetyPolicyResponse::set_safety_policy(Ok(()), &p);
    assert!(r.success);
    assert_eq!(r.policy, Some(p));
    let r = SafetyPolicyResponse::set_safety_policy(Err("Save failed: disk full".to_string()), &p);
    assert!(!r.success);
    assert_eq!(r.policy, None);
    assert_eq!(r.error.as_deref(), Some("Save failed: disk full"));
}

#[test]
fn direct_connect_is_for_debug_builds_only() {
    assert!(direct_connect_guard(true).is_none());
    let r = direct_connect_guard(false).unwrap();
    assert!(!r.success);
    assert_eq!(r.session_id, None);
    assert_eq!(
        r.error.as_deref(),
        Some("Direct connect is disabled in release builds. Save the connection and use connect_saved_connection.")
    );
}
