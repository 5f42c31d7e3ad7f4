use qoredb::commands::query as commands;
use qoredb::commands::query::{blocked_response, classify_query, is_mongo_mutation, QueryClass};
use qoredb::engine::error::{EngineError, ErrorKind};
use qoredb::engine::sql_safety::SqlSafetyAnalysis;
use qoredb::policy::{env_bool, SafetyPolicy};

fn policy(require: bool, block: bool) -> SafetyPolicy {
    SafetyPolicy { prod_require_confirmation: require, prod_block_dangerous_sql: block }
}

/// The reason of a refusal. Every refusal by a safety rule has the kind `PolicyBlocked`.
fn reason(refusal: Option<EngineError>) -> Option<String> {
    refusal.map(|e| {
        assert_eq!(e.kind(), ErrorKind::PolicyBlocked);
        e.message()
    })
}

fn gate_query(
    driver_id: &str,
    query: &str,
    read_only: bool,
    is_production: bool,
    policy: &SafetyPolicy,
    acknowledged: bool,
) -> Option<String> {
    reason(commands::gate_query(driver_id, query, read_only, is_production, policy, acknowledged))
}

fn check_gate(
    read_only: bool,
    is_production: bool,
    policy: &SafetyPolicy,
    acknowledged: bool,
    class: &QueryClass,
) -> Option<String> {
    reason(commands::check_gate(read_only, is_production, policy, acknowledged, class))
}

#[test]
fn refusal_is_reported_without_query_id() {
    let refusal = commands::gate_query(
        "postgres",
        "UPDATE users SET name='x' WHERE id=1",
        true,
        false,
        &policy(true, false),
        false,
    )
    .expect("the statement writes");
    match &refusal {
        EngineError::PolicyBlocked { message } => {
            assert_eq!(message, "Operation blocked: read-only mode")
        }
        other => panic!("unexpected: {other:?}"),
    }
    let r = blocked_response(&refusal);
    assert!(!r.success);
    assert!(r.result.is_none());
    assert_eq!(r.error.as_deref(), Some("Operation blocked: read-only mode"));
    assert_eq!(r.query_id, None);
}

#[test]
fn read_only_session_blocks_update() {
    let reason = gate_query(
        "postgres",
        "UPDATE users SET name='x' WHERE id=1",
        true,
        false,
        &policy(true, false),
        false,
    );
    assert_eq!(reason.as_deref(), Some("Operation blocked: read-only mode"));
}

#[test]
fn read_only_session_allows_select() {
    let reason =
        gate_query("postgres", "SELECT * FROM users", true, true, &policy(true, true), false);
    assert_eq!(reason, None);
}

#[test]
fn production_dangerous_needs_confirmation() {
    let p = policy(true, false);
    let reason = gate_query("postgres", "DROP TABLE audit", false, true, &p, false);
    assert_eq!(reason.as_deref(), Some("Dangerous query blocked: confirmation required"));
    assert!(reason.unwrap().contains("confirmation required"));

    let reason = gate_query("postgres", "DROP TABLE audit", false, true, &p, true);
    assert_eq!(reason, None);
}

#[test]
fn production_block_policy_ignores_acknowledgement() {
    let p = policy(true, true);
    for ack in [false, true] {
        let reason = gate_query("mysql", "TRUNCATE TABLE audit", false, true, &p, ack);
        assert_eq!(reason.as_deref(), Some("Dangerous query blocked by policy"));
    }
    let p = policy(false, true);
    let reason = gate_query("mysql", "DELETE FROM audit", false, true, &p, true);
    assert_eq!(reason.as_deref(), Some("Dangerous query blocked by policy"));
}

#[test]
fn production_without_rules_allows_dangerous() {
    let reason = gate_query("postgres", "DROP TABLE audit", false, true, &policy(false, false), false);
    assert_eq!(reason, None);
}

#[test]
fn development_session_allows_dangerous() {
    let reason = gate_query("postgres", "DROP TABLE audit", false, false, &policy(true, true), false);
    assert_eq!(reason, None);
}

#[test]
fn unparseable_sql_in_production_needs_confirmation() {
    let p = policy(true, false);
    let reason = gate_query("postgres", "THIS IS NOT SQL", false, true, &p, false).unwrap();
    assert!(reason.contains("SQL parse error"), "{}", reason);
    assert!(
        reason.starts_with("Dangerous query blocked: confirmation required: SQL parse error: "),
        "{}",
        reason
    );
    assert_eq!(gate_query("postgres", "THIS IS NOT SQL", false, true, &p, true), None);
}

#[test]
fn unparseable_sql_under_block_policy_is_refused() {
    let p = policy(false, true);
    let reason = gate_query("postgres", "THIS IS NOT SQL", false, true, &p, true).unwrap();
    assert!(
        reason.starts_with("Dangerous query blocked by policy: SQL parse error: "),
        "{}",
        reason
    );
}

#[test]
fn unparseable_sql_on_read_only_session_is_refused() {
    let reason =
        gate_query("postgres", "THIS IS NOT SQL", true, false, &policy(false, false), true).unwrap();
    assert!(
        reason.starts_with("Operation blocked: SQL parser could not classify the query: "),
        "{}",
        reason
    );
    // Blank text does not parse either.
    let reason = gate_query("postgres", "  ", true, false, &policy(false, false), true).unwrap();
    assert_eq!(
        reason,
        "Operation blocked: SQL parser could not classify the query: Empty SQL"
    );
}

#[test]
fn unparseable_sql_outside_production_is_allowed() {
    assert_eq!(
        gate_query("postgres", "THIS IS NOT SQL", false, false, &policy(true, true), false),
        None
    );
}

#[test]
fn gate_decides_on_classification_alone() {
    let p = policy(true, false);
    let dangerous = QueryClass::Sql(SqlSafetyAnalysis { is_mutation: true, is_dangerous: true });
    assert_eq!(
        check_gate(true, true, &p, true, &dangerous).as_deref(),
        Some("Operation blocked: read-only mode")
    );
    assert_eq!(
        check_gate(false, true, &p, false, &dangerous).as_deref(),
        Some("Dangerous query blocked: confirmation required")
    );
    assert_eq!(check_gate(false, true, &p, true, &dangerous), None);
    let harmless = QueryClass::Sql(SqlSafetyAnalysis { is_mutation: false, is_dangerous: false });
    assert_eq!(check_gate(true, true, &policy(true, true), false, &harmless), None);
    let unparsed = QueryClass::Unparsed("boom".to_string());
    assert_eq!(
        check_gate(false, true, &policy(true, true), true, &unparsed).as_deref(),
        Some("Dangerous query blocked by policy: SQL parse error: boom")
    );
    let doc = QueryClass::Document { is_mutation: true };
    assert_eq!(check_gate(false, true, &policy(true, true), false, &doc), None);
    assert_eq!(
        check_gate(true, false, &policy(false, false), true, &doc).as_deref(),
        Some("Operation blocked: read-only mode")
    );
}

#[test]
fn document_queries_are_classified_by_words() {
    assert!(is_mongo_mutation("db.users.insertOne({a: 1})"));
    assert!(is_mongo_mutation("db.users.DROP()"));
    assert!(is_mongo_mutation("db.users.findOneAndUpdate({}, {})"));
    assert!(is_mongo_mutation("{\"database\": \"d\", \"operation\" : \"drop_database\"}"));
    assert!(is_mongo_mutation("{ \"operation\":\n\t\"create_collection\" }"));
    assert!(is_mongo_mutation("{\"OPERATION\": \"Drop_Collection\"}"));
    assert!(!is_mongo_mutation("db.users.find({})"));
    assert!(!is_mongo_mutation("{\"database\": \"d\", \"collection\": \"c\"}"));
    assert!(!is_mongo_mutation("{\"operation\": \"find\"}"));
    assert!(!is_mongo_mutation(""));
    // Method names are not sought with the blanks taken out.
    assert!(!is_mongo_mutation("db.users. insert ("));
}

#[test]
fn document_driver_is_never_dangerous() {
    let p = policy(true, true);
    assert_eq!(gate_query("mongodb", "db.users.drop()", false, true, &p, false), None);
    assert_eq!(
        gate_query("MongoDB", "db.users.drop()", true, true, &p, false).as_deref(),
        Some("Operation blocked: read-only mode")
    );
    match classify_query("mongodb", "db.users.find({})") {
        QueryClass::Document { is_mutation } => assert!(!is_mutation),
        _ => panic!("a document query was expected"),
    }
    match classify_query("postgres", "SELECT 1") {
        QueryClass::Sql(a) => assert!(!a.is_mutation && !a.is_dangerous),
        _ => panic!("parsed SQL was expected"),
    }
}

#[test]
fn policy_defaults_require_confirmation_only() {
    let p = SafetyPolicy::defaults();
    assert!(p.prod_require_confirmation);
    assert!(!p.prod_block_dangerous_sql);
    assert_eq!(SafetyPolicy::load(None, None, None), p);
}

#[test]
fn environment_overrides_stored_policy() {
    let stored = policy(true, false);
    let p = SafetyPolicy::load(Some(stored), Some("off"), Some(" YES "));
    assert!(!p.prod_require_confirmation);
    assert!(p.prod_block_dangerous_sql);

    let p = SafetyPolicy::load(Some(policy(false, true)), None, None);
    assert_eq!(p, policy(false, true));

    let p = SafetyPolicy::load(Some(policy(false, true)), None, Some("0"));
    assert_eq!(p, policy(false, false));

    let mut q = policy(false, false);
    q.apply_env_overrides(Some("1"), None);
    assert_eq!(q, policy(true, false));
}

#[test]
fn truthy_values_are_recognised() {
    for v in ["1", "true", "yes", "on", "TRUE", " On\n", "Yes"] {
        assert!(env_bool(v), "{:?}", v);
    }
    for v in ["0", "false", "no", "off", "", "2", "y", "t r u e", "enabled"] {
        assert!(!env_bool(v), "{:?}", v);
    }
}
