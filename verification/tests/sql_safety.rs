use qoredb::engine::sql_safety::{
    analyze_sql, analyze_statements, is_dangerous_statement, is_destructive, is_mutation_statement,
    reads_only, SetExprShape, StatementKind, StatementShape,
};

#[test]
fn postgres_cte_select_is_read_only() {
    let analysis = analyze_sql(
        "postgres",
        "WITH cte AS (SELECT * FROM users) SELECT * FROM cte",
    )
    .expect("should parse");

    assert!(!analysis.is_mutation);
    assert!(!analysis.is_dangerous);
}

#[test]
fn postgres_multi_statement_flags_mutation() {
    let analysis = analyze_sql(
        "postgres",
        "SELECT 1; UPDATE users SET name = 'x' WHERE id = 1;",
    )
    .expect("should parse");

    assert!(analysis.is_mutation);
    assert!(!analysis.is_dangerous);
}

#[test]
fn postgres_update_without_where_is_dangerous() {
    let analysis = analyze_sql("postgres", "UPDATE users SET name = 'x'").expect("should parse");

    assert!(analysis.is_mutation);
    assert!(analysis.is_dangerous);
}

#[test]
fn mysql_delete_without_where_is_dangerous() {
    let analysis = analyze_sql("mysql", "DELETE FROM users").expect("should parse");

    assert!(analysis.is_mutation);
    assert!(analysis.is_dangerous);
}

#[test]
fn select_into_is_mutation() {
    let analysis =
        analyze_sql("postgres", "SELECT * INTO new_table FROM old_table").expect("should parse");

    assert!(analysis.is_mutation);
    assert!(!analysis.is_dangerous);
}

#[test]
fn alter_table_is_dangerous() {
    let analysis =
        analyze_sql("postgres", "ALTER TABLE users ADD COLUMN age INT").expect("should parse");

    assert!(analysis.is_mutation);
    assert!(analysis.is_dangerous);
}

#[test]
fn mysql_show_tables_is_read_only() {
    let analysis = analyze_sql("mysql", "SHOW TABLES").expect("should parse");

    assert!(!analysis.is_mutation);
    assert!(!analysis.is_dangerous);
}

#[test]
fn empty_sql_is_refused() {
    assert_eq!(analyze_sql("postgres", "   \n\t ").unwrap_err(), "Empty SQL");
    assert_eq!(analyze_sql("mysql", "").unwrap_err(), "Empty SQL");
}

#[test]
fn unparseable_sql_gives_parser_message() {
    let err = analyze_sql("postgres", "THIS IS NOT SQL").unwrap_err();
    assert!(err.starts_with("sql parser error"), "{}", err);
}

#[test]
fn explain_analyze_inherits_from_inner_statement() {
    let plain = analyze_sql("postgres", "EXPLAIN DELETE FROM users").expect("should parse");
    assert!(!plain.is_mutation);
    assert!(!plain.is_dangerous);

    let analyzed =
        analyze_sql("postgres", "EXPLAIN ANALYZE DELETE FROM users").expect("should parse");
    assert!(analyzed.is_mutation);
    assert!(analyzed.is_dangerous);

    let read = analyze_sql("postgres", "EXPLAIN ANALYZE SELECT 1").expect("should parse");
    assert!(!read.is_mutation);
    assert!(!read.is_dangerous);
}

#[test]
fn drop_and_truncate_are_dangerous() {
    let drop = analyze_sql("postgres", "DROP TABLE audit").expect("should parse");
    assert!(drop.is_mutation && drop.is_dangerous);
    let truncate = analyze_sql("mysql", "TRUNCATE TABLE audit").expect("should parse");
    assert!(truncate.is_mutation && truncate.is_dangerous);
}

#[test]
fn transaction_control_and_session_statements_are_read_only() {
    for sql in ["BEGIN", "COMMIT", "ROLLBACK", "SAVEPOINT a", "RELEASE SAVEPOINT a", "SET search_path = public", "USE db1"] {
        let a = analyze_sql("generic", sql).expect(sql);
        assert!(!a.is_mutation, "{}", sql);
        assert!(!a.is_dangerous, "{}", sql);
    }
}

#[test]
fn insert_and_conditional_update_are_mutations_but_not_dangerous() {
    let insert = analyze_sql("postgres", "INSERT INTO t VALUES (1)").expect("should parse");
    assert!(insert.is_mutation && !insert.is_dangerous);
    let create = analyze_sql("postgres", "CREATE TEMP TABLE t(x int)").expect("should parse");
    assert!(create.is_mutation && !create.is_dangerous);
    let update =
        analyze_sql("mysql", "UPDATE users SET name='x' WHERE id=1").expect("should parse");
    assert!(update.is_mutation && !update.is_dangerous);
}

#[test]
fn union_of_selects_is_read_only() {
    let a = analyze_sql("postgres", "SELECT 1 UNION SELECT 2").expect("should parse");
    assert!(!a.is_mutation && !a.is_dangerous);
}

#[test]
fn driver_tag_is_matched_without_case() {
    // Backtick identifiers parse under the MySQL dialect only.
    assert!(analyze_sql("MySQL", "SELECT `a` FROM `t`").is_ok());
    assert!(analyze_sql("POSTGRES", "SELECT `a` FROM `t`").is_err());
}

#[test]
fn flags_are_joined_over_statement_shapes() {
    let shapes = vec![
        StatementShape::Query(SetExprShape::Select { has_into: false }),
        StatementShape::Plain { kind: StatementKind::ShowTables },
    ];
    let a = analyze_statements(&shapes);
    assert!(!a.is_mutation && !a.is_dangerous);

    let shapes = vec![
        StatementShape::Query(SetExprShape::SetOperation {
            left: Box::new(SetExprShape::Select { has_into: false }),
            right: Box::new(SetExprShape::Query(Box::new(SetExprShape::Select { has_into: true }))),
        }),
        StatementShape::Update { has_selection: true },
    ];
    let a = analyze_statements(&shapes);
    assert!(a.is_mutation && !a.is_dangerous);

    let shapes = vec![
        StatementShape::Explain {
            analyze: true,
            statement: Box::new(StatementShape::Plain { kind: StatementKind::DropTrigger }),
        },
    ];
    let a = analyze_statements(&shapes);
    assert!(a.is_mutation && a.is_dangerous);

    let a = analyze_statements(&Vec::new());
    assert!(!a.is_mutation && !a.is_dangerous);
}

#[test]
fn every_drop_and_alter_is_dangerous() {
    for (driver, sql) in [
        ("postgres", "DROP TRIGGER audit_trg ON accounts"),
        ("postgres", "DROP EXTENSION hstore"),
        ("postgres", "DROP POLICY p ON accounts"),
        ("postgres", "DROP FUNCTION f"),
        ("postgres", "DROP INDEX idx"),
        ("postgres", "DROP SCHEMA s"),
        ("mysql", "DROP DATABASE shop"),
        ("postgres", "ALTER INDEX idx RENAME TO idx2"),
        ("postgres", "ALTER ROLE app RENAME TO app2"),
        ("postgres", "ALTER VIEW v AS SELECT 1"),
        ("postgres", "ALTER POLICY p ON accounts RENAME TO q"),
        ("mysql", "ALTER TABLE t DROP COLUMN c"),
        ("generic", "TRUNCATE TABLE t"),
    ] {
        let a = analyze_sql(driver, sql).expect(sql);
        assert!(a.is_mutation, "{}", sql);
        assert!(a.is_dangerous, "{}", sql);
    }
}

#[test]
fn every_show_is_read_only() {
    for (driver, sql) in [
        ("mysql", "SHOW PROCESSLIST"),
        ("mysql", "SHOW DATABASES"),
        ("mysql", "SHOW COLUMNS FROM t"),
        ("mysql", "SHOW CREATE TABLE t"),
        ("mysql", "SHOW VARIABLES"),
        ("mysql", "SHOW STATUS"),
        ("mysql", "SHOW COLLATION"),
        ("generic", "SHOW SCHEMAS"),
        ("generic", "SHOW VIEWS"),
        ("postgres", "SHOW search_path"),
        ("mysql", "DESCRIBE t"),
    ] {
        let a = analyze_sql(driver, sql).expect(sql);
        assert!(!a.is_mutation, "{}", sql);
        assert!(!a.is_dangerous, "{}", sql);
    }
}

#[test]
fn kinds_are_listed_in_the_rules() {
    let reading = [
        StatementKind::ExplainTable,
        StatementKind::SetVariable,
        StatementKind::Use,
        StatementKind::StartTransaction,
        StatementKind::Commit,
        StatementKind::Rollback,
        StatementKind::Savepoint,
        StatementKind::ReleaseSavepoint,
        StatementKind::ShowFunctions,
        StatementKind::ShowVariable,
        StatementKind::ShowStatus,
        StatementKind::ShowVariables,
        StatementKind::ShowCreate,
        StatementKind::ShowColumns,
        StatementKind::ShowCatalogs,
        StatementKind::ShowDatabases,
        StatementKind::ShowProcessList,
        StatementKind::ShowSchemas,
        StatementKind::ShowCharset,
        StatementKind::ShowObjects,
        StatementKind::ShowTables,
        StatementKind::ShowViews,
        StatementKind::ShowCollation,
    ];
    let destructive = [
        StatementKind::Drop,
        StatementKind::DropFunction,
        StatementKind::DropDomain,
        StatementKind::DropProcedure,
        StatementKind::DropSecret,
        StatementKind::DropPolicy,
        StatementKind::DropConnector,
        StatementKind::DropExtension,
        StatementKind::DropOperator,
        StatementKind::DropOperatorFamily,
        StatementKind::DropOperatorClass,
        StatementKind::DropTrigger,
        StatementKind::Truncate,
        StatementKind::AlterTable,
        StatementKind::AlterSchema,
        StatementKind::AlterIndex,
        StatementKind::AlterView,
        StatementKind::AlterFunction,
        StatementKind::AlterType,
        StatementKind::AlterCollation,
        StatementKind::AlterOperator,
        StatementKind::AlterOperatorFamily,
        StatementKind::AlterOperatorClass,
        StatementKind::AlterTextSearch,
        StatementKind::AlterRole,
        StatementKind::AlterPolicy,
        StatementKind::AlterConnector,
        StatementKind::AlterSession,
        StatementKind::AlterUser,
    ];
    for kind in reading {
        assert!(reads_only(kind), "{:?}", kind);
        assert!(!is_destructive(kind), "{:?}", kind);
        let shape = StatementShape::Plain { kind };
        assert!(!is_mutation_statement(&shape) && !is_dangerous_statement(&shape));
    }
    for kind in destructive {
        assert!(!reads_only(kind), "{:?}", kind);
        assert!(is_destructive(kind), "{:?}", kind);
        let shape = StatementShape::Plain { kind };
        assert!(is_mutation_statement(&shape) && is_dangerous_statement(&shape));
    }
    assert!(!reads_only(StatementKind::Other));
    assert!(!is_destructive(StatementKind::Other));
    let other = StatementShape::Plain { kind: StatementKind::Other };
    assert!(is_mutation_statement(&other) && !is_dangerous_statement(&other));
}
