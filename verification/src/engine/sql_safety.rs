//! Classification of SQL text into read-only, mutating and dangerous, on
//! the parse tree of each statement.

use crate::text::{eq_ignore_ascii_case, eq_ignoring_ascii_case, trim, trimmed};
use sqlparser::ast::{SetExpr, Statement};
use sqlparser::dialect::{GenericDialect, MySqlDialect, PostgreSqlDialect};
use sqlparser::parser::Parser;
use vstd::prelude::*;
use vstd::string::*;

verus! {

/// What classification found in a text of one or more statements.
#[derive(Debug, Clone, Copy, PartialEq, Eq, Structural)]
pub struct SqlSafetyAnalysis {
    /// Some statement writes data or schema.
    pub is_mutation: bool,
    /// Some statement drops, truncates or alters, or updates or deletes
    /// without a condition.
    pub is_dangerous: bool,
}

/// The grammar a text is parsed with.
#[derive(Debug, Clone, Copy, PartialEq, Eq, Structural)]
pub enum SqlDialect {
    Postgres,
    MySql,
    Generic,
}

/// The body of a query, as far as classification looks into it.
#[derive(Debug, PartialEq, Eq)]
pub enum SetExprShape {
    /// A plain `SELECT`, with or without an `INTO` target.
    Select { has_into: bool },
    /// A parenthesised query; holds that query's body.
    Query(Box<SetExprShape>),
    /// `UNION`, `EXCEPT` or `INTERSECT` of two bodies.
    SetOperation { left: Box<SetExprShape>, right: Box<SetExprShape> },
    Values,
    Insert,
    Update,
    Delete,
    Merge,
    Table,
}

/// What kind of statement a statement is, for the kinds that the rules
/// name: the statements that only read or only steer the session, and
/// those that drop, truncate or alter. Every other kind is `Other`.
#[derive(Debug, Clone, Copy, PartialEq, Eq, Structural)]
pub enum StatementKind {
    /// `DESCRIBE` or `EXPLAIN` of a table.
    ExplainTable,
    /// `SET` of a variable, role, time zone and the like.
    SetVariable,
    Use,
    StartTransaction,
    Commit,
    Rollback,
    Savepoint,
    ReleaseSavepoint,
    ShowFunctions,
    ShowVariable,
    ShowStatus,
    ShowVariables,
    ShowCreate,
    ShowColumns,
    ShowCatalogs,
    ShowDatabases,
    ShowProcessList,
    ShowSchemas,
    ShowCharset,
    ShowObjects,
    ShowTables,
    ShowViews,
    ShowCollation,
    Drop,
    DropFunction,
    DropDomain,
    DropProcedure,
    DropSecret,
    DropPolicy,
    DropConnector,
    DropExtension,
    DropOperator,
    DropOperatorFamily,
    DropOperatorClass,
    DropTrigger,
    Truncate,
    AlterTable,
    AlterSchema,
    AlterIndex,
    AlterView,
    AlterFunction,
    AlterType,
    AlterCollation,
    AlterOperator,
    AlterOperatorFamily,
    AlterOperatorClass,
    AlterTextSearch,
    AlterRole,
    AlterPolicy,
    AlterConnector,
    AlterSession,
    AlterUser,
    /// None of the kinds above.
    Other,
}

/// Whether a kind of statement only reads or only steers the session:
/// the `SHOW` statements, `DESCRIBE` of a table, `SET`, `USE`, transaction
/// control and savepoints.
pub open spec fn kind_reads_only(k: StatementKind) -> bool {
    ||| k == StatementKind::ExplainTable
    ||| k == StatementKind::SetVariable
    ||| k == StatementKind::Use
    ||| k == StatementKind::StartTransaction
    ||| k == StatementKind::Commit
    ||| k == StatementKind::Rollback
    ||| k == StatementKind::Savepoint
    ||| k == StatementKind::ReleaseSavepoint
    ||| k == StatementKind::ShowFunctions
    ||| k == StatementKind::ShowVariable
    ||| k == StatementKind::ShowStatus
    ||| k == StatementKind::ShowVariables
    ||| k == StatementKind::ShowCreate
    ||| k == StatementKind::ShowColumns
    ||| k == StatementKind::ShowCatalogs
    ||| k == StatementKind::ShowDatabases
    ||| k == StatementKind::ShowProcessList
    ||| k == StatementKind::ShowSchemas
    ||| k == StatementKind::ShowCharset
    ||| k == StatementKind::ShowObjects
    ||| k == StatementKind::ShowTables
    ||| k == StatementKind::ShowViews
    ||| k == StatementKind::ShowCollation
}

/// Whether a kind of statement destroys or restructures: every `DROP`,
/// `TRUNCATE` and every `ALTER`.
pub open spec fn kind_is_destructive(k: StatementKind) -> bool {
    ||| k == StatementKind::Drop
    ||| k == StatementKind::DropFunction
    ||| k == StatementKind::DropDomain
    ||| k == StatementKind::DropProcedure
    ||| k == StatementKind::DropSecret
    ||| k == StatementKind::DropPolicy
    ||| k == StatementKind::DropConnector
    ||| k == StatementKind::DropExtension
    ||| k == StatementKind::DropOperator
    ||| k == StatementKind::DropOperatorFamily
    ||| k == StatementKind::DropOperatorClass
    ||| k == StatementKind::DropTrigger
    ||| k == StatementKind::Truncate
    ||| k == StatementKind::AlterTable
    ||| k == StatementKind::AlterSchema
    ||| k == StatementKind::AlterIndex
    ||| k == StatementKind::AlterView
    ||| k == StatementKind::AlterFunction
    ||| k == StatementKind::AlterType
    ||| k == StatementKind::AlterCollation
    ||| k == StatementKind::AlterOperator
    ||| k == StatementKind::AlterOperatorFamily
    ||| k == StatementKind::AlterOperatorClass
    ||| k == StatementKind::AlterTextSearch
    ||| k == StatementKind::AlterRole
    ||| k == StatementKind::AlterPolicy
    ||| k == StatementKind::AlterConnector
    ||| k == StatementKind::AlterSession
    ||| k == StatementKind::AlterUser
}

/// One parsed statement, as far as classification looks into it.
#[derive(Debug, PartialEq, Eq)]
pub enum StatementShape {
    /// A query; holds its body.
    Query(SetExprShape),
    /// `EXPLAIN`, with or without `ANALYZE`, of the statement held.
    Explain { analyze: bool, statement: Box<StatementShape> },
    /// `UPDATE`, with or without a `WHERE` condition.
    Update { has_selection: bool },
    /// `DELETE`, with or without a `WHERE` condition.
    Delete { has_selection: bool },
    /// Any other statement, by its kind.
    Plain { kind: StatementKind },
}

/// Whether a query body writes: a `SELECT ... INTO`, or a data-modifying
/// statement anywhere inside it.
pub open spec fn set_expr_mutates(e: SetExprShape) -> bool
    decreases e,
{
    match e {
        SetExprShape::Select { has_into } => has_into,
        SetExprShape::Query(body) => set_expr_mutates(*body),
        SetExprShape::SetOperation { left, right } => set_expr_mutates(*left) || set_expr_mutates(
            *right,
        ),
        SetExprShape::Insert | SetExprShape::Update | SetExprShape::Delete | SetExprShape::Merge => true,
        SetExprShape::Values | SetExprShape::Table => false,
    }
}

/// Whether a statement writes data or schema.
pub open spec fn statement_mutates(s: StatementShape) -> bool
    decreases s,
{
    match s {
        StatementShape::Query(body) => set_expr_mutates(body),
        StatementShape::Explain { analyze, statement } => analyze && statement_mutates(*statement),
        StatementShape::Update { .. } | StatementShape::Delete { .. } => true,
        StatementShape::Plain { kind } => !kind_reads_only(kind),
    }
}

/// Whether a statement is destructive: it drops, truncates or alters, or
/// updates or deletes every row.
pub open spec fn statement_is_dangerous(s: StatementShape) -> bool
    decreases s,
{
    match s {
        StatementShape::Query(_) => false,
        StatementShape::Explain { analyze, statement } => analyze && statement_is_dangerous(
            *statement,
        ),
        StatementShape::Update { has_selection } => !has_selection,
        StatementShape::Delete { has_selection } => !has_selection,
        StatementShape::Plain { kind } => kind_is_destructive(kind),
    }
}

/// The flags of a list of statements: each flag is set when some statement
/// sets it.
pub open spec fn analysis_of(stmts: Seq<StatementShape>) -> SqlSafetyAnalysis {
    SqlSafetyAnalysis {
        is_mutation: exists|i: int| 0 <= i < stmts.len() && statement_mutates(#[trigger] stmts[i]),
        is_dangerous: exists|i: int|
            0 <= i < stmts.len() && statement_is_dangerous(#[trigger] stmts[i]),
    }
}

/// The dialect a driver's statements are written in.
pub open spec fn dialect_of(driver_id: Seq<char>) -> SqlDialect {
    if eq_ignoring_ascii_case(driver_id, "postgres"@) {
        SqlDialect::Postgres
    } else if eq_ignoring_ascii_case(driver_id, "mysql"@) {
        SqlDialect::MySql
    } else {
        SqlDialect::Generic
    }
}

/// What `Parser::parse_sql` makes of a text under a dialect: the shapes of
/// its statements in order, or the rendered parse error.
pub uninterp spec fn parsed_sql(dialect: SqlDialect, sql: Seq<char>) -> Result<
    Seq<StatementShape>,
    Seq<char>,
>;

/// One statement of `sqlparser`'s parse tree; nothing of it is visible to proofs.
#[verifier::external_type_specification]
#[verifier::external_body]
pub struct ExStatement(sqlparser::ast::Statement);

/// One query body of `sqlparser`'s parse tree; nothing of it is visible to proofs.
#[verifier::external_type_specification]
#[verifier::external_body]
pub struct ExSetExpr(sqlparser::ast::SetExpr);

/// The kind of a `sqlparser::ast::Statement`: each variant that steers
/// the session or describes a table is given the kind of its own name;
/// any other variant is handed on.
#[verifier::external_body]
fn statement_kind(s: &Statement) -> StatementKind {
    match s {
        Statement::ExplainTable { .. } => StatementKind::ExplainTable,
        Statement::Set { .. } => StatementKind::SetVariable,
        Statement::Use { .. } => StatementKind::Use,
        Statement::StartTransaction { .. } => StatementKind::StartTransaction,
        Statement::Commit { .. } => StatementKind::Commit,
        Statement::Rollback { .. } => StatementKind::Rollback,
        Statement::Savepoint { .. } => StatementKind::Savepoint,
        Statement::ReleaseSavepoint { .. } => StatementKind::ReleaseSavepoint,
        other => show_kind(other),
    }
}

/// Gives each of these `SHOW` variants of `sqlparser::ast::Statement`
/// the kind of its own name, and hands any other variant on.
#[verifier::external_body]
fn show_kind(s: &Statement) -> StatementKind {
    match s {
        Statement::ShowFunctions { .. } => StatementKind::ShowFunctions,
        Statement::ShowVariable { .. } => StatementKind::ShowVariable,
        Statement::ShowStatus { .. } => StatementKind::ShowStatus,
        Statement::ShowVariables { .. } => StatementKind::ShowVariables,
        Statement::ShowCreate { .. } => StatementKind::ShowCreate,
        Statement::ShowColumns { .. } => StatementKind::ShowColumns,
        Statement::ShowCatalogs { .. } => StatementKind::ShowCatalogs,
        Statement::ShowDatabases { .. } => StatementKind::ShowDatabases,
        other => show_kind_rest(other),
    }
}

/// Gives each of the remaining `SHOW` variants of
/// `sqlparser::ast::Statement` the kind of its own name, and hands any
/// other variant on.
#[verifier::external_body]
fn show_kind_rest(s: &Statement) -> StatementKind {
    match s {
        Statement::ShowProcessList { .. } => StatementKind::ShowProcessList,
        Statement::ShowSchemas { .. } => StatementKind::ShowSchemas,
        Statement::ShowCharset { .. } => StatementKind::ShowCharset,
        Statement::ShowObjects { .. } => StatementKind::ShowObjects,
        Statement::ShowTables { .. } => StatementKind::ShowTables,
        Statement::ShowViews { .. } => StatementKind::ShowViews,
        Statement::ShowCollation { .. } => StatementKind::ShowCollation,
        other => drop_kind(other),
    }
}

/// Gives each `DROP` variant of `sqlparser::ast::Statement` the kind of
/// its own name, and hands any other variant on.
#[verifier::external_body]
fn drop_kind(s: &Statement) -> StatementKind {
    match s {
        Statement::Drop { .. } => StatementKind::Drop,
        Statement::DropFunction { .. } => StatementKind::DropFunction,
        Statement::DropDomain { .. } => StatementKind::DropDomain,
        Statement::DropProcedure { .. } => StatementKind::DropProcedure,
        Statement::DropSecret { .. } => StatementKind::DropSecret,
        Statement::DropPolicy { .. } => StatementKind::DropPolicy,
        Statement::DropConnector { .. } => StatementKind::DropConnector,
        Statement::DropExtension { .. } => StatementKind::DropExtension,
        Statement::DropOperator { .. } => StatementKind::DropOperator,
        Statement::DropOperatorFamily { .. } => StatementKind::DropOperatorFamily,
        Statement::DropOperatorClass { .. } => StatementKind::DropOperatorClass,
        Statement::DropTrigger { .. } => StatementKind::DropTrigger,
        other => alter_kind(other),
    }
}

/// Gives each of these `ALTER` variants of `sqlparser::ast::Statement`
/// the kind of its own name, and hands any other variant on.
#[verifier::external_body]
fn alter_kind(s: &Statement) -> StatementKind {
    match s {
        Statement::AlterTable { .. } => StatementKind::AlterTable,
        Statement::AlterSchema { .. } => StatementKind::AlterSchema,
        Statement::AlterIndex { .. } => StatementKind::AlterIndex,
        Statement::AlterView { .. } => StatementKind::AlterView,
        Statement::AlterFunction { .. } => StatementKind::AlterFunction,
        Statement::AlterType { .. } => StatementKind::AlterType,
        Statement::AlterCollation { .. } => StatementKind::AlterCollation,
        Statement::AlterOperator { .. } => StatementKind::AlterOperator,
        other => alter_kind_rest(other),
    }
}

/// Gives each of the remaining `ALTER` variants of
/// `sqlparser::ast::Statement`, and `TRUNCATE`, the kind of its own name.
/// Any other variant is of kind `Other`.
#[verifier::external_body]
fn alter_kind_rest(s: &Statement) -> StatementKind {
    match s {
        Statement::AlterOperatorFamily { .. } => StatementKind::AlterOperatorFamily,
        Statement::AlterOperatorClass { .. } => StatementKind::AlterOperatorClass,
        Statement::AlterTextSearch { .. } => StatementKind::AlterTextSearch,
        Statement::AlterRole { .. } => StatementKind::AlterRole,
        Statement::AlterPolicy { .. } => StatementKind::AlterPolicy,
        Statement::AlterConnector { .. } => StatementKind::AlterConnector,
        Statement::AlterSession { .. } => StatementKind::AlterSession,
        Statement::AlterUser { .. } => StatementKind::AlterUser,
        Statement::Truncate { .. } => StatementKind::Truncate,
        _ => StatementKind::Other,
    }
}
/// The shape of a `sqlparser::ast::SetExpr`: its variant, whether a
/// `SELECT` has an `INTO`, and the shapes of the bodies it holds.
#[verifier::external_body]
fn set_expr_shape(e: &SetExpr) -> SetExprShape {
    match e {
        SetExpr::Select(s) => SetExprShape::Select { has_into: s.into.is_some() },
        SetExpr::Query(q) => SetExprShape::Query(Box::new(set_expr_shape(&q.body))),
        SetExpr::SetOperation { left, right, .. } => SetExprShape::SetOperation {
            left: Box::new(set_expr_shape(left)),
            right: Box::new(set_expr_shape(right)),
        },
        SetExpr::Values(_) => SetExprShape::Values,
        SetExpr::Insert(_) => SetExprShape::Insert,
        SetExpr::Update(_) => SetExprShape::Update,
        SetExpr::Delete(_) => SetExprShape::Delete,
        SetExpr::Merge(_) => SetExprShape::Merge,
        SetExpr::Table(_) => SetExprShape::Table,
    }
}

/// The shape of a `sqlparser::ast::Statement`: its variant, and of the
/// variants that classification looks into, the fields it reads.
#[verifier::external_body]
fn statement_shape(s: &Statement) -> StatementShape {
    match s {
        Statement::Query(q) => StatementShape::Query(set_expr_shape(&q.body)),
        Statement::Explain { analyze, statement, .. } => StatementShape::Explain {
            analyze: *analyze,
            statement: Box::new(statement_shape(statement)),
        },
        Statement::Update(u) => StatementShape::Update { has_selection: u.selection.is_some() },
        Statement::Delete(d) => StatementShape::Delete { has_selection: d.selection.is_some() },
        other => StatementShape::Plain { kind: statement_kind(other) },
    }
}

/// `Parser::parse_sql` under the given dialect. Hands back the shape of
/// each parsed statement in order, or the text of the parse error; either
/// depends on the dialect and the text alone.
#[verifier::external_body]
fn parse_statements(dialect: SqlDialect, sql: &str) -> (r: Result<Vec<StatementShape>, String>)
    ensures
        match r {
            Ok(v) => parsed_sql(dialect, sql@) == Ok::<Seq<StatementShape>, Seq<char>>(v@),
            Err(e) => parsed_sql(dialect, sql@) == Err::<Seq<StatementShape>, Seq<char>>(e@),
        },
{
    let parsed = match dialect {
        SqlDialect::Postgres => Parser::parse_sql(&PostgreSqlDialect {}, sql),
        SqlDialect::MySql => Parser::parse_sql(&MySqlDialect {}, sql),
        SqlDialect::Generic => Parser::parse_sql(&GenericDialect {}, sql),
    };
    match parsed {
        Ok(stmts) => Ok(stmts.iter().map(statement_shape).collect()),
        Err(e) => Err(e.to_string()),
    }
}

/// The dialect a driver's statements are written in.
pub fn dialect_for_driver(driver_id: &str) -> (d: SqlDialect)
    ensures
        d == dialect_of(driver_id@),
{
    if eq_ignore_ascii_case(driver_id, "postgres") {
        SqlDialect::Postgres
    } else if eq_ignore_ascii_case(driver_id, "mysql") {
        SqlDialect::MySql
    } else {
        SqlDialect::Generic
    }
}

/// Whether a kind of statement only reads or only steers the session.
pub fn reads_only(kind: StatementKind) -> (b: bool)
    ensures
        b == kind_reads_only(kind),
{
    match kind {
        StatementKind::ExplainTable => true,
        StatementKind::SetVariable => true,
        StatementKind::Use => true,
        StatementKind::StartTransaction => true,
        StatementKind::Commit => true,
        StatementKind::Rollback => true,
        StatementKind::Savepoint => true,
        StatementKind::ReleaseSavepoint => true,
        StatementKind::ShowFunctions => true,
        StatementKind::ShowVariable => true,
        StatementKind::ShowStatus => true,
        StatementKind::ShowVariables => true,
        StatementKind::ShowCreate => true,
        StatementKind::ShowColumns => true,
        StatementKind::ShowCatalogs => true,
        StatementKind::ShowDatabases => true,
        StatementKind::ShowProcessList => true,
        StatementKind::ShowSchemas => true,
        StatementKind::ShowCharset => true,
        StatementKind::ShowObjects => true,
        StatementKind::ShowTables => true,
        StatementKind::ShowViews => true,
        StatementKind::ShowCollation => true,
        _ => false,
    }
}

/// Whether a kind of statement destroys or restructures.
pub fn is_destructive(kind: StatementKind) -> (b: bool)
    ensures
        b == kind_is_destructive(kind),
{
    match kind {
        StatementKind::Drop => true,
        StatementKind::DropFunction => true,
        StatementKind::DropDomain => true,
        StatementKind::DropProcedure => true,
        StatementKind::DropSecret => true,
        StatementKind::DropPolicy => true,
        StatementKind::DropConnector => true,
        StatementKind::DropExtension => true,
        StatementKind::DropOperator => true,
        StatementKind::DropOperatorFamily => true,
        StatementKind::DropOperatorClass => true,
        StatementKind::DropTrigger => true,
        StatementKind::Truncate => true,
        StatementKind::AlterTable => true,
        StatementKind::AlterSchema => true,
        StatementKind::AlterIndex => true,
        StatementKind::AlterView => true,
        StatementKind::AlterFunction => true,
        StatementKind::AlterType => true,
        StatementKind::AlterCollation => true,
        StatementKind::AlterOperator => true,
        StatementKind::AlterOperatorFamily => true,
        StatementKind::AlterOperatorClass => true,
        StatementKind::AlterTextSearch => true,
        StatementKind::AlterRole => true,
        StatementKind::AlterPolicy => true,
        StatementKind::AlterConnector => true,
        StatementKind::AlterSession => true,
        StatementKind::AlterUser => true,
        _ => false,
    }
}

/// Whether a query body writes.
pub fn set_expr_is_mutation(expr: &SetExprShape) -> (b: bool)
    ensures
        b == set_expr_mutates(*expr),
    decreases *expr,
{
    match expr {
        SetExprShape::Select { has_into } => *has_into,
        SetExprShape::Query(body) => set_expr_is_mutation(body),
        SetExprShape::SetOperation { left, right } => set_expr_is_mutation(left)
            || set_expr_is_mutation(right),
        SetExprShape::Insert | SetExprShape::Update | SetExprShape::Delete | SetExprShape::Merge => true,
        SetExprShape::Values | SetExprShape::Table => false,
    }
}

/// Whether a statement writes data or schema.
pub fn is_mutation_statement(statement: &StatementShape) -> (b: bool)
    ensures
        b == statement_mutates(*statement),
    decreases *statement,
{
    match statement {
        StatementShape::Query(body) => set_expr_is_mutation(body),
        StatementShape::Explain { analyze, statement } => {
            if *analyze {
                is_mutation_statement(statement)
            } else {
                false
            }
        },
        StatementShape::Update { .. } | StatementShape::Delete { .. } => true,
        StatementShape::Plain { kind } => !reads_only(*kind),
    }
}

/// Whether a statement is destructive.
pub fn is_dangerous_statement(statement: &StatementShape) -> (b: bool)
    ensures
        b == statement_is_dangerous(*statement),
    decreases *statement,
{
    match statement {
        StatementShape::Query(_) => false,
        StatementShape::Explain { analyze, statement } => {
            if *analyze {
                is_dangerous_statement(statement)
            } else {
                false
            }
        },
        StatementShape::Update { has_selection } => !*has_selection,
        StatementShape::Delete { has_selection } => !*has_selection,
        StatementShape::Plain { kind } => is_destructive(*kind),
    }
}

/// The flags of a list of parsed statements.
pub fn analyze_statements(statements: &Vec<StatementShape>) -> (a: SqlSafetyAnalysis)
    ensures
        a == analysis_of(statements@),
{
    let mut is_mutation = false;
    let mut is_dangerous = false;
    let mut i: usize = 0;
    while i < statements.len()
        invariant
            i <= statements.len(),
            is_mutation == exists|k: int| 0 <= k < i && statement_mutates(#[trigger] statements@[k]),
            is_dangerous == exists|k: int|
                0 <= k < i && statement_is_dangerous(#[trigger] statements@[k]),
        decreases statements.len() - i,
    {
        if is_mutation_statement(&statements[i]) {
            is_mutation = true;
        }
        if is_dangerous_statement(&statements[i]) {
            is_dangerous = true;
        }
        i += 1;
    }
    SqlSafetyAnalysis { is_mutation, is_dangerous }
}

/// What `analyze_sql` returns for a text, given what parsing makes of it.
pub open spec fn analyze_sql_spec(driver_id: Seq<char>, sql: Seq<char>) -> Result<
    SqlSafetyAnalysis,
    Seq<char>,
> {
    if trimmed(sql).len() == 0 {
        Err("Empty SQL"@)
    } else {
        match parsed_sql(dialect_of(driver_id), trimmed(sql)) {
            Ok(stmts) => Ok(analysis_of(stmts)),
            Err(e) => Err(e),
        }
    }
}

/// Classifies a text of SQL for the driver's dialect.
///
/// An empty or blank text is refused with `Empty SQL`. Otherwise the text
/// is trimmed and parsed; a parse error is handed back as its message, and
/// a successful parse gives the flags of the statements found.
pub fn analyze_sql(driver_id: &str, sql: &str) -> (r: Result<SqlSafetyAnalysis, String>)
    ensures
        match analyze_sql_spec(driver_id@, sql@) {
            Ok(a) => r == Ok::<SqlSafetyAnalysis, String>(a),
            Err(e) => r is Err && r->Err_0@ == e,
        },
{
    let text = trim(sql);
    if text.as_str().unicode_len() == 0 {
        return Err(String::from_str("Empty SQL"));
    }
    let dialect = dialect_for_driver(driver_id);
    match parse_statements(dialect, text.as_str()) {
        Ok(statements) => Ok(analyze_statements(&statements)),
        Err(e) => Err(e),
    }
}

} // verus!
