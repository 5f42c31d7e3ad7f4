//! The relational drivers: connection strings, the statements built for
//! previews and row mutations, and how queries and failures are told
//! apart.

use crate::engine::error::{EngineError, ErrorKind};
use crate::engine::traits::EngineKind;
use crate::engine::types::{
    opt_view, CollectionType, ColumnInfo, ConnectionConfig, ConnectionConfigView, Namespace,
    TableColumn, TableSchema,
};
use crate::engine::value::{QueryResult, Row, RowData};
use crate::text::{
    concat2, concat3, contains, decimal, decimal_string, decimal_string_wide, has_prefix,
    has_substring, join, joined, push_string, quote, quoted, starts_with, str_eq, strings_view,
    trim, trimmed,
};
use vstd::prelude::*;
use vstd::string::*;

verus! {

/// The two relational engines.
#[derive(Debug, Clone, Copy, PartialEq, Eq, Structural)]
pub enum SqlEngine {
    Postgres,
    MySql,
}

/// The most connections a session's pool holds.
pub const POOL_MAX_CONNECTIONS: u32 = 5;

/// Seconds a statement waits for a connection from the pool.
pub const POOL_ACQUIRE_TIMEOUT_SECS: u64 = 30;

/// The most connections the pool of a connection test holds.
pub const TEST_MAX_CONNECTIONS: u32 = 1;

/// Seconds a connection test waits for a connection.
pub const TEST_ACQUIRE_TIMEOUT_SECS: u64 = 10;

/// The upper-case form of a text, as `str::to_uppercase` gives it.
pub uninterp spec fn unicode_upper(s: Seq<char>) -> Seq<char>;

/// `str::to_uppercase` maps each character to its Unicode upper-case
/// form; the result depends on the text alone.
pub assume_specification[ str::to_uppercase ](s: &str) -> (r: String)
    ensures
        r@ == unicode_upper(s@),
;

impl SqlEngine {
    /// The character that identifiers are quoted with.
    pub open spec fn quote_char(&self) -> char {
        match self {
            SqlEngine::Postgres => '"',
            SqlEngine::MySql => '`',
        }
    }

    /// The engine among all engines.
    pub fn kind(&self) -> (k: EngineKind)
        ensures
            k == (match self {
                SqlEngine::Postgres => EngineKind::Postgres,
                SqlEngine::MySql => EngineKind::MySql,
            }),
    {
        match self {
            SqlEngine::Postgres => EngineKind::Postgres,
            SqlEngine::MySql => EngineKind::MySql,
        }
    }

    /// The identifier in quotes, with the quote character doubled
    /// wherever the identifier holds it.
    pub fn quote_identifier(&self, name: &str) -> (s: String)
        ensures
            s@ == quoted(name@, self.quote_char()),
    {
        match self {
            SqlEngine::Postgres => quote(name, '"'),
            SqlEngine::MySql => quote(name, '`'),
        }
    }

    /// The statement that opens a transaction.
    pub fn begin_statement(&self) -> (s: &'static str)
        ensures
            s@ == (match self {
                SqlEngine::Postgres => "BEGIN"@,
                SqlEngine::MySql => "START TRANSACTION"@,
            }),
    {
        match self {
            SqlEngine::Postgres => "BEGIN",
            SqlEngine::MySql => "START TRANSACTION",
        }
    }

    /// The statement that asks the server which connection this is; its
    /// answer is what a cancellation is aimed at.
    pub fn connection_id_statement(&self) -> (s: &'static str)
        ensures
            s@ == (match self {
                SqlEngine::Postgres => "SELECT pg_backend_pid()"@,
                SqlEngine::MySql => "SELECT CONNECTION_ID()"@,
            }),
    {
        match self {
            SqlEngine::Postgres => "SELECT pg_backend_pid()",
            SqlEngine::MySql => "SELECT CONNECTION_ID()",
        }
    }
}

// ---------------------------------------------------------------------------
// Connection strings
// ---------------------------------------------------------------------------

/// The address part shared by all connection strings:
/// `user:password@host:port/`.
pub open spec fn authority(c: ConnectionConfigView) -> Seq<char> {
    c.username + ":"@ + c.password + "@"@ + c.host + ":"@ + decimal(c.port as nat) + "/"@
}

/// The connection string of a relational engine.
pub open spec fn connection_string(engine: SqlEngine, c: ConnectionConfigView) -> Seq<char> {
    match engine {
        SqlEngine::Postgres => "postgres://"@ + authority(c) + (match c.database {
            Some(d) => d,
            None => "postgres"@,
        }) + "?sslmode="@ + (if c.ssl {
            "require"@
        } else {
            "disable"@
        }),
        SqlEngine::MySql => "mysql://"@ + authority(c) + (match c.database {
            Some(d) => d,
            None => "mysql"@,
        }) + "?ssl-mode="@ + (if c.ssl {
            "REQUIRED"@
        } else {
            "DISABLED"@
        }),
    }
}

/// Appends `user:password@host:port/` to a connection string.
pub fn push_authority(out: &mut String, config: &ConnectionConfig)
    ensures
        final(out)@ == old(out)@ + authority(config@),
{
    out.append(config.username.as_str());
    out.append(":");
    out.append(config.password.as_str());
    out.append("@");
    out.append(config.host.as_str());
    out.append(":");
    let port = decimal_string(config.port as u64);
    out.append(port.as_str());
    out.append("/");
}

/// The connection string of a relational engine for the settings: the
/// engine's default database where none is named, and TLS required or
/// switched off.
pub fn build_connection_string(engine: SqlEngine, config: &ConnectionConfig) -> (s: String)
    ensures
        s@ == connection_string(engine, config@),
{
    match engine {
        SqlEngine::Postgres => {
            let mut s = String::from_str("postgres://");
            push_authority(&mut s, config);
            match &config.database {
                Some(d) => s.append(d.as_str()),
                None => s.append("postgres"),
            }
            s.append("?sslmode=");
            if config.ssl {
                s.append("require");
            } else {
                s.append("disable");
            }
            s
        },
        SqlEngine::MySql => {
            let mut s = String::from_str("mysql://");
            push_authority(&mut s, config);
            match &config.database {
                Some(d) => s.append(d.as_str()),
                None => s.append("mysql"),
            }
            s.append("?ssl-mode=");
            if config.ssl {
                s.append("REQUIRED");
            } else {
                s.append("DISABLED");
            }
            s
        },
    }
}

// ---------------------------------------------------------------------------
// Telling queries and failures apart
// ---------------------------------------------------------------------------

/// Whether an upper-case text begins with a keyword of the statements
/// that give rows back: `SELECT`, `WITH`, `SHOW`, `EXPLAIN` or `DESCRIBE`.
/// The keywords are the same for every relational engine.
pub open spec fn has_row_keyword(engine: SqlEngine, upper: Seq<char>) -> bool {
    has_prefix(upper, "SELECT"@) || has_prefix(upper, "WITH"@) || has_prefix(upper, "SHOW"@)
        || has_prefix(upper, "EXPLAIN"@) || has_prefix(upper, "DESCRIBE"@)
}

/// Whether a statement is taken to give rows back: after trimming, and
/// in upper case, it begins with one of the keywords.
pub open spec fn row_returning(engine: SqlEngine, query: Seq<char>) -> bool {
    has_row_keyword(engine, unicode_upper(trimmed(query)))
}

/// Whether an upper-case text begins with a keyword of the statements
/// that give rows back.
pub fn starts_with_row_keyword(engine: SqlEngine, upper: &str) -> (b: bool)
    ensures
        b == has_row_keyword(engine, upper@),
{
    starts_with(upper, "SELECT") || starts_with(upper, "WITH") || starts_with(upper, "SHOW")
        || starts_with(upper, "EXPLAIN") || starts_with(upper, "DESCRIBE")
}

/// Whether a statement is taken to give rows back, which decides between
/// fetching rows and counting the rows touched.
pub fn is_row_returning(engine: SqlEngine, query: &str) -> (b: bool)
    ensures
        b == row_returning(engine, query@),
{
    let t = trim(query);
    let upper = t.as_str().to_uppercase();
    starts_with_row_keyword(engine, upper.as_str())
}

/// The words by which a server's message is taken for a syntax error.
pub open spec fn syntax_marker(engine: SqlEngine) -> Seq<char> {
    match engine {
        SqlEngine::Postgres => "syntax error"@,
        SqlEngine::MySql => "syntax"@,
    }
}

/// The words by which a server's message is taken for a refusal of the
/// credentials.
pub open spec fn auth_marker(engine: EngineKind) -> Seq<char> {
    match engine {
        EngineKind::Postgres => "password authentication failed"@,
        EngineKind::MySql => "Access denied"@,
        EngineKind::MongoDb => "Authentication failed"@,
    }
}

/// The failure for a message that the server gave on a statement: a
/// syntax error where the message says so, an execution error otherwise.
pub fn classify_statement_error(engine: SqlEngine, message: &str) -> (e: EngineError)
    ensures
        e.is(
            if has_substring(message@, syntax_marker(engine)) {
                ErrorKind::SyntaxError
            } else {
                ErrorKind::ExecutionError
            },
            message@,
        ),
{
    let is_syntax = match engine {
        SqlEngine::Postgres => contains(message, "syntax error"),
        SqlEngine::MySql => contains(message, "syntax"),
    };
    if is_syntax {
        EngineError::syntax_error(message)
    } else {
        EngineError::execution_error(message)
    }
}

/// The failure for a message that the server gave when a connection was
/// tested: refused credentials where the message says so, a failed
/// connection otherwise.
pub fn classify_connect_error(engine: EngineKind, message: &str) -> (e: EngineError)
    ensures
        e.is(
            if has_substring(message@, auth_marker(engine)) {
                ErrorKind::AuthFailed
            } else {
                ErrorKind::ConnectionFailed
            },
            message@,
        ),
{
    let is_auth = match engine {
        EngineKind::Postgres => contains(message, "password authentication failed"),
        EngineKind::MySql => contains(message, "Access denied"),
        EngineKind::MongoDb => contains(message, "Authentication failed"),
    };
    if is_auth {
        EngineError::auth_failed(message)
    } else {
        EngineError::connection_failed(message)
    }
}

// ---------------------------------------------------------------------------
// Statements
// ---------------------------------------------------------------------------

/// The quoted, qualified name of a table. PostgreSQL qualifies by the
/// schema where the namespace has one; MySQL always by the database.
pub open spec fn qualified_table(
    engine: SqlEngine,
    database: Seq<char>,
    schema: Option<Seq<char>>,
    table: Seq<char>,
) -> Seq<char> {
    match engine {
        SqlEngine::Postgres => match schema {
            Some(s) => quoted(s, '"') + "."@ + quoted(table, '"'),
            None => quoted(table, '"'),
        },
        SqlEngine::MySql => quoted(database, '`') + "."@ + quoted(table, '`'),
    }
}

/// The placeholder of the parameter with the given number, counted from
/// one.
pub open spec fn placeholder(engine: SqlEngine, number: nat) -> Seq<char> {
    match engine {
        SqlEngine::Postgres => "$"@ + decimal(number),
        SqlEngine::MySql => "?"@,
    }
}

/// Each name, quoted.
pub open spec fn quoted_names(engine: SqlEngine, names: Seq<Seq<char>>) -> Seq<Seq<char>> {
    Seq::new(names.len(), |i: int| quoted(names[i], engine.quote_char()))
}

/// As many placeholders as there are names, numbered from one.
pub open spec fn placeholders(engine: SqlEngine, count: nat) -> Seq<Seq<char>> {
    Seq::new(count, |i: int| placeholder(engine, (i + 1) as nat))
}

/// Each name quoted and set equal to a placeholder; the first
/// placeholder has the number `first`.
pub open spec fn assignments(engine: SqlEngine, names: Seq<Seq<char>>, first: nat) -> Seq<
    Seq<char>,
> {
    Seq::new(
        names.len(),
        |i: int| quoted(names[i], engine.quote_char()) + "="@ + placeholder(engine, (first + i) as nat),
    )
}

/// The statement that inserts a row with the given columns into the
/// table; without columns, the engine's form for a row of defaults.
pub open spec fn insert_sql(engine: SqlEngine, table: Seq<char>, names: Seq<Seq<char>>) -> Seq<
    char,
> {
    if names.len() == 0 {
        match engine {
            SqlEngine::Postgres => "INSERT INTO "@ + table + " DEFAULT VALUES"@,
            SqlEngine::MySql => "INSERT INTO "@ + table + " () VALUES ()"@,
        }
    } else {
        "INSERT INTO "@ + table + " ("@ + joined(quoted_names(engine, names), ", "@)
            + ") VALUES ("@ + joined(placeholders(engine, names.len()), ", "@) + ")"@
    }
}

/// The statement that sets the given columns of the rows with the given
/// key. The parameters of the columns come first, then those of the key.
pub open spec fn update_sql(
    engine: SqlEngine,
    table: Seq<char>,
    names: Seq<Seq<char>>,
    key: Seq<Seq<char>>,
) -> Seq<char> {
    "UPDATE "@ + table + " SET "@ + joined(assignments(engine, names, 1), ", "@) + " WHERE "@
        + joined(assignments(engine, key, 1 + names.len()), " AND "@)
}

/// The statement that deletes the rows with the given key.
pub open spec fn delete_sql(engine: SqlEngine, table: Seq<char>, key: Seq<Seq<char>>) -> Seq<char> {
    "DELETE FROM "@ + table + " WHERE "@ + joined(assignments(engine, key, 1), " AND "@)
}

/// The statement that reads the first rows of a table. The names are put
/// between quotes as they are.
pub open spec fn preview_sql(
    engine: SqlEngine,
    database: Seq<char>,
    schema: Option<Seq<char>>,
    table: Seq<char>,
    limit: u32,
) -> Seq<char> {
    match engine {
        SqlEngine::Postgres => "SELECT * FROM \""@ + (match schema {
            Some(s) => s,
            None => "public"@,
        }) + "\".\""@ + table + "\" LIMIT "@ + decimal(limit as nat),
        SqlEngine::MySql => "SELECT * FROM `"@ + database + "`.`"@ + table + "` LIMIT "@ + decimal(
            limit as nat,
        ),
    }
}

/// The quoted, qualified name of a table.
pub fn table_name(engine: SqlEngine, namespace: &Namespace, table: &str) -> (s: String)
    ensures
        s@ == qualified_table(engine, namespace.database@, opt_view(namespace.schema), table@),
{
    match engine {
        SqlEngine::Postgres => match &namespace.schema {
            Some(schema) => {
                let a = quote(schema.as_str(), '"');
                let b = quote(table, '"');
                concat3(a.as_str(), ".", b.as_str())
            },
            None => quote(table, '"'),
        },
        SqlEngine::MySql => {
            let a = quote(namespace.database.as_str(), '`');
            let b = quote(table, '`');
            concat3(a.as_str(), ".", b.as_str())
        },
    }
}

fn placeholder_text(engine: SqlEngine, number: u128) -> (s: String)
    ensures
        s@ == placeholder(engine, number as nat),
{
    match engine {
        SqlEngine::Postgres => {
            let d = decimal_string_wide(number);
            concat2("$", d.as_str())
        },
        SqlEngine::MySql => String::from_str("?"),
    }
}

fn quoted_name_list(engine: SqlEngine, row: &RowData) -> (out: Vec<String>)
    ensures
        strings_view(out@) == quoted_names(engine, row.names()),
{
    let mut out: Vec<String> = Vec::new();
    let mut i: usize = 0;
    while i < row.len()
        invariant
            i <= row.names().len(),
            strings_view(out@) == quoted_names(engine, row.names().take(i as int)),
        decreases row.names().len() - i,
    {
        let q = engine.quote_identifier(row.name_at(i));
        push_string(&mut out, q);
        i += 1;
    }
    out
}

fn placeholder_list(engine: SqlEngine, count: usize) -> (out: Vec<String>)
    ensures
        strings_view(out@) == placeholders(engine, count as nat),
{
    let mut out: Vec<String> = Vec::new();
    let mut i: usize = 0;
    while i < count
        invariant
            i <= count,
            strings_view(out@) == placeholders(engine, i as nat),
        decreases count - i,
    {
        let p = placeholder_text(engine, i as u128 + 1);
        push_string(&mut out, p);
        i += 1;
    }
    out
}

fn assignment_list(engine: SqlEngine, row: &RowData, first: u128) -> (out: Vec<String>)
    requires
        first <= usize::MAX + 1,
    ensures
        strings_view(out@) == assignments(engine, row.names(), first as nat),
{
    let mut out: Vec<String> = Vec::new();
    let mut i: usize = 0;
    while i < row.len()
        invariant
            i <= row.names().len(),
            first <= usize::MAX + 1,
            strings_view(out@) == assignments(engine, row.names().take(i as int), first as nat),
        decreases row.names().len() - i,
    {
        let q = engine.quote_identifier(row.name_at(i));
        let p = placeholder_text(engine, first + i as u128);
        let a = concat3(q.as_str(), "=", p.as_str());
        push_string(&mut out, a);
        i += 1;
    }
    out
}

/// Builds the statement that inserts a row. The parameters take the
/// values of `data` in the order of its columns, which is the order of
/// their names.
pub fn build_insert(engine: SqlEngine, namespace: &Namespace, table: &str, data: &RowData) -> (sql:
    String)
    ensures
        sql@ == insert_sql(
            engine,
            qualified_table(engine, namespace.database@, opt_view(namespace.schema), table@),
            data.names(),
        ),
{
    let name = table_name(engine, namespace, table);
    if data.is_empty() {
        match engine {
            SqlEngine::Postgres => concat3("INSERT INTO ", name.as_str(), " DEFAULT VALUES"),
            SqlEngine::MySql => concat3("INSERT INTO ", name.as_str(), " () VALUES ()"),
        }
    } else {
        let cols = quoted_name_list(engine, data);
        let params = placeholder_list(engine, data.len());
        let cols_text = join(&cols, ", ");
        let params_text = join(&params, ", ");
        let mut sql = concat3("INSERT INTO ", name.as_str(), " (");
        sql.append(cols_text.as_str());
        sql.append(") VALUES (");
        sql.append(params_text.as_str());
        sql.append(")");
        sql
    }
}

/// What an update comes to.
#[derive(Debug)]
pub enum UpdatePlan {
    /// Nothing is to be set: no row is touched and the server is not
    /// asked.
    Nothing,
    /// The statement to run. Its parameters take the values of the data
    /// in the order of its columns, then those of the key in the order of
    /// its columns.
    Statement(String),
}

/// Builds the statement that updates the rows with the given key. An
/// update without a key is refused; an update of nothing touches no row.
pub fn build_update(
    engine: SqlEngine,
    namespace: &Namespace,
    table: &str,
    primary_key: &RowData,
    data: &RowData,
) -> (r: Result<UpdatePlan, EngineError>)
    ensures
        primary_key.names().len() == 0 ==> r is Err && r->Err_0.is(
            ErrorKind::ExecutionError,
            "Primary key required for update operations"@,
        ),
        primary_key.names().len() > 0 && data.names().len() == 0 ==> r is Ok && r->Ok_0 is Nothing,
        primary_key.names().len() > 0 && data.names().len() > 0 ==> r is Ok
            && r->Ok_0 is Statement && r->Ok_0->Statement_0@ == update_sql(
            engine,
            qualified_table(engine, namespace.database@, opt_view(namespace.schema), table@),
            data.names(),
            primary_key.names(),
        ),
{
    if primary_key.is_empty() {
        return Err(EngineError::execution_error("Primary key required for update operations"));
    }
    if data.is_empty() {
        return Ok(UpdatePlan::Nothing);
    }
    let name = table_name(engine, namespace, table);
    let sets = assignment_list(engine, data, 1);
    let conditions = assignment_list(engine, primary_key, 1 + data.len() as u128);
    let sets_text = join(&sets, ", ");
    let conditions_text = join(&conditions, " AND ");
    let mut sql = concat3("UPDATE ", name.as_str(), " SET ");
    sql.append(sets_text.as_str());
    sql.append(" WHERE ");
    sql.append(conditions_text.as_str());
    Ok(UpdatePlan::Statement(sql))
}

/// Builds the statement that deletes the rows with the given key. A
/// delete without a key is refused.
pub fn build_delete(
    engine: SqlEngine,
    namespace: &Namespace,
    table: &str,
    primary_key: &RowData,
) -> (r: Result<String, EngineError>)
    ensures
        primary_key.names().len() == 0 ==> r is Err && r->Err_0.is(
            ErrorKind::ExecutionError,
            "Primary key required for delete operations"@,
        ),
        primary_key.names().len() > 0 ==> r is Ok && r->Ok_0@ == delete_sql(
            engine,
            qualified_table(engine, namespace.database@, opt_view(namespace.schema), table@),
            primary_key.names(),
        ),
{
    if primary_key.is_empty() {
        return Err(EngineError::execution_error("Primary key required for delete operations"));
    }
    let name = table_name(engine, namespace, table);
    let conditions = assignment_list(engine, primary_key, 1);
    let conditions_text = join(&conditions, " AND ");
    let mut sql = concat3("DELETE FROM ", name.as_str(), " WHERE ");
    sql.append(conditions_text.as_str());
    Ok(sql)
}

/// Builds the statement that reads the first `limit` rows of a table.
pub fn build_preview(engine: SqlEngine, namespace: &Namespace, table: &str, limit: u32) -> (sql:
    String)
    ensures
        sql@ == preview_sql(
            engine,
            namespace.database@,
            opt_view(namespace.schema),
            table@,
            limit,
        ),
{
    let n = decimal_string(limit as u64);
    match engine {
        SqlEngine::Postgres => {
            let mut sql = String::from_str("SELECT * FROM \"");
            match &namespace.schema {
                Some(s) => sql.append(s.as_str()),
                None => sql.append("public"),
            }
            sql.append("\".\"");
            sql.append(table);
            sql.append("\" LIMIT ");
            sql.append(n.as_str());
            sql
        },
        SqlEngine::MySql => {
            let mut sql = String::from_str("SELECT * FROM `");
            sql.append(namespace.database.as_str());
            sql.append("`.`");
            sql.append(table);
            sql.append("` LIMIT ");
            sql.append(n.as_str());
            sql
        },
    }
}

/// The statement that asks the server to stop what a connection is
/// running. PostgreSQL takes the connection as the one parameter; MySQL
/// takes it in the text.
pub fn build_cancel(engine: SqlEngine, connection: u64) -> (sql: String)
    ensures
        sql@ == (match engine {
            SqlEngine::Postgres => "SELECT pg_cancel_backend($1)"@,
            SqlEngine::MySql => "KILL QUERY "@ + decimal(connection as nat),
        }),
{
    match engine {
        SqlEngine::Postgres => String::from_str("SELECT pg_cancel_backend($1)"),
        SqlEngine::MySql => {
            let n = decimal_string(connection);
            concat2("KILL QUERY ", n.as_str())
        },
    }
}

// ---------------------------------------------------------------------------
// Introspection
// ---------------------------------------------------------------------------

/// The kind of a collection from the type that the catalogue gives it:
/// `VIEW` is a view, anything else a table.
pub fn collection_type_of(table_type: &str) -> (t: CollectionType)
    ensures
        t == (if table_type@ == "VIEW"@ {
            CollectionType::View
        } else {
            CollectionType::Table
        }),
{
    if str_eq(table_type, "VIEW") {
        CollectionType::View
    } else {
        CollectionType::Table
    }
}

/// One column as the catalogue describes it.
#[derive(Debug)]
pub struct CatalogColumn {
    pub name: String,
    pub data_type: String,
    /// `YES` where the column takes nulls.
    pub is_nullable: String,
    pub default_value: Option<String>,
    /// MySQL's key marker of the column; `PRI` for the primary key.
    pub column_key: Option<String>,
}

/// Whether a name is among the names of a list.
pub open spec fn among(names: Seq<String>, name: Seq<char>) -> bool {
    exists|i: int| 0 <= i < names.len() && (#[trigger] names[i])@ == name
}

/// Whether a column belongs to the primary key: by MySQL's key marker,
/// or by PostgreSQL's list of key columns.
pub open spec fn in_primary_key(engine: SqlEngine, column: CatalogColumn, key: Seq<String>) -> bool {
    match engine {
        SqlEngine::Postgres => among(key, column.name@),
        SqlEngine::MySql => opt_view(column.column_key) == Some("PRI"@),
    }
}

fn is_among(names: &Vec<String>, name: &str) -> (b: bool)
    ensures
        b == among(names@, name@),
{
    let mut i: usize = 0;
    while i < names.len()
        invariant
            i <= names.len(),
            forall|k: int| 0 <= k < i ==> (#[trigger] names@[k])@ != name@,
        decreases names.len() - i,
    {
        if str_eq(names[i].as_str(), name) {
            return true;
        }
        i += 1;
    }
    false
}

/// The schema column for a column of the catalogue.
pub fn table_column(engine: SqlEngine, column: &CatalogColumn, key: &Vec<String>) -> (c: TableColumn)
    ensures
        c.name@ == column.name@,
        c.data_type@ == column.data_type@,
        c.nullable == (column.is_nullable@ == "YES"@),
        opt_view(c.default_value) == opt_view(column.default_value),
        c.is_primary_key == in_primary_key(engine, *column, key@),
{
    let is_primary_key = match engine {
        SqlEngine::Postgres => is_among(key, column.name.as_str()),
        SqlEngine::MySql => match &column.column_key {
            Some(k) => str_eq(k.as_str(), "PRI"),
            None => false,
        },
    };
    TableColumn {
        name: column.name.clone(),
        data_type: column.data_type.clone(),
        nullable: str_eq(column.is_nullable.as_str(), "YES"),
        default_value: crate::engine::types::clone_opt(&column.default_value),
        is_primary_key,
    }
}

/// The schema of a table from what the catalogue says of its columns.
///
/// For PostgreSQL `key` lists the columns of the primary key in key
/// order, and that is the key of the schema. For MySQL the key is made
/// of the columns that carry the key marker, in column order. A table
/// without key columns has no key.
pub fn build_table_schema(
    engine: SqlEngine,
    columns: &Vec<CatalogColumn>,
    key: Vec<String>,
    row_count_estimate: Option<u64>,
) -> (schema: TableSchema)
    ensures
        schema.columns@.len() == columns@.len(),
        forall|i: int|
            0 <= i < columns@.len() ==> {
                &&& (#[trigger] schema.columns@[i]).name@ == columns@[i].name@
                &&& schema.columns@[i].data_type@ == columns@[i].data_type@
                &&& schema.columns@[i].nullable == (columns@[i].is_nullable@ == "YES"@)
                &&& opt_view(schema.columns@[i].default_value) == opt_view(
                    columns@[i].default_value,
                )
                &&& schema.columns@[i].is_primary_key == in_primary_key(engine, columns@[i], key@)
            },
        schema.row_count_estimate == row_count_estimate,
        engine == SqlEngine::Postgres ==> (if key@.len() == 0 {
            schema.primary_key is None
        } else {
            schema.primary_key == Some(key)
        }),
        engine == SqlEngine::MySql ==> match schema.primary_key {
            None => forall|i: int|
                0 <= i < columns@.len() ==> !in_primary_key(engine, #[trigger] columns@[i], key@),
            Some(k) => k@.len() > 0 && strings_view(k@) == marked_names(columns@),
        },
{
    let mut out: Vec<TableColumn> = Vec::new();
    let mut marked: Vec<String> = Vec::new();
    let mut i: usize = 0;
    while i < columns.len()
        invariant
            i <= columns.len(),
            out@.len() == i,
            forall|k: int|
                0 <= k < i ==> {
                    &&& (#[trigger] out@[k]).name@ == columns@[k].name@
                    &&& out@[k].data_type@ == columns@[k].data_type@
                    &&& out@[k].nullable == (columns@[k].is_nullable@ == "YES"@)
                    &&& opt_view(out@[k].default_value) == opt_view(columns@[k].default_value)
                    &&& out@[k].is_primary_key == in_primary_key(engine, columns@[k], key@)
                },
            strings_view(marked@) == marked_names(columns@.take(i as int)),
            forall|k: int|
                0 <= k < i && in_primary_key(SqlEngine::MySql, #[trigger] columns@[k], key@)
                    ==> marked@.len() > 0,
        decreases columns.len() - i,
    {
        let c = table_column(engine, &columns[i], &key);
        proof {
            let next = columns@.take(i + 1);
            assert(next.drop_last() =~= columns@.take(i as int));
        }
        let is_marked = match &columns[i].column_key {
            Some(k) => str_eq(k.as_str(), "PRI"),
            None => false,
        };
        if is_marked {
            push_string(&mut marked, columns[i].name.clone());
            assert(strings_view(marked@).len() == marked@.len());
        }
        out.push(c);
        i += 1;
    }
    assert(columns@.take(columns.len() as int) =~= columns@);
    let primary_key = match engine {
        SqlEngine::Postgres => if key.len() == 0 {
            None
        } else {
            Some(key)
        },
        SqlEngine::MySql => if marked.len() == 0 {
            None
        } else {
            Some(marked)
        },
    };
    TableSchema { columns: out, primary_key, row_count_estimate }
}

/// The names of the columns that carry MySQL's key marker, in column
/// order.
pub open spec fn marked_names(columns: Seq<CatalogColumn>) -> Seq<Seq<char>>
    decreases columns.len(),
{
    if columns.len() == 0 {
        Seq::empty()
    } else if opt_view(columns.last().column_key) == Some("PRI"@) {
        marked_names(columns.drop_last()).push(columns.last().name@)
    } else {
        marked_names(columns.drop_last())
    }
}

/// The number of rows that PostgreSQL estimates for a table, read as an
/// unsigned number the way the 64 bits stand: a negative estimate, which
/// the server gives for a table it has never analysed, comes out as a
/// number above every real count.
pub fn row_estimate_from_signed(estimate: i64) -> (r: u64)
    ensures
        estimate >= 0 ==> r == estimate,
        estimate < 0 ==> r == estimate + 0x1_0000_0000_0000_0000,
{
    if estimate >= 0 {
        estimate as u64
    } else {
        let low: u64 = (estimate + i64::MAX + 1) as u64;
        low + 0x8000_0000_0000_0000u64
    }
}

/// The columns of a result, from the name and the type name of each:
/// nothing is known of whether a column takes nulls, so each is reported
/// as taking them.
pub fn result_columns(columns: &Vec<(String, String)>) -> (out: Vec<ColumnInfo>)
    ensures
        out@.len() == columns@.len(),
        forall|i: int|
            0 <= i < out@.len() ==> (#[trigger] out@[i]).name@ == columns@[i].0@
                && out@[i].data_type@ == columns@[i].1@ && out@[i].nullable,
{
    let mut out: Vec<ColumnInfo> = Vec::new();
    let mut i: usize = 0;
    while i < columns.len()
        invariant
            i <= columns.len(),
            out@.len() == i,
            forall|k: int|
                0 <= k < i ==> (#[trigger] out@[k]).name@ == columns@[k].0@ && out@[k].data_type@
                    == columns@[k].1@ && out@[k].nullable,
        decreases columns.len() - i,
    {
        out.push(
            ColumnInfo {
                name: columns[i].0.clone(),
                data_type: columns[i].1.clone(),
                nullable: true,
            },
        );
        i += 1;
    }
    out
}

/// The result of a statement that gave rows back. Without rows nothing
/// is known of the columns, and none are reported.
pub fn rows_result(columns: Vec<ColumnInfo>, rows: Vec<Row>, execution_time_us: u64) -> (r:
    QueryResult)
    ensures
        r.rows == rows,
        r.affected_rows is None,
        r.execution_time_us == execution_time_us,
        rows@.len() == 0 ==> r.columns@.len() == 0,
        rows@.len() > 0 ==> r.columns == columns,
{
    if rows.len() == 0 {
        QueryResult { columns: Vec::new(), rows, affected_rows: None, execution_time_us }
    } else {
        QueryResult { columns, rows, affected_rows: None, execution_time_us }
    }
}

/// The kinds of typed read that are tried on a cell of a row.
#[derive(Debug, Clone, Copy, PartialEq, Eq, Structural)]
pub enum ProbeType {
    U64,
    I64,
    I32,
    U32,
    I16,
    U16,
    I8,
    U8,
    Bool,
    F64,
    F32,
    Decimal,
    Text,
    DateTimeUtc,
    NaiveDateTime,
    NaiveDate,
    NaiveTime,
    Bytes,
    Json,
}

/// The order in which typed reads are tried on a cell; the first that
/// succeeds gives the value, and a cell that none can read is null.
///
/// Integers come first, widest first, so that a small integer is not
/// taken for a boolean; then booleans, floating-point numbers, decimals,
/// text, dates and times, bytes and JSON.
pub open spec fn probe_sequence(engine: SqlEngine) -> Seq<ProbeType> {
    match engine {
        SqlEngine::Postgres => seq![
            ProbeType::I64,
            ProbeType::I32,
            ProbeType::I16,
            ProbeType::Bool,
            ProbeType::F64,
            ProbeType::F32,
            ProbeType::Decimal,
            ProbeType::Text,
            ProbeType::DateTimeUtc,
            ProbeType::NaiveDateTime,
            ProbeType::NaiveDate,
            ProbeType::NaiveTime,
            ProbeType::Bytes,
            ProbeType::Json,
        ],
        SqlEngine::MySql => seq![
            ProbeType::U64,
            ProbeType::I64,
            ProbeType::I32,
            ProbeType::U32,
            ProbeType::I16,
            ProbeType::U16,
            ProbeType::I8,
            ProbeType::U8,
            ProbeType::Bool,
            ProbeType::F64,
            ProbeType::F32,
            ProbeType::Decimal,
            ProbeType::Text,
            ProbeType::DateTimeUtc,
            ProbeType::NaiveDateTime,
            ProbeType::NaiveDate,
            ProbeType::NaiveTime,
            ProbeType::Bytes,
            ProbeType::Json,
        ],
    }
}

/// The order in which typed reads are tried on a cell.
pub fn probe_order(engine: SqlEngine) -> (order: Vec<ProbeType>)
    ensures
        order@ == probe_sequence(engine),
{
    let mut order: Vec<ProbeType> = Vec::new();
    match engine {
        SqlEngine::Postgres => {
            order.push(ProbeType::I64);
            order.push(ProbeType::I32);
            order.push(ProbeType::I16);
        },
        SqlEngine::MySql => {
            order.push(ProbeType::U64);
            order.push(ProbeType::I64);
            order.push(ProbeType::I32);
            order.push(ProbeType::U32);
            order.push(ProbeType::I16);
            order.push(ProbeType::U16);
            order.push(ProbeType::I8);
            order.push(ProbeType::U8);
        },
    }
    order.push(ProbeType::Bool);
    order.push(ProbeType::F64);
    order.push(ProbeType::F32);
    order.push(ProbeType::Decimal);
    order.push(ProbeType::Text);
    order.push(ProbeType::DateTimeUtc);
    order.push(ProbeType::NaiveDateTime);
    order.push(ProbeType::NaiveDate);
    order.push(ProbeType::NaiveTime);
    order.push(ProbeType::Bytes);
    order.push(ProbeType::Json);
    order
}

/// In either order every integer read comes before the boolean read,
/// and the decimal read comes after the floating-point reads and before
/// text.
pub proof fn lemma_probe_order(engine: SqlEngine)
    ensures
        forall|i: int, j: int|
            0 <= i < probe_sequence(engine).len() && 0 <= j < probe_sequence(engine).len()
                && is_integer_probe(#[trigger] probe_sequence(engine)[i]) && #[trigger] probe_sequence(
                engine,
            )[j] == ProbeType::Bool ==> i < j,
        forall|i: int, j: int|
            0 <= i < probe_sequence(engine).len() && 0 <= j < probe_sequence(engine).len()
                && #[trigger] probe_sequence(engine)[i] == ProbeType::Decimal
                && #[trigger] probe_sequence(engine)[j] == ProbeType::Text ==> i < j,
        forall|i: int, j: int|
            0 <= i < probe_sequence(engine).len() && 0 <= j < probe_sequence(engine).len()
                && #[trigger] probe_sequence(engine)[i] == ProbeType::F32
                && #[trigger] probe_sequence(engine)[j] == ProbeType::Decimal ==> i < j,
        probe_sequence(engine).contains(ProbeType::Decimal),
{
    assert(probe_sequence(engine)[probe_sequence(engine).len() - 8] == ProbeType::Decimal);
}

/// Whether a typed read is one of the integer reads.
pub open spec fn is_integer_probe(p: ProbeType) -> bool {
    p == ProbeType::U64 || p == ProbeType::I64 || p == ProbeType::I32 || p == ProbeType::U32 || p
        == ProbeType::I16 || p == ProbeType::U16 || p == ProbeType::I8 || p == ProbeType::U8
}

} // verus!
