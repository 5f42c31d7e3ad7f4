//! What is decided around the execution of a query: whether the safety
//! rules let it through, under which identifier it runs, which query a
//! cancellation is aimed at, and what the caller is told.

use crate::engine::error::{EngineError, ErrorKind};
use crate::engine::ids::{is_random_form, uuid_parse, uuid_text, QueryId, SessionId};
use crate::engine::query_manager::{finished, try_registered, QueryManager, QueryManagerView};
use crate::engine::sql_safety::{analyze_sql, analyze_sql_spec, SqlSafetyAnalysis};
use crate::engine::types::{opt_view, Collection, Namespace, TableSchema};
use crate::engine::value::QueryResult;
use crate::policy::SafetyPolicy;
use crate::text::{
    ascii_lower, ascii_lower_chars, chars_of, concat2, concat3, decimal, decimal_string,
    eq_ignore_ascii_case, eq_ignoring_ascii_case, has_substring, strip_whitespace, vec_contains,
    without_whitespace,
};
use vstd::prelude::*;
use vstd::string::*;

verus! {

/// Reason given when a read-only session is asked to write.
pub open spec fn read_only_blocked() -> Seq<char> {
    "Operation blocked: read-only mode"@
}

/// Reason given when a dangerous statement lacks its acknowledgement.
pub open spec fn dangerous_blocked() -> Seq<char> {
    "Dangerous query blocked: confirmation required"@
}

/// Reason given when the policy refuses dangerous statements outright.
pub open spec fn dangerous_blocked_policy() -> Seq<char> {
    "Dangerous query blocked by policy"@
}

/// Reason given when a read-only session sends text that does not parse.
pub open spec fn sql_parse_blocked() -> Seq<char> {
    "Operation blocked: SQL parser could not classify the query"@
}

/// Whether a document-store query writes: it names a writing operation,
/// either as a method call or as the `operation` of a JSON request.
///
/// Method names are sought in the lower-cased text; the JSON forms are
/// sought after all whitespace is taken out as well.
pub open spec fn mongo_mutates(query: Seq<char>) -> bool {
    let n = ascii_lower(query);
    let c = without_whitespace(n);
    ||| has_substring(n, ".insert("@)
    ||| has_substring(n, ".insertone("@)
    ||| has_substring(n, ".insertmany("@)
    ||| has_substring(n, ".update("@)
    ||| has_substring(n, ".updateone("@)
    ||| has_substring(n, ".updatemany("@)
    ||| has_substring(n, ".replaceone("@)
    ||| has_substring(n, ".delete("@)
    ||| has_substring(n, ".deleteone("@)
    ||| has_substring(n, ".deletemany("@)
    ||| has_substring(n, ".remove("@)
    ||| has_substring(n, ".createcollection("@)
    ||| has_substring(n, ".drop("@)
    ||| has_substring(n, ".dropdatabase("@)
    ||| has_substring(n, ".bulkwrite("@)
    ||| has_substring(n, ".findoneandupdate("@)
    ||| has_substring(n, ".findoneanddelete("@)
    ||| has_substring(n, ".findoneandreplace("@)
    ||| has_substring(c, "\"operation\":\"create_collection\""@)
    ||| has_substring(c, "\"operation\":\"drop_collection\""@)
    ||| has_substring(c, "\"operation\":\"drop_database\""@)
}

fn holds(text: &Vec<char>, pattern: &str) -> (b: bool)
    ensures
        b == has_substring(text@, pattern@),
{
    let p = chars_of(pattern);
    vec_contains(text, &p)
}

/// Whether a document-store query writes.
pub fn is_mongo_mutation(query: &str) -> (b: bool)
    ensures
        b == mongo_mutates(query@),
{
    let n = ascii_lower_chars(query);
    if holds(&n, ".insert(") || holds(&n, ".insertone(") || holds(&n, ".insertmany(") || holds(
        &n,
        ".update(",
    ) || holds(&n, ".updateone(") || holds(&n, ".updatemany(") || holds(&n, ".replaceone(")
        || holds(&n, ".delete(") || holds(&n, ".deleteone(") || holds(&n, ".deletemany(") || holds(
        &n,
        ".remove(",
    ) || holds(&n, ".createcollection(") || holds(&n, ".drop(") || holds(&n, ".dropdatabase(")
        || holds(&n, ".bulkwrite(") || holds(&n, ".findoneandupdate(") || holds(
        &n,
        ".findoneanddelete(",
    ) || holds(&n, ".findoneandreplace(") {
        return true;
    }
    let c = strip_whitespace(&n);
    holds(&c, "\"operation\":\"create_collection\"") || holds(
        &c,
        "\"operation\":\"drop_collection\"",
    ) || holds(&c, "\"operation\":\"drop_database\"")
}

/// What is known of a query before the safety rules are applied.
#[derive(Debug)]
pub enum QueryClass {
    /// SQL that parsed, with its flags.
    Sql(SqlSafetyAnalysis),
    /// SQL that did not parse, with the parser's message.
    Unparsed(String),
    /// A document-store query; it is never counted as dangerous.
    Document { is_mutation: bool },
}

/// The contents of a `QueryClass`.
pub enum QueryClassView {
    Sql(SqlSafetyAnalysis),
    Unparsed(Seq<char>),
    Document { is_mutation: bool },
}

impl View for QueryClass {
    type V = QueryClassView;

    open spec fn view(&self) -> QueryClassView {
        match self {
            QueryClass::Sql(a) => QueryClassView::Sql(*a),
            QueryClass::Unparsed(e) => QueryClassView::Unparsed(e@),
            QueryClass::Document { is_mutation } => QueryClassView::Document {
                is_mutation: *is_mutation,
            },
        }
    }
}

/// Whether the driver is the document store, which is not classified by
/// the SQL parser.
pub open spec fn is_document_driver(driver_id: Seq<char>) -> bool {
    eq_ignoring_ascii_case(driver_id, "mongodb"@)
}

/// What classification makes of a query for a driver.
pub open spec fn classified(driver_id: Seq<char>, query: Seq<char>) -> QueryClassView {
    if is_document_driver(driver_id) {
        QueryClassView::Document { is_mutation: mongo_mutates(query) }
    } else {
        match analyze_sql_spec(driver_id, query) {
            Ok(a) => QueryClassView::Sql(a),
            Err(e) => QueryClassView::Unparsed(e),
        }
    }
}

/// Classifies a query for a driver: by the SQL parser, or for the document
/// store by the words it holds.
pub fn classify_query(driver_id: &str, query: &str) -> (c: QueryClass)
    ensures
        c@ == classified(driver_id@, query@),
{
    if eq_ignore_ascii_case(driver_id, "mongodb") {
        QueryClass::Document { is_mutation: is_mongo_mutation(query) }
    } else {
        match analyze_sql(driver_id, query) {
            Ok(a) => QueryClass::Sql(a),
            Err(e) => QueryClass::Unparsed(e),
        }
    }
}

/// Why a query is refused, or `None` where it may run.
///
/// A text that did not parse is refused on a read-only session; on a
/// production session it is treated as dangerous. A parsed text is refused
/// on a read-only session where it writes, and on a production session
/// where it is dangerous and the policy either refuses such statements or
/// asks for an acknowledgement that was not given.
pub open spec fn gate_reason(
    read_only: bool,
    production: bool,
    policy: SafetyPolicy,
    acknowledged: bool,
    class: QueryClassView,
) -> Option<Seq<char>> {
    match class {
        QueryClassView::Unparsed(err) => {
            if read_only {
                Some(sql_parse_blocked() + ": "@ + err)
            } else if production && policy.prod_block_dangerous_sql {
                Some(dangerous_blocked_policy() + ": SQL parse error: "@ + err)
            } else if production && policy.prod_require_confirmation && !acknowledged {
                Some(dangerous_blocked() + ": SQL parse error: "@ + err)
            } else {
                None
            }
        },
        QueryClassView::Sql(a) => {
            if read_only && a.is_mutation {
                Some(read_only_blocked())
            } else if production && a.is_dangerous && policy.prod_block_dangerous_sql {
                Some(dangerous_blocked_policy())
            } else if production && a.is_dangerous && policy.prod_require_confirmation
                && !acknowledged {
                Some(dangerous_blocked())
            } else {
                None
            }
        },
        QueryClassView::Document { is_mutation } => {
            if read_only && is_mutation {
                Some(read_only_blocked())
            } else {
                None
            }
        },
    }
}

/// Whether the refusal, if any, is the one that the rules give.
pub open spec fn is_refusal(r: Option<EngineError>, reason: Option<Seq<char>>) -> bool {
    match reason {
        Some(m) => r is Some && r->0.is(ErrorKind::PolicyBlocked, m),
        None => r is None,
    }
}

fn blocked3(a: &str, b: &str, c: &str) -> (e: EngineError)
    ensures
        e.is(ErrorKind::PolicyBlocked, a@ + b@ + c@),
{
    let m = concat3(a, b, c);
    EngineError::policy_blocked(m.as_str())
}

/// Applies the safety rules to a classified query. Gives the refusal, or
/// `None` where the query may run.
pub fn check_gate(
    read_only: bool,
    is_production: bool,
    policy: &SafetyPolicy,
    acknowledged: bool,
    class: &QueryClass,
) -> (r: Option<EngineError>)
    ensures
        is_refusal(r, gate_reason(read_only, is_production, *policy, acknowledged, class@)),
{
    match class {
        QueryClass::Unparsed(err) => {
            if read_only {
                Some(
                    blocked3(
                        "Operation blocked: SQL parser could not classify the query",
                        ": ",
                        err.as_str(),
                    ),
                )
            } else if is_production && policy.prod_block_dangerous_sql {
                Some(
                    blocked3("Dangerous query blocked by policy", ": SQL parse error: ", err.as_str()),
                )
            } else if is_production && policy.prod_require_confirmation && !acknowledged {
                Some(
                    blocked3(
                        "Dangerous query blocked: confirmation required",
                        ": SQL parse error: ",
                        err.as_str(),
                    ),
                )
            } else {
                None
            }
        },
        QueryClass::Sql(a) => {
            if read_only && a.is_mutation {
                Some(EngineError::policy_blocked("Operation blocked: read-only mode"))
            } else if is_production && a.is_dangerous && policy.prod_block_dangerous_sql {
                Some(EngineError::policy_blocked("Dangerous query blocked by policy"))
            } else if is_production && a.is_dangerous && policy.prod_require_confirmation
                && !acknowledged {
                Some(EngineError::policy_blocked("Dangerous query blocked: confirmation required"))
            } else {
                None
            }
        },
        QueryClass::Document { is_mutation } => {
            if read_only && *is_mutation {
                Some(EngineError::policy_blocked("Operation blocked: read-only mode"))
            } else {
                None
            }
        },
    }
}

/// Classifies a query and applies the safety rules to it. Gives the
/// refusal, or `None` where the query may run.
pub fn gate_query(
    driver_id: &str,
    query: &str,
    read_only: bool,
    is_production: bool,
    policy: &SafetyPolicy,
    acknowledged: bool,
) -> (r: Option<EngineError>)
    ensures
        is_refusal(
            r,
            gate_reason(
                read_only,
                is_production,
                *policy,
                acknowledged,
                classified(driver_id@, query@),
            ),
        ),
{
    let class = classify_query(driver_id, query);
    check_gate(read_only, is_production, policy, acknowledged, &class)
}

/// The envelope for a query that a safety rule refused: the reason, and
/// no query identifier, since the query was never registered.
pub fn blocked_response(refusal: &EngineError) -> (r: QueryResponse)
    ensures
        !r.success,
        r.result is None,
        r.query_id is None,
        opt_view(r.error) == Some(refusal.message_spec()),
{
    let m = refusal.message();
    QueryResponse::failed(m.as_str(), None)
}

/// On a read-only session every statement classified as writing is
/// refused, with the read-only reason, whatever the policy says.
pub proof fn lemma_read_only_blocks_mutation(
    production: bool,
    policy: SafetyPolicy,
    acknowledged: bool,
    analysis: SqlSafetyAnalysis,
)
    requires
        analysis.is_mutation,
    ensures
        gate_reason(true, production, policy, acknowledged, QueryClassView::Sql(analysis)) == Some(
            read_only_blocked(),
        ),
        gate_reason(
            true,
            production,
            policy,
            acknowledged,
            QueryClassView::Document { is_mutation: true },
        ) == Some(read_only_blocked()),
{
}

/// On a production session whose policy refuses dangerous statements,
/// every dangerous statement is refused, acknowledged or not.
pub proof fn lemma_production_blocks_dangerous(
    read_only: bool,
    policy: SafetyPolicy,
    acknowledged: bool,
    analysis: SqlSafetyAnalysis,
)
    requires
        analysis.is_dangerous,
        policy.prod_block_dangerous_sql,
    ensures
        gate_reason(read_only, true, policy, acknowledged, QueryClassView::Sql(analysis)) is Some,
        !(read_only && analysis.is_mutation) ==> gate_reason(
            read_only,
            true,
            policy,
            acknowledged,
            QueryClassView::Sql(analysis),
        ) == Some(dangerous_blocked_policy()),
{
}

/// On a production session whose policy asks for confirmation and does not
/// refuse outright, a dangerous statement that the session may otherwise
/// run is let through exactly when it was acknowledged.
pub proof fn lemma_confirmation_decides(
    read_only: bool,
    policy: SafetyPolicy,
    acknowledged: bool,
    analysis: SqlSafetyAnalysis,
)
    requires
        analysis.is_dangerous,
        policy.prod_require_confirmation,
        !policy.prod_block_dangerous_sql,
        !(read_only && analysis.is_mutation),
    ensures
        gate_reason(read_only, true, policy, acknowledged, QueryClassView::Sql(analysis)) is None
            <==> acknowledged,
        !acknowledged ==> gate_reason(
            read_only,
            true,
            policy,
            acknowledged,
            QueryClassView::Sql(analysis),
        ) == Some(dangerous_blocked()),
{
}

/// Outside production, and on sessions that may write, nothing that
/// parses is refused.
pub proof fn lemma_development_allows(
    policy: SafetyPolicy,
    acknowledged: bool,
    analysis: SqlSafetyAnalysis,
)
    ensures
        gate_reason(false, false, policy, acknowledged, QueryClassView::Sql(analysis)) is None,
{
}

// ---------------------------------------------------------------------------
// Envelopes
// ---------------------------------------------------------------------------

/// The outcome of a query or of a cancellation, as the caller is told.
#[derive(Debug)]
pub struct QueryResponse {
    pub success: bool,
    pub result: Option<QueryResult>,
    pub error: Option<String>,
    /// The identifier under which the query ran, once it has one.
    pub query_id: Option<String>,
}

/// The outcome of listing namespaces.
#[derive(Debug)]
pub struct NamespacesResponse {
    pub success: bool,
    pub namespaces: Option<Vec<Namespace>>,
    pub error: Option<String>,
}

/// The outcome of listing collections.
#[derive(Debug)]
pub struct CollectionsResponse {
    pub success: bool,
    pub collections: Option<Vec<Collection>>,
    pub error: Option<String>,
}

/// The outcome of describing a table.
#[derive(Debug)]
pub struct TableSchemaResponse {
    pub success: bool,
    pub schema: Option<TableSchema>,
    pub error: Option<String>,
}

/// The outcome of a transaction operation.
#[derive(Debug)]
pub struct TransactionResponse {
    pub success: bool,
    pub error: Option<String>,
}

/// Whether the driver of a session has transactions.
#[derive(Debug)]
pub struct TransactionSupportResponse {
    pub supported: bool,
}

/// The written form of an optional query identifier.
pub open spec fn opt_id_text(id: Option<QueryId>) -> Option<Seq<char>> {
    match id {
        Some(q) => Some(uuid_text(q.0)),
        None => None,
    }
}

impl QueryResponse {
    /// A failure with its reason, for the query of the given identifier
    /// if it has one.
    pub fn failed(error: &str, query_id: Option<QueryId>) -> (r: Self)
        ensures
            !r.success,
            r.result is None,
            opt_view(r.error) == Some(error@),
            opt_view(r.query_id) == opt_id_text(query_id),
    {
        let id = match query_id {
            Some(q) => Some(q.to_string()),
            None => None,
        };
        QueryResponse { success: false, result: None, error: Some(String::from_str(error)), query_id: id }
    }

    /// Success, with a result where there is one.
    pub fn succeeded(result: Option<QueryResult>, query_id: Option<QueryId>) -> (r: Self)
        ensures
            r.success,
            r.result == result,
            r.error is None,
            opt_view(r.query_id) == opt_id_text(query_id),
    {
        let id = match query_id {
            Some(q) => Some(q.to_string()),
            None => None,
        };
        QueryResponse { success: true, result, error: None, query_id: id }
    }

    /// The envelope for the outcome of a preview, which has no query
    /// identifier.
    pub fn from_preview(outcome: Result<QueryResult, EngineError>) -> (r: Self)
        ensures
            r.query_id is None,
            match outcome {
                Ok(result) => r.success && r.result == Some(result) && r.error is None,
                Err(e) => !r.success && r.result is None && opt_view(r.error) == Some(
                    e.message_spec(),
                ),
            },
    {
        match outcome {
            Ok(result) => Self::succeeded(Some(result), None),
            Err(e) => {
                let m = e.message();
                Self::failed(m.as_str(), None)
            },
        }
    }

    /// The envelope for the outcome of a cancellation aimed at a query.
    pub fn from_cancel(outcome: Result<(), EngineError>, query_id: QueryId) -> (r: Self)
        ensures
            r.result is None,
            opt_view(r.query_id) == Some(uuid_text(query_id.0)),
            match outcome {
                Ok(_) => r.success && r.error is None,
                Err(e) => !r.success && opt_view(r.error) == Some(e.message_spec()),
            },
    {
        match outcome {
            Ok(_) => Self::succeeded(None, Some(query_id)),
            Err(e) => {
                let m = e.message();
                Self::failed(m.as_str(), Some(query_id))
            },
        }
    }
}

impl NamespacesResponse {
    /// The envelope for the outcome of listing namespaces.
    pub fn from_outcome(outcome: Result<Vec<Namespace>, EngineError>) -> (r: Self)
        ensures
            match outcome {
                Ok(list) => r.success && r.namespaces == Some(list) && r.error is None,
                Err(e) => !r.success && r.namespaces is None && opt_view(r.error) == Some(
                    e.message_spec(),
                ),
            },
    {
        match outcome {
            Ok(list) => NamespacesResponse { success: true, namespaces: Some(list), error: None },
            Err(e) => NamespacesResponse { success: false, namespaces: None, error: Some(e.message()) },
        }
    }
}

impl CollectionsResponse {
    /// The envelope for the outcome of listing collections.
    pub fn from_outcome(outcome: Result<Vec<Collection>, EngineError>) -> (r: Self)
        ensures
            match outcome {
                Ok(list) => r.success && r.collections == Some(list) && r.error is None,
                Err(e) => !r.success && r.collections is None && opt_view(r.error) == Some(
                    e.message_spec(),
                ),
            },
    {
        match outcome {
            Ok(list) => CollectionsResponse { success: true, collections: Some(list), error: None },
            Err(e) => CollectionsResponse {
                success: false,
                collections: None,
                error: Some(e.message()),
            },
        }
    }
}

impl TableSchemaResponse {
    /// The envelope for the outcome of describing a table.
    pub fn from_outcome(outcome: Result<TableSchema, EngineError>) -> (r: Self)
        ensures
            match outcome {
                Ok(schema) => r.success && r.schema == Some(schema) && r.error is None,
                Err(e) => !r.success && r.schema is None && opt_view(r.error) == Some(
                    e.message_spec(),
                ),
            },
    {
        match outcome {
            Ok(schema) => TableSchemaResponse { success: true, schema: Some(schema), error: None },
            Err(e) => TableSchemaResponse { success: false, schema: None, error: Some(e.message()) },
        }
    }
}

impl TransactionResponse {
    /// The envelope for the outcome of a transaction operation. A driver
    /// without transactions is not asked: the operation is refused.
    pub fn from_outcome(supported: bool, outcome: Result<(), EngineError>) -> (r: Self)
        ensures
            !supported ==> !r.success && opt_view(r.error) == Some(
                "Transactions are not supported by this driver"@,
            ),
            supported ==> match outcome {
                Ok(_) => r.success && r.error is None,
                Err(e) => !r.success && opt_view(r.error) == Some(e.message_spec()),
            },
    {
        if !supported {
            return TransactionResponse {
                success: false,
                error: Some(String::from_str("Transactions are not supported by this driver")),
            };
        }
        match outcome {
            Ok(_) => TransactionResponse { success: true, error: None },
            Err(e) => TransactionResponse { success: false, error: Some(e.message()) },
        }
    }

    /// A failure with its reason.
    pub fn failed(error: &str) -> (r: Self)
        ensures
            !r.success,
            opt_view(r.error) == Some(error@),
    {
        TransactionResponse { success: false, error: Some(String::from_str(error)) }
    }
}

// ---------------------------------------------------------------------------
// The life of a query
// ---------------------------------------------------------------------------

/// How the execution of a query ended.
#[derive(Debug)]
pub enum QueryOutcome {
    /// The driver returned, with a result or a failure.
    Completed(Result<QueryResult, EngineError>),
    /// The time allowed passed first. The caller has asked the driver to
    /// cancel the query.
    TimedOut { timeout_ms: u64 },
}

/// Registers the query that is about to run: under the identifier the
/// caller asks for, or under a fresh one. An identifier that cannot be
/// read, or that is in flight, is refused and nothing is registered.
pub fn start_query(manager: &mut QueryManager, session: SessionId, requested: Option<&str>) -> (r:
    Result<QueryId, String>)
    ensures
        final(manager).wf(),
        match requested {
            Some(raw) => match uuid_parse(raw@) {
                Err(e) => r is Err && r->Err_0@ == "Invalid query ID: "@ + e && final(manager)@
                    == old(manager)@,
                Ok(v) => match try_registered(old(manager)@, session, QueryId(v)) {
                    Some(next) => r == Ok::<QueryId, String>(QueryId(v)) && final(manager)@
                        == next,
                    None => r is Err && r->Err_0@ == "Failed to register query ID: "@
                        + "Query ID already registered"@ && final(manager)@ == old(manager)@,
                },
            },
            None => {
                &&& r is Ok
                &&& is_random_form(r->Ok_0.0)
                &&& final(manager)@.active.contains_key(r->Ok_0)
                &&& final(manager)@ == (match try_registered(old(manager)@, session, r->Ok_0) {
                    Some(next) => next,
                    None => old(manager)@,
                })
            },
        },
        forall|s: SessionId|
            #[trigger] final(manager).queries_of(s) == (if s == session && r is Ok && !old(
                manager,
            )@.active.contains_key(r->Ok_0) {
                old(manager).queries_of(s).insert(r->Ok_0)
            } else {
                old(manager).queries_of(s)
            }),
{
    proof {
        use_type_invariant(&*manager);
    }
    match requested {
        Some(raw) => {
            let id = match QueryId::parse(raw) {
                Ok(id) => id,
                Err(m) => {
                    return Err(m);
                },
            };
            match manager.register_with_id(session, id) {
                Ok(id) => Ok(id),
                Err(m) => Err(concat2("Failed to register query ID: ", m.as_str())),
            }
        },
        None => Ok(manager.register(session)),
    }
}

/// What the caller is told of a query that has ended.
pub open spec fn outcome_error(outcome: QueryOutcome) -> Option<Seq<char>> {
    match outcome {
        QueryOutcome::Completed(Ok(_)) => None,
        QueryOutcome::Completed(Err(e)) => Some(e.message_spec()),
        QueryOutcome::TimedOut { timeout_ms } => Some(
            "Operation timed out after "@ + decimal(timeout_ms as nat) + "ms"@,
        ),
    }
}

/// Ends a query: it is forgotten by the manager, and its outcome is put
/// in the envelope. A result is stamped with the time the query took.
pub fn finish_query(
    manager: &mut QueryManager,
    query_id: QueryId,
    outcome: QueryOutcome,
    elapsed_us: u64,
) -> (r: QueryResponse)
    ensures
        final(manager).wf(),
        final(manager)@ == finished(old(manager)@, query_id),
        forall|s: SessionId|
            #[trigger] final(manager).queries_of(s) == old(manager).queries_of(s).remove(query_id),
        opt_view(r.query_id) == Some(uuid_text(query_id.0)),
        opt_view(r.error) == outcome_error(outcome),
        r.success == (outcome_error(outcome) is None),
        match outcome {
            QueryOutcome::Completed(Ok(result)) => r.result is Some && r.result->0.columns
                == result.columns && r.result->0.rows == result.rows && r.result->0.affected_rows
                == result.affected_rows && r.result->0.execution_time_us == elapsed_us,
            _ => r.result is None,
        },
{
    manager.finish(query_id);
    match outcome {
        QueryOutcome::Completed(Ok(result)) => {
            let mut result = result;
            result.execution_time_us = elapsed_us;
            QueryResponse::succeeded(Some(result), Some(query_id))
        },
        QueryOutcome::Completed(Err(e)) => {
            let m = e.message();
            QueryResponse::failed(m.as_str(), Some(query_id))
        },
        QueryOutcome::TimedOut { timeout_ms } => {
            let n = decimal_string(timeout_ms);
            let m = concat3("Operation timed out after ", n.as_str(), "ms");
            QueryResponse::failed(m.as_str(), Some(query_id))
        },
    }
}

/// Why a cancellation has no target.
#[derive(Debug)]
pub enum CancelRefusal {
    /// The identifier given cannot be read; holds the message.
    InvalidId(String),
    /// No identifier was given and the session has no last query.
    NoActiveQuery,
}

/// The query that a cancellation is aimed at: the one named, or the one
/// registered last on the session where none is named.
pub fn resolve_cancel_target(
    manager: &QueryManager,
    session: SessionId,
    requested: Option<&str>,
) -> (r: Result<QueryId, CancelRefusal>)
    ensures
        match requested {
            Some(raw) => match uuid_parse(raw@) {
                Ok(v) => r is Ok && r->Ok_0 == QueryId(v),
                Err(e) => r is Err && r->Err_0 is InvalidId && r->Err_0->InvalidId_0@
                    == "Invalid query ID: "@ + e,
            },
            None => if manager@.last.contains_key(session) {
                r is Ok && r->Ok_0 == manager@.last[session]
            } else {
                r is Err && r->Err_0 is NoActiveQuery
            },
        },
{
    match requested {
        Some(raw) => match QueryId::parse(raw) {
            Ok(id) => Ok(id),
            Err(m) => Err(CancelRefusal::InvalidId(m)),
        },
        None => match manager.last_for_session(session) {
            Some(id) => Ok(id),
            None => Err(CancelRefusal::NoActiveQuery),
        },
    }
}

/// The envelope for a cancellation that has no target because the
/// session has no query in flight.
pub fn no_active_query() -> (r: QueryResponse)
    ensures
        !r.success,
        r.result is None,
        r.query_id is None,
        opt_view(r.error) == Some("No active query found"@),
{
    QueryResponse::failed("No active query found", None)
}

/// A cancellation without an identifier, after two registrations on a
/// session, is aimed at the second.
pub proof fn lemma_cancel_targets_last(
    v: QueryManagerView,
    session: SessionId,
    first: QueryId,
    second: QueryId,
)
    ensures
        crate::engine::query_manager::registered(
            crate::engine::query_manager::registered(v, session, first),
            session,
            second,
        ).last[session] == second,
{
}

} // verus!
