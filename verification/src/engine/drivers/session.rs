//! The state a relational driver keeps of one session: whether a
//! transaction is open, and which queries run on which connection.
//!
//! The pool and the connections are the caller's; a transaction's
//! connection is held by the caller from the moment the transaction has
//! begun until it is committed or rolled back, or the session ends.

use crate::engine::drivers::relational::{is_row_returning, row_returning, SqlEngine};
use crate::engine::error::{EngineError, ErrorKind};
use crate::engine::ids::QueryId;
use std::collections::HashMap;
use vstd::prelude::*;
use vstd::std_specs::hash::*;
use vstd::std_specs::iter::IteratorSpec;
use vstd::string::*;

verus! {

broadcast use vstd::std_specs::hash::group_hash_axioms;

/// Where a statement runs.
#[derive(Debug, Clone, Copy, PartialEq, Eq, Structural)]
pub enum Route {
    /// On the connection of the open transaction.
    Transaction,
    /// On a connection taken from the pool for the statement.
    Pool,
}

/// How a transaction ends.
#[derive(Debug, Clone, Copy, PartialEq, Eq, Structural)]
pub enum TransactionEnd {
    Commit,
    Rollback,
}

impl TransactionEnd {
    /// The statement that ends the transaction.
    pub fn statement(&self) -> (s: &'static str)
        ensures
            s@ == (match self {
                TransactionEnd::Commit => "COMMIT"@,
                TransactionEnd::Rollback => "ROLLBACK"@,
            }),
    {
        match self {
            TransactionEnd::Commit => "COMMIT",
            TransactionEnd::Rollback => "ROLLBACK",
        }
    }

    /// The message for an end without a transaction.
    pub open spec fn missing_message(&self) -> Seq<char> {
        match self {
            TransactionEnd::Commit => "No active transaction to commit"@,
            TransactionEnd::Rollback => "No active transaction to rollback"@,
        }
    }
}

/// How a statement is to be run.
#[derive(Debug, Clone, Copy, PartialEq, Eq, Structural)]
pub struct ExecutePlan {
    /// On which connection.
    pub route: Route,
    /// Whether rows are fetched, or the rows touched are counted.
    pub returns_rows: bool,
}

/// What a cancellation aimed at one query finds in the record of a
/// session: the connection on which the query runs, or nothing where the
/// session has no such query running, whatever other sessions hold.
pub open spec fn cancel_lookup<H>(queries: Map<QueryId, H>, query: QueryId) -> Option<H> {
    if queries.contains_key(query) {
        Some(queries[query])
    } else {
        None
    }
}

/// Whether `pairs` lists the running queries: each once, with its
/// connection, and none left out.
pub open spec fn lists<H>(pairs: Seq<(QueryId, H)>, queries: Map<QueryId, H>) -> bool {
    &&& forall|i: int|
        0 <= i < pairs.len() ==> queries.contains_key((#[trigger] pairs[i]).0) && pairs[i].1
            == queries[pairs[i].0]
    &&& forall|i: int, j: int| 0 <= i < j < pairs.len() ==> pairs[i].0 != pairs[j].0
    &&& forall|q: QueryId| #[trigger]
        queries.contains_key(q) ==> exists|i: int| 0 <= i < pairs.len() && (#[trigger] pairs[i]).0 == q
}

/// The connections of a listing, in its order.
pub open spec fn connections_of<H>(pairs: Seq<(QueryId, H)>) -> Seq<H> {
    Seq::new(pairs.len(), |i: int| pairs[i].1)
}

/// The state of one session of a relational driver. `H` is what the
/// server calls a connection: the target of a cancellation.
pub struct DriverSession<H> {
    transaction_active: bool,
    active_queries: HashMap<u128, H>,
}

impl<H: Copy> DriverSession<H> {
    /// Whether a transaction is open.
    pub closed spec fn in_transaction(&self) -> bool {
        self.transaction_active
    }

    /// The connection on which each running query runs.
    pub closed spec fn queries(&self) -> Map<QueryId, H> {
        Map::new(
            |q: QueryId| self.active_queries@.contains_key(q.0),
            |q: QueryId| self.active_queries@[q.0],
        )
    }

    /// The state of a session that was just opened.
    pub fn new() -> (s: Self)
        ensures
            !s.in_transaction(),
            s.queries() == Map::<QueryId, H>::empty(),
    {
        let s = DriverSession { transaction_active: false, active_queries: HashMap::new() };
        s
    }

    /// Whether a transaction is open.
    pub fn has_active_transaction(&self) -> (b: bool)
        ensures
            b == self.in_transaction(),
    {
        self.transaction_active
    }

    /// Where the next statement runs: on the transaction's connection
    /// while a transaction is open, else on one from the pool.
    pub fn route(&self) -> (r: Route)
        ensures
            r == (if self.in_transaction() {
                Route::Transaction
            } else {
                Route::Pool
            }),
    {
        if self.transaction_active {
            Route::Transaction
        } else {
            Route::Pool
        }
    }

    /// How a statement is to be run on this session: on the transaction's
    /// connection while a transaction is open, and fetching rows where
    /// the statement is taken to give rows back. Before the statement is
    /// sent, the connection is asked which it is and `query_started`
    /// records the answer; `query_finished` forgets it on return.
    pub fn plan_execute(&self, engine: SqlEngine, query: &str) -> (plan: ExecutePlan)
        ensures
            plan.route == (if self.in_transaction() {
                Route::Transaction
            } else {
                Route::Pool
            }),
            plan.returns_rows == row_returning(engine, query@),
    {
        ExecutePlan { route: self.route(), returns_rows: is_row_returning(engine, query) }
    }

    /// Whether a transaction may begin: not while one is open.
    pub fn begin_transaction(&self) -> (r: Result<(), EngineError>)
        ensures
            !self.in_transaction() ==> r is Ok,
            self.in_transaction() ==> r is Err && r->Err_0.is(
                ErrorKind::TransactionError,
                "A transaction is already active on this session"@,
            ),
    {
        if self.transaction_active {
            Err(EngineError::transaction_error("A transaction is already active on this session"))
        } else {
            Ok(())
        }
    }

    /// Ends the beginning of a transaction, given how acquiring a
    /// connection and sending the opening statement went. The transaction
    /// is open afterwards where the server has begun it; while one is
    /// open already nothing changes and the conflict is reported.
    pub fn complete_begin(&mut self, server: Result<(), EngineError>) -> (r: Result<
        (),
        EngineError,
    >)
        ensures
            final(self).in_transaction() == after_begin(old(self).in_transaction(), server is Ok).0,
            r is Ok == after_begin(old(self).in_transaction(), server is Ok).1,
            final(self).queries() == old(self).queries(),
            old(self).in_transaction() ==> r is Err && r->Err_0.is(
                ErrorKind::TransactionError,
                "A transaction is already active on this session"@,
            ),
            !old(self).in_transaction() && server is Err ==> r is Err && r->Err_0
                == server->Err_0,
    {
        if self.transaction_active {
            return Err(
                EngineError::transaction_error("A transaction is already active on this session"),
            );
        }
        match server {
            Ok(_) => {
                self.transaction_active = true;
                Ok(())
            },
            Err(e) => Err(e),
        }
    }

    /// Ends the transaction in the record, so that the caller can send
    /// the closing statement on the connection and give it back. Without
    /// a transaction nothing ends.
    pub fn end_transaction(&mut self, end: TransactionEnd) -> (r: Result<(), EngineError>)
        ensures
            final(self).in_transaction() == after_end(old(self).in_transaction()).0,
            r is Ok == after_end(old(self).in_transaction()).1,
            final(self).queries() == old(self).queries(),
            r is Err ==> r->Err_0.is(ErrorKind::TransactionError, end.missing_message()),
    {
        if self.transaction_active {
            self.transaction_active = false;
            Ok(())
        } else {
            match end {
                TransactionEnd::Commit => Err(
                    EngineError::transaction_error("No active transaction to commit"),
                ),
                TransactionEnd::Rollback => Err(
                    EngineError::transaction_error("No active transaction to rollback"),
                ),
            }
        }
    }

    /// Commits: ends the transaction in the record.
    pub fn commit(&mut self) -> (r: Result<(), EngineError>)
        ensures
            !final(self).in_transaction(),
            final(self).queries() == old(self).queries(),
            old(self).in_transaction() ==> r is Ok,
            !old(self).in_transaction() ==> r is Err && r->Err_0.is(
                ErrorKind::TransactionError,
                "No active transaction to commit"@,
            ),
    {
        self.end_transaction(TransactionEnd::Commit)
    }

    /// Rolls back: ends the transaction in the record.
    pub fn rollback(&mut self) -> (r: Result<(), EngineError>)
        ensures
            !final(self).in_transaction(),
            final(self).queries() == old(self).queries(),
            old(self).in_transaction() ==> r is Ok,
            !old(self).in_transaction() ==> r is Err && r->Err_0.is(
                ErrorKind::TransactionError,
                "No active transaction to rollback"@,
            ),
    {
        self.end_transaction(TransactionEnd::Rollback)
    }

    /// Records the connection on which a query is about to run.
    pub fn query_started(&mut self, query_id: QueryId, connection: H)
        ensures
            final(self).queries() == old(self).queries().insert(query_id, connection),
            final(self).in_transaction() == old(self).in_transaction(),
    {
        self.active_queries.insert(query_id.0, connection);
    }

    /// Forgets a query that has returned. The connection stays open.
    pub fn query_finished(&mut self, query_id: QueryId)
        ensures
            final(self).queries() == old(self).queries().remove(query_id),
            final(self).in_transaction() == old(self).in_transaction(),
    {
        self.active_queries.remove(&query_id.0);
    }

    /// The connection of a running query, which is what a cancellation
    /// of that query is aimed at. The query is found exactly where this
    /// session has it recorded as running.
    pub fn cancel_target(&self, query_id: QueryId) -> (r: Result<H, EngineError>)
        ensures
            match cancel_lookup(self.queries(), query_id) {
                Some(h) => r == Ok::<H, EngineError>(h),
                None => r is Err && r->Err_0.is(ErrorKind::ExecutionError, "Query not found"@),
            },
    {
        match self.active_queries.get(&query_id.0) {
            Some(h) => Ok(*h),
            None => Err(EngineError::execution_error("Query not found")),
        }
    }

    /// The running queries with their connections, in no particular
    /// order.
    pub fn running(&self) -> (out: Vec<(QueryId, H)>)
        ensures
            lists(out@, self.queries()),
    {
        let mut out: Vec<(QueryId, H)> = Vec::new();
        let keys = self.active_queries.keys();
        let ghost all = keys.remaining();
        for k in it: keys
            invariant
                it.seq() == all,
                all.unref().to_set() == self.active_queries@.dom(),
                all.no_duplicates(),
                out@.len() == it.index(),
                forall|i: int| 0 <= i < out@.len() ==> (#[trigger] out@[i]).0.0 == *all[i],
                forall|i: int|
                    0 <= i < out@.len() ==> self.active_queries@.contains_key(
                        (#[trigger] out@[i]).0.0,
                    ) && out@[i].1 == self.active_queries@[out@[i].0.0],
        {
            proof {
                assert(all.unref()[it.index() as int] == *k);
                assert(all.unref().to_set().contains(*k));
            }
            match self.active_queries.get(k) {
                Some(h) => {
                    out.push((QueryId(*k), *h));
                },
                None => {
                    proof {
                        assert(false);
                    }
                },
            }
        }
        proof {
            assert forall|i: int, j: int| 0 <= i < j < out@.len() implies out@[i].0 != out@[j].0 by {
                assert(out@[i].0.0 == *all[i]);
                assert(out@[j].0.0 == *all[j]);
                assert(all[i] != all[j]);
            }
            assert forall|q: QueryId| #[trigger] self.queries().contains_key(q) implies exists|
                i: int,
            |
                0 <= i < out@.len() && (#[trigger] out@[i]).0 == q by {
                assert(all.unref().to_set().contains(q.0));
                assert(all.unref().contains(q.0));
                let i = choose|i: int| 0 <= i < all.unref().len() && all.unref()[i] == q.0;
                assert(*all[i] == q.0);
                assert(out@[i].0 == q);
            }
        }
        out
    }

    /// The connections that a cancellation is aimed at: that of the
    /// given query, or those of all running queries where none is given.
    /// A query that is not running, and a cancellation of all when
    /// nothing runs, are failures.
    pub fn cancel(&self, query_id: Option<QueryId>) -> (r: Result<Vec<H>, EngineError>)
        ensures
            match query_id {
                Some(q) => match cancel_lookup(self.queries(), q) {
                    Some(h) => r is Ok && r->Ok_0@ == seq![h],
                    None => r is Err && r->Err_0.is(ErrorKind::ExecutionError, "Query not found"@),
                },
                None => match r {
                    Ok(targets) => targets@.len() > 0 && exists|pairs: Seq<(QueryId, H)>|
                        lists(pairs, self.queries()) && targets@ == connections_of(pairs),
                    Err(e) => self.queries() == Map::<QueryId, H>::empty() && e.is(
                        ErrorKind::ExecutionError,
                        "No active queries to cancel"@,
                    ),
                },
            },
    {
        match query_id {
            Some(q) => match self.cancel_target(q) {
                Ok(h) => {
                    let mut targets: Vec<H> = Vec::new();
                    targets.push(h);
                    assert(targets@ =~= seq![h]);
                    Ok(targets)
                },
                Err(e) => Err(e),
            },
            None => {
                let pairs = self.running();
                let mut targets: Vec<H> = Vec::new();
                let mut i: usize = 0;
                while i < pairs.len()
                    invariant
                        i <= pairs.len(),
                        targets@.len() == i,
                        forall|k: int| 0 <= k < i ==> targets@[k] == pairs@[k].1,
                    decreases pairs.len() - i,
                {
                    targets.push(pairs[i].1);
                    i += 1;
                }
                if targets.len() == 0 {
                    proof {
                        assert forall|q: QueryId| !self.queries().contains_key(q) by {
                            if self.queries().contains_key(q) {
                                let i = choose|i: int|
                                    0 <= i < pairs@.len() && (#[trigger] pairs@[i]).0 == q;
                                assert(false);
                            }
                        }
                        assert(self.queries() =~= Map::<QueryId, H>::empty());
                    }
                    Err(EngineError::execution_error("No active queries to cancel"))
                } else {
                    proof {
                        assert(targets@ =~= connections_of(pairs@));
                    }
                    Ok(targets)
                }
            },
        }
    }

    /// Ends the session in the record: the transaction is dropped and no
    /// query is running any more.
    pub fn disconnect(&mut self)
        ensures
            !final(self).in_transaction(),
            final(self).queries() == Map::<QueryId, H>::empty(),
    {
        self.transaction_active = false;
        self.active_queries.clear();
    }
}

/// Whether a transaction is open after an attempt to begin one, and
/// whether the attempt succeeded: it fails while one is open, and where
/// the server does not begin one.
pub open spec fn after_begin(in_transaction: bool, server_ok: bool) -> (bool, bool) {
    if in_transaction {
        (true, false)
    } else {
        (server_ok, server_ok)
    }
}

/// Whether a transaction is open after an attempt to commit or roll
/// back, and whether the attempt succeeded: it fails where none is open.
pub open spec fn after_end(in_transaction: bool) -> (bool, bool) {
    (false, in_transaction)
}

/// Once a transaction has begun a second one is refused, whatever the
/// server would say; once it is committed or rolled back a new one
/// begins where the server begins it. Ending twice fails the second time.
pub proof fn lemma_transaction_affinity(in_transaction: bool, first: bool, second: bool)
    requires
        after_begin(in_transaction, first).1,
    ensures
        after_begin(in_transaction, first).0,
        !after_begin(after_begin(in_transaction, first).0, second).1,
        after_end(after_begin(in_transaction, first).0).1,
        after_begin(after_end(after_begin(in_transaction, first).0).0, second).1 == second,
        !after_end(after_end(after_begin(in_transaction, first).0).0).1,
{
}

/// The lookup of a cancellation finds a query exactly while the session
/// has it recorded as running: from `query_started`, with the connection
/// recorded then, until `query_finished`. What is recorded of other
/// queries does not change what it finds.
pub proof fn lemma_cancel_sees_running<H: Copy>(queries: Map<QueryId, H>, q: QueryId, h: H)
    ensures
        cancel_lookup(queries, q) is Some <==> queries.contains_key(q),
        cancel_lookup(queries.insert(q, h), q) == Some(h),
        cancel_lookup(queries.remove(q), q) is None,
        forall|other: QueryId|
            other != q ==> #[trigger] cancel_lookup(queries.insert(q, h), other) == cancel_lookup(
                queries,
                other,
            ),
        forall|other: QueryId|
            other != q ==> #[trigger] cancel_lookup(queries.remove(q), other) == cancel_lookup(
                queries,
                other,
            ),
{
}

} // verus!
