//! Tracks the queries in flight, by session, so that they can be cancelled.

use crate::engine::ids::{is_random_form, QueryId, SessionId};
use std::collections::{HashMap, HashSet};
use vstd::prelude::*;
use vstd::std_specs::hash::*;
use vstd::string::*;

verus! {

broadcast use vstd::std_specs::hash::group_hash_axioms;

/// What a `QueryManager` holds, as far as its callers can tell.
pub struct QueryManagerView {
    /// The session of each query in flight.
    pub active: Map<QueryId, SessionId>,
    /// The query registered last on each session, while it is in flight.
    pub last: Map<SessionId, QueryId>,
}

/// The state after `query` is registered on `session`.
pub open spec fn registered(v: QueryManagerView, session: SessionId, query: QueryId) -> QueryManagerView {
    QueryManagerView { active: v.active.insert(query, session), last: v.last.insert(session, query) }
}

/// The outcome of an attempt to register `query` on `session`: the new
/// state, or nothing where the identifier is already in flight.
pub open spec fn try_registered(
    v: QueryManagerView,
    session: SessionId,
    query: QueryId,
) -> Option<QueryManagerView> {
    if v.active.contains_key(query) {
        None
    } else {
        Some(registered(v, session, query))
    }
}

/// The state after `query` is finished: it leaves the active queries, and
/// its session's last query where it was that.
pub open spec fn finished(v: QueryManagerView, query: QueryId) -> QueryManagerView {
    if v.active.contains_key(query) {
        let session = v.active[query];
        QueryManagerView {
            active: v.active.remove(query),
            last: if v.last.contains_key(session) && v.last[session] == query {
                v.last.remove(session)
            } else {
                v.last
            },
        }
    } else {
        v
    }
}

/// The registry of queries in flight.
///
/// Three indices are kept in step: the session of each query, the queries
/// of each session, and the query registered last on each session.
pub struct QueryManager {
    active: HashMap<u128, u128>,
    by_session: HashMap<u128, HashSet<u128>>,
    last_by_session: HashMap<u128, u128>,
}

impl View for QueryManager {
    type V = QueryManagerView;

    closed spec fn view(&self) -> QueryManagerView {
        QueryManagerView {
            active: Map::new(
                |q: QueryId| self.active@.contains_key(q.0),
                |q: QueryId| SessionId(self.active@[q.0]),
            ),
            last: Map::new(
                |s: SessionId| self.last_by_session@.contains_key(s.0),
                |s: SessionId| QueryId(self.last_by_session@[s.0]),
            ),
        }
    }
}

impl QueryManager {
    /// The queries indexed under a session.
    pub closed spec fn queries_of(&self, session: SessionId) -> Set<QueryId> {
        Set::new(
            |q: QueryId|
                self.by_session@.contains_key(session.0) && self.by_session@[session.0]@.contains(
                    q.0,
                ),
        )
    }

    /// The three indices agree: a session's set holds exactly the active
    /// queries of that session and is never empty, and a session's last
    /// query is an active query of that session.
    pub closed spec fn wf(&self) -> bool {
        &&& forall|s: u128, q: u128|
            #![trigger self.by_session@[s]@.contains(q)]
            self.by_session@.contains_key(s) && self.by_session@[s]@.contains(q)
                ==> self.active@.contains_key(q) && self.active@[q] == s
        &&& forall|q: u128|
            #![trigger self.active@.contains_key(q)]
            self.active@.contains_key(q) ==> self.by_session@.contains_key(self.active@[q])
                && self.by_session@[self.active@[q]]@.contains(q)
        &&& forall|s: u128|
            #![trigger self.by_session@.contains_key(s)]
            self.by_session@.contains_key(s) ==> !self.by_session@[s]@.is_empty()
        &&& forall|s: u128|
            #![trigger self.last_by_session@.contains_key(s)]
            self.last_by_session@.contains_key(s) ==> self.active@.contains_key(
                self.last_by_session@[s],
            ) && self.active@[self.last_by_session@[s]] == s
    }

    #[verifier::type_invariant]
    pub(crate) open spec fn inv(&self) -> bool {
        self.wf()
    }

    /// The per-session index holds exactly the active queries of each
    /// session, and each session's last query is one of them.
    pub proof fn lemma_indices_agree(&self, session: SessionId)
        requires
            self.wf(),
        ensures
            self.queries_of(session) == Set::new(
                |q: QueryId| self@.active.contains_key(q) && self@.active[q] == session,
            ),
            self@.last.contains_key(session) ==> self@.active.contains_key(self@.last[session])
                && self@.active[self@.last[session]] == session,
    {
        let a = self.queries_of(session);
        let b = Set::new(|q: QueryId| self@.active.contains_key(q) && self@.active[q] == session);
        assert forall|q: QueryId| a.contains(q) == b.contains(q) by {
            if a.contains(q) {
                assert(self.by_session@[session.0]@.contains(q.0));
            }
            if b.contains(q) {
                assert(self.active@.contains_key(q.0));
            }
        }
        assert(a =~= b);
        if self@.last.contains_key(session) {
            assert(self.last_by_session@.contains_key(session.0));
        }
    }

    /// A manager with no query in flight.
    pub fn new() -> (m: Self)
        ensures
            m.wf(),
            m@.active == Map::<QueryId, SessionId>::empty(),
            m@.last == Map::<SessionId, QueryId>::empty(),
            forall|s: SessionId| m.queries_of(s) == Set::<QueryId>::empty(),
    {
        let m = QueryManager {
            active: HashMap::new(),
            by_session: HashMap::new(),
            last_by_session: HashMap::new(),
        };
        proof {
            assert forall|s: SessionId| m.queries_of(s) == Set::<QueryId>::empty() by {
                assert(m.queries_of(s) =~= Set::<QueryId>::empty());
            }
        }
        m
    }

    /// Registers a query under a fresh identifier and returns the
    /// identifier. Should the identifier drawn already be in flight,
    /// nothing changes.
    pub fn register(&mut self, session_id: SessionId) -> (query_id: QueryId)
        ensures
            old(self).wf(),
            final(self).wf(),
            is_random_form(query_id.0),
            final(self)@.active.contains_key(query_id),
            forall|s: SessionId|
                #[trigger] final(self).queries_of(s) == (if s == session_id && !old(
                    self,
                )@.active.contains_key(query_id) {
                    old(self).queries_of(s).insert(query_id)
                } else {
                    old(self).queries_of(s)
                }),
            !old(self)@.active.contains_key(query_id) ==> final(self)@ == registered(
                old(self)@,
                session_id,
                query_id,
            ),
            old(self)@.active.contains_key(query_id) ==> final(self)@ == old(self)@,
    {
        let query_id = QueryId::new();
        let _ = self.register_with_id(session_id, query_id);
        query_id
    }

    /// Registers a query under the given identifier. An identifier that is
    /// already in flight is refused, and nothing changes.
    pub fn register_with_id(&mut self, session_id: SessionId, query_id: QueryId) -> (r: Result<
        QueryId,
        String,
    >)
        ensures
            old(self).wf(),
            final(self).wf(),
            match try_registered(old(self)@, session_id, query_id) {
                Some(v) => r == Ok::<QueryId, String>(query_id) && final(self)@ == v,
                None => r is Err && r->Err_0@ == "Query ID already registered"@ && final(self)@
                    == old(self)@,
            },
            forall|s: SessionId|
                #[trigger] final(self).queries_of(s) == (if s == session_id && r is Ok {
                    old(self).queries_of(s).insert(query_id)
                } else {
                    old(self).queries_of(s)
                }),
    {
        let q = query_id.0;
        let s = session_id.0;
        proof {
            use_type_invariant(&*self);
        }
        if self.active.contains_key(&q) {
            return Err(String::from_str("Query ID already registered"));
        }
        // The indices are taken out, changed together and put back.
        let mut held = QueryManager::new();
        std::mem::swap(self, &mut held);
        let QueryManager { active, by_session, last_by_session } = held;
        let mut active = active;
        let mut by_session = by_session;
        let mut last_by_session = last_by_session;
        active.insert(q, s);
        let mut set = match by_session.remove(&s) {
            Some(set) => set,
            None => HashSet::new(),
        };
        set.insert(q);
        by_session.insert(s, set);
        last_by_session.insert(s, q);
        let next = QueryManager { active, by_session, last_by_session };
        proof {
            assert(next@.active =~= old(self)@.active.insert(query_id, session_id));
            assert(next@.last =~= old(self)@.last.insert(session_id, query_id));
            assert forall|t: SessionId|
                #[trigger] next.queries_of(t) == (if t == session_id {
                    old(self).queries_of(t).insert(query_id)
                } else {
                    old(self).queries_of(t)
                }) by {
                next.lemma_indices_agree(t);
                old(self).lemma_indices_agree(t);
                assert(next.queries_of(t) =~= (if t == session_id {
                    old(self).queries_of(t).insert(query_id)
                } else {
                    old(self).queries_of(t)
                }));
            }
        }
        *self = next;
        Ok(query_id)
    }

    /// Forgets a query: it leaves all three indices. Unknown identifiers
    /// are ignored.
    pub fn finish(&mut self, query_id: QueryId)
        ensures
            old(self).wf(),
            final(self).wf(),
            final(self)@ == finished(old(self)@, query_id),
            forall|s: SessionId|
                #[trigger] final(self).queries_of(s) == old(self).queries_of(s).remove(query_id),
    {
        let q = query_id.0;
        proof {
            use_type_invariant(&*self);
        }
        // The indices are taken out, changed together and put back.
        let mut held = QueryManager::new();
        std::mem::swap(self, &mut held);
        let QueryManager { active, by_session, last_by_session } = held;
        let mut active = active;
        let mut by_session = by_session;
        let mut last_by_session = last_by_session;
        match active.remove(&q) {
            Some(s) => {
                match by_session.remove(&s) {
                    Some(set) => {
                        let mut set = set;
                        set.remove(&q);
                        if !set.is_empty() {
                            by_session.insert(s, set);
                        }
                    },
                    None => {},
                }
                let is_last = match last_by_session.get(&s) {
                    Some(last) => *last == q,
                    None => false,
                };
                if is_last {
                    last_by_session.remove(&s);
                }
                let next = QueryManager { active, by_session, last_by_session };
                proof {
                    assert(next@.active =~= old(self)@.active.remove(query_id));
                    assert(next@.last =~= finished(old(self)@, query_id).last);
                    assert forall|t: SessionId|
                        #[trigger] next.queries_of(t) == old(self).queries_of(t).remove(
                            query_id,
                        ) by {
                        next.lemma_indices_agree(t);
                        old(self).lemma_indices_agree(t);
                        assert(next.queries_of(t) =~= old(self).queries_of(t).remove(query_id));
                    }
                }
                *self = next;
            },
            None => {
                let next = QueryManager { active, by_session, last_by_session };
                proof {
                    assert(next@.active =~= old(self)@.active);
                    assert forall|t: SessionId|
                        #[trigger] next.queries_of(t) == old(self).queries_of(t).remove(
                            query_id,
                        ) by {
                        next.lemma_indices_agree(t);
                        old(self).lemma_indices_agree(t);
                        assert(next.queries_of(t) =~= old(self).queries_of(t).remove(query_id));
                    }
                }
                *self = next;
            },
        }
    }

    /// Whether a query is in flight.
    pub fn contains(&self, query_id: QueryId) -> (b: bool)
        ensures
            b == self@.active.contains_key(query_id),
    {
        self.active.contains_key(&query_id.0)
    }

    /// The session of a query in flight.
    pub fn session_for(&self, query_id: QueryId) -> (r: Option<SessionId>)
        ensures
            r == (if self@.active.contains_key(query_id) {
                Some(self@.active[query_id])
            } else {
                None
            }),
    {
        match self.active.get(&query_id.0) {
            Some(s) => Some(SessionId(*s)),
            None => None,
        }
    }

    /// The query registered last on a session, while it is in flight.
    pub fn last_for_session(&self, session_id: SessionId) -> (r: Option<QueryId>)
        ensures
            r == (if self@.last.contains_key(session_id) {
                Some(self@.last[session_id])
            } else {
                None
            }),
    {
        match self.last_by_session.get(&session_id.0) {
            Some(q) => Some(QueryId(*q)),
            None => None,
        }
    }
}

impl Default for QueryManager {
    fn default() -> (m: Self)
        ensures
            m@.active == Map::<QueryId, SessionId>::empty(),
    {
        QueryManager::new()
    }
}

/// A query that was just registered is in flight on its session and is the
/// session's last query; once finished it is neither.
pub proof fn lemma_register_then_finish(v: QueryManagerView, session: SessionId, query: QueryId)
    requires
        !v.active.contains_key(query),
    ensures
        registered(v, session, query).active.contains_key(query),
        registered(v, session, query).active[query] == session,
        registered(v, session, query).last[session] == query,
        !finished(registered(v, session, query), query).active.contains_key(query),
        !finished(registered(v, session, query), query).last.contains_key(session),
        finished(registered(v, session, query), query).active == v.active,
{
}

/// Finishing a query leaves every other query as it was.
pub proof fn lemma_finish_keeps_others(v: QueryManagerView, query: QueryId, other: QueryId)
    requires
        other != query,
    ensures
        finished(v, query).active.contains_key(other) == v.active.contains_key(other),
        v.active.contains_key(other) ==> finished(v, query).active[other] == v.active[other],
{
}

/// Registering an identifier a second time while it is in flight fails,
/// whatever the session, and the first registration stays as it was.
pub proof fn lemma_duplicate_registration_refused(
    v: QueryManagerView,
    first: SessionId,
    second: SessionId,
    query: QueryId,
)
    requires
        try_registered(v, first, query) is Some,
    ensures
        try_registered(try_registered(v, first, query)->0, second, query) is None,
        try_registered(v, first, query)->0.active[query] == first,
{
}

} // verus!
