//! The open sessions: the one place that says which sessions exist, which
//! driver serves each and under which settings.
//!
//! Opening and closing connections and tunnels is the caller's part; the
//! manager records what was opened and answers questions about it.

use crate::engine::error::{EngineError, ErrorKind};
use crate::engine::ids::{uuid_text, SessionId};
use crate::engine::registry::DriverRegistry;
use crate::engine::types::{ConnectionConfig, ConnectionConfigView};
use crate::text::str_eq;
use std::collections::HashMap;
use vstd::prelude::*;
use vstd::std_specs::hash::*;
use vstd::std_specs::iter::IteratorSpec;
use vstd::string::*;

verus! {

broadcast use vstd::std_specs::hash::group_hash_axioms;

/// Milliseconds allowed for opening a session.
pub const CONNECT_TIMEOUT_MS: u64 = 15000;

/// Milliseconds allowed for testing a connection.
pub const TEST_TIMEOUT_MS: u64 = 10000;

/// One open session. `T` is whatever keeps its tunnel alive; the tunnel
/// lives as long as this record.
pub struct ActiveSession<T> {
    pub driver_id: String,
    /// The settings as the caller gave them, not as rewritten for a tunnel.
    pub config: ConnectionConfig,
    pub display_name: String,
    pub tunnel: Option<T>,
}

/// The name under which a session is shown: `user@host:database`, with
/// `default` for no database, followed by ` (SSH)` where it is tunnelled.
pub open spec fn display_name_of(c: ConnectionConfigView, tunneled: bool) -> Seq<char> {
    c.username + "@"@ + c.host + ":"@ + (match c.database {
        Some(d) => d,
        None => "default"@,
    }) + (if tunneled {
        " (SSH)"@
    } else {
        ""@
    })
}

/// The settings with which the driver connects through a tunnel that
/// listens on `local_port`: the same, but for the loopback address and
/// that port.
pub open spec fn through_tunnel(c: ConnectionConfigView, local_port: u16) -> ConnectionConfigView {
    ConnectionConfigView { host: "127.0.0.1"@, port: local_port, ..c }
}

/// The name under which a session is shown.
pub fn display_name_for(config: &ConnectionConfig, tunneled: bool) -> (s: String)
    ensures
        s@ == display_name_of(config@, tunneled),
{
    let mut s = String::from_str(config.username.as_str());
    s.append("@");
    s.append(config.host.as_str());
    s.append(":");
    match &config.database {
        Some(d) => {
            s.append(d.as_str());
        },
        None => {
            s.append("default");
        },
    }
    if tunneled {
        s.append(" (SSH)");
    } else {
        s.append("");
    }
    s
}

/// The settings with which the driver connects through a tunnel.
pub fn tunneled_config(config: &ConnectionConfig, local_port: u16) -> (c: ConnectionConfig)
    ensures
        c@ == through_tunnel(config@, local_port),
{
    let mut c = config.duplicate();
    c.host = String::from_str("127.0.0.1");
    c.port = local_port;
    c
}

/// The failure of an operation that took longer than allowed.
pub fn timeout_error(timeout_ms: u64) -> (e: EngineError)
    ensures
        e == (EngineError::Timeout { timeout_ms }),
{
    EngineError::timeout(timeout_ms)
}

/// The driver that serves the settings, or the failure that none does.
pub fn driver_for<'a, D>(registry: &'a DriverRegistry<D>, driver_id: &str) -> (r: Result<
    &'a D,
    EngineError,
>)
    ensures
        registry.wf(),
        match registry.lookup(driver_id@) {
            Some(d) => r is Ok && *r->Ok_0 == d,
            None => r is Err && r->Err_0.is(ErrorKind::DriverNotFound, driver_id@),
        },
{
    match registry.get(driver_id) {
        Some(d) => Ok(d),
        None => Err(EngineError::driver_not_found(driver_id)),
    }
}

/// The record of all open sessions, with the registry of the drivers
/// that serve them. The registry does not change once the manager is
/// made.
pub struct SessionManager<D, T> {
    registry: DriverRegistry<D>,
    sessions: HashMap<u128, ActiveSession<T>>,
}

impl<D, T> SessionManager<D, T> {
    /// The open sessions.
    pub closed spec fn sessions(&self) -> Map<SessionId, ActiveSession<T>> {
        Map::new(
            |s: SessionId| self.sessions@.contains_key(s.0),
            |s: SessionId| self.sessions@[s.0],
        )
    }

    /// The registry of drivers.
    pub closed spec fn registry(&self) -> DriverRegistry<D> {
        self.registry
    }

    /// The registry holds no tag twice, and the driver of every open
    /// session is registered.
    pub open spec fn wf(&self) -> bool {
        &&& self.registry().wf()
        &&& forall|s: SessionId| #[trigger]
            self.sessions().contains_key(s) ==> self.registry().lookup(
                self.sessions()[s].driver_id@,
            ) is Some
    }

    #[verifier::type_invariant]
    spec fn inv(&self) -> bool {
        self.wf()
    }

    /// A manager without sessions, over the given drivers.
    pub fn new(registry: DriverRegistry<D>) -> (m: Self)
        ensures
            m.wf(),
            m.registry() == registry,
            m.sessions() == Map::<SessionId, ActiveSession<T>>::empty(),
    {
        let sessions: HashMap<u128, ActiveSession<T>> = HashMap::new();
        proof {
            use_type_invariant(&registry);
        }
        let m = SessionManager { registry, sessions };
        m
    }

    /// The driver registered under a tag, or the failure that none is.
    pub fn driver(&self, driver_id: &str) -> (r: Result<&D, EngineError>)
        ensures
            match self.registry().lookup(driver_id@) {
                Some(d) => r is Ok && *r->Ok_0 == d,
                None => r is Err && r->Err_0.is(ErrorKind::DriverNotFound, driver_id@),
            },
    {
        proof {
            use_type_invariant(&*self);
        }
        driver_for(&self.registry, driver_id)
    }

    /// Records a session that the driver has opened, with the tunnel
    /// that was opened for it, if any. Settings whose driver is not
    /// registered are refused, and nothing is recorded.
    pub fn connect(&mut self, session_id: SessionId, config: ConnectionConfig, tunnel: Option<T>) -> (r:
        Result<(), EngineError>)
        ensures
            old(self).wf(),
            final(self).wf(),
            final(self).registry() == old(self).registry(),
            match old(self).registry().lookup(config.driver@) {
                None => r is Err && r->Err_0.is(ErrorKind::DriverNotFound, config.driver@)
                    && final(self).sessions() == old(self).sessions(),
                Some(_) => {
                    &&& r is Ok
                    &&& final(self).sessions().dom() == old(self).sessions().dom().insert(
                        session_id,
                    )
                    &&& final(self).sessions()[session_id].config == config
                    &&& final(self).sessions()[session_id].tunnel == tunnel
                    &&& final(self).sessions()[session_id].driver_id@ == config.driver@
                    &&& final(self).sessions()[session_id].display_name@ == display_name_of(
                        config@,
                        tunnel is Some,
                    )
                    &&& forall|other: SessionId|
                        other != session_id && old(self).sessions().contains_key(other)
                            ==> #[trigger] final(self).sessions()[other] == old(
                            self,
                        ).sessions()[other]
                },
            },
    {
        proof {
            use_type_invariant(&*self);
        }
        match driver_for(&self.registry, config.driver.as_str()) {
            Ok(_) => {},
            Err(e) => {
                return Err(e);
            },
        }
        let display_name = display_name_for(&config, tunnel.is_some());
        let session = ActiveSession {
            driver_id: config.driver.clone(),
            config,
            display_name,
            tunnel,
        };
        // The record is taken out, changed and put back.
        let mut held = SessionManager { registry: DriverRegistry::new(), sessions: HashMap::new() };
        std::mem::swap(self, &mut held);
        let SessionManager { registry, sessions } = held;
        let mut sessions = sessions;
        sessions.insert(session_id.0, session);
        proof {
            let next = SessionManager { registry, sessions };
            assert forall|s: SessionId| #[trigger]
                next.sessions().contains_key(s) implies next.registry().lookup(
                next.sessions()[s].driver_id@,
            ) is Some by {
                if s != session_id {
                    assert(old(self).sessions().contains_key(s));
                }
            }
        }
        let next = SessionManager { registry, sessions };
        *self = next;
        Ok(())
    }

    /// Forgets a session and hands its record back, so that the caller
    /// can close the connection and the tunnel. The session is gone from
    /// the record before anything is closed.
    pub fn disconnect(&mut self, session_id: SessionId) -> (r: Result<ActiveSession<T>, EngineError>)
        ensures
            old(self).wf(),
            final(self).wf(),
            final(self).registry() == old(self).registry(),
            final(self).sessions() == old(self).sessions().remove(session_id),
            match r {
                Ok(s) => old(self).sessions().contains_key(session_id) && s == old(self).sessions()[session_id],
                Err(e) => !old(self).sessions().contains_key(session_id) && e.is(
                    ErrorKind::SessionNotFound,
                    uuid_text(session_id.0),
                ),
            },
    {
        proof {
            use_type_invariant(&*self);
        }
        // The record is taken out, changed and put back.
        let mut held = SessionManager { registry: DriverRegistry::new(), sessions: HashMap::new() };
        std::mem::swap(self, &mut held);
        let SessionManager { registry, sessions } = held;
        let mut sessions = sessions;
        let removed = sessions.remove(&session_id.0);
        proof {
            let next = SessionManager { registry, sessions };
            assert forall|s: SessionId| #[trigger]
                next.sessions().contains_key(s) implies next.registry().lookup(
                next.sessions()[s].driver_id@,
            ) is Some by {
                assert(old(self).sessions().contains_key(s));
            }
        }
        let next = SessionManager { registry, sessions };
        *self = next;
        match removed {
            Some(s) => Ok(s),
            None => {
                let id = session_id.to_string();
                Err(EngineError::session_not_found(id.as_str()))
            },
        }
    }

    fn session(&self, session_id: SessionId) -> (r: Result<&ActiveSession<T>, EngineError>)
        ensures
            match r {
                Ok(s) => self.sessions().contains_key(session_id) && *s
                    == self.sessions()[session_id],
                Err(e) => !self.sessions().contains_key(session_id) && e.is(
                    ErrorKind::SessionNotFound,
                    uuid_text(session_id.0),
                ),
            },
    {
        match self.sessions.get(&session_id.0) {
            Some(s) => Ok(s),
            None => {
                let id = session_id.to_string();
                Err(EngineError::session_not_found(id.as_str()))
            },
        }
    }

    /// The driver that serves a session. Nothing but the record and the
    /// registry is consulted.
    pub fn get_driver(&self, session_id: SessionId) -> (r: Result<&D, EngineError>)
        ensures
            if self.sessions().contains_key(session_id) {
                r is Ok && Some(*r->Ok_0) == self.registry().lookup(
                    self.sessions()[session_id].driver_id@,
                )
            } else {
                r is Err && r->Err_0.is(ErrorKind::SessionNotFound, uuid_text(session_id.0))
            },
    {
        proof {
            use_type_invariant(&*self);
        }
        match self.session(session_id) {
            Ok(s) => driver_for(&self.registry, s.driver_id.as_str()),
            Err(e) => Err(e),
        }
    }

    /// The identifier and the name of every open session, in no
    /// particular order.
    pub fn list_sessions(&self) -> (out: Vec<(SessionId, String)>)
        ensures
            forall|i: int|
                0 <= i < out@.len() ==> self.sessions().contains_key((#[trigger] out@[i]).0)
                    && out@[i].1@ == self.sessions()[out@[i].0].display_name@,
            forall|i: int, j: int| 0 <= i < j < out@.len() ==> out@[i].0 != out@[j].0,
            forall|s: SessionId| #[trigger]
                self.sessions().contains_key(s) ==> exists|i: int|
                    0 <= i < out@.len() && (#[trigger] out@[i]).0 == s,
    {
        let mut out: Vec<(SessionId, String)> = Vec::new();
        let keys = self.sessions.keys();
        let ghost all = keys.remaining();
        for k in it: keys
            invariant
                it.seq() == all,
                all.unref().to_set() == self.sessions@.dom(),
                all.no_duplicates(),
                out@.len() == it.index(),
                forall|i: int| 0 <= i < out@.len() ==> (#[trigger] out@[i]).0.0 == *all[i],
                forall|i: int|
                    0 <= i < out@.len() ==> self.sessions@.contains_key((#[trigger] out@[i]).0.0)
                        && out@[i].1@ == self.sessions@[out@[i].0.0].display_name@,
        {
            proof {
                assert(all.unref()[it.index() as int] == *k);
                assert(all.unref().to_set().contains(*k));
            }
            match self.sessions.get(k) {
                Some(s) => {
                    out.push((SessionId(*k), s.display_name.clone()));
                },
                None => {
                    proof {
                        assert(false);
                    }
                },
            }
        }
        proof {
            assert forall|i: int, j: int| 0 <= i < j < out@.len() implies out@[i].0 != out@[j].0 by {
                assert(out@[i].0.0 == *all[i]);
                assert(out@[j].0.0 == *all[j]);
                assert(all[i] != all[j]);
            }
            assert forall|s: SessionId| #[trigger] self.sessions().contains_key(s) implies exists|
                i: int,
            |
                0 <= i < out@.len() && (#[trigger] out@[i]).0 == s by {
                assert(all.unref().to_set().contains(s.0));
                assert(all.unref().contains(s.0));
                let i = choose|i: int| 0 <= i < all.unref().len() && all.unref()[i] == s.0;
                assert(*all[i] == s.0);
                assert(out@[i].0 == s);
            }
        }
        out
    }

    /// The name of a session.
    pub fn get_session_info(&self, session_id: SessionId) -> (r: Option<String>)
        ensures
            match r {
                Some(name) => self.sessions().contains_key(session_id) && name@
                    == self.sessions()[session_id].display_name@,
                None => !self.sessions().contains_key(session_id),
            },
    {
        match self.sessions.get(&session_id.0) {
            Some(s) => Some(s.display_name.clone()),
            None => None,
        }
    }

    /// Whether the session may only read.
    pub fn is_read_only(&self, session_id: SessionId) -> (r: Result<bool, EngineError>)
        ensures
            match r {
                Ok(b) => self.sessions().contains_key(session_id) && b
                    == self.sessions()[session_id].config.read_only,
                Err(e) => !self.sessions().contains_key(session_id) && e.is(
                    ErrorKind::SessionNotFound,
                    uuid_text(session_id.0),
                ),
            },
    {
        match self.session(session_id) {
            Ok(s) => Ok(s.config.read_only),
            Err(e) => Err(e),
        }
    }

    /// Whether the session is on a production environment.
    pub fn is_production(&self, session_id: SessionId) -> (r: Result<bool, EngineError>)
        ensures
            match r {
                Ok(b) => self.sessions().contains_key(session_id) && b == (self.sessions()[session_id].config.environment@
                    == "production"@),
                Err(e) => !self.sessions().contains_key(session_id) && e.is(
                    ErrorKind::SessionNotFound,
                    uuid_text(session_id.0),
                ),
            },
    {
        match self.session(session_id) {
            Ok(s) => Ok(str_eq(s.config.environment.as_str(), "production")),
            Err(e) => Err(e),
        }
    }

    /// Whether the session is open.
    pub fn session_exists(&self, session_id: SessionId) -> (b: bool)
        ensures
            b == self.sessions().contains_key(session_id),
    {
        self.sessions.contains_key(&session_id.0)
    }
}

} // verus!
