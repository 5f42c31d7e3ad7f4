//! The vault operations: the input of a save, and the envelopes.

use crate::commands::connection::{normal_environment, normalize_environment};
use crate::engine::error::EngineError;
use crate::engine::types::{clone_opt, opt_view};
use crate::text::str_eq;
use crate::vault::credentials::{Environment, SavedConnection, SshTunnelInfo, StoredCredentials};
use crate::vault::lock::VaultLock;
use vstd::prelude::*;
use vstd::string::*;

verus! {

/// The outcome of a vault operation, as the caller is told.
#[derive(Debug)]
pub struct VaultResponse {
    pub success: bool,
    pub error: Option<String>,
}

/// The state of the vault's lock.
#[derive(Debug)]
pub struct VaultStatusResponse {
    pub is_locked: bool,
    pub has_master_password: bool,
}

/// The SSH tunnel of a connection that is to be saved.
#[derive(Debug)]
pub struct SshTunnelInput {
    pub host: String,
    pub port: u16,
    pub username: String,
    pub auth_type: String,
    pub password: Option<String>,
    pub key_path: Option<String>,
    pub key_passphrase: Option<String>,
    /// `accept_new` where absent.
    pub host_key_policy: Option<String>,
    pub proxy_jump: Option<String>,
    /// 10 where absent.
    pub connect_timeout_secs: Option<u32>,
    /// 30 where absent.
    pub keepalive_interval_secs: Option<u32>,
    /// 3 where absent.
    pub keepalive_count_max: Option<u32>,
}

/// A connection that is to be saved, with its secrets.
#[derive(Debug)]
pub struct SaveConnectionInput {
    pub id: String,
    pub name: String,
    pub driver: String,
    /// `development` where absent.
    pub environment: Option<String>,
    /// `false` where absent.
    pub read_only: Option<bool>,
    pub host: String,
    pub port: u16,
    pub username: String,
    pub password: String,
    pub database: Option<String>,
    pub ssl: bool,
    pub project_id: String,
    pub ssh_tunnel: Option<SshTunnelInput>,
}

/// Seconds allowed for the SSH handshake where the input names none.
pub const DEFAULT_CONNECT_TIMEOUT_SECS: u32 = 10;

/// Seconds between keepalive probes where the input names none.
pub const DEFAULT_KEEPALIVE_INTERVAL_SECS: u32 = 30;

/// Keepalive probes that may fail where the input names no number.
pub const DEFAULT_KEEPALIVE_COUNT_MAX: u32 = 3;

/// The environment a normal tag stands for.
pub open spec fn environment_of(tag: Seq<char>) -> Environment {
    if tag == "production"@ {
        Environment::Production
    } else if tag == "staging"@ {
        Environment::Staging
    } else {
        Environment::Development
    }
}

impl VaultResponse {
    /// Success.
    pub fn done() -> (r: Self)
        ensures
            r.success,
            r.error is None,
    {
        VaultResponse { success: true, error: None }
    }

    /// Failure with its reason.
    pub fn failed(error: &str) -> (r: Self)
        ensures
            !r.success,
            opt_view(r.error) == Some(error@),
    {
        VaultResponse { success: false, error: Some(String::from_str(error)) }
    }

    /// The refusal of an operation while the vault is locked, or `None`
    /// where it is open.
    pub fn locked_guard(lock: &VaultLock) -> (r: Option<Self>)
        ensures
            lock.unlocked() ==> r is None,
            !lock.unlocked() ==> r is Some && !r->0.success && opt_view(r->0.error) == Some(
                "Vault is locked"@,
            ),
    {
        if lock.is_locked() {
            Some(Self::failed("Vault is locked"))
        } else {
            None
        }
    }

    /// The envelope for the outcome of an operation.
    pub fn from_outcome(outcome: &Result<(), EngineError>) -> (r: Self)
        ensures
            match *outcome {
                Ok(_) => r.success && r.error is None,
                Err(e) => !r.success && opt_view(r.error) == Some(e.message_spec()),
            },
    {
        match outcome {
            Ok(_) => Self::done(),
            Err(e) => {
                let m = e.message();
                Self::failed(m.as_str())
            },
        }
    }

    /// The envelope for the outcome of unlocking: a wrong password is a
    /// failure of its own.
    pub fn from_unlock(outcome: &Result<bool, EngineError>) -> (r: Self)
        ensures
            match *outcome {
                Ok(true) => r.success && r.error is None,
                Ok(false) => !r.success && opt_view(r.error) == Some("Invalid password"@),
                Err(e) => !r.success && opt_view(r.error) == Some(e.message_spec()),
            },
    {
        match outcome {
            Ok(true) => Self::done(),
            Ok(false) => Self::failed("Invalid password"),
            Err(e) => {
                let m = e.message();
                Self::failed(m.as_str())
            },
        }
    }
}

impl VaultStatusResponse {
    /// The state of the lock, given whether a master password is set.
    pub fn new(lock: &VaultLock, has_master_password: bool) -> (r: Self)
        ensures
            r.is_locked == !lock.unlocked(),
            r.has_master_password == has_master_password,
    {
        VaultStatusResponse { is_locked: lock.is_locked(), has_master_password }
    }
}

fn or_default(value: Option<u32>, default: u32) -> (r: u32)
    ensures
        r == (match value {
            Some(v) => v,
            None => default,
        }),
{
    match value {
        Some(v) => v,
        None => default,
    }
}

impl SshTunnelInput {
    /// The tunnel as it is saved, without its secrets.
    pub fn to_info(&self) -> (info: SshTunnelInfo)
        ensures
            info.host@ == self.host@,
            info.port == self.port,
            info.username@ == self.username@,
            info.auth_type@ == self.auth_type@,
            opt_view(info.key_path) == opt_view(self.key_path),
            info.host_key_policy@ == (match self.host_key_policy {
                Some(p) => p@,
                None => "accept_new"@,
            }),
            opt_view(info.proxy_jump) == opt_view(self.proxy_jump),
            info.connect_timeout_secs == (match self.connect_timeout_secs {
                Some(v) => v,
                None => DEFAULT_CONNECT_TIMEOUT_SECS,
            }),
            info.keepalive_interval_secs == (match self.keepalive_interval_secs {
                Some(v) => v,
                None => DEFAULT_KEEPALIVE_INTERVAL_SECS,
            }),
            info.keepalive_count_max == (match self.keepalive_count_max {
                Some(v) => v,
                None => DEFAULT_KEEPALIVE_COUNT_MAX,
            }),
    {
        SshTunnelInfo {
            host: self.host.clone(),
            port: self.port,
            username: self.username.clone(),
            auth_type: self.auth_type.clone(),
            key_path: clone_opt(&self.key_path),
            host_key_policy: match &self.host_key_policy {
                Some(p) => p.clone(),
                None => String::from_str("accept_new"),
            },
            proxy_jump: clone_opt(&self.proxy_jump),
            connect_timeout_secs: or_default(self.connect_timeout_secs, DEFAULT_CONNECT_TIMEOUT_SECS),
            keepalive_interval_secs: or_default(
                self.keepalive_interval_secs,
                DEFAULT_KEEPALIVE_INTERVAL_SECS,
            ),
            keepalive_count_max: or_default(self.keepalive_count_max, DEFAULT_KEEPALIVE_COUNT_MAX),
        }
    }
}

impl SaveConnectionInput {
    /// The secrets of the input: the database password, and of the
    /// tunnel its password and the passphrase of its key.
    pub fn credentials(&self) -> (c: StoredCredentials)
        ensures
            c.db_password@ == self.password@,
            opt_view(c.ssh_password) == (match self.ssh_tunnel {
                Some(t) => opt_view(t.password),
                None => None,
            }),
            opt_view(c.ssh_key_passphrase) == (match self.ssh_tunnel {
                Some(t) => opt_view(t.key_passphrase),
                None => None,
            }),
    {
        StoredCredentials {
            db_password: self.password.clone(),
            ssh_password: match &self.ssh_tunnel {
                Some(t) => clone_opt(&t.password),
                None => None,
            },
            ssh_key_passphrase: match &self.ssh_tunnel {
                Some(t) => clone_opt(&t.key_passphrase),
                None => None,
            },
        }
    }

    /// The connection as it is saved, without its secrets. An
    /// environment that is none of the three is refused.
    pub fn connection(&self) -> (r: Result<SavedConnection, String>)
        ensures
            match normal_environment(
                match self.environment {
                    Some(e) => e@,
                    None => ""@,
                },
            ) {
                Err(m) => r is Err && r->Err_0@ == m,
                Ok(tag) => r is Ok && {
                    let c = r->Ok_0;
                    &&& c.id@ == self.id@
                    &&& c.name@ == self.name@
                    &&& c.driver@ == self.driver@
                    &&& c.environment == environment_of(tag)
                    &&& c.read_only == (match self.read_only {
                        Some(b) => b,
                        None => false,
                    })
                    &&& c.host@ == self.host@
                    &&& c.port == self.port
                    &&& c.username@ == self.username@
                    &&& opt_view(c.database) == opt_view(self.database)
                    &&& c.ssl == self.ssl
                    &&& c.project_id@ == self.project_id@
                    &&& (c.ssh_tunnel is Some <==> self.ssh_tunnel is Some)
                },
            },
    {
        let tag = match &self.environment {
            Some(e) => normalize_environment(e.as_str()),
            None => normalize_environment(""),
        };
        let tag = match tag {
            Ok(t) => t,
            Err(m) => {
                return Err(m);
            },
        };
        let environment = if str_eq(tag.as_str(), "production") {
            Environment::Production
        } else if str_eq(tag.as_str(), "staging") {
            Environment::Staging
        } else {
            Environment::Development
        };
        Ok(
            SavedConnection {
                id: self.id.clone(),
                name: self.name.clone(),
                driver: self.driver.clone(),
                environment,
                read_only: match self.read_only {
                    Some(b) => b,
                    None => false,
                },
                host: self.host.clone(),
                port: self.port,
                username: self.username.clone(),
                database: clone_opt(&self.database),
                ssl: self.ssl,
                ssh_tunnel: match &self.ssh_tunnel {
                    Some(t) => Some(t.to_info()),
                    None => None,
                },
                project_id: self.project_id.clone(),
            },
        )
    }
}

} // verus!
