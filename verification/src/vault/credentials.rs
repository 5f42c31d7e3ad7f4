//! Saved connections and the secrets stored beside them.

use crate::engine::error::{EngineError, ErrorKind};
use crate::engine::types::{
    clone_opt, opt_view, ConnectionConfig, ConnectionConfigView, SshAuth, SshAuthView,
    SshHostKeyPolicy, SshTunnelConfig, SshTunnelConfigView,
};
use crate::text::{concat2, str_eq};
use vstd::prelude::*;
use vstd::string::*;

verus! {

/// What a connection is used for.
#[derive(Debug, Clone, Copy, PartialEq, Eq, Structural)]
pub enum Environment {
    Development,
    Staging,
    Production,
}

impl Environment {
    /// The tag of the environment.
    pub open spec fn tag(&self) -> Seq<char> {
        match self {
            Environment::Development => "development"@,
            Environment::Staging => "staging"@,
            Environment::Production => "production"@,
        }
    }

    /// The tag of the environment.
    pub fn as_str(&self) -> (s: &'static str)
        ensures
            s@ == self.tag(),
    {
        match self {
            Environment::Development => "development",
            Environment::Staging => "staging",
            Environment::Production => "production",
        }
    }
}

impl Default for Environment {
    fn default() -> (e: Self)
        ensures
            e == Environment::Development,
    {
        Environment::Development
    }
}

/// The SSH tunnel of a saved connection, without its secrets.
#[derive(Debug, Clone)]
pub struct SshTunnelInfo {
    pub host: String,
    pub port: u16,
    pub username: String,
    /// `key` for key authentication; anything else means a password.
    pub auth_type: String,
    /// Path of the private key, for key authentication.
    pub key_path: Option<String>,
    /// `accept_new`, `strict` or `insecure_no_check`.
    pub host_key_policy: String,
    /// Jump host, written `user@host:port`.
    pub proxy_jump: Option<String>,
    pub connect_timeout_secs: u32,
    pub keepalive_interval_secs: u32,
    pub keepalive_count_max: u32,
}

/// A saved connection; its secrets are stored apart from it.
#[derive(Debug, Clone)]
pub struct SavedConnection {
    pub id: String,
    /// The name shown to the user.
    pub name: String,
    pub driver: String,
    pub environment: Environment,
    pub read_only: bool,
    pub host: String,
    pub port: u16,
    pub username: String,
    pub database: Option<String>,
    pub ssl: bool,
    pub ssh_tunnel: Option<SshTunnelInfo>,
    /// The project the connection belongs to.
    pub project_id: String,
}

/// The secrets of a saved connection.
#[derive(Debug, Clone)]
pub struct StoredCredentials {
    pub db_password: String,
    pub ssh_password: Option<String>,
    pub ssh_key_passphrase: Option<String>,
}

/// The policy a tag stands for.
pub open spec fn host_key_policy_of(tag: Seq<char>) -> Option<SshHostKeyPolicy> {
    if tag == "accept_new"@ {
        Some(SshHostKeyPolicy::AcceptNew)
    } else if tag == "strict"@ {
        Some(SshHostKeyPolicy::Strict)
    } else if tag == "insecure_no_check"@ {
        Some(SshHostKeyPolicy::InsecureNoCheck)
    } else {
        None
    }
}

/// The policy a tag stands for.
pub fn parse_host_key_policy(tag: &str) -> (r: Option<SshHostKeyPolicy>)
    ensures
        r == host_key_policy_of(tag@),
{
    if str_eq(tag, "accept_new") {
        Some(SshHostKeyPolicy::AcceptNew)
    } else if str_eq(tag, "strict") {
        Some(SshHostKeyPolicy::Strict)
    } else if str_eq(tag, "insecure_no_check") {
        Some(SshHostKeyPolicy::InsecureNoCheck)
    } else {
        None
    }
}

impl SshTunnelInfo {
    /// Whether the tunnel authenticates by key.
    pub open spec fn uses_key(&self) -> bool {
        self.auth_type@ == "key"@
    }

    /// The tunnel settings that this record and the secrets give, or the
    /// message of the reason why they give none.
    ///
    /// Key authentication needs a key path; password authentication needs
    /// a stored password; the host-key policy must be a known tag.
    pub open spec fn tunnel_config(
        &self,
        creds: &StoredCredentials,
    ) -> Result<SshTunnelConfigView, Seq<char>> {
        if self.uses_key() && self.key_path is None {
            Err("key_path must be set when auth_type is 'key'"@)
        } else if !self.uses_key() && creds.ssh_password is None {
            Err("ssh_password is missing"@)
        } else {
            match host_key_policy_of(self.host_key_policy@) {
                None => Err("Invalid ssh host_key_policy: "@ + self.host_key_policy@),
                Some(policy) => Ok(
                    SshTunnelConfigView {
                        host: self.host@,
                        port: self.port,
                        username: self.username@,
                        auth: if self.uses_key() {
                            SshAuthView::Key {
                                private_key_path: self.key_path->0@,
                                passphrase: opt_view(creds.ssh_key_passphrase),
                            }
                        } else {
                            SshAuthView::Password { password: creds.ssh_password->0@ }
                        },
                        host_key_policy: policy,
                        known_hosts_path: None,
                        proxy_jump: opt_view(self.proxy_jump),
                        connect_timeout_secs: self.connect_timeout_secs,
                        keepalive_interval_secs: self.keepalive_interval_secs,
                        keepalive_count_max: self.keepalive_count_max,
                    },
                ),
            }
        }
    }

    /// The tunnel settings that this record and the secrets give.
    pub fn to_tunnel_config(&self, creds: &StoredCredentials) -> (r: Result<
        SshTunnelConfig,
        EngineError,
    >)
        ensures
            match self.tunnel_config(creds) {
                Ok(v) => r is Ok && r->Ok_0@ == v,
                Err(m) => r is Err && r->Err_0.is(ErrorKind::Internal, m),
            },
    {
        let auth = if str_eq(self.auth_type.as_str(), "key") {
            match &self.key_path {
                Some(path) => SshAuth::Key {
                    private_key_path: path.clone(),
                    passphrase: clone_opt(&creds.ssh_key_passphrase),
                },
                None => {
                    return Err(
                        EngineError::internal("key_path must be set when auth_type is 'key'"),
                    );
                },
            }
        } else {
            match &creds.ssh_password {
                Some(password) => SshAuth::Password { password: password.clone() },
                None => {
                    return Err(EngineError::internal("ssh_password is missing"));
                },
            }
        };
        let host_key_policy = match parse_host_key_policy(self.host_key_policy.as_str()) {
            Some(p) => p,
            None => {
                let m = concat2("Invalid ssh host_key_policy: ", self.host_key_policy.as_str());
                return Err(EngineError::internal(m.as_str()));
            },
        };
        Ok(
            SshTunnelConfig {
                host: self.host.clone(),
                port: self.port,
                username: self.username.clone(),
                auth,
                host_key_policy,
                known_hosts_path: None,
                proxy_jump: clone_opt(&self.proxy_jump),
                connect_timeout_secs: self.connect_timeout_secs,
                keepalive_interval_secs: self.keepalive_interval_secs,
                keepalive_count_max: self.keepalive_count_max,
            },
        )
    }
}

impl SavedConnection {
    /// The connection settings that this record and the secrets give, or
    /// the message of the reason why they give none.
    pub open spec fn connection_config(
        &self,
        creds: &StoredCredentials,
    ) -> Result<ConnectionConfigView, Seq<char>> {
        let tunnel: Result<Option<SshTunnelConfigView>, Seq<char>> = match self.ssh_tunnel {
            None => Ok(None),
            Some(ssh) => match ssh.tunnel_config(creds) {
                Ok(t) => Ok(Some(t)),
                Err(m) => Err(m),
            },
        };
        match tunnel {
            Err(m) => Err(m),
            Ok(t) => Ok(
                ConnectionConfigView {
                    driver: self.driver@,
                    host: self.host@,
                    port: self.port,
                    username: self.username@,
                    password: creds.db_password@,
                    database: opt_view(self.database),
                    ssl: self.ssl,
                    environment: self.environment.tag(),
                    read_only: self.read_only,
                    ssh_tunnel: t,
                },
            ),
        }
    }

    /// Joins the record with its secrets into connection settings.
    ///
    /// Fails with an internal error where the record asks for key
    /// authentication without a key path, for password authentication
    /// without a stored SSH password, or names an unknown host-key policy.
    pub fn to_connection_config(&self, creds: &StoredCredentials) -> (r: Result<
        ConnectionConfig,
        EngineError,
    >)
        ensures
            match self.connection_config(creds) {
                Ok(v) => r is Ok && r->Ok_0@ == v,
                Err(m) => r is Err && r->Err_0.is(ErrorKind::Internal, m),
            },
    {
        let ssh_tunnel = match &self.ssh_tunnel {
            Some(ssh) => match ssh.to_tunnel_config(creds) {
                Ok(t) => Some(t),
                Err(e) => {
                    return Err(e);
                },
            },
            None => None,
        };
        Ok(
            ConnectionConfig {
                driver: self.driver.clone(),
                host: self.host.clone(),
                port: self.port,
                username: self.username.clone(),
                password: creds.db_password.clone(),
                database: clone_opt(&self.database),
                ssl: self.ssl,
                environment: String::from_str(self.environment.as_str()),
                read_only: self.read_only,
                ssh_tunnel,
            },
        )
    }
}

/// Settings made from a saved connection carry the stored database
/// password, the record's environment and read-only flag, and a tunnel
/// exactly where the record has one. A record whose tunnel authenticates
/// by password gives no settings unless an SSH password is stored.
pub proof fn lemma_config_carries_secrets(saved: SavedConnection, creds: StoredCredentials)
    ensures
        saved.connection_config(&creds) matches Ok(c) ==> {
            &&& c.password == creds.db_password@
            &&& c.environment == saved.environment.tag()
            &&& c.read_only == saved.read_only
            &&& (c.ssh_tunnel is Some <==> saved.ssh_tunnel is Some)
        },
        saved.ssh_tunnel matches Some(ssh) && !ssh.uses_key() && creds.ssh_password is None
            ==> saved.connection_config(&creds) == Err::<ConnectionConfigView, Seq<char>>(
            "ssh_password is missing"@,
        ),
        saved.ssh_tunnel is None ==> saved.connection_config(&creds) is Ok,
{
}

} // verus!
