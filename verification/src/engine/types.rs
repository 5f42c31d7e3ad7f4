//! The data model shared by every engine: connection settings, namespaces,
//! collections and table schemas.

use vstd::prelude::*;
use vstd::string::*;

verus! {

/// The characters of an optional string.
pub open spec fn opt_view(o: Option<String>) -> Option<Seq<char>> {
    match o {
        Some(s) => Some(s@),
        None => None,
    }
}

/// A copy of an optional string.
pub fn clone_opt(o: &Option<String>) -> (r: Option<String>)
    ensures
        opt_view(r) == opt_view(*o),
{
    match o {
        Some(s) => Some(s.clone()),
        None => None,
    }
}

/// How the host key of an SSH server is checked.
#[derive(Debug, Clone, Copy, PartialEq, Eq, Structural)]
pub enum SshHostKeyPolicy {
    /// Trust on first use: a new host is added to the known-hosts file.
    AcceptNew,
    /// The host key must already be in the known-hosts file.
    Strict,
    /// No host key checking.
    InsecureNoCheck,
}

/// How the SSH client authenticates.
#[derive(Debug, Clone)]
pub enum SshAuth {
    Password { password: String },
    Key { private_key_path: String, passphrase: Option<String> },
}

/// The contents of an `SshAuth`.
pub enum SshAuthView {
    Password { password: Seq<char> },
    Key { private_key_path: Seq<char>, passphrase: Option<Seq<char>> },
}

impl View for SshAuth {
    type V = SshAuthView;

    open spec fn view(&self) -> SshAuthView {
        match self {
            SshAuth::Password { password } => SshAuthView::Password { password: password@ },
            SshAuth::Key { private_key_path, passphrase } => SshAuthView::Key {
                private_key_path: private_key_path@,
                passphrase: opt_view(*passphrase),
            },
        }
    }
}

impl SshAuth {
    /// A copy of this value.
    pub fn duplicate(&self) -> (r: SshAuth)
        ensures
            r@ == self@,
    {
        match self {
            SshAuth::Password { password } => SshAuth::Password { password: password.clone() },
            SshAuth::Key { private_key_path, passphrase } => SshAuth::Key {
                private_key_path: private_key_path.clone(),
                passphrase: clone_opt(passphrase),
            },
        }
    }
}

/// Settings of an SSH tunnel through which a database is reached.
#[derive(Debug, Clone)]
pub struct SshTunnelConfig {
    pub host: String,
    pub port: u16,
    pub username: String,
    pub auth: SshAuth,
    /// How the server's host key is checked.
    pub host_key_policy: SshHostKeyPolicy,
    /// Path of the known-hosts file; a per-user default where absent.
    pub known_hosts_path: Option<String>,
    /// Jump host, written `user@host:port`.
    pub proxy_jump: Option<String>,
    /// Seconds allowed for the SSH handshake.
    pub connect_timeout_secs: u32,
    /// Seconds between keepalive probes.
    pub keepalive_interval_secs: u32,
    /// Keepalive probes that may fail before the tunnel is given up.
    pub keepalive_count_max: u32,
}

/// The contents of an `SshTunnelConfig`.
pub struct SshTunnelConfigView {
    pub host: Seq<char>,
    pub port: u16,
    pub username: Seq<char>,
    pub auth: SshAuthView,
    pub host_key_policy: SshHostKeyPolicy,
    pub known_hosts_path: Option<Seq<char>>,
    pub proxy_jump: Option<Seq<char>>,
    pub connect_timeout_secs: u32,
    pub keepalive_interval_secs: u32,
    pub keepalive_count_max: u32,
}

impl View for SshTunnelConfig {
    type V = SshTunnelConfigView;

    open spec fn view(&self) -> SshTunnelConfigView {
        SshTunnelConfigView {
            host: self.host@,
            port: self.port,
            username: self.username@,
            auth: self.auth@,
            host_key_policy: self.host_key_policy,
            known_hosts_path: opt_view(self.known_hosts_path),
            proxy_jump: opt_view(self.proxy_jump),
            connect_timeout_secs: self.connect_timeout_secs,
            keepalive_interval_secs: self.keepalive_interval_secs,
            keepalive_count_max: self.keepalive_count_max,
        }
    }
}

impl SshTunnelConfig {
    /// A copy of this value.
    pub fn duplicate(&self) -> (r: SshTunnelConfig)
        ensures
            r@ == self@,
    {
        SshTunnelConfig {
            host: self.host.clone(),
            port: self.port,
            username: self.username.clone(),
            auth: self.auth.duplicate(),
            host_key_policy: self.host_key_policy,
            known_hosts_path: clone_opt(&self.known_hosts_path),
            proxy_jump: clone_opt(&self.proxy_jump),
            connect_timeout_secs: self.connect_timeout_secs,
            keepalive_interval_secs: self.keepalive_interval_secs,
            keepalive_count_max: self.keepalive_count_max,
        }
    }
}

/// The contents of an optional tunnel configuration.
pub open spec fn opt_tunnel_view(o: Option<SshTunnelConfig>) -> Option<SshTunnelConfigView> {
    match o {
        Some(t) => Some(t@),
        None => None,
    }
}

/// Settings of one database connection.
#[derive(Debug, Clone)]
pub struct ConnectionConfig {
    /// Tag of the driver that serves the connection.
    pub driver: String,
    pub host: String,
    pub port: u16,
    pub username: String,
    /// The secret; never written outward.
    pub password: String,
    pub database: Option<String>,
    pub ssl: bool,
    /// `development`, `staging` or `production`.
    pub environment: String,
    pub read_only: bool,
    pub ssh_tunnel: Option<SshTunnelConfig>,
}

/// The contents of a `ConnectionConfig`.
pub struct ConnectionConfigView {
    pub driver: Seq<char>,
    pub host: Seq<char>,
    pub port: u16,
    pub username: Seq<char>,
    pub password: Seq<char>,
    pub database: Option<Seq<char>>,
    pub ssl: bool,
    pub environment: Seq<char>,
    pub read_only: bool,
    pub ssh_tunnel: Option<SshTunnelConfigView>,
}

impl View for ConnectionConfig {
    type V = ConnectionConfigView;

    open spec fn view(&self) -> ConnectionConfigView {
        ConnectionConfigView {
            driver: self.driver@,
            host: self.host@,
            port: self.port,
            username: self.username@,
            password: self.password@,
            database: opt_view(self.database),
            ssl: self.ssl,
            environment: self.environment@,
            read_only: self.read_only,
            ssh_tunnel: opt_tunnel_view(self.ssh_tunnel),
        }
    }
}

impl ConnectionConfig {
    /// A copy of this value.
    pub fn duplicate(&self) -> (r: ConnectionConfig)
        ensures
            r@ == self@,
    {
        ConnectionConfig {
            driver: self.driver.clone(),
            host: self.host.clone(),
            port: self.port,
            username: self.username.clone(),
            password: self.password.clone(),
            database: clone_opt(&self.database),
            ssl: self.ssl,
            environment: self.environment.clone(),
            read_only: self.read_only,
            ssh_tunnel: match &self.ssh_tunnel {
                Some(t) => Some(t.duplicate()),
                None => None,
            },
        }
    }
}

/// How far a driver can cancel a running query.
#[derive(Debug, Clone, Copy, PartialEq, Eq, Structural)]
pub enum CancelSupport {
    /// Not at all.
    Unsupported,
    /// The request is sent, with no promise that the query stops.
    BestEffort,
    /// The server is asked to stop the query.
    Driver,
}

/// The level above collections: a database, and a schema where the engine
/// has schemas.
#[derive(Debug, Clone, PartialEq, Eq)]
pub struct Namespace {
    pub database: String,
    pub schema: Option<String>,
}

impl Namespace {
    /// A namespace that is a database alone.
    pub fn new(database: &str) -> (ns: Self)
        ensures
            ns.database@ == database@,
            ns.schema is None,
    {
        Namespace { database: String::from_str(database), schema: None }
    }

    /// A namespace that is a schema within a database.
    pub fn with_schema(database: &str, schema: &str) -> (ns: Self)
        ensures
            ns.database@ == database@,
            opt_view(ns.schema) == Some(schema@),
    {
        Namespace { database: String::from_str(database), schema: Some(String::from_str(schema)) }
    }

    /// A copy of this value.
    pub fn duplicate(&self) -> (r: Namespace)
        ensures
            r.database@ == self.database@,
            opt_view(r.schema) == opt_view(self.schema),
    {
        Namespace { database: self.database.clone(), schema: clone_opt(&self.schema) }
    }
}

/// What kind of thing a collection is.
#[derive(Debug, Clone, Copy, PartialEq, Eq, Structural)]
pub enum CollectionType {
    Table,
    View,
    MaterializedView,
    /// A collection of documents.
    Collection,
}

/// A table, view or document collection.
#[derive(Debug, Clone)]
pub struct Collection {
    pub namespace: Namespace,
    pub name: String,
    pub collection_type: CollectionType,
}

/// One column of a result.
#[derive(Debug, Clone)]
pub struct ColumnInfo {
    pub name: String,
    pub data_type: String,
    pub nullable: bool,
}

/// One column of a table's schema.
#[derive(Debug, Clone)]
pub struct TableColumn {
    pub name: String,
    /// The engine's own name of the type.
    pub data_type: String,
    pub nullable: bool,
    /// The default expression, if the column has one.
    pub default_value: Option<String>,
    pub is_primary_key: bool,
}

/// The schema of a table.
#[derive(Debug, Clone)]
pub struct TableSchema {
    pub columns: Vec<TableColumn>,
    /// The primary key's columns in order, if the table has a key.
    pub primary_key: Option<Vec<String>>,
    /// The engine's estimate of the number of rows, if it gives one.
    pub row_count_estimate: Option<u64>,
}

} // verus!
