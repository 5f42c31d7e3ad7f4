//! What is decided before a connection is tested or opened: the settings
//! are put in normal form, saved settings are joined with their secrets,
//! and the vault's lock is respected.

use crate::engine::error::EngineError;
use crate::engine::ids::{uuid_text, SessionId};
use crate::engine::types::{
    opt_view, ConnectionConfig, ConnectionConfigView, SshAuth, SshAuthView, SshTunnelConfig,
    SshTunnelConfigView,
};
use crate::text::{ascii_lower, concat2, str_eq, to_ascii_lowercase, trim, trimmed};
use crate::vault::credentials::{SavedConnection, StoredCredentials};
use crate::vault::lock::VaultLock;
use vstd::prelude::*;
use vstd::string::*;

verus! {

/// The outcome of a connection operation, as the caller is told.
#[derive(Debug)]
pub struct ConnectionResponse {
    pub success: bool,
    pub session_id: Option<String>,
    pub error: Option<String>,
}

/// One open session, as listed.
#[derive(Debug)]
pub struct SessionListItem {
    pub id: String,
    pub display_name: String,
}

impl ConnectionResponse {
    /// Success without a session: a test that passed, a session closed.
    pub fn done() -> (r: Self)
        ensures
            r.success,
            r.session_id is None,
            r.error is None,
    {
        ConnectionResponse { success: true, session_id: None, error: None }
    }

    /// Success with the session that was opened.
    pub fn connected(session: SessionId) -> (r: Self)
        ensures
            r.success,
            opt_view(r.session_id) == Some(uuid_text(session.0)),
            r.error is None,
    {
        ConnectionResponse { success: true, session_id: Some(session.to_string()), error: None }
    }

    /// Failure with its reason.
    pub fn failed(error: &str) -> (r: Self)
        ensures
            !r.success,
            r.session_id is None,
            opt_view(r.error) == Some(error@),
    {
        ConnectionResponse { success: false, session_id: None, error: Some(String::from_str(error)) }
    }

    /// The envelope for the outcome of opening a session.
    pub fn from_connect(outcome: &Result<SessionId, EngineError>) -> (r: Self)
        ensures
            match *outcome {
                Ok(id) => r.success && opt_view(r.session_id) == Some(uuid_text(id.0))
                    && r.error is None,
                Err(e) => !r.success && r.session_id is None && opt_view(r.error) == Some(
                    e.message_spec(),
                ),
            },
    {
        match outcome {
            Ok(id) => Self::connected(*id),
            Err(e) => {
                let m = e.message();
                Self::failed(m.as_str())
            },
        }
    }

    /// The envelope for the outcome of a test or of closing a session.
    pub fn from_outcome(outcome: &Result<(), EngineError>) -> (r: Self)
        ensures
            r.session_id is None,
            match *outcome {
                Ok(_) => r.success && r.error is None,
                Err(e) => !r.success && opt_view(r.error) == Some(e.message_spec()),
            },
    {
        match outcome {
            Ok(_) => Self::done(),
            Err(e) => {
                let m = e.message();
                Self::failed(m.as_str())
            },
        }
    }
}

impl SessionListItem {
    /// The listing of one session.
    pub fn new(session: SessionId, display_name: &str) -> (item: Self)
        ensures
            item.id@ == uuid_text(session.0),
            item.display_name@ == display_name@,
    {
        SessionListItem { id: session.to_string(), display_name: String::from_str(display_name) }
    }
}

/// The normal form of an environment tag, or the message with which it is
/// refused: blank means `development`; otherwise the tag, trimmed and in
/// lower case, must be one of the three environments.
pub open spec fn normal_environment(env: Seq<char>) -> Result<Seq<char>, Seq<char>> {
    let n = ascii_lower(trimmed(env));
    if n.len() == 0 {
        Ok("development"@)
    } else if n == "development"@ || n == "staging"@ || n == "production"@ {
        Ok(n)
    } else {
        Err("Invalid environment: "@ + env)
    }
}

/// Puts an environment tag in normal form.
pub fn normalize_environment(env: &str) -> (r: Result<String, String>)
    ensures
        match normal_environment(env@) {
            Ok(n) => r is Ok && r->Ok_0@ == n,
            Err(m) => r is Err && r->Err_0@ == m,
        },
{
    let t = trim(env);
    let normalized = to_ascii_lowercase(t.as_str());
    if normalized.as_str().unicode_len() == 0 {
        return Ok(String::from_str("development"));
    }
    if str_eq(normalized.as_str(), "development") || str_eq(normalized.as_str(), "staging")
        || str_eq(normalized.as_str(), "production") {
        Ok(normalized)
    } else {
        Err(concat2("Invalid environment: ", env))
    }
}

/// The normal form of an optional database name: trimmed, and absent
/// where blank.
pub open spec fn normal_database(database: Option<Seq<char>>) -> Option<Seq<char>> {
    match database {
        Some(d) => if trimmed(d).len() == 0 {
            None
        } else {
            Some(trimmed(d))
        },
        None => None,
    }
}

/// The normal form of tunnel settings, or the message with which they are
/// refused.
pub open spec fn normal_tunnel(t: SshTunnelConfigView) -> Result<SshTunnelConfigView, Seq<char>> {
    if trimmed(t.host).len() == 0 {
        Err("SSH host is required"@)
    } else if trimmed(t.username).len() == 0 {
        Err("SSH username is required"@)
    } else if t.port == 0 {
        Err("SSH port must be greater than 0"@)
    } else {
        match t.auth {
            SshAuthView::Password { password } => if trimmed(password).len() == 0 {
                Err("SSH password is required"@)
            } else {
                Ok(SshTunnelConfigView { host: trimmed(t.host), username: trimmed(t.username), ..t })
            },
            SshAuthView::Key { private_key_path, .. } => if trimmed(private_key_path).len() == 0 {
                Err("SSH key path is required"@)
            } else {
                Ok(SshTunnelConfigView { host: trimmed(t.host), username: trimmed(t.username), ..t })
            },
        }
    }
}

/// The normal form of connection settings, or the message with which they
/// are refused.
///
/// Driver, host and user name are trimmed and must not be blank; the port
/// must not be zero; a blank database name counts as none; the
/// environment is put in normal form; tunnel settings, where present, are
/// held to the same rules and must carry a password or a key path.
pub open spec fn normal_config(c: ConnectionConfigView) -> Result<ConnectionConfigView, Seq<char>> {
    if trimmed(c.driver).len() == 0 {
        Err("Driver is required"@)
    } else if trimmed(c.host).len() == 0 {
        Err("Host is required"@)
    } else if trimmed(c.username).len() == 0 {
        Err("Username is required"@)
    } else if c.port == 0 {
        Err("Port must be greater than 0"@)
    } else {
        match normal_environment(c.environment) {
            Err(m) => Err(m),
            Ok(env) => {
                let tunnel: Result<Option<SshTunnelConfigView>, Seq<char>> = match c.ssh_tunnel {
                    None => Ok(None),
                    Some(t) => match normal_tunnel(t) {
                        Ok(n) => Ok(Some(n)),
                        Err(m) => Err(m),
                    },
                };
                match tunnel {
                    Err(m) => Err(m),
                    Ok(t) => Ok(
                        ConnectionConfigView {
                            driver: trimmed(c.driver),
                            host: trimmed(c.host),
                            username: trimmed(c.username),
                            database: normal_database(c.database),
                            environment: env,
                            ssh_tunnel: t,
                            ..c
                        },
                    ),
                }
            },
        }
    }
}

fn is_blank_text(s: &str) -> (b: bool)
    ensures
        b == (trimmed(s@).len() == 0),
{
    let t = trim(s);
    t.as_str().unicode_len() == 0
}

/// Puts tunnel settings in normal form.
pub fn normalize_tunnel(ssh: SshTunnelConfig) -> (r: Result<SshTunnelConfig, String>)
    ensures
        match normal_tunnel(ssh@) {
            Ok(n) => r is Ok && r->Ok_0@ == n,
            Err(m) => r is Err && r->Err_0@ == m,
        },
{
    let host = trim(ssh.host.as_str());
    if host.as_str().unicode_len() == 0 {
        return Err(String::from_str("SSH host is required"));
    }
    let username = trim(ssh.username.as_str());
    if username.as_str().unicode_len() == 0 {
        return Err(String::from_str("SSH username is required"));
    }
    if ssh.port == 0 {
        return Err(String::from_str("SSH port must be greater than 0"));
    }
    match &ssh.auth {
        SshAuth::Password { password } => {
            if is_blank_text(password.as_str()) {
                return Err(String::from_str("SSH password is required"));
            }
        },
        SshAuth::Key { private_key_path, .. } => {
            if is_blank_text(private_key_path.as_str()) {
                return Err(String::from_str("SSH key path is required"));
            }
        },
    }
    Ok(
        SshTunnelConfig {
            host,
            port: ssh.port,
            username,
            auth: ssh.auth,
            host_key_policy: ssh.host_key_policy,
            known_hosts_path: ssh.known_hosts_path,
            proxy_jump: ssh.proxy_jump,
            connect_timeout_secs: ssh.connect_timeout_secs,
            keepalive_interval_secs: ssh.keepalive_interval_secs,
            keepalive_count_max: ssh.keepalive_count_max,
        },
    )
}

/// Puts connection settings in normal form, or refuses them with the
/// message of the first rule they break.
pub fn normalize_config(config: ConnectionConfig) -> (r: Result<ConnectionConfig, String>)
    ensures
        match normal_config(config@) {
            Ok(n) => r is Ok && r->Ok_0@ == n,
            Err(m) => r is Err && r->Err_0@ == m,
        },
{
    let driver = trim(config.driver.as_str());
    if driver.as_str().unicode_len() == 0 {
        return Err(String::from_str("Driver is required"));
    }
    let host = trim(config.host.as_str());
    if host.as_str().unicode_len() == 0 {
        return Err(String::from_str("Host is required"));
    }
    let username = trim(config.username.as_str());
    if username.as_str().unicode_len() == 0 {
        return Err(String::from_str("Username is required"));
    }
    if config.port == 0 {
        return Err(String::from_str("Port must be greater than 0"));
    }
    let database = match &config.database {
        Some(d) => {
            let t = trim(d.as_str());
            if t.as_str().unicode_len() == 0 {
                None
            } else {
                Some(t)
            }
        },
        None => None,
    };
    let environment = match normalize_environment(config.environment.as_str()) {
        Ok(e) => e,
        Err(m) => {
            return Err(m);
        },
    };
    let ssh_tunnel = match config.ssh_tunnel {
        Some(ssh) => match normalize_tunnel(ssh) {
            Ok(t) => Some(t),
            Err(m) => {
                return Err(m);
            },
        },
        None => None,
    };
    Ok(
        ConnectionConfig {
            driver,
            host,
            port: config.port,
            username,
            password: config.password,
            database,
            ssl: config.ssl,
            environment,
            read_only: config.read_only,
            ssh_tunnel,
        },
    )
}

/// The settings that a saved connection and the outcome of fetching its
/// secrets give for a project, or the message with which they are
/// refused. The project is looked at first, then the secrets.
pub open spec fn saved_config(
    project_id: Seq<char>,
    saved: &SavedConnection,
    creds: Result<&StoredCredentials, &EngineError>,
) -> Result<ConnectionConfigView, Seq<char>> {
    if saved.project_id@ != project_id {
        Err("Connection project mismatch"@)
    } else {
        match creds {
            Err(e) => Err(e.message_spec()),
            Ok(c) => match saved.connection_config(c) {
                Ok(config) => Ok(config),
                Err(m) => Err("Internal error: "@ + m),
            },
        }
    }
}

/// Joins a saved connection with its secrets, for the project that asks.
/// A connection of another project is refused, and so is one whose
/// secrets could not be fetched.
pub fn load_saved_connection_config(
    project_id: &str,
    saved: &SavedConnection,
    creds: Result<&StoredCredentials, &EngineError>,
) -> (r: Result<ConnectionConfig, String>)
    ensures
        match saved_config(project_id@, saved, creds) {
            Ok(c) => r is Ok && r->Ok_0@ == c,
            Err(m) => r is Err && r->Err_0@ == m,
        },
{
    if !str_eq(saved.project_id.as_str(), project_id) {
        return Err(String::from_str("Connection project mismatch"));
    }
    let creds = match creds {
        Ok(c) => c,
        Err(e) => {
            return Err(e.message());
        },
    };
    match saved.to_connection_config(creds) {
        Ok(c) => Ok(c),
        Err(e) => Err(e.message()),
    }
}

/// Settings are made from a saved connection only where its secrets
/// were fetched, and then carry the stored database password. A
/// connection whose tunnel authenticates by password gives no settings
/// unless an SSH password is stored with it.
pub proof fn lemma_settings_need_secrets(
    project_id: Seq<char>,
    saved: &SavedConnection,
    creds: Result<&StoredCredentials, &EngineError>,
)
    ensures
        saved_config(project_id, saved, creds) matches Ok(c) ==> creds is Ok && c.password
            == creds->Ok_0.db_password@,
        creds is Err ==> saved_config(project_id, saved, creds) is Err,
        creds matches Ok(c) && saved.ssh_tunnel matches Some(ssh) && !ssh.uses_key()
            && c.ssh_password is None ==> saved_config(project_id, saved, creds) is Err,
        creds is Ok && saved.ssh_tunnel is None && saved.project_id@ == project_id ==> saved_config(
            project_id,
            saved,
            creds,
        ) is Ok,
{
}

/// Message with which opening a session from settings given directly is
/// refused in a release build.
pub open spec fn direct_connect_refused() -> Seq<char> {
    "Direct connect is disabled in release builds. Save the connection and use connect_saved_connection."@
}

/// The refusal of a session opened from settings given directly, or
/// `None` where the build allows it: only a debug build does.
pub fn direct_connect_guard(debug_build: bool) -> (r: Option<ConnectionResponse>)
    ensures
        debug_build ==> r is None,
        !debug_build ==> r is Some && !r->0.success && r->0.session_id is None && opt_view(
            r->0.error,
        ) == Some(direct_connect_refused()),
{
    if debug_build {
        None
    } else {
        Some(
            ConnectionResponse::failed(
                "Direct connect is disabled in release builds. Save the connection and use connect_saved_connection.",
            ),
        )
    }
}

/// Refuses access to the vault while it is locked.
pub fn require_unlocked(lock: &VaultLock) -> (r: Result<(), String>)
    ensures
        lock.unlocked() ==> r is Ok,
        !lock.unlocked() ==> r is Err && r->Err_0@ == "Vault is locked"@,
{
    if lock.is_locked() {
        Err(String::from_str("Vault is locked"))
    } else {
        Ok(())
    }
}

/// An environment in normal form is one of the three tags.
pub proof fn lemma_normal_environment_stable(env: Seq<char>)
    ensures
        normal_environment(env) matches Ok(n) ==> (n == "development"@ || n == "staging"@ || n
            == "production"@),
{
}

} // verus!
