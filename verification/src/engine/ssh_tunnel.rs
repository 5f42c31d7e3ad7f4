//! The SSH tunnel in front of a database: the command line of the
//! forwarder, and what is decided while it starts.
//!
//! The forwarder is the system's OpenSSH client, run without a terminal.
//! Starting it, probing its port and stopping it are the caller's part.

use crate::engine::error::{EngineError, ErrorKind};
use crate::engine::types::{
    SshAuth, SshAuthView, SshHostKeyPolicy, SshTunnelConfig, SshTunnelConfigView,
};
use crate::text::{
    concat2, concat3, decimal, decimal_string, push_str, push_string, strings_view, trim, trimmed,
};
use vstd::prelude::*;
use vstd::string::*;

verus! {

/// Milliseconds within which the forwarder must accept connections.
pub const STARTUP_TIMEOUT_MS: u64 = 5000;

/// Milliseconds between two probes of the forwarder's port.
pub const STARTUP_POLL_INTERVAL_MS: u64 = 50;

/// The value of `StrictHostKeyChecking` for a policy.
pub open spec fn strict_host_key_checking(policy: SshHostKeyPolicy) -> Seq<char> {
    match policy {
        SshHostKeyPolicy::AcceptNew => "accept-new"@,
        SshHostKeyPolicy::Strict => "yes"@,
        SshHostKeyPolicy::InsecureNoCheck => "no"@,
    }
}

/// The path of the null device.
pub open spec fn null_device(windows: bool) -> Seq<char> {
    if windows {
        "NUL"@
    } else {
        "/dev/null"@
    }
}

/// The path of the null device on the platform.
pub fn null_device_path(windows: bool) -> (p: &'static str)
    ensures
        p@ == null_device(windows),
{
    if windows {
        "NUL"
    } else {
        "/dev/null"
    }
}

/// The arguments that do not depend on how the client authenticates.
pub open spec fn base_args(
    c: SshTunnelConfigView,
    known_hosts_path: Seq<char>,
    windows: bool,
    local_port: u16,
    remote_host: Seq<char>,
    remote_port: u16,
) -> Seq<Seq<char>> {
    seq![
        "-N"@,
        "-o"@,
        "BatchMode=yes"@,
        "-o"@,
        "ExitOnForwardFailure=yes"@,
        "-o"@,
        "ConnectTimeout="@ + decimal(c.connect_timeout_secs as nat),
        "-o"@,
        "ServerAliveInterval="@ + decimal(c.keepalive_interval_secs as nat),
        "-o"@,
        "ServerAliveCountMax="@ + decimal(c.keepalive_count_max as nat),
        "-o"@,
        "StrictHostKeyChecking="@ + strict_host_key_checking(c.host_key_policy),
        "-o"@,
        "UserKnownHostsFile="@ + known_hosts_path,
        "-o"@,
        "GlobalKnownHostsFile="@ + null_device(windows),
        "-o"@,
        "IdentitiesOnly=yes"@,
        "-o"@,
        "PreferredAuthentications=publickey"@,
        "-L"@,
        "127.0.0.1:"@ + decimal(local_port as nat) + ":"@ + remote_host + ":"@ + decimal(
            remote_port as nat,
        ),
        "-p"@,
        decimal(c.port as nat),
    ]
}

/// The arguments for the jump host: none where it is absent or blank.
pub open spec fn jump_args(proxy_jump: Option<Seq<char>>) -> Seq<Seq<char>> {
    match proxy_jump {
        Some(j) => if trimmed(j).len() == 0 {
            Seq::empty()
        } else {
            seq!["-J"@, j]
        },
        None => Seq::empty(),
    }
}

/// Message with which password authentication is refused.
pub open spec fn password_refused() -> Seq<char> {
    "Password authentication is not supported by the native OpenSSH tunnel backend. Use SSH keys (preferably via ssh-agent)."@
}

/// Message with which a key passphrase is refused.
pub open spec fn passphrase_refused() -> Seq<char> {
    "Key passphrase was provided but is not supported by the native OpenSSH tunnel backend. Load the key into ssh-agent (recommended) or use an unencrypted key."@
}

/// The arguments of the forwarder, or the message with which the settings
/// are refused.
///
/// Password authentication is refused, and so is a key with a passphrase
/// that is not empty: keys are used as they are or through the agent.
pub open spec fn ssh_args(
    c: SshTunnelConfigView,
    known_hosts_path: Seq<char>,
    windows: bool,
    local_port: u16,
    remote_host: Seq<char>,
    remote_port: u16,
) -> Result<Seq<Seq<char>>, Seq<char>> {
    match c.auth {
        SshAuthView::Password { .. } => Err(password_refused()),
        SshAuthView::Key { private_key_path, passphrase } => {
            if passphrase is Some && passphrase->0.len() > 0 {
                Err(passphrase_refused())
            } else {
                Ok(
                    base_args(c, known_hosts_path, windows, local_port, remote_host, remote_port)
                        + jump_args(c.proxy_jump) + seq![
                        "-i"@,
                        private_key_path,
                        c.username + "@"@ + c.host,
                    ],
                )
            }
        },
    }
}

/// The command line of the forwarder: the program and its arguments.
#[derive(Debug)]
pub struct SshCommand {
    pub program: String,
    pub args: Vec<String>,
}

fn option_with_number(name: &str, n: u64) -> (s: String)
    ensures
        s@ == name@ + decimal(n as nat),
{
    let d = decimal_string(n);
    concat2(name, d.as_str())
}

fn forward_spec(local_port: u16, remote_host: &str, remote_port: u16) -> (s: String)
    ensures
        s@ == "127.0.0.1:"@ + decimal(local_port as nat) + ":"@ + remote_host@ + ":"@ + decimal(
            remote_port as nat,
        ),
{
    let mut s = option_with_number("127.0.0.1:", local_port as u64);
    s.append(":");
    s.append(remote_host);
    s.append(":");
    let d = decimal_string(remote_port as u64);
    s.append(d.as_str());
    s
}

/// Builds the command line of the forwarder that listens on `local_port`
/// of the loopback interface and forwards to `remote_host:remote_port`
/// through the SSH server of `config`.
pub fn build_ssh_command(
    config: &SshTunnelConfig,
    known_hosts_path: &str,
    windows: bool,
    local_port: u16,
    remote_host: &str,
    remote_port: u16,
) -> (r: Result<SshCommand, EngineError>)
    ensures
        match ssh_args(
            config@,
            known_hosts_path@,
            windows,
            local_port,
            remote_host@,
            remote_port,
        ) {
            Ok(args) => r is Ok && r->Ok_0.program@ == "ssh"@ && strings_view(r->Ok_0.args@)
                == args,
            Err(m) => r is Err && r->Err_0.is(ErrorKind::SshError, m),
        },
{
    let strict = match config.host_key_policy {
        SshHostKeyPolicy::AcceptNew => "accept-new",
        SshHostKeyPolicy::Strict => "yes",
        SshHostKeyPolicy::InsecureNoCheck => "no",
    };
    let mut args: Vec<String> = Vec::new();
    push_str(&mut args, "-N");
    push_str(&mut args, "-o");
    push_str(&mut args, "BatchMode=yes");
    push_str(&mut args, "-o");
    push_str(&mut args, "ExitOnForwardFailure=yes");
    push_str(&mut args, "-o");
    push_string(&mut args, option_with_number("ConnectTimeout=", config.connect_timeout_secs as u64));
    push_str(&mut args, "-o");
    push_string(
        &mut args,
        option_with_number("ServerAliveInterval=", config.keepalive_interval_secs as u64),
    );
    push_str(&mut args, "-o");
    push_string(
        &mut args,
        option_with_number("ServerAliveCountMax=", config.keepalive_count_max as u64),
    );
    push_str(&mut args, "-o");
    push_string(&mut args, concat2("StrictHostKeyChecking=", strict));
    push_str(&mut args, "-o");
    push_string(&mut args, concat2("UserKnownHostsFile=", known_hosts_path));
    push_str(&mut args, "-o");
    push_string(&mut args, concat2("GlobalKnownHostsFile=", null_device_path(windows)));
    push_str(&mut args, "-o");
    push_str(&mut args, "IdentitiesOnly=yes");
    push_str(&mut args, "-o");
    push_str(&mut args, "PreferredAuthentications=publickey");
    push_str(&mut args, "-L");
    push_string(&mut args, forward_spec(local_port, remote_host, remote_port));
    push_str(&mut args, "-p");
    push_string(&mut args, decimal_string(config.port as u64));
    let ghost base = strings_view(args@);
    match &config.proxy_jump {
        Some(jump) => {
            let t = trim(jump.as_str());
            if t.as_str().unicode_len() != 0 {
                push_str(&mut args, "-J");
                push_str(&mut args, jump.as_str());
            }
        },
        None => {},
    }
    match &config.auth {
        SshAuth::Password { .. } => Err(
            EngineError::ssh_error(
                "Password authentication is not supported by the native OpenSSH tunnel backend. Use SSH keys (preferably via ssh-agent).",
            ),
        ),
        SshAuth::Key { private_key_path, passphrase } => {
            let has_passphrase = match passphrase {
                Some(p) => p.as_str().unicode_len() != 0,
                None => false,
            };
            if has_passphrase {
                return Err(
                    EngineError::ssh_error(
                        "Key passphrase was provided but is not supported by the native OpenSSH tunnel backend. Load the key into ssh-agent (recommended) or use an unencrypted key.",
                    ),
                );
            }
            push_str(&mut args, "-i");
            push_str(&mut args, private_key_path.as_str());
            push_string(&mut args, concat3(config.username.as_str(), "@", config.host.as_str()));
            Ok(SshCommand { program: String::from_str("ssh"), args })
        },
    }
}

/// What was observed while waiting for the forwarder.
#[derive(Debug)]
pub enum StartupEvent {
    /// The state of the process could not be read; holds the message.
    StatusUnknown(String),
    /// The process has ended; holds its exit status as written and what
    /// it wrote to standard error.
    Exited { status: String, stderr: String },
    /// The port accepted a connection.
    PortOpen,
    /// The port refused a connection, so long after the start.
    PortClosed { elapsed_ms: u64 },
}

/// What to do on an observation.
#[derive(Debug)]
pub enum StartupAction {
    /// The tunnel is ready.
    Ready,
    /// Probe again after so many milliseconds.
    Wait { millis: u64 },
    /// Give up, stop the process and report the failure.
    Fail(EngineError),
}

/// The message for a forwarder that ended early.
pub open spec fn exited_message(status: Seq<char>, stderr: Seq<char>) -> Seq<char> {
    "SSH tunnel process exited (status: "@ + status + "). "@ + (if trimmed(stderr).len() == 0 {
        "No stderr output was captured."@
    } else {
        "stderr: "@ + trimmed(stderr)
    })
}

/// The message for a forwarder that did not become ready in time.
pub open spec fn not_ready_message() -> Seq<char> {
    "SSH tunnel did not become ready within "@ + decimal(STARTUP_TIMEOUT_MS as nat)
        + "ms. Ensure host key is trusted and OpenSSH supports StrictHostKeyChecking=accept-new."@
}

/// What to do on an observation: `None` for ready, `Some(Ok(ms))` for
/// another probe after `ms` milliseconds, `Some(Err(message))` for giving
/// up.
pub open spec fn startup_decision(event: StartupEvent) -> Option<Result<u64, Seq<char>>> {
    match event {
        StartupEvent::StatusUnknown(m) => Some(Err("Failed to check SSH process status: "@ + m@)),
        StartupEvent::Exited { status, stderr } => Some(Err(exited_message(status@, stderr@))),
        StartupEvent::PortOpen => None,
        StartupEvent::PortClosed { elapsed_ms } => if elapsed_ms >= STARTUP_TIMEOUT_MS {
            Some(Err(not_ready_message()))
        } else {
            Some(Ok(STARTUP_POLL_INTERVAL_MS))
        },
    }
}

/// Decides what to do on an observation made while the forwarder starts.
///
/// A forwarder that ended is a failure that carries what it wrote to
/// standard error. A closed port is probed again until the time allowed
/// for the start has passed.
pub fn startup_step(event: &StartupEvent) -> (action: StartupAction)
    ensures
        match startup_decision(*event) {
            None => action is Ready,
            Some(Ok(ms)) => action == (StartupAction::Wait { millis: ms }),
            Some(Err(m)) => action is Fail && action->Fail_0.is(ErrorKind::SshError, m),
        },
{
    match event {
        StartupEvent::StatusUnknown(m) => {
            let text = concat2("Failed to check SSH process status: ", m.as_str());
            StartupAction::Fail(EngineError::ssh_error(text.as_str()))
        },
        StartupEvent::Exited { status, stderr } => {
            let err = trim(stderr.as_str());
            let mut text = concat3("SSH tunnel process exited (status: ", status.as_str(), "). ");
            if err.as_str().unicode_len() == 0 {
                text.append("No stderr output was captured.");
            } else {
                let tail = concat2("stderr: ", err.as_str());
                text.append(tail.as_str());
            }
            StartupAction::Fail(EngineError::ssh_error(text.as_str()))
        },
        StartupEvent::PortOpen => StartupAction::Ready,
        StartupEvent::PortClosed { elapsed_ms } => {
            if *elapsed_ms >= STARTUP_TIMEOUT_MS {
                let n = decimal_string(STARTUP_TIMEOUT_MS);
                let text = concat3(
                    "SSH tunnel did not become ready within ",
                    n.as_str(),
                    "ms. Ensure host key is trusted and OpenSSH supports StrictHostKeyChecking=accept-new.",
                );
                StartupAction::Fail(EngineError::ssh_error(text.as_str()))
            } else {
                StartupAction::Wait { millis: STARTUP_POLL_INTERVAL_MS }
            }
        },
    }
}

/// An open tunnel, as far as the engine needs to know it: the local port
/// on which the forwarder listens.
#[derive(Debug)]
pub struct SshTunnel {
    local_port: u16,
}

impl SshTunnel {
    /// The port on which the forwarder listens.
    pub closed spec fn port(&self) -> u16 {
        self.local_port
    }

    /// The tunnel whose forwarder listens on `local_port`.
    pub fn new(local_port: u16) -> (t: Self)
        ensures
            t.port() == local_port,
    {
        SshTunnel { local_port }
    }

    /// The port to connect to.
    pub fn local_port(&self) -> (p: u16)
        ensures
            p == self.port(),
    {
        self.local_port
    }

    /// The address to connect to.
    pub fn local_addr(&self) -> (a: String)
        ensures
            a@ == "127.0.0.1:"@ + decimal(self.port() as nat),
    {
        option_with_number("127.0.0.1:", self.local_port as u64)
    }
}

} // verus!
