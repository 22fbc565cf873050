//! What the shell does at startup, and the command that launches the bundled
//! server.

use vstd::prelude::*;
use vstd::string::*;
use crate::decimal::{decimal_string, decimal_text};
use crate::search_path::{build_search_path, full_search_path};

verus! {

/// The port on which the server is told to listen, and which is probed
/// until the server answers.
pub const SERVER_PORT: u16 = 3333;

/// How many times the port is probed before the shell goes on without an
/// answer.
pub const READINESS_RETRIES: u32 = 30;

/// The pause between two probes, in milliseconds.
pub const READINESS_INTERVAL_MS: u64 = 200;

/// What the shell does at startup.
#[derive(Clone, Copy, Debug, PartialEq, Eq, Structural)]
pub enum StartupAction {
    /// A development build: the server is run by the development tooling, and
    /// the shell only installs its logger.
    InstallLogger,
    /// A production build with the server's entry file in place: the shell
    /// launches the server.
    LaunchServer,
    /// A production build without the entry file: the shell goes on without
    /// a server.
    Proceed,
}

/// The startup action for a build mode and for the presence of the server's
/// entry file; the file is of no concern to a development build.
pub open spec fn planned_startup(debug_build: bool, entry_present: bool) -> StartupAction {
    if debug_build {
        StartupAction::InstallLogger
    } else if entry_present {
        StartupAction::LaunchServer
    } else {
        StartupAction::Proceed
    }
}

/// Decides what the shell does at startup. The server is never launched
/// when its entry file is missing.
pub fn startup_action(debug_build: bool, entry_present: bool) -> (action: StartupAction)
    ensures
        action == planned_startup(debug_build, entry_present),
        !entry_present ==> action != StartupAction::LaunchServer,
{
    if debug_build {
        StartupAction::InstallLogger
    } else if entry_present {
        StartupAction::LaunchServer
    } else {
        StartupAction::Proceed
    }
}

/// Name of the directory, below the shell's resource directory, that holds
/// the server and in which the server runs.
pub fn server_dir_name() -> (name: &'static str)
    ensures
        name@ == "server"@,
{
    "server"
}

/// Name of the server's entry file inside its directory.
pub fn server_entry_name() -> (name: &'static str)
    ensures
        name@ == "server.js"@,
{
    "server.js"
}

/// The loopback address on which the server is probed.
pub fn probe_host() -> (host: &'static str)
    ensures
        host@ == "127.0.0.1"@,
{
    "127.0.0.1"
}

/// The text of a socket address: the host, a colon, and the port in decimal.
pub open spec fn socket_address_text(host: Seq<char>, port: u16) -> Seq<char> {
    host.push(':') + decimal_text(port as nat)
}

/// Writes the socket address of `host` and `port`.
pub fn socket_address(host: &str, port: u16) -> (address: String)
    ensures
        address@ == socket_address_text(host@, port),
{
    let mut address = String::from_str(host);
    proof {
        reveal_strlit(":");
        assert(":"@ == seq![':']);
    }
    address.append(":");
    let port_text = decimal_string(port as u64);
    address.append(port_text.as_str());
    address
}

/// The environment variables set for the server, as pairs of name and
/// value: the port to listen on, the host name to bind, and the search path.
pub open spec fn server_environment(system_path: Seq<char>) -> Seq<(Seq<char>, Seq<char>)> {
    seq![
        ("PORT"@, decimal_text(SERVER_PORT as nat)),
        ("HOSTNAME"@, "localhost"@),
        ("PATH"@, full_search_path(system_path)),
    ]
}

/// The pairs of name and value that a list of variables holds.
pub open spec fn environment_view(env: Seq<(String, String)>) -> Seq<(Seq<char>, Seq<char>)> {
    Seq::new(env.len(), |i: int| (env[i].0@, env[i].1@))
}

/// Builds the environment variables for the server from the inherited
/// search path.
pub fn build_environment(system_path: &str) -> (env: Vec<(String, String)>)
    ensures
        environment_view(env@) == server_environment(system_path@),
{
    let mut env: Vec<(String, String)> = Vec::new();
    env.push((String::from_str("PORT"), decimal_string(SERVER_PORT as u64)));
    env.push((String::from_str("HOSTNAME"), String::from_str("localhost")));
    env.push((String::from_str("PATH"), build_search_path(system_path)));
    env
}

/// The port is announced to the server as the text `3333`.
pub proof fn lemma_port_text()
    ensures
        decimal_text(SERVER_PORT as nat) == "3333"@,
{
    reveal_strlit("3333");
    reveal_with_fuel(decimal_text, 4);
}

/// The command that launches the server. `P` is the caller's type for
/// paths of the file system, which the command only carries.
pub struct ServerCommand<P> {
    /// The interpreter to run.
    pub program: String,
    /// The server's entry file, the interpreter's only argument.
    pub script: P,
    /// The environment variables to set, in this order.
    pub env: Vec<(String, String)>,
    /// The directory in which the server runs.
    pub working_dir: P,
}

/// Puts the launch command together: `node` runs `script` in `working_dir`,
/// with the server's environment built from the inherited search path.
pub fn server_command<P>(node: String, script: P, working_dir: P, system_path: &str) -> (command:
    ServerCommand<P>)
    ensures
        command.program == node,
        command.script == script,
        command.working_dir == working_dir,
        environment_view(command.env@) == server_environment(system_path@),
{
    ServerCommand { program: node, script, env: build_environment(system_path), working_dir }
}

} // verus!
