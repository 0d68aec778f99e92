//! Session paths.
//!
//! Every on-disk name a session uses — the PID file, the three rendezvous
//! socket paths and the log file — is derived deterministically from the
//! session identifier, so that a daemon and any later proxy agree on the
//! rendezvous point without ever talking to each other first.

use vstd::prelude::*;
use vstd::string::StringExecFns;

verus! {

/// The directory holding one session's PID file and sockets:
/// `{state_dir}/{identifier}`.
pub open spec fn spec_session_dir(state_dir: Seq<char>, identifier: Seq<char>) -> Seq<char> {
    state_dir + "/"@ + identifier
}

/// The file names of one session, all derived from the session identifier:
/// the PID file and the three rendezvous sockets under the session's state
/// directory, and the log file under the logs directory.
pub struct ServerPaths {
    pub pid_file: String,
    pub stdin_socket: String,
    pub stdout_socket: String,
    pub stderr_socket: String,
    pub log_file: String,
}

impl ServerPaths {
    /// Derives the session's paths. The identifier is chosen once by the
    /// invoking transport and stable for the session's lifetime, so every
    /// invocation for one session lands on the same five names.
    pub fn new(state_dir: &str, logs_dir: &str, identifier: &str) -> (r: ServerPaths)
        ensures
            r.pid_file@ == spec_session_dir(state_dir@, identifier@) + "/server.pid"@,
            r.stdin_socket@ == spec_session_dir(state_dir@, identifier@) + "/stdin.sock"@,
            r.stdout_socket@ == spec_session_dir(state_dir@, identifier@) + "/stdout.sock"@,
            r.stderr_socket@ == spec_session_dir(state_dir@, identifier@) + "/stderr.sock"@,
            r.log_file@ == logs_dir@ + "/server-"@ + identifier@ + ".log"@,
    {
        let dir = String::from_str(state_dir).concat("/").concat(identifier);
        let pid_file = dir.clone().concat("/server.pid");
        let stdin_socket = dir.clone().concat("/stdin.sock");
        let stdout_socket = dir.clone().concat("/stdout.sock");
        let stderr_socket = dir.concat("/stderr.sock");
        let log_file = String::from_str(logs_dir).concat("/server-").concat(identifier).concat(
            ".log",
        );
        ServerPaths { pid_file, stdin_socket, stdout_socket, stderr_socket, log_file }
    }
}

} // verus!
