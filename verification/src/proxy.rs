//! The proxy process's launch/attach decisions.
//!
//! Once per client attach, the proxy consults the PID registry, then either
//! fails (an explicit reconnection to a session with no live daemon must not
//! silently start a new one), replaces a live daemon (kill, clean, spawn
//! fresh — exactly one owner, known-clean state), or spawns a daemon where
//! none lives. The surrounding process performs the kill, the spawn and the
//! readiness poll; this module decides them and says what each one must do
//! to the session's files.

use crate::registry::{spec_check_pid, spec_kill_cleanup, SessionFiles};
use vstd::prelude::*;

verus! {

/// A condition that leaves the attach attempt permanently unrecoverable and
/// crosses the proxy's boundary as a hard error.
#[derive(Clone, Copy, Debug, PartialEq, Eq, Structural)]
pub enum ProxyError {
    /// Reconnection was requested but no daemon is running; the caller must
    /// decide whether to fall back to a fresh session.
    ServerNotRunning,
    /// A freshly spawned daemon never presented its three socket paths
    /// within the readiness poll's bound.
    LaunchTimeout,
}

/// What the proxy must do to attach: kill a stale owner first, spawn a fresh
/// daemon, or neither (attach to the daemon already running).
#[derive(Clone, Copy, Debug, PartialEq, Eq)]
pub struct AttachPlan {
    /// The live daemon to kill and clean up before spawning, if any.
    pub kill_first: Option<u32>,
    /// Whether a fresh daemon must be spawned before connecting.
    pub spawn_fresh: bool,
}

/// The attach decision, from what the PID registry reported and whether the
/// caller is reconnecting. Reconnecting to nothing is the one hard error
/// here; a fresh attach kills any live owner and spawns anew; otherwise a
/// daemon is spawned exactly when none is running.
pub open spec fn spec_plan_attach(live: Option<u32>, is_reconnecting: bool) -> Result<
    AttachPlan,
    ProxyError,
> {
    if is_reconnecting {
        if live is None {
            Err(ProxyError::ServerNotRunning)
        } else {
            Ok(AttachPlan { kill_first: None, spawn_fresh: false })
        }
    } else {
        Ok(AttachPlan { kill_first: live, spawn_fresh: true })
    }
}

/// Decides one attach attempt. Reconnection guard: with `is_reconnecting`
/// and no live daemon this fails with the distinct "server not running"
/// error and plans no spawn and no kill.
pub fn plan_attach(live: Option<u32>, is_reconnecting: bool) -> (r: Result<AttachPlan, ProxyError>)
    ensures
        r == spec_plan_attach(live, is_reconnecting),
        r is Err <==> is_reconnecting && live is None,
        r is Err ==> r->Err_0 == ProxyError::ServerNotRunning,
        is_reconnecting && live is Some ==> r == Ok::<AttachPlan, ProxyError>(
            (AttachPlan { kill_first: None, spawn_fresh: false }),
        ),
        !is_reconnecting ==> r == Ok::<AttachPlan, ProxyError>(
            (AttachPlan { kill_first: live, spawn_fresh: true }),
        ),
{
    if is_reconnecting {
        match live {
            None => Err(ProxyError::ServerNotRunning),
            Some(_) => Ok(AttachPlan { kill_first: None, spawn_fresh: false }),
        }
    } else {
        Ok(AttachPlan { kill_first: live, spawn_fresh: true })
    }
}

/// The readiness poll's verdict after one probe: the daemon has finished
/// binding, or the poll should sleep and probe again.
#[derive(Clone, Copy, Debug, PartialEq, Eq, Structural)]
pub enum PollStep {
    /// All three socket paths exist: connect now.
    Ready,
    /// Not ready yet: sleep one interval and probe again.
    KeepWaiting,
}

/// One step of the readiness poll that follows a spawn: the daemon has
/// finished binding exactly when all three socket paths exist; a daemon that
/// never presents them within the bound fails the launch with a timeout.
pub fn poll_readiness(sockets_present: bool, elapsed_millis: u64, timeout_millis: u64) -> (r:
    Result<PollStep, ProxyError>)
    ensures
        r == Ok::<PollStep, ProxyError>(PollStep::Ready) <==> sockets_present,
        r is Err <==> !sockets_present && elapsed_millis >= timeout_millis,
        r is Err ==> r->Err_0 == ProxyError::LaunchTimeout,
        r == Ok::<PollStep, ProxyError>(PollStep::KeepWaiting) <==> !sockets_present
            && elapsed_millis < timeout_millis,
{
    if sockets_present {
        Ok(PollStep::Ready)
    } else if elapsed_millis >= timeout_millis {
        Err(ProxyError::LaunchTimeout)
    } else {
        Ok(PollStep::KeepWaiting)
    }
}

/// Single-owner replace: a fresh (non-reconnecting) attach to a session with
/// a live daemon plans to kill exactly that daemon and spawn exactly one new
/// one; after the kill's cleanup and the new daemon's PID record, a check
/// that probes the new daemon reports the new process id — never the old
/// one.
pub proof fn single_owner_replace(files: SessionFiles, old_pid: u32, new_pid: u32)
    requires
        files.pid_file == Some(old_pid),
    ensures
        spec_plan_attach(Some(old_pid), false) == Ok::<AttachPlan, ProxyError>(
            (AttachPlan { kill_first: Some(old_pid), spawn_fresh: true }),
        ),
        ({
            let cleaned = spec_kill_cleanup(files);
            let started = SessionFiles { pid_file: Some(new_pid), ..cleaned };
            &&& cleaned.pid_file is None
            &&& spec_check_pid(started, true).1 == Some(new_pid)
            &&& new_pid != old_pid ==> spec_check_pid(started, true).1 != Some(old_pid)
        }),
{
}

} // verus!
