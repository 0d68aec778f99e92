//! The PID registry.
//!
//! One daemon instance per logical session, tracked through a PID file that
//! holds the daemon's process id as plain decimal text. The registry checks
//! OS liveness of the recorded process, self-heals stale files left behind by
//! crashes, and removes the PID file and socket files when a daemon is killed
//! to make way for a fresh one.
//!
//! The OS-visible state of one session — the PID file and the three
//! rendezvous socket files — is modelled by [`SessionFiles`]; the surrounding
//! process performs the file reads, writes and liveness probes and hands
//! their outcomes in as plain values.

use crate::decimal::{
    all_digits, dec_digits, dec_value, decimal_bytes, is_dec_digit, lemma_dec_digits_are_digits,
    lemma_dec_value_of_digits, parse_u64_digits,
};
use vstd::prelude::*;

verus! {

/// The digit run of a PID record: decimal text with at most one leading `+`.
pub open spec fn digits_part(s: Seq<u8>) -> Seq<u8> {
    if s.len() > 0 && s[0] == 43 {
        s.skip(1)
    } else {
        s
    }
}

/// A byte sequence that denotes a process id: an optional leading `+`, then
/// one or more decimal digits whose value fits in a `u32`.
pub open spec fn is_pid_record(s: Seq<u8>) -> bool {
    let d = digits_part(s);
    d.len() > 0 && all_digits(d) && dec_value(d) <= u32::MAX
}

/// The process id a PID record denotes.
pub open spec fn pid_record_value(s: Seq<u8>) -> nat {
    dec_value(digits_part(s))
}

/// Parses the contents of a PID file: the recorded process id when the bytes
/// are a decimal `u32` (with at most one leading `+`), nothing otherwise.
pub fn parse_pid(contents: &Vec<u8>) -> (r: Option<u32>)
    ensures
        r is Some <==> is_pid_record(contents@),
        r is Some ==> r->0 == pid_record_value(contents@),
{
    let ghost d = digits_part(contents@);
    let from: usize = if contents.len() > 0 && contents[0] == 43u8 {
        1
    } else {
        0
    };
    proof {
        assert(d =~= contents@.subrange(from as int, contents@.len() as int));
    }
    match parse_u64_digits(contents, from, contents.len()) {
        Some(v) => {
            if v <= 0xffff_ffffu64 {
                Some(v as u32)
            } else {
                None
            }
        },
        None => None,
    }
}

/// The decimal bytes written to a PID file for process id `pid`.
pub fn pid_record_bytes(pid: u32) -> (r: Vec<u8>)
    ensures
        r@ == dec_digits(pid as nat),
        is_pid_record(r@),
        pid_record_value(r@) == pid,
{
    let out = decimal_bytes(pid as u64);
    proof {
        lemma_dec_digits_are_digits(pid as nat);
        lemma_dec_value_of_digits(pid as nat);
        assert(is_dec_digit(dec_digits(pid as nat)[0]));
        assert(digits_part(out@) =~= out@);
    }
    out
}

/// The OS-visible state of one session: whether the PID file exists and what
/// process id it records, and whether each of the three rendezvous socket
/// files exists.
#[derive(Clone, Copy, Debug, PartialEq, Eq, Structural)]
pub struct SessionFiles {
    pub pid_file: Option<u32>,
    pub stdin_socket: bool,
    pub stdout_socket: bool,
    pub stderr_socket: bool,
}

impl SessionFiles {
    /// A session directory with no files at all.
    pub fn empty() -> (r: SessionFiles)
        ensures
            r == (SessionFiles {
                pid_file: None,
                stdin_socket: false,
                stdout_socket: false,
                stderr_socket: false,
            }),
    {
        SessionFiles { pid_file: None, stdin_socket: false, stdout_socket: false, stderr_socket: false }
    }
}

/// What checking the PID registry does to the session files, and what it
/// reports, given whether the OS liveness probe of the recorded process
/// succeeds: an absent record reports nothing; a live record is reported and
/// left alone; a dead record is stale, so the PID file is removed and nothing
/// is reported.
pub open spec fn spec_check_pid(files: SessionFiles, alive: bool) -> (SessionFiles, Option<u32>) {
    match files.pid_file {
        None => (files, None),
        Some(pid) => if alive {
            (files, Some(pid))
        } else {
            ((SessionFiles { pid_file: None, ..files }), None)
        },
    }
}

/// Checks for a live daemon: reads the PID record, probes the named process
/// (`alive` is the probe's outcome), removes the file when the process is
/// gone. Stale files are healed here, never surfaced to the caller.
pub fn check_pid_file(files: &mut SessionFiles, alive: bool) -> (r: Option<u32>)
    ensures
        *final(files) == spec_check_pid(*old(files), alive).0,
        r == spec_check_pid(*old(files), alive).1,
        r is Some <==> old(files).pid_file is Some && alive,
        final(files).pid_file is None <==> (old(files).pid_file is None || !alive),
{
    match files.pid_file {
        None => None,
        Some(pid) => {
            if alive {
                Some(pid)
            } else {
                files.pid_file = None;
                None
            }
        },
    }
}

/// Records `pid` as the session's daemon, replacing any previous record.
pub fn write_pid_file(files: &mut SessionFiles, pid: u32)
    ensures
        *final(files) == (SessionFiles { pid_file: Some(pid), ..*old(files) }),
{
    files.pid_file = Some(pid);
}

/// What killing a running daemon and cleaning its files leaves behind: the
/// PID file and all three socket files are removed, whether or not each was
/// present ("already absent" is not an error).
pub open spec fn spec_kill_cleanup(files: SessionFiles) -> SessionFiles {
    SessionFiles { pid_file: None, stdin_socket: false, stdout_socket: false, stderr_socket: false }
}

/// Cleans up after the termination signal has been sent to the old daemon:
/// unconditionally removes the PID file and the three socket files.
pub fn kill_cleanup(files: &mut SessionFiles)
    ensures
        *final(files) == spec_kill_cleanup(*old(files)),
{
    files.pid_file = None;
    files.stdin_socket = false;
    files.stdout_socket = false;
    files.stderr_socket = false;
}

/// Removes any leftover socket files before a fresh daemon is spawned,
/// leaving the PID file alone.
pub fn clear_sockets(files: &mut SessionFiles)
    ensures
        *final(files) == (SessionFiles {
            stdin_socket: false,
            stdout_socket: false,
            stderr_socket: false,
            ..*old(files)
        }),
{
    files.stdin_socket = false;
    files.stdout_socket = false;
    files.stderr_socket = false;
}

/// A daemon binds its three rendezvous listeners at startup; binding fails —
/// fatally for this startup attempt — when a socket path is already in use.
pub fn bind_listeners(files: &mut SessionFiles) -> (r: bool)
    ensures
        r <==> !(old(files).stdin_socket || old(files).stdout_socket || old(files).stderr_socket),
        r ==> *final(files) == (SessionFiles {
            stdin_socket: true,
            stdout_socket: true,
            stderr_socket: true,
            ..*old(files)
        }),
        !r ==> *final(files) == *old(files),
{
    if files.stdin_socket || files.stdout_socket || files.stderr_socket {
        false
    } else {
        files.stdin_socket = true;
        files.stdout_socket = true;
        files.stderr_socket = true;
        true
    }
}

/// All three rendezvous socket paths exist: the sole readiness signal the
/// proxy polls for after spawning a daemon.
pub fn sockets_ready(files: &SessionFiles) -> (r: bool)
    ensures
        r == (files.stdin_socket && files.stdout_socket && files.stderr_socket),
{
    files.stdin_socket && files.stdout_socket && files.stderr_socket
}

/// Stale PID healing: a check on a session whose PID file names a process
/// that no longer exists reports no daemon and removes the PID file, leaving
/// the socket files untouched.
pub proof fn stale_pid_healing(files: SessionFiles, pid: u32)
    requires
        files.pid_file == Some(pid),
    ensures
        spec_check_pid(files, false).1 is None,
        spec_check_pid(files, false).0.pid_file is None,
        spec_check_pid(files, false).0.stdin_socket == files.stdin_socket,
        spec_check_pid(files, false).0.stdout_socket == files.stdout_socket,
        spec_check_pid(files, false).0.stderr_socket == files.stderr_socket,
{
}

} // verus!
