use remote_server::registry::{
    bind_listeners, check_pid_file, clear_sockets, kill_cleanup, parse_pid, pid_record_bytes,
    sockets_ready, write_pid_file, SessionFiles,
};

#[test]
fn pid_record_renders_decimal() {
    assert_eq!(pid_record_bytes(0), b"0".to_vec());
    assert_eq!(pid_record_bytes(1234), b"1234".to_vec());
    assert_eq!(pid_record_bytes(u32::MAX), b"4294967295".to_vec());
}

#[test]
fn pid_parse_accepts_what_the_registry_writes() {
    assert_eq!(parse_pid(&pid_record_bytes(0)), Some(0));
    assert_eq!(parse_pid(&pid_record_bytes(987654)), Some(987654));
    assert_eq!(parse_pid(&pid_record_bytes(u32::MAX)), Some(u32::MAX));
}

#[test]
fn pid_parse_accepts_a_leading_plus() {
    assert_eq!(parse_pid(&b"+42".to_vec()), Some(42));
}

#[test]
fn pid_parse_rejects_garbage() {
    assert_eq!(parse_pid(&b"".to_vec()), None);
    assert_eq!(parse_pid(&b"+".to_vec()), None);
    assert_eq!(parse_pid(&b"12a4".to_vec()), None);
    assert_eq!(parse_pid(&b"-5".to_vec()), None);
    assert_eq!(parse_pid(&b" 12".to_vec()), None);
    // One past u32::MAX overflows.
    assert_eq!(parse_pid(&b"4294967296".to_vec()), None);
}

#[test]
fn stale_pid_file_is_removed_and_nothing_reported() {
    let mut files = SessionFiles::empty();
    write_pid_file(&mut files, 4242);
    // The liveness probe fails: the recorded process no longer exists.
    let reported = check_pid_file(&mut files, false);
    assert_eq!(reported, None);
    assert_eq!(files.pid_file, None);
}

#[test]
fn live_pid_is_reported_and_kept() {
    let mut files = SessionFiles::empty();
    write_pid_file(&mut files, 77);
    let reported = check_pid_file(&mut files, true);
    assert_eq!(reported, Some(77));
    assert_eq!(files.pid_file, Some(77));
}

#[test]
fn absent_pid_file_reports_nothing() {
    let mut files = SessionFiles::empty();
    assert_eq!(check_pid_file(&mut files, true), None);
    assert_eq!(check_pid_file(&mut files, false), None);
    assert_eq!(files, SessionFiles::empty());
}

#[test]
fn kill_cleanup_removes_every_session_file() {
    let mut files = SessionFiles {
        pid_file: Some(9),
        stdin_socket: true,
        stdout_socket: true,
        stderr_socket: true,
    };
    kill_cleanup(&mut files);
    assert_eq!(files, SessionFiles::empty());
}

#[test]
fn binding_claims_all_three_sockets_or_fails() {
    let mut files = SessionFiles::empty();
    assert!(bind_listeners(&mut files));
    assert!(sockets_ready(&files));
    // A second daemon racing onto the same paths must fail its startup.
    let mut occupied = files;
    assert!(!bind_listeners(&mut occupied));
    assert_eq!(occupied, files);
}

#[test]
fn clearing_sockets_keeps_the_pid_record() {
    let mut files = SessionFiles {
        pid_file: Some(5),
        stdin_socket: true,
        stdout_socket: false,
        stderr_socket: true,
    };
    clear_sockets(&mut files);
    assert_eq!(files.pid_file, Some(5));
    assert!(!sockets_ready(&files));
    assert!(!files.stdin_socket && !files.stdout_socket && !files.stderr_socket);
}
