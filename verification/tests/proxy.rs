use remote_server::proxy::{plan_attach, poll_readiness, AttachPlan, PollStep, ProxyError};
use remote_server::registry::{check_pid_file, kill_cleanup, write_pid_file, SessionFiles};

#[test]
fn reconnecting_to_nothing_is_the_server_not_running_error() {
    let plan = plan_attach(None, true);
    assert_eq!(plan, Err(ProxyError::ServerNotRunning));
}

#[test]
fn reconnecting_to_a_live_core_neither_kills_nor_spawns() {
    let plan = plan_attach(Some(31), true).unwrap();
    assert_eq!(
        plan,
        AttachPlan {
            kill_first: None,
            spawn_fresh: false
        }
    );
}

#[test]
fn fresh_attach_with_a_live_core_kills_it_and_spawns_exactly_one() {
    let plan = plan_attach(Some(1000), false).unwrap();
    assert_eq!(
        plan,
        AttachPlan {
            kill_first: Some(1000),
            spawn_fresh: true
        }
    );
}

#[test]
fn fresh_attach_with_no_core_just_spawns() {
    let plan = plan_attach(None, false).unwrap();
    assert_eq!(
        plan,
        AttachPlan {
            kill_first: None,
            spawn_fresh: true
        }
    );
}

#[test]
fn replacing_a_live_core_leaves_the_new_pid_on_record() {
    // A live daemon with PID 1000 owns the session.
    let mut files = SessionFiles {
        pid_file: Some(1000),
        stdin_socket: true,
        stdout_socket: true,
        stderr_socket: true,
    };
    let plan = plan_attach(files.pid_file, false).unwrap();
    assert_eq!(plan.kill_first, Some(1000));
    assert!(plan.spawn_fresh);
    // The proxy kills it and cleans the files; the fresh daemon records
    // its own PID.
    kill_cleanup(&mut files);
    assert_eq!(files.pid_file, None);
    write_pid_file(&mut files, 2000);
    // A later check that probes the (live) new daemon reports the new
    // owner, not the old one.
    let reported = check_pid_file(&mut files, true);
    assert_eq!(reported, Some(2000));
    assert_ne!(reported, Some(1000));
}

#[test]
fn readiness_poll_connects_once_all_sockets_exist() {
    assert_eq!(poll_readiness(true, 0, 5000), Ok(PollStep::Ready));
    assert_eq!(poll_readiness(true, 9999, 5000), Ok(PollStep::Ready));
}

#[test]
fn readiness_poll_keeps_waiting_inside_the_bound() {
    assert_eq!(poll_readiness(false, 20, 5000), Ok(PollStep::KeepWaiting));
}

#[test]
fn readiness_poll_times_out_is_the_launch_timeout_error() {
    assert_eq!(poll_readiness(false, 5000, 5000), Err(ProxyError::LaunchTimeout));
}
