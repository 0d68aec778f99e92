use remote_server::daemon::{AwaitEvent, DaemonCore, DaemonPhase, IDLE_WINDOW_MILLIS};
use remote_server::protocol::{encode_message, Envelope};

#[test]
fn idle_window_is_ten_minutes() {
    assert_eq!(IDLE_WINDOW_MILLIS, 10 * 60 * 1000);
}

#[test]
fn idle_elapsing_terminates_and_requests_shutdown() {
    let mut core = DaemonCore::new();
    core.await_event(AwaitEvent::IdleElapsed);
    assert_eq!(core.phase(), DaemonPhase::Terminating);
    assert!(core.shutdown_requested());
}

#[test]
fn triple_within_window_does_not_terminate() {
    let mut core = DaemonCore::new();
    core.await_event(AwaitEvent::TripleAccepted);
    assert_eq!(core.phase(), DaemonPhase::Active);
    assert!(!core.shutdown_requested());
}

#[test]
fn app_quit_terminates_without_requesting_shutdown() {
    let mut core = DaemonCore::new();
    core.await_event(AwaitEvent::AppQuit);
    assert_eq!(core.phase(), DaemonPhase::Terminating);
    assert!(!core.shutdown_requested());
}

#[test]
fn envelopes_queued_while_disconnected_are_delivered_in_order_on_reattach() {
    let mut core = DaemonCore::new();
    // No triple yet: the application already submits two envelopes.
    core.enqueue_outbound(Envelope { payload: vec![1u8, 1] });
    core.enqueue_outbound(Envelope { payload: vec![2u8] });
    // A triple attaches; the write duty drains the queue.
    core.await_event(AwaitEvent::TripleAccepted);
    let frames = core.drain_outbound();
    assert_eq!(
        frames,
        vec![encode_message(&vec![1u8, 1]), encode_message(&vec![2u8])]
    );
    // Nothing is delivered twice.
    assert_eq!(core.drain_outbound(), Vec::<Vec<u8>>::new());
}

#[test]
fn connection_loss_keeps_queued_envelopes_for_the_next_triple() {
    let mut core = DaemonCore::new();
    core.await_event(AwaitEvent::TripleAccepted);
    core.enqueue_outbound(Envelope { payload: vec![7u8] });
    // The peer drops; the daemon returns to awaiting, keeping the queue.
    core.connection_lost();
    assert_eq!(core.phase(), DaemonPhase::AwaitingConnection);
    core.enqueue_outbound(Envelope { payload: vec![8u8] });
    core.await_event(AwaitEvent::TripleAccepted);
    let frames = core.drain_outbound();
    assert_eq!(
        frames,
        vec![encode_message(&vec![7u8]), encode_message(&vec![8u8])]
    );
}

#[test]
fn inbound_envelopes_reach_the_application_in_order() {
    let mut core = DaemonCore::new();
    core.await_event(AwaitEvent::TripleAccepted);
    core.accept_inbound(Envelope { payload: vec![1u8] });
    core.accept_inbound(Envelope { payload: vec![2u8] });
    assert_eq!(core.take_inbound().unwrap().payload, vec![1u8]);
    assert_eq!(core.take_inbound().unwrap().payload, vec![2u8]);
    assert!(core.take_inbound().is_none());
}

#[test]
fn diagnostic_chunks_are_forwarded_raw_in_write_order() {
    let mut core = DaemonCore::new();
    core.enqueue_diagnostic(vec![10u8, 11]);
    core.await_event(AwaitEvent::TripleAccepted);
    core.enqueue_diagnostic(vec![12u8]);
    // Raw passthrough: no length prefix on the diagnostic stream.
    assert_eq!(core.next_diagnostic_chunk().unwrap(), vec![10u8, 11]);
    assert_eq!(core.next_diagnostic_chunk().unwrap(), vec![12u8]);
    assert!(core.next_diagnostic_chunk().is_none());
}

#[test]
fn write_duty_emits_one_frame_at_a_time() {
    let mut core = DaemonCore::new();
    core.await_event(AwaitEvent::TripleAccepted);
    assert!(core.next_outbound_frame().is_none());
    core.enqueue_outbound(Envelope { payload: vec![5u8, 6] });
    assert_eq!(
        core.next_outbound_frame().unwrap(),
        encode_message(&vec![5u8, 6])
    );
    assert!(core.next_outbound_frame().is_none());
}
