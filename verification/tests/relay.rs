use websockify_rs::DownstreamAction;
use websockify_rs::Listener;
use websockify_rs::Relay;
use websockify_rs::SessionState;
use websockify_rs::ShutdownSignal;
use websockify_rs::WsMessage;

fn active_relay() -> Relay {
    let mut r = Relay::new();
    assert_eq!(r.state(), SessionState::Connecting);
    r.on_endpoints_ready();
    assert_eq!(r.state(), SessionState::Active);
    r
}

#[test]
fn upstream_forwards_each_read_as_one_message() {
    let mut r = active_relay();
    let reads: [&[u8]; 3] = [&[1], &[2, 3, 4], &[5, 6]];
    for chunk in reads {
        assert!(r.upstream_poll());
        assert!(r.upstream_on_read(chunk));
        r.upstream_on_send_ok();
    }
    assert_eq!(r.forwarded_count(), 3);
    assert_eq!(r.state(), SessionState::Active);
}

#[test]
fn upstream_skips_empty_read() {
    let mut r = active_relay();
    let empty: &[u8] = &[];
    assert!(!r.upstream_on_read(empty));
    assert_eq!(r.forwarded_count(), 0);
    assert_eq!(r.state(), SessionState::Active);
}

#[test]
fn downstream_concatenates_payloads() {
    let mut r = active_relay();
    // First payload, written in one call.
    let m1 = WsMessage::Binary(vec![9, 8, 7]);
    assert_eq!(r.downstream_on_message(&m1), DownstreamAction::Write);
    assert_eq!(r.downstream_remaining(), 3);
    assert!(r.downstream_wrote(3));
    // Second payload, completed across two short writes.
    let m2 = WsMessage::Binary(vec![6, 5, 4, 3]);
    assert_eq!(r.downstream_on_message(&m2), DownstreamAction::Write);
    assert!(!r.downstream_wrote(1));
    assert_eq!(r.downstream_remaining(), 3);
    assert!(r.downstream_wrote(3));
    assert_eq!(r.delivered_count(), 7);
    assert_eq!(r.state(), SessionState::Active);
}

#[test]
fn empty_binary_message_is_complete_on_arrival() {
    let mut r = active_relay();
    let m = WsMessage::Binary(vec![]);
    assert_eq!(r.downstream_on_message(&m), DownstreamAction::Skip);
    assert_eq!(r.downstream_remaining(), 0);
    assert_eq!(r.delivered_count(), 0);
}

#[test]
fn control_messages_are_ignored() {
    let mut r = active_relay();
    assert_eq!(r.downstream_on_message(&WsMessage::Text), DownstreamAction::Skip);
    assert_eq!(r.downstream_on_message(&WsMessage::Ping), DownstreamAction::Skip);
    assert_eq!(r.downstream_on_message(&WsMessage::Pong), DownstreamAction::Skip);
    assert_eq!(r.delivered_count(), 0);
    assert_eq!(r.state(), SessionState::Active);
}

#[test]
fn signal_fire_twice_is_noop() {
    let mut s = ShutdownSignal::new();
    assert!(!s.poll());
    s.fire();
    assert!(s.poll());
    s.fire();
    assert!(s.poll());
}

#[test]
fn shutdown_request_twice_same_effect_as_once() {
    let mut r = active_relay();
    r.request_shutdown();
    let state_once = r.state();
    let fired_once = r.signal_fired();
    r.request_shutdown();
    assert_eq!(r.state(), state_once);
    assert_eq!(r.signal_fired(), fired_once);
    assert!(r.signal_fired());
    // The surviving copiers still drain exactly once each.
    assert!(!r.upstream_poll());
    assert!(!r.downstream_poll());
    assert_eq!(r.state(), SessionState::Closed);
}

#[test]
fn clean_ws_close_reaches_closed_within_one_poll() {
    let mut r = active_relay();
    assert_eq!(r.downstream_on_message(&WsMessage::Close), DownstreamAction::Stop);
    assert_eq!(r.state(), SessionState::Draining);
    assert!(!r.upstream_poll());
    assert_eq!(r.state(), SessionState::Closed);
}

#[test]
fn clean_tcp_eof_reaches_closed_within_one_poll() {
    let mut r = active_relay();
    r.upstream_on_eof();
    assert_eq!(r.state(), SessionState::Draining);
    assert!(r.signal_fired());
    assert!(!r.downstream_poll());
    assert_eq!(r.state(), SessionState::Closed);
}

#[test]
fn drain_allows_one_inflight_read() {
    let mut r = active_relay();
    assert_eq!(r.downstream_on_message(&WsMessage::Close), DownstreamAction::Stop);
    assert_eq!(r.state(), SessionState::Draining);
    // The upstream copier finishes its in-flight read cycle first...
    assert!(r.upstream_on_read(&[7, 7]));
    r.upstream_on_send_ok();
    assert_eq!(r.forwarded_count(), 1);
    // ...and its very next poll exits.
    assert!(!r.upstream_poll());
    assert_eq!(r.state(), SessionState::Closed);
}

#[test]
fn drain_allows_completing_inflight_write() {
    let mut r = active_relay();
    let m = WsMessage::Binary(vec![1, 2, 3]);
    assert_eq!(r.downstream_on_message(&m), DownstreamAction::Write);
    assert!(!r.downstream_wrote(1));
    // The TCP side reaches end-of-stream while a write is in flight.
    r.upstream_on_eof();
    assert_eq!(r.state(), SessionState::Draining);
    // The downstream copier still completes the owed bytes, then exits.
    assert!(r.downstream_wrote(2));
    assert_eq!(r.delivered_count(), 3);
    assert!(!r.downstream_poll());
    assert_eq!(r.state(), SessionState::Closed);
}

#[test]
fn failure_in_one_session_leaves_another_untouched() {
    let mut faulty = active_relay();
    let mut healthy = active_relay();
    assert!(healthy.upstream_on_read(&[1, 2]));
    healthy.upstream_on_send_ok();

    faulty.upstream_on_error();
    assert!(!faulty.downstream_poll());
    assert_eq!(faulty.state(), SessionState::Closed);

    assert_eq!(healthy.state(), SessionState::Active);
    assert!(!healthy.signal_fired());
    assert_eq!(healthy.forwarded_count(), 1);
    assert!(healthy.upstream_on_read(&[3]));
    healthy.upstream_on_send_ok();
    assert_eq!(healthy.forwarded_count(), 2);
}

#[test]
fn scenario_ten_bytes_then_idle_stays_active() {
    let mut r = active_relay();
    let chunk: Vec<u8> = vec![0; 10];
    assert!(r.upstream_poll());
    assert!(r.upstream_on_read(&chunk));
    r.upstream_on_send_ok();
    assert_eq!(r.forwarded_count(), 1);
    // Nothing else arrives on either side: the session stays active.
    assert!(r.upstream_poll());
    assert!(r.downstream_poll());
    assert_eq!(r.state(), SessionState::Active);
}

#[test]
fn scenario_close_with_no_prior_data() {
    let mut r = active_relay();
    assert!(r.downstream_poll());
    assert_eq!(r.downstream_on_message(&WsMessage::Close), DownstreamAction::Stop);
    assert_eq!(r.state(), SessionState::Draining);
    assert!(!r.upstream_poll());
    assert_eq!(r.state(), SessionState::Closed);
    assert_eq!(r.delivered_count(), 0);
    assert!(r.notify_completion());
}

#[test]
fn scenario_tcp_reset_mid_session() {
    let mut r = active_relay();
    assert!(r.upstream_on_read(&[1, 2, 3]));
    r.upstream_on_send_ok();
    // The TCP peer resets: the upstream copier observes a hard read error.
    r.upstream_on_error();
    assert!(r.signal_fired());
    assert_eq!(r.state(), SessionState::Draining);
    // The downstream copier exits at its next cancellation point.
    assert!(!r.downstream_poll());
    assert_eq!(r.state(), SessionState::Closed);
    // The completion notification fires exactly once.
    assert!(r.notify_completion());
    assert!(!r.notify_completion());
}

#[test]
fn scenario_large_message_written_in_short_writes() {
    let mut r = active_relay();
    let total: usize = 2 * 1024 * 1024;
    let per_call: usize = 64 * 1024;
    let m = WsMessage::Binary(vec![0xAB; total]);
    assert_eq!(r.downstream_on_message(&m), DownstreamAction::Write);
    let mut calls: usize = 0;
    while r.downstream_remaining() > 0 {
        let n = per_call.min(r.downstream_remaining());
        let done = r.downstream_wrote(n);
        calls += 1;
        assert_eq!(done, r.downstream_remaining() == 0);
    }
    assert_eq!(calls, total / per_call);
    assert_eq!(r.delivered_count(), total as u64);
    assert_eq!(r.state(), SessionState::Active);
}

#[test]
fn dial_failure_closes_without_relaying() {
    let mut r = Relay::new();
    r.on_dial_failure();
    assert_eq!(r.state(), SessionState::Closed);
    assert_eq!(r.forwarded_count(), 0);
    assert_eq!(r.delivered_count(), 0);
    assert!(r.notify_completion());
    assert!(!r.notify_completion());
}

#[test]
fn write_error_abandons_pending_payload() {
    let mut r = active_relay();
    let m = WsMessage::Binary(vec![1, 2, 3, 4]);
    assert_eq!(r.downstream_on_message(&m), DownstreamAction::Write);
    assert!(!r.downstream_wrote(2));
    r.downstream_on_write_error();
    assert_eq!(r.state(), SessionState::Draining);
    assert!(r.signal_fired());
    assert_eq!(r.downstream_remaining(), 0);
    assert_eq!(r.delivered_count(), 2);
}

#[test]
fn abnormal_ws_end_fires_signal() {
    let mut r = active_relay();
    r.downstream_on_abnormal_end();
    assert!(r.signal_fired());
    assert_eq!(r.state(), SessionState::Draining);
    assert!(!r.upstream_poll());
    assert_eq!(r.state(), SessionState::Closed);
}

#[test]
fn listener_stop_is_idempotent_and_severs_nothing() {
    let mut l = Listener::new();
    assert!(l.on_upgrade_request());
    assert!(l.on_upgrade_request());
    l.request_stop();
    assert!(!l.on_upgrade_request());
    l.request_stop();
    assert!(!l.on_upgrade_request());
    assert!(!l.is_drained());
    l.on_session_completed();
    assert!(!l.is_drained());
    l.on_session_completed();
    assert!(l.is_drained());
}
