use pamcore::output::{
    classify_handshake, framed, new_io_err, AckEvent, BackoffPolicy, HandshakeEvent,
    HandshakeOutcome, PamCollectorOutput, SenderMachine, SenderState,
};

#[test]
fn output_config_appends_line_break_to_token() {
    let o = PamCollectorOutput::new("secret".to_string(), "collector:9999".to_string());
    assert_eq!(o.token, "secret\r\n");
    assert_eq!(o.addr, "collector:9999");
}

#[test]
fn new_io_err_keeps_the_message() {
    let e = new_io_err("connection refused".to_string());
    assert_eq!(e.message, "connection refused");
}

#[test]
fn framed_payload_ends_with_line_break() {
    assert_eq!(framed("abc"), "abc\r\n");
    assert_eq!(framed(""), "\r\n");
}

#[test]
fn handshake_classification() {
    assert_eq!(classify_handshake(&HandshakeEvent::ConnectFailed), HandshakeOutcome::Transient);
    assert_eq!(classify_handshake(&HandshakeEvent::WriteFailed), HandshakeOutcome::Transient);
    assert_eq!(classify_handshake(&HandshakeEvent::ReadFailed), HandshakeOutcome::Transient);
    assert_eq!(classify_handshake(&HandshakeEvent::Read(0)), HandshakeOutcome::TokenRejected);
    assert_eq!(classify_handshake(&HandshakeEvent::Read(2)), HandshakeOutcome::Established);
}

#[test]
fn rejected_token_stops_the_pipeline_without_consuming() {
    // a collector that replies with zero bytes after the token write
    let mut m = SenderMachine::new();
    m.enqueue("trace-1".to_string());
    let outcome = classify_handshake(&HandshakeEvent::Read(0));
    m.on_handshake(&outcome);
    assert_eq!(m.state, SenderState::Stopped);
    // the stopped sender never consumes the queue
    assert_eq!(m.next_to_send(), None);
    assert_eq!(m.queue.len(), 1);
    assert_eq!(m.connections, 0);
    assert_eq!(m.acked, 0);
}

#[test]
fn transient_failures_leave_the_machine_retryable() {
    let mut m = SenderMachine::new();
    m.on_handshake(&HandshakeOutcome::Transient);
    assert_eq!(m.state, SenderState::Disconnected);
    m.on_handshake(&HandshakeOutcome::Established);
    assert_eq!(m.state, SenderState::Streaming);
    assert_eq!(m.connections, 1);
}

#[test]
fn peer_close_triggers_one_reconnect_and_retransmission() {
    // a collector that accepts the token, acknowledges frame 1, then
    // closes the socket
    let mut m = SenderMachine::new();
    m.enqueue("trace-1".to_string());
    m.enqueue("trace-2".to_string());
    m.on_handshake(&HandshakeOutcome::Established);
    assert_eq!(m.connections, 1);

    let f1 = m.next_to_send().expect("first frame");
    assert_eq!(f1, "trace-1");
    m.on_send_result(&AckEvent::Read(1));
    assert_eq!(m.acked, 1);

    let f2 = m.next_to_send().expect("second frame");
    assert_eq!(f2, "trace-2");
    // the peer closed the connection: zero bytes read
    m.on_send_result(&AckEvent::Read(0));
    assert_eq!(m.state, SenderState::Disconnected);
    // while disconnected nothing is handed out
    assert_eq!(m.next_to_send(), None);

    // exactly one reconnect cycle
    m.on_handshake(&HandshakeOutcome::Established);
    assert_eq!(m.connections, 2);

    // the unacknowledged frame is retransmitted, not lost, not skipped
    let f2_again = m.next_to_send().expect("retransmission");
    assert_eq!(f2_again, "trace-2");
    m.on_send_result(&AckEvent::Read(1));
    assert_eq!(m.acked, 2);
    // and not duplicated afterwards
    assert_eq!(m.next_to_send(), None);
    assert_eq!(m.queue.len(), 0);
}

#[test]
fn read_error_also_reconnects_with_frame_kept() {
    let mut m = SenderMachine::new();
    m.enqueue("t".to_string());
    m.on_handshake(&HandshakeOutcome::Established);
    assert_eq!(m.next_to_send(), Some("t".to_string()));
    m.on_send_result(&AckEvent::ReadFailed);
    assert_eq!(m.state, SenderState::Disconnected);
    m.on_handshake(&HandshakeOutcome::Established);
    assert_eq!(m.next_to_send(), Some("t".to_string()));
}

#[test]
fn empty_queue_polls_idle() {
    let mut m = SenderMachine::new();
    m.on_handshake(&HandshakeOutcome::Established);
    assert_eq!(m.next_to_send(), None);
}

#[test]
fn backoff_grows_by_half_and_caps_at_a_minute() {
    let mut b = BackoffPolicy::new();
    assert_eq!(b.next_delay(), Some(500));
    assert_eq!(b.next_delay(), Some(750));
    assert_eq!(b.next_delay(), Some(1125));
    let mut last = 1125;
    loop {
        match b.next_delay() {
            Some(d) => {
                assert!(d >= last);
                assert!(d <= 60000);
                last = d;
            }
            None => break,
        }
    }
    // the ceiling was reached before the policy gave up
    assert_eq!(last, 60000);
}

#[test]
fn backoff_gives_up_after_its_time_budget() {
    let mut b = BackoffPolicy::new();
    let mut total: u64 = 0;
    let mut draws = 0;
    while let Some(d) = b.next_delay() {
        total += d;
        draws += 1;
        assert!(draws < 100);
    }
    // it spent at least the budget before giving up
    assert!(total >= 900_000);
    // and stays given up
    assert_eq!(b.next_delay(), None);
}
