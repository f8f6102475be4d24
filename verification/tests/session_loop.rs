use enturion::auth_session::AuthSession;
use enturion::net::{Session, WoWPacket};
use enturion::packet::{AuthCommand, AuthResult, LogonChallengeErrorResponse};

#[test]
fn chunked_reads_feed_the_same_bytes() {
    // Ten bytes over three reads and over one read: the engine is fed the
    // same bytes in the same order either way.
    let mut chunked = AuthSession::new("127.0.0.1".to_string(), 3724);
    chunked.start();
    let mut fed_chunked: Vec<u8> = Vec::new();
    for chunk in [vec![1u8, 2, 3], vec![4u8, 5, 6, 7], vec![8u8, 9, 10]] {
        let fed = chunked.on_read_data(chunk).expect("bytes must reach the engine");
        fed_chunked.extend(fed);
    }

    let mut whole = AuthSession::new("127.0.0.1".to_string(), 3724);
    whole.start();
    let fed_whole = whole
        .on_read_data(vec![1u8, 2, 3, 4, 5, 6, 7, 8, 9, 10])
        .expect("bytes must reach the engine");

    assert_eq!(fed_chunked, fed_whole);
    assert_eq!(fed_chunked, vec![1u8, 2, 3, 4, 5, 6, 7, 8, 9, 10]);
}

#[test]
fn shutdown_stops_feeding_but_flushes_output() {
    let mut session = AuthSession::new("10.0.0.2".to_string(), 3724);
    session.start();
    assert!(session.send(&[7u8, 8, 9]));
    session.shutdown();
    assert!(session.is_shutdown_requested());

    // Bytes that arrive after the shutdown request are drained, not fed.
    assert_eq!(session.on_read_data(vec![1u8, 2, 3]), None);

    // The writes queued before still complete.
    assert_eq!(session.take_outbound(), vec![7u8, 8, 9]);
}

#[test]
fn disconnect_closes_write_at_next_tick() {
    let mut session = AuthSession::new("10.0.0.3".to_string(), 3724);
    session.start();

    // Nothing to do at a tick while no disconnect is requested.
    assert_eq!(session.after_tick(), None);
    assert!(!session.is_write_closed());

    session.disconnect();
    let flushed = session.after_tick().expect("the write half must close now");
    assert_eq!(flushed, Vec::<u8>::new());
    assert!(session.is_write_closed());

    // A send against the closed write half fails and keeps disconnect set.
    assert!(!session.send(&[1u8]));
    assert!(session.is_disconnect_requested());
    assert_eq!(session.take_outbound(), Vec::<u8>::new());
}

#[test]
fn eof_terminates_and_frees_the_engine_once() {
    let mut session = AuthSession::new("10.0.0.4".to_string(), 3724);
    session.start();
    session.shutdown();
    session.disconnect();

    session.on_read_eof();
    assert!(session.is_terminated());
    assert_eq!(session.free_count(), 1);

    // Nothing that happens afterwards releases the engine again.
    session.on_read_eof();
    session.on_read_error();
    assert_eq!(session.free_count(), 1);
}

#[test]
fn read_error_terminates_and_frees_the_engine_once() {
    let mut session = AuthSession::new("10.0.0.5".to_string(), 3724);
    session.start();
    session.on_read_error();
    assert!(session.is_terminated());
    assert_eq!(session.free_count(), 1);
}

#[test]
fn two_sends_stay_in_submission_order() {
    // The per-session queue serializes sends: two back-to-back sends reach
    // the wire in call order.
    let mut session = AuthSession::new("10.0.0.6".to_string(), 3724);
    session.start();
    assert!(session.send(&[1u8, 2]));
    assert!(session.send(&[3u8, 4, 5]));
    assert_eq!(session.take_outbound(), vec![1u8, 2, 3, 4, 5]);
}

#[test]
fn reply_then_eof_scenario() {
    // A client sends ten bytes, the engine replies with four, the client
    // closes its write side: the session observes EOF and terminates.
    let mut session = AuthSession::new("192.168.1.9".to_string(), 3724);
    session.start();

    let fed = session
        .on_read_data(vec![0u8, 1, 2, 3, 4, 5, 6, 7, 8, 9])
        .expect("bytes must reach the engine");
    assert_eq!(fed.len(), 10);

    assert!(session.send(&[9u8, 9, 9, 9]));
    assert_eq!(session.take_outbound(), vec![9u8, 9, 9, 9]);

    session.on_read_eof();
    assert!(session.is_terminated());
    assert_eq!(session.free_count(), 1);
}

#[test]
fn disconnect_flushes_queued_bytes_before_close() {
    // Disconnect requested during a tick with twenty queued outbound bytes:
    // all twenty are handed over for the wire before the write half closes.
    let mut session = AuthSession::new("192.168.1.10".to_string(), 3724);
    session.start();
    let twenty: Vec<u8> = (0u8..20).collect();
    assert!(session.send(&twenty));
    session.disconnect();

    let flushed = session.after_tick().expect("the write half must close now");
    assert_eq!(flushed, twenty);
    assert!(session.is_write_closed());
    assert_eq!(session.take_outbound(), Vec::<u8>::new());
}

#[test]
fn write_error_marks_disconnect_for_next_tick() {
    let mut session = AuthSession::new("10.0.0.7".to_string(), 3724);
    session.start();
    assert!(!session.is_disconnect_requested());
    session.on_write_error();
    assert!(session.is_disconnect_requested());
    assert!(session.after_tick().is_some());
    assert!(session.is_write_closed());
}

#[test]
fn session_reports_its_remote_address() {
    let session = AuthSession::new("203.0.113.7".to_string(), 3724);
    assert_eq!(session.get_ip_address().as_str(), "203.0.113.7");
    assert_eq!(session.get_port(), 3724);
}

#[test]
fn send_packet_queues_the_wire_bytes() {
    let mut session = AuthSession::new("10.0.0.8".to_string(), 3724);
    session.start();
    let pkt = LogonChallengeErrorResponse::new(
        AuthCommand::AuthLogonChallenge,
        0,
        AuthResult::WowFailUnknownAccount,
    );
    assert_eq!(pkt.encode_to_vec(), vec![0x00u8, 0x00, 0x04]);
    assert!(session.send_packet(&pkt));
    assert_eq!(session.take_outbound(), vec![0x00u8, 0x00, 0x04]);
}
