use vidsync::client::{ConnPhase, TextAction, TickAction, VideoClient, CLIENT_TIMEOUT_MS};
use vidsync::codec::error_reply;
use vidsync::server::VideoState;

fn cs(s: &str) -> Vec<char> {
    s.chars().collect()
}

#[test]
fn new_connection_is_connecting() {
    let c = VideoClient::new(0);
    assert_eq!(c.current_phase(), ConnPhase::Connecting);
    assert_eq!(c.session_uid(), 0);
}

#[test]
fn registration_makes_it_active() {
    let mut c = VideoClient::new(0);
    c.on_registered(7);
    assert_eq!(c.current_phase(), ConnPhase::Active);
    assert_eq!(c.session_uid(), 7);
}

#[test]
fn registration_failure_closes_without_unregister() {
    let mut c = VideoClient::new(0);
    c.on_register_failed();
    assert_eq!(c.current_phase(), ConnPhase::Closed);
    assert_eq!(c.on_fatal(), None);
}

#[test]
fn update_is_forwarded_under_the_sessions_own_id() {
    let mut c = VideoClient::new(0);
    c.on_registered(7);
    let frame = cs("{\"SendState\":{\"time\":12.5,\"uid\":0,\"playing\":true}}");
    match c.on_text(&frame, 5) {
        TextAction::Forward(d) => {
            assert_eq!(d.uid, 7);
            assert_eq!(d.time, cs("12.5"));
            assert!(d.playing);
        }
        _ => panic!("expected Forward"),
    }
}

#[test]
fn getstate_becomes_a_query() {
    let mut c = VideoClient::new(0);
    c.on_registered(7);
    assert!(matches!(c.on_text(&cs("\"GetState\""), 5), TextAction::Query));
}

#[test]
fn decode_failure_replies_and_stays_active() {
    let mut c = VideoClient::new(0);
    c.on_registered(7);
    assert!(matches!(c.on_text(&cs("banana"), 5), TextAction::ReplyError));
    assert_eq!(c.current_phase(), ConnPhase::Active);
    assert_eq!(error_reply(), cs("{\"error\":\"invalid structure\"}"));
    assert!(matches!(c.on_text(&cs("\"GetState\""), 6), TextAction::Query));
}

#[test]
fn state_reply_carries_the_sessions_own_id() {
    let mut c = VideoClient::new(0);
    c.on_registered(7);
    let st = VideoState { time: cs("12.5"), playing: true };
    let reply = c.on_state_reply(&st);
    assert_eq!(reply, cs("{\"time\":12.5,\"source_uid\":7,\"playing\":true}"));
}

#[test]
fn tick_within_the_window_probes() {
    let mut c = VideoClient::new(0);
    c.on_registered(7);
    assert_eq!(c.on_tick(CLIENT_TIMEOUT_MS), TickAction::Ping);
    assert_eq!(c.current_phase(), ConnPhase::Active);
}

#[test]
fn tick_past_the_window_closes() {
    let mut c = VideoClient::new(0);
    c.on_registered(7);
    assert_eq!(c.on_tick(CLIENT_TIMEOUT_MS + 1), TickAction::Close(7));
    assert_eq!(c.current_phase(), ConnPhase::Closing);
}

#[test]
fn answered_probes_keep_the_connection_alive() {
    let mut c = VideoClient::new(0);
    c.on_registered(7);
    c.on_pong(30000);
    assert_eq!(c.on_tick(30000 + CLIENT_TIMEOUT_MS), TickAction::Ping);
    c.on_ping(60000);
    assert_eq!(c.on_tick(60000 + CLIENT_TIMEOUT_MS), TickAction::Ping);
    assert_eq!(c.on_tick(60000 + CLIENT_TIMEOUT_MS + 1), TickAction::Close(7));
}

#[test]
fn inbound_text_counts_as_liveness() {
    let mut c = VideoClient::new(0);
    c.on_registered(7);
    let _ = c.on_text(&cs("\"GetState\""), 50000);
    assert_eq!(c.on_tick(50000 + CLIENT_TIMEOUT_MS), TickAction::Ping);
}

#[test]
fn unregister_happens_exactly_once() {
    let mut c = VideoClient::new(0);
    c.on_registered(7);
    assert_eq!(c.on_fatal(), Some(7));
    assert_eq!(c.current_phase(), ConnPhase::Closing);
    assert_eq!(c.on_fatal(), None);
    assert_eq!(c.on_tick(u64::MAX), TickAction::Idle);
    c.on_stopped();
    assert_eq!(c.current_phase(), ConnPhase::Closed);
    assert_eq!(c.on_fatal(), None);
}

#[test]
fn timeout_then_transport_error_unregisters_once() {
    let mut c = VideoClient::new(0);
    c.on_registered(9);
    assert_eq!(c.on_tick(CLIENT_TIMEOUT_MS + 1), TickAction::Close(9));
    assert_eq!(c.on_fatal(), None);
}

#[test]
fn closed_connection_ignores_traffic() {
    let mut c = VideoClient::new(0);
    c.on_registered(7);
    let _ = c.on_fatal();
    c.on_stopped();
    assert!(matches!(c.on_text(&cs("\"GetState\""), 5), TextAction::Ignored));
    assert!(!c.on_ping(5));
}
