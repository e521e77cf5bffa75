use vidsync::server::{ClientData, RegisterError, ServerCommand, VideoServer, VideoState};

fn cs(s: &str) -> Vec<char> {
    s.chars().collect()
}

#[test]
fn new_server_is_empty_and_paused() {
    let s = VideoServer::new();
    assert!(!s.is_registered(0));
    let st = s.get_state();
    assert_eq!(st.time, cs("0.0"));
    assert!(!st.playing);
}

#[test]
fn register_with_rejects_collision() {
    let mut s = VideoServer::new();
    assert!(s.register_with(5));
    assert!(s.is_registered(5));
    assert!(!s.register_with(5));
    assert!(s.register_with(9));
    assert!(s.is_registered(9));
}

#[test]
fn connect_assigns_fresh_unique_ids() {
    let mut s = VideoServer::new();
    let a = s.connect().expect("id space is empty, connect must succeed");
    let b = s.connect().expect("one id taken out of 65536, connect must succeed");
    assert_ne!(a, b);
    assert!(s.is_registered(a));
    assert!(s.is_registered(b));
}

#[test]
fn connect_fails_only_with_exhausted_error() {
    let mut s = VideoServer::new();
    for _ in 0..100 {
        match s.connect() {
            Ok(uid) => assert!(s.is_registered(uid)),
            Err(e) => assert_eq!(e, RegisterError::IdSpaceExhausted),
        }
    }
}

#[test]
fn disconnect_is_idempotent() {
    let mut s = VideoServer::new();
    assert!(s.register_with(5));
    assert!(s.register_with(6));
    s.disconnect(5);
    assert!(!s.is_registered(5));
    assert!(s.is_registered(6));
    s.disconnect(5);
    assert!(!s.is_registered(5));
    assert!(s.is_registered(6));
}

#[test]
fn broadcast_reaches_every_other_session_and_never_the_source() {
    let mut s = VideoServer::new();
    assert!(s.register_with(1));
    assert!(s.register_with(2));
    assert!(s.register_with(3));
    let out = s.update_state(ClientData { time: cs("12.5"), uid: 2, playing: true });
    let targets: Vec<u16> = out.iter().map(|o| o.target).collect();
    assert_eq!(targets, vec![1, 3]);
    for o in &out {
        assert_ne!(o.target, 2);
        assert_eq!(o.command.time, cs("12.5"));
        assert_eq!(o.command.source_uid, 2);
        assert!(o.command.playing);
    }
    let st = s.get_state();
    assert_eq!(st.time, cs("12.5"));
    assert!(st.playing);
}

#[test]
fn broadcast_to_removed_session_stops() {
    let mut s = VideoServer::new();
    assert!(s.register_with(1));
    assert!(s.register_with(2));
    s.disconnect(2);
    let out = s.update_state(ClientData { time: cs("5"), uid: 1, playing: true });
    assert!(out.is_empty());
}

#[test]
fn query_reply_carries_the_requesters_own_id() {
    let mut s = VideoServer::new();
    assert!(s.register_with(1));
    assert!(s.register_with(3));
    let _ = s.update_state(ClientData { time: cs("12.5"), uid: 1, playing: true });
    let reply = s.get_state().as_command(3);
    assert_eq!(reply.source_uid, 3);
    assert_eq!(reply.time, cs("12.5"));
    assert!(reply.playing);
}

#[test]
fn last_writer_wins_and_broadcasts_follow_processing_order() {
    let mut s = VideoServer::new();
    assert!(s.register_with(1));
    assert!(s.register_with(2));
    assert!(s.register_with(3));
    let first = s.update_state(ClientData { time: cs("10"), uid: 1, playing: true });
    let second = s.update_state(ClientData { time: cs("20"), uid: 2, playing: false });
    let st = s.get_state();
    assert_eq!(st.time, cs("20"));
    assert!(!st.playing);
    let first_to_3: Vec<&ServerCommand> =
        first.iter().filter(|o| o.target == 3).map(|o| &o.command).collect();
    let second_to_3: Vec<&ServerCommand> =
        second.iter().filter(|o| o.target == 3).map(|o| &o.command).collect();
    assert_eq!(first_to_3.len(), 1);
    assert_eq!(second_to_3.len(), 1);
    assert_eq!(first_to_3[0].time, cs("10"));
    assert_eq!(second_to_3[0].time, cs("20"));
}

#[test]
fn update_keeps_registry_unchanged() {
    let mut s = VideoServer::new();
    assert!(s.register_with(1));
    assert!(s.register_with(2));
    let _ = s.update_state(ClientData { time: cs("1"), uid: 1, playing: true });
    assert!(s.is_registered(1));
    assert!(s.is_registered(2));
    assert!(!s.is_registered(3));
}

#[test]
fn send_command_skips_only_the_source() {
    let mut s = VideoServer::new();
    assert!(s.register_with(4));
    assert!(s.register_with(8));
    let cmd = ServerCommand { time: cs("7.25"), source_uid: 8, playing: false };
    let out = s.send_command(&cmd);
    assert_eq!(out.len(), 1);
    assert_eq!(out[0].target, 4);
    assert_eq!(out[0].command.time, cs("7.25"));
}

#[test]
fn video_state_as_command_attributes_the_given_id() {
    let st = VideoState::new();
    let cmd = st.as_command(9);
    assert_eq!(cmd.source_uid, 9);
    assert_eq!(cmd.time, cs("0.0"));
    assert!(!cmd.playing);
}
