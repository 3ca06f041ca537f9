use multiow::player::PlayerInfo;
use multiow::roster::Roster;
use multiow::server::{
    broadcast_payloads, is_lost_connection, keeps_stream, on_client_read, on_legacy_read, ClientEvent,
    IoErrorKind, LegacyEvent, ReadOutcome,
};
use multiow::wire::{encode_player, encode_roster, ServerMessage};

fn abe(x: u16) -> PlayerInfo {
    PlayerInfo { name: "abe".to_string(), saved_muds: 1, location: [1, 2, 3], position: [x, 7] }
}

fn buffer_with(p: &PlayerInfo) -> Vec<u8> {
    let mut buf = vec![0u8; 512];
    let b = encode_player(p).unwrap();
    buf[..b.len()].copy_from_slice(&b);
    buf
}

#[test]
fn report_is_filed_and_announced_once() {
    let mut r = Roster::new();
    let name = "abe".to_string();
    let buf = buffer_with(&abe(4));
    assert_eq!(on_client_read(&mut r, &name, ReadOutcome::Received(23), &buf), ClientEvent::Notify);
    assert_eq!(r.get(&name), Some(&abe(4)));
    assert_eq!(on_client_read(&mut r, &name, ReadOutcome::Received(23), &buf), ClientEvent::Quiet);
    let buf2 = buffer_with(&abe(5));
    assert_eq!(on_client_read(&mut r, &name, ReadOutcome::Received(23), &buf2), ClientEvent::Notify);
    assert_eq!(r.get(&name), Some(&abe(5)));
}

#[test]
fn closed_or_failed_connection_removes_the_player() {
    let mut r = Roster::new();
    let name = "abe".to_string();
    let buf = buffer_with(&abe(4));
    on_client_read(&mut r, &name, ReadOutcome::Received(23), &buf);
    assert_eq!(on_client_read(&mut r, &name, ReadOutcome::Received(0), &buf), ClientEvent::Disconnected);
    assert!(!r.contains(&name));
    on_client_read(&mut r, &name, ReadOutcome::Received(23), &buf);
    assert_eq!(
        on_client_read(&mut r, &name, ReadOutcome::Failed(IoErrorKind::ConnectionReset), &buf),
        ClientEvent::Disconnected
    );
    assert_eq!(r.len(), 0);
}

#[test]
fn time_out_and_garbage_are_quiet() {
    let mut r = Roster::new();
    let name = "abe".to_string();
    let buf = buffer_with(&abe(4));
    on_client_read(&mut r, &name, ReadOutcome::Received(23), &buf);
    assert_eq!(
        on_client_read(&mut r, &name, ReadOutcome::Failed(IoErrorKind::TimedOut), &buf),
        ClientEvent::Quiet
    );
    let garbage = vec![200u8, 0, 0, 0, 0, 0, 0, 0, 1];
    assert_eq!(on_client_read(&mut r, &name, ReadOutcome::Received(9), &garbage), ClientEvent::Quiet);
    assert_eq!(r.get(&name), Some(&abe(4)));
}

#[test]
fn legacy_read_cases() {
    let mut r = Roster::new();
    let buf = buffer_with(&abe(4));
    assert_eq!(on_legacy_read(&mut r, ReadOutcome::Received(0), &buf), LegacyEvent::Notify);
    assert_eq!(on_legacy_read(&mut r, ReadOutcome::Received(23), &buf), LegacyEvent::Quiet);
    assert_eq!(on_legacy_read(&mut r, ReadOutcome::Failed(IoErrorKind::ConnectionReset), &buf), LegacyEvent::Stop);
    assert_eq!(on_legacy_read(&mut r, ReadOutcome::Failed(IoErrorKind::Other), &buf), LegacyEvent::Quiet);
    assert_eq!(on_legacy_read(&mut r, ReadOutcome::Received(2), &[7, 0]), LegacyEvent::Undecodable);
    assert_eq!(r.len(), 1);
}

#[test]
fn streams_survive_time_outs_only() {
    assert!(keeps_stream(&Ok(())));
    assert!(keeps_stream(&Err(IoErrorKind::TimedOut)));
    assert!(!keeps_stream(&Err(IoErrorKind::ConnectionReset)));
    assert!(!keeps_stream(&Err(IoErrorKind::ConnectionAborted)));
    assert!(!keeps_stream(&Err(IoErrorKind::Other)));
}

#[test]
fn only_aborted_connection_is_lost() {
    assert!(is_lost_connection(&IoErrorKind::ConnectionAborted));
    assert!(!is_lost_connection(&IoErrorKind::ConnectionReset));
    assert!(!is_lost_connection(&IoErrorKind::TimedOut));
}

#[test]
fn broadcast_sends_states_after_the_notice() {
    let mut r = Roster::new();
    r.record(abe(4));
    let p = broadcast_payloads(&ServerMessage::PlayerStates, &r).unwrap();
    assert_eq!(p.len(), 2);
    assert_eq!(p[0], vec![0, 0, 0, 0]);
    assert_eq!(p[1], encode_roster(&r).unwrap());
    let a = broadcast_payloads(&ServerMessage::Announcement("x".to_string()), &r).unwrap();
    assert_eq!(a, vec![vec![1, 0, 0, 0, 1, 0, 0, 0, 0, 0, 0, 0, b'x']]);
}

#[test]
fn server_state_matches_last_report() {
    let mut r = Roster::new();
    let name = "abe".to_string();
    for x in [4u16, 4, 9, 9, 2] {
        let buf = buffer_with(&abe(x));
        on_client_read(&mut r, &name, ReadOutcome::Received(23), &buf);
        assert_eq!(r.get(&name), Some(&abe(x)));
    }
}
