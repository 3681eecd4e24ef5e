use rusty_proxy::policy::Backend;
use rusty_proxy::relay::{Pump, Transfer};
use rusty_proxy::session::{Phase, Session, SessionAction, SessionEvent};

fn session_at_dialing(sniffed: Option<Vec<u8>>) -> (Session, SessionAction) {
    let mut s = Session::new();
    assert_eq!(s.step(SessionEvent::HandshakeWritten), SessionAction::Sniff);
    let a = s.step(SessionEvent::Sniffed(sniffed));
    (s, a)
}

#[test]
fn session_runs_through_all_phases() {
    let mut s = Session::new();
    assert_eq!(s.phase(), Phase::Accepted);
    assert_eq!(s.step(SessionEvent::HandshakeWritten), SessionAction::Sniff);
    assert_eq!(s.phase(), Phase::Sniffing);
    let a = s.step(SessionEvent::Sniffed(Some(b"SSH-2.0-OpenSSH_8.9".to_vec())));
    assert_eq!(a, SessionAction::Dial(Backend::Ssh));
    assert_eq!(s.phase(), Phase::Dialing(Backend::Ssh));
    assert_eq!(s.step(SessionEvent::Dialed), SessionAction::Relay);
    assert_eq!(s.phase(), Phase::Relaying(Backend::Ssh));
    assert_eq!(s.step(SessionEvent::RelayEnded), SessionAction::Close);
    assert_eq!(s.phase(), Phase::Closed);
}

#[test]
fn sniff_timeout_dials_openvpn() {
    let (s, a) = session_at_dialing(None);
    assert_eq!(a, SessionAction::Dial(Backend::OpenVpn));
    assert_eq!(s.phase(), Phase::Dialing(Backend::OpenVpn));
}

#[test]
fn udp_sniff_dials_gateway() {
    let (_, a) = session_at_dialing(Some(b"udp-tunnel-init".to_vec()));
    assert_eq!(a, SessionAction::Dial(Backend::UdpGateway));
}

#[test]
fn dial_failure_closes_session() {
    let (mut s, _) = session_at_dialing(Some(b"ssh".to_vec()));
    assert_eq!(s.step(SessionEvent::DialFailed), SessionAction::Close);
    assert_eq!(s.phase(), Phase::Closed);
    assert_eq!(s.step(SessionEvent::Dialed), SessionAction::Idle);
    assert_eq!(s.phase(), Phase::Closed);
}

#[test]
fn handshake_failure_closes_session() {
    let mut s = Session::new();
    assert_eq!(s.step(SessionEvent::HandshakeFailed), SessionAction::Close);
    assert_eq!(s.phase(), Phase::Closed);
}

#[test]
fn out_of_place_event_closes_session() {
    let mut s = Session::new();
    assert_eq!(s.step(SessionEvent::HandshakeWritten), SessionAction::Sniff);
    assert_eq!(s.step(SessionEvent::Dialed), SessionAction::Close);
    assert_eq!(s.phase(), Phase::Closed);
}

#[test]
fn closed_session_stays_closed() {
    let mut s = Session::new();
    s.step(SessionEvent::HandshakeFailed);
    let events = vec![
        SessionEvent::HandshakeWritten,
        SessionEvent::Sniffed(Some(b"ssh".to_vec())),
        SessionEvent::Dialed,
        SessionEvent::RelayEnded,
    ];
    for e in events {
        assert_eq!(s.step(e), SessionAction::Idle);
        assert_eq!(s.phase(), Phase::Closed);
    }
}

#[test]
fn backend_is_kept_once_chosen() {
    let (mut s, _) = session_at_dialing(Some(b"udp".to_vec()));
    assert_eq!(s.step(SessionEvent::Dialed), SessionAction::Relay);
    assert_eq!(s.phase(), Phase::Relaying(Backend::UdpGateway));
}

#[test]
fn pump_forwards_chunks_in_order() {
    let chunks: Vec<Vec<u8>> = vec![b"hello ".to_vec(), b"wor".to_vec(), b"ld".to_vec()];
    let mut p = Pump::new();
    let mut out = Vec::new();
    for c in chunks {
        match p.step(Transfer::Data(c)) {
            Some(bytes) => out.extend_from_slice(&bytes),
            None => panic!("pump stopped early"),
        }
    }
    assert_eq!(out, b"hello world".to_vec());
    assert!(p.is_open());
}

#[test]
fn client_close_after_hundred_bytes_ends_session() {
    let sent: Vec<u8> = (0..100u8).collect();
    let mut to_backend = Pump::new();
    let forwarded = to_backend.step(Transfer::Data(sent.clone()));
    assert_eq!(forwarded, Some(sent));
    assert_eq!(to_backend.step(Transfer::End), None);
    assert!(!to_backend.is_open());

    let (mut s, _) = session_at_dialing(Some(b"ssh".to_vec()));
    assert_eq!(s.step(SessionEvent::Dialed), SessionAction::Relay);
    assert_eq!(s.step(SessionEvent::RelayEnded), SessionAction::Close);
    assert_eq!(s.phase(), Phase::Closed);
    assert_eq!(to_backend.step(Transfer::Data(b"late".to_vec())), None);
}

#[test]
fn zero_length_read_ends_direction() {
    let mut p = Pump::new();
    assert_eq!(p.step(Transfer::Data(Vec::new())), None);
    assert!(!p.is_open());
    assert_eq!(p.step(Transfer::Data(b"x".to_vec())), None);
}

#[test]
fn failure_ends_direction() {
    let mut p = Pump::new();
    assert_eq!(p.step(Transfer::Data(b"a".to_vec())), Some(b"a".to_vec()));
    assert_eq!(p.step(Transfer::Failed), None);
    assert!(!p.is_open());
    assert_eq!(p.step(Transfer::Data(b"b".to_vec())), None);
    assert_eq!(p.step(Transfer::End), None);
}
