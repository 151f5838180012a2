use echo_relay::frame::{Frame, FrameKind};
use echo_relay::listener::{on_accept, AcceptOutcome, ListenerAction};
use echo_relay::session::{
    relay_transcript, Session, SessionAction, SessionEvent, SessionOutcome, SessionState,
};

fn upgraded_session() -> Session {
    let mut s = Session::new();
    assert_eq!(s.step(SessionEvent::Opened), SessionAction::Handshake);
    assert_eq!(s.step(SessionEvent::HandshakeSucceeded), SessionAction::ReadNext);
    assert_eq!(s.state(), SessionState::Relaying);
    s
}

#[test]
fn binary_frame_echoed() {
    let (out, outcome) = relay_transcript(vec![Frame::binary(vec![0x01, 0x02, 0x03])]);
    assert_eq!(out, vec![Frame::new(FrameKind::Binary, vec![0x01, 0x02, 0x03])]);
    assert_eq!(outcome, SessionOutcome::Completed);
}

#[test]
fn ping_only_forwards_nothing() {
    let mut s = upgraded_session();
    let action = s.step(SessionEvent::Received(Frame::new(FrameKind::Ping, vec![9])));
    assert_eq!(action, SessionAction::ReadNext);
    let action = s.step(SessionEvent::Received(Frame::new(FrameKind::Close, vec![])));
    assert_eq!(action, SessionAction::ReadNext);
    assert_eq!(s.step(SessionEvent::Ended), SessionAction::Close(SessionOutcome::Completed));
    assert!(s.is_closed());

    let (out, outcome) = relay_transcript(vec![
        Frame::new(FrameKind::Ping, vec![9]),
        Frame::new(FrameKind::Close, vec![]),
    ]);
    assert!(out.is_empty());
    assert_eq!(outcome, SessionOutcome::Completed);
}

#[test]
fn concurrent_sessions_no_cross_talk() {
    let mut a = upgraded_session();
    let mut b = upgraded_session();
    let to_a = a.step(SessionEvent::Received(Frame::text(b"hello".to_vec())));
    let to_b = b.step(SessionEvent::Received(Frame::text(b"world".to_vec())));
    assert_eq!(to_a, SessionAction::Send(Frame::text(b"hello".to_vec())));
    assert_eq!(to_b, SessionAction::Send(Frame::text(b"world".to_vec())));
    assert_eq!(a.step(SessionEvent::Sent), SessionAction::ReadNext);
    assert_eq!(b.step(SessionEvent::Sent), SessionAction::ReadNext);
}

#[test]
fn order_is_kept() {
    let (out, _) = relay_transcript(vec![
        Frame::text(b"a".to_vec()),
        Frame::new(FrameKind::Ping, vec![1]),
        Frame::binary(vec![2]),
        Frame::new(FrameKind::Pong, vec![3]),
        Frame::text(b"c".to_vec()),
    ]);
    assert_eq!(
        out,
        vec![Frame::text(b"a".to_vec()), Frame::binary(vec![2]), Frame::text(b"c".to_vec())]
    );
}

#[test]
fn control_frames_never_forwarded() {
    let (out, _) = relay_transcript(vec![
        Frame::new(FrameKind::Ping, vec![1, 2]),
        Frame::new(FrameKind::Pong, vec![3]),
        Frame::new(FrameKind::Close, vec![4]),
        Frame::new(FrameKind::Other, vec![5]),
    ]);
    assert!(out.is_empty());
}

#[test]
fn payload_and_kind_unchanged() {
    let payload: Vec<u8> = (0..=255).collect();
    let (out, _) = relay_transcript(vec![
        Frame::binary(payload.clone()),
        Frame::text("héllo".as_bytes().to_vec()),
    ]);
    assert_eq!(out.len(), 2);
    assert_eq!(out[0].kind, FrameKind::Binary);
    assert_eq!(out[0].payload, payload);
    assert_eq!(out[1].kind, FrameKind::Text);
    assert_eq!(out[1].payload, "héllo".as_bytes().to_vec());
}

#[test]
fn empty_transcript() {
    let (out, outcome) = relay_transcript(vec![]);
    assert!(out.is_empty());
    assert_eq!(outcome, SessionOutcome::Completed);
}

#[test]
fn handshake_failure_is_isolated() {
    let mut c1 = Session::new();
    let mut c2 = Session::new();
    assert_eq!(c1.step(SessionEvent::Opened), SessionAction::Handshake);
    assert_eq!(c2.step(SessionEvent::Opened), SessionAction::Handshake);
    assert_eq!(
        c1.step(SessionEvent::HandshakeFailed),
        SessionAction::Close(SessionOutcome::HandshakeFailed)
    );
    assert!(c1.is_closed());
    assert_eq!(c2.state(), SessionState::Handshaking);
    assert_eq!(c2.step(SessionEvent::HandshakeSucceeded), SessionAction::ReadNext);
    assert_eq!(
        c2.step(SessionEvent::Received(Frame::binary(vec![7]))),
        SessionAction::Send(Frame::binary(vec![7]))
    );
}

#[test]
fn session_failure_keeps_listener() {
    let mut c1 = upgraded_session();
    assert_eq!(c1.step(SessionEvent::Failed), SessionAction::Close(SessionOutcome::Failed));
    assert!(c1.is_closed());
    assert_eq!(on_accept(AcceptOutcome::Accepted), ListenerAction::Dispatch);
    let mut c2 = upgraded_session();
    assert_eq!(
        c2.step(SessionEvent::Received(Frame::text(b"x".to_vec()))),
        SessionAction::Send(Frame::text(b"x".to_vec()))
    );
}

#[test]
fn accept_failure_keeps_accepting() {
    assert_eq!(on_accept(AcceptOutcome::Failed), ListenerAction::KeepAccepting);
    assert_eq!(on_accept(AcceptOutcome::Accepted), ListenerAction::Dispatch);
}

#[test]
fn write_failure_closes() {
    let mut s = upgraded_session();
    let action = s.step(SessionEvent::Received(Frame::binary(vec![1])));
    assert_eq!(action, SessionAction::Send(Frame::binary(vec![1])));
    assert_eq!(s.step(SessionEvent::Failed), SessionAction::Close(SessionOutcome::Failed));
    assert_eq!(s.state(), SessionState::Closed);
}

#[test]
fn unexpected_events_close() {
    let mut s = Session::new();
    assert_eq!(
        s.step(SessionEvent::Received(Frame::binary(vec![1]))),
        SessionAction::Close(SessionOutcome::Unexpected)
    );
    assert!(s.is_closed());
    assert_eq!(
        s.step(SessionEvent::Opened),
        SessionAction::Close(SessionOutcome::Unexpected)
    );
    assert_eq!(s.state(), SessionState::Closed);

    let mut h = Session::new();
    h.step(SessionEvent::Opened);
    assert_eq!(
        h.step(SessionEvent::Sent),
        SessionAction::Close(SessionOutcome::Unexpected)
    );
}

#[test]
fn closed_session_never_relays_again() {
    let mut s = upgraded_session();
    s.step(SessionEvent::Ended);
    assert_eq!(
        s.step(SessionEvent::HandshakeSucceeded),
        SessionAction::Close(SessionOutcome::Unexpected)
    );
    assert_eq!(
        s.step(SessionEvent::Received(Frame::text(b"late".to_vec()))),
        SessionAction::Close(SessionOutcome::Unexpected)
    );
    assert!(s.is_closed());
}

#[test]
fn kinds_classified() {
    assert!(FrameKind::Text.is_content());
    assert!(FrameKind::Binary.is_content());
    for k in [FrameKind::Ping, FrameKind::Pong, FrameKind::Close, FrameKind::Other] {
        assert!(!k.is_content());
        assert!(k.is_control());
    }
    assert!(!FrameKind::Text.is_control());
    assert!(Frame::binary(vec![]).is_content());
    assert!(!Frame::new(FrameKind::Ping, vec![]).is_content());
}
