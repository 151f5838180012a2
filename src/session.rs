use vstd::prelude::*;

use crate::frame::{is_content_kind, Frame, FrameModel};
use crate::relay::{forwarded, lemma_forwarded_push};

verus! {

/// Where one connection is in its life. Sessions are single-shot: once
/// `Closed`, a session stays closed.
#[derive(Clone, Copy, Debug, PartialEq, Eq, Structural)]
pub enum SessionState {
    Accepted,
    Handshaking,
    Relaying,
    Closed,
}

/// What the connection reported since the last action.
#[derive(Debug, PartialEq, Eq)]
pub enum SessionEvent {
    /// The connection was handed to the session and nothing is read yet.
    Opened,
    HandshakeSucceeded,
    HandshakeFailed,
    /// The read side produced a frame.
    Received(Frame),
    /// The frame of the last `Send` action was written.
    Sent,
    /// The read side reached the end of the stream.
    Ended,
    /// Reading or writing failed.
    Failed,
}

/// Why a session closed.
#[derive(Clone, Copy, Debug, PartialEq, Eq, Structural)]
pub enum SessionOutcome {
    /// The peer ended the stream.
    Completed,
    HandshakeFailed,
    /// A read or a write failed.
    Failed,
    /// An event came that the session's state does not admit.
    Unexpected,
}

/// What the session asks of the connection next.
#[derive(Debug, PartialEq, Eq)]
pub enum SessionAction {
    /// Perform the upgrade handshake, then report how it went.
    Handshake,
    /// Read the next frame.
    ReadNext,
    /// Write this frame back, then report `Sent` or `Failed`.
    Send(Frame),
    /// Close the connection; the session is over.
    Close(SessionOutcome),
}

/// The state that follows `s` on event `e`.
pub open spec fn next_state(s: SessionState, e: SessionEvent) -> SessionState {
    match (s, e) {
        (SessionState::Accepted, SessionEvent::Opened) => SessionState::Handshaking,
        (SessionState::Handshaking, SessionEvent::HandshakeSucceeded) => SessionState::Relaying,
        (SessionState::Relaying, SessionEvent::Received(_)) => SessionState::Relaying,
        (SessionState::Relaying, SessionEvent::Sent) => SessionState::Relaying,
        _ => SessionState::Closed,
    }
}

/// The action that the session takes in state `s` on event `e`.
pub open spec fn next_action(s: SessionState, e: SessionEvent) -> SessionAction {
    match (s, e) {
        (SessionState::Accepted, SessionEvent::Opened) => SessionAction::Handshake,
        (SessionState::Handshaking, SessionEvent::HandshakeSucceeded) => SessionAction::ReadNext,
        (SessionState::Handshaking, SessionEvent::HandshakeFailed) => SessionAction::Close(
            SessionOutcome::HandshakeFailed,
        ),
        (SessionState::Relaying, SessionEvent::Received(f)) => if is_content_kind(f.kind) {
            SessionAction::Send(f)
        } else {
            SessionAction::ReadNext
        },
        (SessionState::Relaying, SessionEvent::Sent) => SessionAction::ReadNext,
        (SessionState::Relaying, SessionEvent::Ended) => SessionAction::Close(
            SessionOutcome::Completed,
        ),
        (SessionState::Relaying, SessionEvent::Failed) => SessionAction::Close(
            SessionOutcome::Failed,
        ),
        _ => SessionAction::Close(SessionOutcome::Unexpected),
    }
}

/// A closed session stays closed, whatever comes: it never relays again.
pub proof fn lemma_closed_is_final(e: SessionEvent)
    ensures
        next_state(SessionState::Closed, e) == SessionState::Closed,
        next_action(SessionState::Closed, e) == SessionAction::Close(SessionOutcome::Unexpected),
{
}

/// The frame that event `e` delivers while relaying, if any.
pub open spec fn relayed_frame(s: SessionState, e: SessionEvent) -> Option<FrameModel> {
    match e {
        SessionEvent::Received(f) => if s == SessionState::Relaying {
            Some(f@)
        } else {
            None
        },
        _ => None,
    }
}

/// One connection's relay session: it turns what the connection reports
/// into what the connection is to do next. `received` holds every frame
/// read while relaying and `sent` every frame handed out to be written,
/// both in order.
pub struct Session {
    pub state: SessionState,
    pub received: Ghost<Seq<FrameModel>>,
    pub sent: Ghost<Seq<FrameModel>>,
}

impl Session {
    /// What has been handed out to be written is exactly the content frames
    /// received so far, in receipt order and unchanged.
    pub open spec fn wf(&self) -> bool {
        self.sent@ == forwarded(self.received@)
    }

    pub fn new() -> (r: Session)
        ensures
            r.wf(),
            r.state == SessionState::Accepted,
            r.received@ == Seq::<FrameModel>::empty(),
    {
        Session { state: SessionState::Accepted, received: Ghost(Seq::empty()), sent: Ghost(Seq::empty()) }
    }

    pub fn state(&self) -> (r: SessionState)
        ensures
            r == self.state,
    {
        self.state
    }

    pub fn is_closed(&self) -> (r: bool)
        ensures
            r == (self.state == SessionState::Closed),
    {
        self.state == SessionState::Closed
    }

    /// Takes one event of the connection and says what to do next.
    pub fn step(&mut self, event: SessionEvent) -> (action: SessionAction)
        requires
            old(self).wf(),
        ensures
            final(self).wf(),
            final(self).state == next_state(old(self).state, event),
            action == next_action(old(self).state, event),
            final(self).received@ == match relayed_frame(old(self).state, event) {
                Some(f) => old(self).received@.push(f),
                None => old(self).received@,
            },
    {
        let ghost before = self.received@;
        match (self.state, event) {
            (SessionState::Accepted, SessionEvent::Opened) => {
                self.state = SessionState::Handshaking;
                SessionAction::Handshake
            },
            (SessionState::Handshaking, SessionEvent::HandshakeSucceeded) => {
                self.state = SessionState::Relaying;
                SessionAction::ReadNext
            },
            (SessionState::Handshaking, SessionEvent::HandshakeFailed) => {
                self.state = SessionState::Closed;
                SessionAction::Close(SessionOutcome::HandshakeFailed)
            },
            (SessionState::Relaying, SessionEvent::Received(f)) => {
                proof {
                    lemma_forwarded_push(before, f@);
                    self.received@ = before.push(f@);
                }
                if f.kind.is_content() {
                    proof {
                        self.sent@ = self.sent@.push(f@);
                    }
                    SessionAction::Send(f)
                } else {
                    SessionAction::ReadNext
                }
            },
            (SessionState::Relaying, SessionEvent::Sent) => SessionAction::ReadNext,
            (SessionState::Relaying, SessionEvent::Ended) => {
                self.state = SessionState::Closed;
                SessionAction::Close(SessionOutcome::Completed)
            },
            (SessionState::Relaying, SessionEvent::Failed) => {
                self.state = SessionState::Closed;
                SessionAction::Close(SessionOutcome::Failed)
            },
            _ => {
                self.state = SessionState::Closed;
                SessionAction::Close(SessionOutcome::Unexpected)
            },
        }
    }
}

/// The models of a sequence of frames, one for one.
pub open spec fn models(frames: Seq<Frame>) -> Seq<FrameModel> {
    frames.map_values(|f: Frame| f@)
}

/// Runs one whole session over a connection whose handshake succeeds, whose
/// peer sends `incoming` and then ends the stream, and on which every write
/// succeeds. Returns the frames written back, in order, and how the session
/// closed.
pub fn relay_transcript(incoming: Vec<Frame>) -> (r: (Vec<Frame>, SessionOutcome))
    ensures
        models(r.0@) == forwarded(models(incoming@)),
        r.1 == SessionOutcome::Completed,
{
    let mut session = Session::new();
    let mut rest = incoming;
    let mut written: Vec<Frame> = Vec::new();
    let _ = session.step(SessionEvent::Opened);
    let _ = session.step(SessionEvent::HandshakeSucceeded);
    let ghost all = models(incoming@);
    proof {
        assert(models(written@) =~= forwarded(Seq::empty()));
        assert(all =~= session.received@ + models(rest@));
    }
    while rest.len() > 0
        invariant
            session.wf(),
            session.state == SessionState::Relaying,
            all == session.received@ + models(rest@),
            models(written@) == session.sent@,
        decreases rest.len(),
    {
        let ghost before = rest@;
        let f = rest.remove(0);
        proof {
            assert(models(before) == seq![f@] + models(rest@));
        }
        let ghost received_before = session.received@;
        proof {
            lemma_forwarded_push(received_before, f@);
        }
        let action = session.step(SessionEvent::Received(f));
        match action {
            SessionAction::Send(g) => {
                written.push(g);
                let _ = session.step(SessionEvent::Sent);
            },
            _ => {},
        }
        proof {
            assert(models(written@) =~= session.sent@);
            assert(all =~= session.received@ + models(rest@));
        }
    }
    proof {
        assert(all =~= session.received@);
    }
    let last = session.step(SessionEvent::Ended);
    let outcome = match last {
        SessionAction::Close(o) => o,
        _ => SessionOutcome::Unexpected,
    };
    (written, outcome)
}

} // verus!
