use vstd::prelude::*;

use crate::frame::{is_content_kind, Frame};
use crate::session::{next_action, next_state, SessionAction, SessionEvent, SessionState};

verus! {

/// How one attempt to accept a connection went.
#[derive(Clone, Copy, Debug, PartialEq, Eq, Structural)]
pub enum AcceptOutcome {
    Accepted,
    Failed,
}

/// What the listener does after an accept attempt. There is no way to stop:
/// the accept loop ends only with the process.
#[derive(Clone, Copy, Debug, PartialEq, Eq, Structural)]
pub enum ListenerAction {
    /// Hand the new connection to a session of its own, then accept again.
    Dispatch,
    /// Drop the failed attempt and accept again.
    KeepAccepting,
}

pub open spec fn listener_action(outcome: AcceptOutcome) -> ListenerAction {
    match outcome {
        AcceptOutcome::Accepted => ListenerAction::Dispatch,
        AcceptOutcome::Failed => ListenerAction::KeepAccepting,
    }
}

/// Decides what the listener does after an accept attempt. It depends on
/// that attempt alone, never on any session.
pub fn on_accept(outcome: AcceptOutcome) -> (r: ListenerAction)
    ensures
        r == listener_action(outcome),
{
    match outcome {
        AcceptOutcome::Accepted => ListenerAction::Dispatch,
        AcceptOutcome::Failed => ListenerAction::KeepAccepting,
    }
}

/// The relay as a whole after an accept attempt: `sessions` holds the state
/// of each session, in order of acceptance, and a dispatched connection
/// adds a fresh session.
pub open spec fn after_accept(sessions: Seq<SessionState>, outcome: AcceptOutcome) -> Seq<
    SessionState,
> {
    if listener_action(outcome) == ListenerAction::Dispatch {
        sessions.push(SessionState::Accepted)
    } else {
        sessions
    }
}

/// The relay as a whole after connection `c` reports event `e` to its
/// session.
pub open spec fn after_event(sessions: Seq<SessionState>, c: int, e: SessionEvent) -> Seq<
    SessionState,
> {
    sessions.update(c, next_state(sessions[c], e))
}

/// A failed handshake on one connection closes its session only: a second
/// connection that is handshaking meanwhile keeps its state, completes its
/// handshake and then relays a content frame.
pub proof fn lemma_handshake_failure_isolated(
    sessions: Seq<SessionState>,
    c1: int,
    c2: int,
    f: Frame,
)
    requires
        0 <= c1 < sessions.len(),
        0 <= c2 < sessions.len(),
        c1 != c2,
        sessions[c1] == SessionState::Handshaking,
        sessions[c2] == SessionState::Handshaking,
        is_content_kind(f.kind),
    ensures
        ({
            let failed = after_event(sessions, c1, SessionEvent::HandshakeFailed);
            let upgraded = after_event(failed, c2, SessionEvent::HandshakeSucceeded);
            &&& failed[c1] == SessionState::Closed
            &&& failed[c2] == sessions[c2]
            &&& upgraded[c2] == SessionState::Relaying
            &&& upgraded[c1] == SessionState::Closed
            &&& next_action(upgraded[c2], SessionEvent::Received(f)) == SessionAction::Send(f)
        }),
{
}

/// A read or write failure on one connection closes its session only: the
/// listener still dispatches the next connection that it accepts, whose
/// session starts afresh and gets to its handshake, and every other session
/// keeps its state.
pub proof fn lemma_session_failure_keeps_listener(sessions: Seq<SessionState>, c1: int)
    requires
        0 <= c1 < sessions.len(),
        sessions[c1] == SessionState::Relaying,
    ensures
        ({
            let failed = after_event(sessions, c1, SessionEvent::Failed);
            let grown = after_accept(failed, AcceptOutcome::Accepted);
            let c2 = failed.len() as int;
            &&& failed[c1] == SessionState::Closed
            &&& forall|c: int| 0 <= c < sessions.len() && c != c1 ==> #[trigger] failed[c] == sessions[c]
            &&& listener_action(AcceptOutcome::Accepted) == ListenerAction::Dispatch
            &&& grown.len() == sessions.len() + 1
            &&& grown[c2] == SessionState::Accepted
            &&& next_state(grown[c2], SessionEvent::Opened) == SessionState::Handshaking
            &&& next_action(grown[c2], SessionEvent::Opened) == SessionAction::Handshake
        }),
{
}

/// An event on one connection changes no other session.
pub proof fn lemma_sessions_independent(sessions: Seq<SessionState>, c1: int, e: SessionEvent, c2: int)
    requires
        0 <= c1 < sessions.len(),
        0 <= c2 < sessions.len(),
        c1 != c2,
    ensures
        after_event(sessions, c1, e)[c2] == sessions[c2],
        after_event(sessions, c1, e).len() == sessions.len(),
{
}

/// Whatever the accept attempts and whatever became of the sessions so far,
/// every accepted connection gets a fresh session and no session already
/// there changes.
pub proof fn lemma_every_accept_dispatched(sessions: Seq<SessionState>, outcome: AcceptOutcome)
    ensures
        outcome == AcceptOutcome::Accepted ==> after_accept(sessions, outcome) == sessions.push(
            SessionState::Accepted,
        ),
        outcome == AcceptOutcome::Failed ==> after_accept(sessions, outcome) == sessions,
{
}

} // verus!
