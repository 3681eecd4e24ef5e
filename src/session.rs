//! The life of one client session, as a state machine.
//!
//! A session greets the client, sniffs the first bytes it sends, dials the
//! backend that those bytes select, relays until one direction is over, and
//! closes. The program around the library performs each action and hands
//! the outcome back as an event. A failure at any point closes the session;
//! a closed session stays closed and asks for nothing more.
use vstd::prelude::*;
use crate::policy::{backend_for, select_backend, Backend};
use crate::sniff::{peeked_view, sniff_window, window_of};

verus! {

/// Where a session stands.
#[derive(Clone, Copy, Debug, PartialEq, Eq, Structural)]
pub enum Phase {
    /// Just accepted; the greeting is being written.
    Accepted,
    /// The greeting was written; the first client bytes are being sniffed.
    Sniffing,
    /// The backend was chosen and is being dialed.
    Dialing(Backend),
    /// The backend was dialed; bytes are relayed both ways.
    Relaying(Backend),
    /// Both connections are closed.
    Closed,
}

/// The outcome of the action that a session asked for last.
pub enum SessionEvent {
    /// The greeting was written in full.
    HandshakeWritten,
    /// Writing the greeting failed.
    HandshakeFailed,
    /// The look-ahead read ended: what it observed, or `None` where it timed
    /// out or failed.
    Sniffed(Option<Vec<u8>>),
    /// The backend accepted the connection.
    Dialed,
    /// Dialing the backend failed.
    DialFailed,
    /// One direction of the relay is over.
    RelayEnded,
}

/// What the session asks for next.
#[derive(Clone, Copy, Debug, PartialEq, Eq, Structural)]
pub enum SessionAction {
    /// Peek at the client's first bytes, with a deadline.
    Sniff,
    /// Connect to this backend.
    Dial(Backend),
    /// Relay bytes both ways until one direction is over.
    Relay,
    /// Close both connections.
    Close,
    /// Nothing: the session is closed.
    Idle,
}

/// The phase a session moves to on an event, and what it then asks for.
pub open spec fn next(p: Phase, e: SessionEvent) -> (Phase, SessionAction) {
    match p {
        Phase::Accepted => match e {
            SessionEvent::HandshakeWritten => (Phase::Sniffing, SessionAction::Sniff),
            _ => (Phase::Closed, SessionAction::Close),
        },
        Phase::Sniffing => match e {
            SessionEvent::Sniffed(peeked) => {
                let b = backend_for(window_of(peeked_view(peeked)));
                (Phase::Dialing(b), SessionAction::Dial(b))
            },
            _ => (Phase::Closed, SessionAction::Close),
        },
        Phase::Dialing(b) => match e {
            SessionEvent::Dialed => (Phase::Relaying(b), SessionAction::Relay),
            _ => (Phase::Closed, SessionAction::Close),
        },
        Phase::Relaying(_) => (Phase::Closed, SessionAction::Close),
        Phase::Closed => (Phase::Closed, SessionAction::Idle),
    }
}

/// The order of the phases.
pub open spec fn rank(p: Phase) -> nat {
    match p {
        Phase::Accepted => 0,
        Phase::Sniffing => 1,
        Phase::Dialing(_) => 2,
        Phase::Relaying(_) => 3,
        Phase::Closed => 4,
    }
}

/// The phase a session reaches over the events `es`.
pub open spec fn run(p: Phase, es: Seq<SessionEvent>) -> Phase
    decreases es.len(),
{
    if es.len() == 0 {
        p
    } else {
        run(next(p, es[0]).0, es.drop_first())
    }
}

/// One client session.
pub struct Session {
    phase: Phase,
}

impl View for Session {
    type V = Phase;

    closed spec fn view(&self) -> Phase {
        self.phase
    }
}

impl Session {
    /// A session for a client that was just accepted; its first action is
    /// to write the greeting.
    pub fn new() -> (r: Session)
        ensures
            r@ == Phase::Accepted,
    {
        Session { phase: Phase::Accepted }
    }

    /// Where the session stands.
    pub fn phase(&self) -> (r: Phase)
        ensures
            r == self@,
    {
        self.phase
    }

    /// Moves the session on by the outcome of its last action and returns
    /// what it asks for next.
    pub fn step(&mut self, e: SessionEvent) -> (r: SessionAction)
        ensures
            (final(self)@, r) == next(old(self)@, e),
    {
        let (p, a) = match self.phase {
            Phase::Accepted => match e {
                SessionEvent::HandshakeWritten => (Phase::Sniffing, SessionAction::Sniff),
                _ => (Phase::Closed, SessionAction::Close),
            },
            Phase::Sniffing => match e {
                SessionEvent::Sniffed(peeked) => {
                    let window = sniff_window(peeked);
                    let b = select_backend(window.as_slice());
                    (Phase::Dialing(b), SessionAction::Dial(b))
                },
                _ => (Phase::Closed, SessionAction::Close),
            },
            Phase::Dialing(b) => match e {
                SessionEvent::Dialed => (Phase::Relaying(b), SessionAction::Relay),
                _ => (Phase::Closed, SessionAction::Close),
            },
            Phase::Relaying(_) => (Phase::Closed, SessionAction::Close),
            Phase::Closed => (Phase::Closed, SessionAction::Idle),
        };
        self.phase = p;
        a
    }
}

/// No transition re-enters an earlier phase: every event on a live session
/// moves it strictly forward, and a closed session stays closed.
pub proof fn lemma_phases_move_forward(p: Phase, e: SessionEvent)
    ensures
        p != Phase::Closed ==> rank(next(p, e).0) > rank(p),
        p == Phase::Closed ==> next(p, e).0 == Phase::Closed,
{
}

/// Session teardown is total: when one direction of the relay is over, the
/// session closes both connections, and from then on, whatever happens, it
/// stays closed and asks for nothing.
pub proof fn lemma_teardown_total(b: Backend, es: Seq<SessionEvent>)
    ensures
        next(Phase::Relaying(b), SessionEvent::RelayEnded) == (Phase::Closed, SessionAction::Close),
        run(Phase::Closed, es) == Phase::Closed,
        forall|i: int|
            0 <= i < es.len() ==> #[trigger] next(run(Phase::Closed, es.take(i)), es[i]).1
                == SessionAction::Idle,
{
    lemma_closed_stays_closed(es);
    assert forall|i: int| 0 <= i < es.len() implies #[trigger] next(
        run(Phase::Closed, es.take(i)),
        es[i],
    ).1 == SessionAction::Idle by {
        lemma_closed_stays_closed(es.take(i));
    }
}

proof fn lemma_closed_stays_closed(es: Seq<SessionEvent>)
    ensures
        run(Phase::Closed, es) == Phase::Closed,
    decreases es.len(),
{
    if es.len() > 0 {
        lemma_closed_stays_closed(es.drop_first());
    }
}

/// A failed dial ends the session at once: both connections are closed.
pub proof fn lemma_dial_failure_closes(b: Backend)
    ensures
        next(Phase::Dialing(b), SessionEvent::DialFailed) == (Phase::Closed, SessionAction::Close),
{
}

/// A session has one backend: it is chosen once, from the sniffed bytes, and
/// a later event never replaces it.
pub proof fn lemma_backend_chosen_once(p: Phase, e: SessionEvent)
    ensures
        p matches Phase::Sniffing ==> match e {
            SessionEvent::Sniffed(peeked) => next(p, e).0 == Phase::Dialing(
                backend_for(window_of(peeked_view(peeked))),
            ),
            _ => next(p, e).0 == Phase::Closed,
        },
        forall|b: Backend| p == Phase::Dialing(b) ==> next(p, e).0 == Phase::Relaying(b) || next(p, e).0 == Phase::Closed,
        forall|b: Backend| p == Phase::Relaying(b) ==> next(p, e).0 == Phase::Closed,
{
}

} // verus!
