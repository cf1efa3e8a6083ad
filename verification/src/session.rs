//! The stream session: what one connected client's delivery loop decides.
//!
//! A session waits for whichever comes first, the next read of its
//! subscription or the process-wide shutdown signal, and is told the outcome
//! as a [`SessionEvent`]. [`Session::step`] answers with what to do next.
//! The waiting itself, and the sending to the client, belong to the caller.

use crate::hub::Received;
use crate::message::Message;
use crate::trace::{deliveries, phase_after};
use vstd::prelude::*;

verus! {

/// Why a session is over.
#[derive(Debug, Clone, Copy, PartialEq, Eq, Structural)]
pub enum EndReason {
    /// The hub was closed: nobody can publish any more.
    Closed,
    /// The process is shutting down.
    Shutdown,
    /// The client went away: a delivery could not be sent.
    Disconnected,
}

/// Where a session stands.
#[derive(Debug, Clone, Copy, PartialEq, Eq, Structural)]
pub enum Phase {
    /// Relaying messages to the client.
    Streaming,
    /// Over, for good. A new connection is a new session.
    Ended(EndReason),
}

/// What a session is told after each wait.
#[derive(Debug, PartialEq, Eq)]
pub enum SessionEvent {
    /// The subscription was read first, with this outcome.
    Received(Received),
    /// The shutdown signal resolved first.
    Shutdown,
    /// The delivery asked for by the last step failed.
    Disconnected,
}

/// What a session asks of its caller.
#[derive(Debug, PartialEq, Eq)]
pub enum Action {
    /// Send this message to the client as one event, then wait again.
    Deliver(Message),
    /// Nothing to send: wait again.
    Wait,
    /// Close the stream and drop the subscription.
    Stop,
}

impl SessionEvent {
    /// The reason with which this event ends a streaming session, if it ends
    /// one. A lag does not.
    pub open spec fn ends_with(self) -> Option<EndReason> {
        match self {
            SessionEvent::Received(Received::Closed) => Some(EndReason::Closed),
            SessionEvent::Shutdown => Some(EndReason::Shutdown),
            SessionEvent::Disconnected => Some(EndReason::Disconnected),
            SessionEvent::Received(Received::Message(_)) => None,
            SessionEvent::Received(Received::Lagged(_)) => None,
        }
    }

    /// The message that this event carries, if it carries one.
    pub open spec fn payload(self) -> Option<Message> {
        match self {
            SessionEvent::Received(Received::Message(msg)) => Some(msg),
            _ => None,
        }
    }
}

/// The phase that follows `phase` on `event`. An ended session stays as it
/// is, with the reason it ended for.
pub open spec fn next_phase(phase: Phase, event: SessionEvent) -> Phase {
    match (phase, event.ends_with()) {
        (Phase::Streaming, Some(reason)) => Phase::Ended(reason),
        _ => phase,
    }
}

/// What a session in `phase` asks for on `event`: a streaming session
/// delivers each message it is handed, waits again after a lag, and stops on
/// whatever ends it; an ended session only ever stops.
pub open spec fn action_for(phase: Phase, event: SessionEvent) -> Action {
    match phase {
        Phase::Ended(_) => Action::Stop,
        Phase::Streaming => match event {
            SessionEvent::Received(Received::Message(msg)) => Action::Deliver(msg),
            SessionEvent::Received(Received::Lagged(_)) => Action::Wait,
            SessionEvent::Received(Received::Closed) => Action::Stop,
            SessionEvent::Shutdown => Action::Stop,
            SessionEvent::Disconnected => Action::Stop,
        },
    }
}

/// One client's session.
pub struct Session {
    phase: Phase,
}

impl View for Session {
    type V = Phase;

    closed spec fn view(&self) -> Phase {
        self.phase
    }
}

impl Session {
    /// A session that has just obtained its subscription.
    pub fn new() -> (session: Session)
        ensures
            session@ == Phase::Streaming,
    {
        Session { phase: Phase::Streaming }
    }

    /// Where the session stands.
    pub fn phase(&self) -> (phase: Phase)
        ensures
            phase == self@,
    {
        self.phase
    }

    /// Takes one event and says what to do.
    pub fn step(&mut self, event: SessionEvent) -> (action: Action)
        ensures
            final(self)@ == next_phase(old(self)@, event),
            action == action_for(old(self)@, event),
    {
        match self.phase {
            Phase::Ended(_) => Action::Stop,
            Phase::Streaming => match event {
                SessionEvent::Received(Received::Message(msg)) => Action::Deliver(msg),
                SessionEvent::Received(Received::Lagged(_)) => Action::Wait,
                SessionEvent::Received(Received::Closed) => {
                    self.phase = Phase::Ended(EndReason::Closed);
                    Action::Stop
                },
                SessionEvent::Shutdown => {
                    self.phase = Phase::Ended(EndReason::Shutdown);
                    Action::Stop
                },
                SessionEvent::Disconnected => {
                    self.phase = Phase::Ended(EndReason::Disconnected);
                    Action::Stop
                },
            },
        }
    }

    /// Takes a recorded run of events, one step each, and returns the
    /// messages to deliver, in order.
    pub fn relay(&mut self, events: Vec<SessionEvent>) -> (out: Vec<Message>)
        ensures
            final(self)@ == phase_after(old(self)@, events@),
            out@ == deliveries(old(self)@, events@),
    {
        let ghost start = self@;
        let ghost all = events@;
        let mut out: Vec<Message> = Vec::new();
        for event in it: events
            invariant
                it.seq() == all,
                self@ == phase_after(start, all.take(it.index() as int)),
                out@ == deliveries(start, all.take(it.index() as int)),
        {
            proof {
                let taken = all.take(it.index() + 1);
                assert(taken.drop_last() =~= all.take(it.index() as int));
                assert(taken.last() == event);
            }
            match self.step(event) {
                Action::Deliver(msg) => {
                    out.push(msg);
                },
                _ => {},
            }
        }
        proof {
            assert(all.take(all.len() as int) =~= all);
        }
        out
    }
}

} // verus!
