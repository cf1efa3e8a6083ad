//! A session over a whole sequence of events: where it ends up, what it
//! delivers, and what holds of both for every sequence.

use crate::hub::Received;
use crate::message::Message;
use crate::session::{action_for, next_phase, Action, EndReason, Phase, SessionEvent};
use vstd::prelude::*;

verus! {

/// The phase of a session that started in `phase` and took `events` one
/// after the other.
pub open spec fn phase_after(phase: Phase, events: Seq<SessionEvent>) -> Phase
    decreases events.len(),
{
    if events.len() == 0 {
        phase
    } else {
        next_phase(phase_after(phase, events.drop_last()), events.last())
    }
}

/// The messages that a session which started in `phase` asked to deliver
/// while it took `events`, in the order in which it asked.
pub open spec fn deliveries(phase: Phase, events: Seq<SessionEvent>) -> Seq<Message>
    decreases events.len(),
{
    if events.len() == 0 {
        Seq::empty()
    } else {
        let earlier = deliveries(phase, events.drop_last());
        match action_for(phase_after(phase, events.drop_last()), events.last()) {
            Action::Deliver(msg) => earlier.push(msg),
            _ => earlier,
        }
    }
}

/// The messages that `events` carry, in their order.
pub open spec fn payloads(events: Seq<SessionEvent>) -> Seq<Message>
    decreases events.len(),
{
    if events.len() == 0 {
        Seq::empty()
    } else {
        match events.last().payload() {
            Some(msg) => payloads(events.drop_last()).push(msg),
            None => payloads(events.drop_last()),
        }
    }
}

/// How many events come before the first one that ends a session: all of
/// them, if none does.
pub open spec fn live_len(events: Seq<SessionEvent>) -> nat
    decreases events.len(),
{
    if events.len() == 0 || events[0].ends_with() is Some {
        0
    } else {
        1 + live_len(events.skip(1))
    }
}

/// Whether the first `cut` events of `events` end no session, and the one
/// after them, if there is one, does.
pub open spec fn first_end_at(events: Seq<SessionEvent>, cut: int) -> bool {
    &&& 0 <= cut <= events.len()
    &&& forall|i: int| 0 <= i < cut ==> (#[trigger] events[i]).ends_with() is None
    &&& cut < events.len() ==> events[cut].ends_with() is Some
}

/// [`live_len`] is the one place where [`first_end_at`] holds.
pub proof fn live_len_is_the_first_end(events: Seq<SessionEvent>)
    ensures
        first_end_at(events, live_len(events) as int),
        forall|cut: int| first_end_at(events, cut) ==> cut == live_len(events),
    decreases events.len(),
{
    if events.len() == 0 || events[0].ends_with() is Some {
    } else {
        let rest = events.skip(1);
        live_len_is_the_first_end(rest);
        let cut = live_len(events) as int;
        assert forall|i: int| 0 <= i < cut implies (#[trigger] events[i]).ends_with() is None by {
            if i > 0 {
                assert(events[i] == rest[i - 1]);
            }
        }
        if cut < events.len() {
            assert(events[cut] == rest[cut - 1]);
        }
    }
    let here = live_len(events) as int;
    assert forall|cut: int| first_end_at(events, cut) implies cut == here by {
        if cut < here {
            assert(events[cut].ends_with() is None);
        }
        if here < cut {
            assert(events[here].ends_with() is None);
        }
    }
}

/// Taking `first` and then `second` is taking the two in one run: the phase
/// is the same, and the deliveries of the two parts follow one another.
pub proof fn run_splits(phase: Phase, first: Seq<SessionEvent>, second: Seq<SessionEvent>)
    ensures
        phase_after(phase, first + second) == phase_after(phase_after(phase, first), second),
        deliveries(phase, first + second) == deliveries(phase, first) + deliveries(
            phase_after(phase, first),
            second,
        ),
    decreases second.len(),
{
    if second.len() == 0 {
        assert(first + second =~= first);
    } else {
        run_splits(phase, first, second.drop_last());
        assert((first + second).drop_last() =~= first + second.drop_last());
        assert((first + second).last() == second.last());
    }
}

/// An ended session stays ended, for the reason it ended for, and delivers
/// nothing, whatever it is told.
pub proof fn ended_session_stays_ended(reason: EndReason, events: Seq<SessionEvent>)
    ensures
        phase_after(Phase::Ended(reason), events) == Phase::Ended(reason),
        deliveries(Phase::Ended(reason), events) == Seq::<Message>::empty(),
    decreases events.len(),
{
    if events.len() > 0 {
        ended_session_stays_ended(reason, events.drop_last());
    }
}

/// What a streaming session does with events of which the first `cut` end
/// nothing and the next one, if any, ends it.
proof fn delivers_up_to(events: Seq<SessionEvent>, cut: int)
    requires
        first_end_at(events, cut),
    ensures
        deliveries(Phase::Streaming, events) == payloads(events.take(cut)),
        phase_after(Phase::Streaming, events) == if cut == events.len() {
            Phase::Streaming
        } else {
            Phase::Ended(events[cut].ends_with()->0)
        },
    decreases events.len(),
{
    if events.len() == 0 {
        assert(events.take(cut) =~= events);
    } else {
        let front = events.drop_last();
        if cut == events.len() {
            delivers_up_to(front, cut - 1);
            assert(front.take(cut - 1) =~= front);
            assert(events.take(cut) =~= events);
        } else {
            delivers_up_to(front, cut);
            assert(front.take(cut) =~= events.take(cut));
        }
    }
}

/// A streaming session delivers exactly the messages it is handed before the
/// first event that ends it: each one once, none reordered, none added, none
/// left out. It is still streaming if no event ended it, and otherwise has
/// ended with the reason of the first event that did.
pub proof fn delivers_in_order_until_the_end(events: Seq<SessionEvent>)
    ensures
        deliveries(Phase::Streaming, events) == payloads(events.take(live_len(events) as int)),
        phase_after(Phase::Streaming, events) == if live_len(events) == events.len() {
            Phase::Streaming
        } else {
            Phase::Ended(events[live_len(events) as int].ends_with()->0)
        },
{
    live_len_is_the_first_end(events);
    delivers_up_to(events, live_len(events) as int);
}

/// The events that hand `messages` to a session, one after the other, with
/// nothing in between.
pub open spec fn handing(messages: Seq<Message>) -> Seq<SessionEvent> {
    Seq::new(messages.len(), |i: int| SessionEvent::Received(Received::Message(messages[i])))
}

/// A streaming session that is handed messages and nothing else delivers
/// every one of them, in the order in which they came, and goes on
/// streaming.
pub proof fn every_message_is_delivered(messages: Seq<Message>)
    ensures
        deliveries(Phase::Streaming, handing(messages)) == messages,
        phase_after(Phase::Streaming, handing(messages)) == Phase::Streaming,
    decreases messages.len(),
{
    if messages.len() > 0 {
        every_message_is_delivered(messages.drop_last());
        assert(handing(messages).drop_last() =~= handing(messages.drop_last()));
        assert(messages.drop_last().push(messages.last()) =~= messages);
    } else {
        assert(messages =~= Seq::<Message>::empty());
    }
}

/// A lag is not fatal and leaves no mark: a session that is told of a lag at
/// any point ends up where it would have without it, and delivers the same
/// messages in the same order.
pub proof fn lag_changes_nothing(
    phase: Phase,
    before: Seq<SessionEvent>,
    skipped: u64,
    after: Seq<SessionEvent>,
)
    ensures
        phase_after(phase, before.push(SessionEvent::Received(Received::Lagged(skipped))) + after)
            == phase_after(phase, before + after),
        deliveries(phase, before.push(SessionEvent::Received(Received::Lagged(skipped))) + after)
            == deliveries(phase, before + after),
{
    let lagged = before.push(SessionEvent::Received(Received::Lagged(skipped)));
    assert(lagged.drop_last() =~= before);
    run_splits(phase, lagged, after);
    run_splits(phase, before, after);
}

/// Once an event has ended a session, the session stays ended and delivers
/// nothing more: neither on the event that ended it nor on anything that
/// follows.
pub proof fn nothing_after_the_end(
    phase: Phase,
    before: Seq<SessionEvent>,
    end: SessionEvent,
    after: Seq<SessionEvent>,
)
    requires
        end.ends_with() is Some,
    ensures
        phase_after(phase, before.push(end) + after) is Ended,
        phase_after(phase, before.push(end) + after) == phase_after(phase, before.push(end)),
        deliveries(phase, before.push(end) + after) == deliveries(phase, before),
{
    let ended = before.push(end);
    assert(ended.drop_last() =~= before);
    run_splits(phase, ended, after);
    ended_session_stays_ended(phase_after(phase, ended)->0, after);
    assert(deliveries(phase, before) + Seq::<Message>::empty() =~= deliveries(phase, before));
}

/// Shutdown ends every session in one step, whatever it was doing: each one
/// is over after the step and is told to stop, with nothing to deliver.
pub proof fn shutdown_ends_every_session(sessions: Seq<Phase>)
    ensures
        forall|i: int|
            0 <= i < sessions.len() ==> {
                &&& next_phase(#[trigger] sessions[i], SessionEvent::Shutdown) is Ended
                &&& action_for(sessions[i], SessionEvent::Shutdown) == Action::Stop
            },
{
}

} // verus!
