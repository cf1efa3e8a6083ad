//! The hub: one bounded broadcast channel that every publisher and every
//! subscriber shares.
//!
//! The channel itself is tokio's `sync::broadcast`. This module declares its
//! two handle types, states what each call into it guarantees, and builds the
//! hub and its subscriptions on those statements. What the channel does under
//! concurrent use (which message sits at which position, when a reader has
//! fallen behind) is not visible here: the contracts say what holds of every
//! outcome.

use crate::message::Message;
use rocket::tokio::sync::broadcast::error::TryRecvError;
use rocket::tokio::sync::broadcast::{channel, Receiver, Sender};
use vstd::arithmetic::power2::{lemma2_to64, pow2};
use vstd::prelude::*;

verus! {

/// How many of the most recent messages the hub retains for readers that have
/// not caught up yet. A power of two, so that the channel's ring has exactly
/// this length.
pub const CAPACITY: usize = 1024;

/// The sending half of tokio's broadcast channel, taken as an opaque handle.
#[verifier::external_type_specification]
#[verifier::external_body]
#[verifier::reject_recursive_types(T)]
pub struct ExSender<T>(Sender<T>);

/// The receiving half of tokio's broadcast channel, taken as an opaque handle.
#[verifier::external_type_specification]
#[verifier::external_body]
#[verifier::reject_recursive_types(T)]
pub struct ExReceiver<T>(Receiver<T>);

/// How many messages the channel behind a sender retains: the length of its
/// ring.
pub uninterp spec fn retained_limit(tx: Sender<Message>) -> nat;

/// How many messages the channel behind a receiver retains: the length of
/// the ring that it reads from.
pub uninterp spec fn retained_behind(rx: Receiver<Message>) -> nat;

/// The position in the channel's stream of messages that a receiver reads
/// next. Positions count up by one per published message and wrap at the end
/// of `u64`.
pub uninterp spec fn read_cursor(rx: Receiver<Message>) -> u64;

/// Calls `broadcast::channel` and keeps the sender; the receiver that comes
/// with it is dropped at once, so the channel starts with no reader.
///
/// tokio panics on a capacity of zero or above `usize::MAX / 2`; both are
/// excluded. It rounds the capacity up to the next power of two and builds a
/// ring of that length, so only of a capacity that is a power of two can it
/// be said that the ring retains exactly as many messages as were asked for.
/// Other capacities are not admitted.
#[verifier::external_body]
fn open_channel(capacity: usize) -> (tx: Sender<Message>)
    requires
        0 < capacity <= usize::MAX / 2,
        exists|k: nat| capacity == pow2(k),
    ensures
        retained_limit(tx) == capacity,
{
    channel::<Message>(capacity).0
}

/// Calls `Sender::send`.
///
/// tokio returns the number of receivers that were registered at the moment
/// of the call, which is at least one, or, when there was none, the value
/// itself inside the error. How many there are depends on what other holders
/// of the channel do, so no count is promised.
#[verifier::external_body]
fn channel_send(tx: &Sender<Message>, msg: Message) -> (sent: Result<usize, Message>)
    ensures
        sent matches Ok(receivers) ==> receivers >= 1,
        sent matches Err(unsent) ==> unsent == msg,
{
    match tx.send(msg) {
        Ok(receivers) => Ok(receivers),
        Err(refused) => Err(refused.0),
    }
}

/// Calls `Sender::subscribe`, which registers one more receiver on the
/// sender's own channel: the new handle shares the sender's ring, so the
/// capacity behind it is the sender's. Its cursor starts at the channel's
/// tail at that moment, which only the channel knows.
///
/// tokio refuses to go beyond `usize::MAX >> 2` live receivers, more handles
/// than memory can hold.
#[verifier::external_body]
fn channel_subscribe(tx: &Sender<Message>) -> (rx: Receiver<Message>)
    ensures
        retained_behind(rx) == retained_limit(*tx),
{
    tx.subscribe()
}

/// What one read of a subscription can bring.
#[derive(Debug, PartialEq, Eq)]
pub enum Received {
    /// The next message, in the order of publication.
    Message(Message),
    /// The reader fell behind by more than the hub retains. This many
    /// messages were skipped; reading goes on with the oldest one retained.
    Lagged(u64),
    /// Nothing more will come: every publishing handle is gone.
    Closed,
}

/// Calls `Receiver::try_recv` and names the four outcomes.
///
/// In tokio's source the receiver's position moves by exactly one when a
/// value is handed out, by the reported count (never zero) when the receiver
/// has lagged, and not at all when the channel is empty. Of the position on a
/// closed channel nothing is claimed. A read never moves the receiver to
/// another channel.
#[verifier::external_body]
fn channel_try_recv(rx: &mut Receiver<Message>) -> (got: Option<Received>)
    ensures
        retained_behind(*final(rx)) == retained_behind(*old(rx)),
        got matches Some(Received::Message(_)) ==> read_cursor(*final(rx)) == read_cursor(
            *old(rx),
        ).wrapping_add(1),
        got matches Some(Received::Lagged(skipped)) ==> skipped >= 1 && read_cursor(*final(rx))
            == read_cursor(*old(rx)).wrapping_add(skipped),
        got is None ==> read_cursor(*final(rx)) == read_cursor(*old(rx)),
{
    match rx.try_recv() {
        Ok(msg) => Some(Received::Message(msg)),
        Err(TryRecvError::Lagged(skipped)) => Some(Received::Lagged(skipped)),
        Err(TryRecvError::Closed) => Some(Received::Closed),
        Err(TryRecvError::Empty) => None,
    }
}

/// Publishing found no subscriber. The message comes back unsent.
#[derive(Debug, PartialEq, Eq)]
pub struct NoSubscribers {
    pub message: Message,
}

/// Turns the channel's answer to a send into the hub's: the count as it is,
/// a refused message as [`NoSubscribers`].
pub fn publish_outcome(answer: Result<usize, Message>) -> (sent: Result<usize, NoSubscribers>)
    ensures
        sent == match answer {
            Ok(receivers) => Ok::<usize, NoSubscribers>(receivers),
            Err(unsent) => Err(NoSubscribers { message: unsent }),
        },
{
    match answer {
        Ok(receivers) => Ok(receivers),
        Err(unsent) => Err(NoSubscribers { message: unsent }),
    }
}

/// The shared hub. It holds no state of any one reader: each subscription
/// carries its own cursor.
pub struct Hub {
    tx: Sender<Message>,
}

/// One reader's handle on the hub, owned by one session.
pub struct Subscription {
    rx: Receiver<Message>,
}

impl Hub {
    /// How many messages the hub retains.
    pub closed spec fn capacity(&self) -> nat {
        retained_limit(self.tx)
    }

    /// A hub of [`CAPACITY`] retained messages, with no subscriber yet.
    pub fn new() -> (hub: Hub)
        ensures
            hub.capacity() == CAPACITY,
    {
        proof {
            lemma2_to64();
            assert(CAPACITY == pow2(10));
        }
        Hub { tx: open_channel(CAPACITY) }
    }

    /// Offers `msg` to every subscriber registered at this moment and
    /// returns how many there are. With none, the message is handed back.
    ///
    /// The call never waits for a reader: one that is too slow lags.
    pub fn publish(&self, msg: Message) -> (sent: Result<usize, NoSubscribers>)
        ensures
            sent matches Ok(receivers) ==> receivers >= 1,
            sent matches Err(nobody) ==> nobody.message == msg,
    {
        publish_outcome(channel_send(&self.tx, msg))
    }

    /// Registers a new subscriber on this hub, with this hub's retained
    /// messages behind it. It sees what is published from now on and nothing
    /// that was published before.
    pub fn subscribe(&self) -> (sub: Subscription)
        ensures
            sub.capacity() == self.capacity(),
    {
        Subscription { rx: channel_subscribe(&self.tx) }
    }
}

impl Subscription {
    /// How many messages are retained behind this subscription: falling
    /// further behind than this is a lag.
    pub closed spec fn capacity(&self) -> nat {
        retained_behind(self.rx)
    }

    /// The position that this subscription reads next.
    pub closed spec fn cursor(&self) -> u64 {
        read_cursor(self.rx)
    }

    /// Reads without waiting. `None` means that nothing is pending.
    ///
    /// A message moves the cursor by one; a lag moves it by the number of
    /// messages skipped, which is never zero; an empty read leaves it. The
    /// capacity behind the subscription is fixed.
    pub fn try_next(&mut self) -> (got: Option<Received>)
        ensures
            final(self).capacity() == old(self).capacity(),
            got matches Some(Received::Message(_)) ==> final(self).cursor() == old(
                self,
            ).cursor().wrapping_add(1),
            got matches Some(Received::Lagged(skipped)) ==> skipped >= 1 && final(self).cursor()
                == old(self).cursor().wrapping_add(skipped),
            got is None ==> final(self).cursor() == old(self).cursor(),
    {
        channel_try_recv(&mut self.rx)
    }

    /// Gives up the handle for the channel's own receiver, for a caller that
    /// has to wait on it.
    pub fn into_receiver(self) -> (rx: Receiver<Message>)
        ensures
            read_cursor(rx) == self.cursor(),
            retained_behind(rx) == self.capacity(),
    {
        self.rx
    }
}

} // verus!
