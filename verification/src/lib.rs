//! A fan-out chat relay: messages posted to one shared hub reach every
//! client that is subscribed at that moment.
//!
//! * [`message`]: the message value and its field limits.
//! * [`hub`]: the shared broadcast hub and the subscriptions it hands out.
//! * [`session`]: what one client's delivery loop decides, event by event.
//! * [`trace`]: a session over a whole sequence of events, and what holds of
//!   every such sequence.
//!
//! The crate root holds the two entry points of a server: [`rocket`] builds
//! the shared state at launch, [`post`] is the publish endpoint.

use crate::hub::{Hub, CAPACITY};
use crate::message::Message;
use vstd::prelude::*;

pub mod hub;
pub mod message;
pub mod session;
pub mod trace;

verus! {

/// Builds what the server shares between its routes: one hub that retains
/// [`CAPACITY`] messages and has no subscriber yet.
pub fn rocket() -> (hub: Hub)
    ensures
        hub.capacity() == CAPACITY,
{
    Hub::new()
}

/// The publish endpoint: offers `form` to every client connected at this
/// moment. Publishing to nobody is a valid no-op, so the hub's answer is
/// dropped and the caller is told nothing but that the call is over.
pub fn post(form: Message, queue: &Hub) {
    let _sent = queue.publish(form);
}

} // verus!
