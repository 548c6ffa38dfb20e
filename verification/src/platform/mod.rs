//! Platform backends: each converts its platform's native event model into
//! the [`crate::keys`] vocabulary, and back for sending.
//!
//! The logic of every backend is here, whatever the platform the crate is
//! built for; the backends that run it pick theirs by target OS.

pub mod linux;
pub mod windows;

use vstd::prelude::*;

use crate::error::Error;
use crate::keys::InputKeyEvent;

verus! {

/// What waiting on a backend's event channel produced.
pub enum Received {
    /// The next event.
    Event(InputKeyEvent),
    /// This many events were dropped because the consumer fell behind.
    Lagged(u64),
    /// Every sender is gone.
    Closed,
}

/// What the listener does with what it received: return an event or an
/// error (`Some`), or keep waiting (`None`, after dropped events).
pub open spec fn listener_step(received: Received) -> Option<Result<InputKeyEvent, Error>> {
    match received {
        Received::Event(event) => Some(Ok(event)),
        Received::Lagged(_) => None,
        Received::Closed => Some(Err(Error::EventSourceClosed)),
    }
}

/// Decide what the listener does with what it received from the event
/// channel: hand the event out, keep waiting after a lag, or report that
/// the event source closed.
pub fn next_event_step(received: Received) -> (step: Option<Result<InputKeyEvent, Error>>)
    ensures
        step == listener_step(received),
{
    match received {
        Received::Event(event) => Some(Ok(event)),
        Received::Lagged(_) => None,
        Received::Closed => Some(Err(Error::EventSourceClosed)),
    }
}

/// The listener keeps waiting after a lag and only then: it hands every
/// event out unchanged, and reports an error only when the channel
/// closed, and then `EventSourceClosed`.
pub proof fn lemma_listener_waits_only_after_lag(received: Received)
    ensures
        listener_step(received) is None <==> received is Lagged,
        listener_step(received) matches Some(Ok(event)) ==> received == Received::Event(event),
        received matches Received::Event(event) ==> listener_step(received) == Some(
            Ok::<InputKeyEvent, Error>(event),
        ),
        listener_step(received) matches Some(Err(error)) ==> received is Closed && error
            == Error::EventSourceClosed,
        received is Closed ==> listener_step(received) matches Some(Err(_)),
{
}

} // verus!
