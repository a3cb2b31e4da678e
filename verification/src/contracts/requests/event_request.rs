//! The body of a request to handle an event.
use crate::daemon_core::events::AudioEventType;
use vstd::prelude::*;

verus! {

/// A request to handle `event`.
pub struct EventRequest {
    pub event: AudioEventType,
}

} // verus!
