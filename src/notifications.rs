//! Publish/subscribe back ends that carry events to per-user channels.
use vstd::prelude::*;

use crate::events::Event;

pub mod dummy;
pub mod redis;

verus! {

/// An error of a notification back end.
#[derive(Clone, Debug, PartialEq)]
pub enum NotificationError {
    /// An error from the underlying driver.
    Driver(String),
    /// An error from serialisation or deserialisation.
    Serialization(String),
}

/// One publication asked of a back end: the channel, the event, and what the back end answered.
pub type Publication = (Seq<char>, Event, Result<(), NotificationError>);

/// A back end that publishes events on named channels.
pub trait Notifications {
    /// Every publication asked of this back end so far, in order, with its answer. A verified
    /// implementation keeps this record; the default leaves it unknown.
    open spec fn published(&self) -> Seq<Publication> {
        arbitrary()
    }

    /// Publishes an event on a channel; the request and its answer join the record.
    fn send(&mut self, channel: &str, event: &Event) -> (r: Result<(), NotificationError>)
        ensures
            final(self).published() == old(self).published().push((channel@, *event, r)),
    ;
}

} // verus!
