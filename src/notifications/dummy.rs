//! A fixture back end: it publishes nothing and yields a fixed list of events to listeners.
use vstd::prelude::*;

use crate::events::Event;
use crate::notifications::{NotificationError, Notifications, Publication};

verus! {

/// The configuration of the fixture back end; it has none.
#[derive(Clone, Debug, Default)]
pub struct Configuration;

/// A notifier that only yields predefined events.
pub struct Notifier<T> {
    events: Vec<T>,
    log: Ghost<Seq<Publication>>,
}

impl<T: Clone> Notifier<T> {
    /// The events that every listener receives.
    pub closed spec fn events(&self) -> Seq<T> {
        self.events@
    }

    /// Creates a notifier without events.
    pub fn new(configuration: &Configuration) -> (r: Result<Notifier<T>, NotificationError>)
        ensures
            r matches Ok(n) && n.events() == Seq::<T>::empty() && n.requests() == Seq::<
                Publication,
            >::empty(),
    {
        Ok(Notifier { events: Vec::new(), log: Ghost(Seq::empty()) })
    }

    /// Creates a notifier that yields `events` to every listener.
    pub fn new_with_events(events: Vec<T>) -> (r: Notifier<T>)
        ensures
            r.events() == events@,
            r.requests() == Seq::<Publication>::empty(),
    {
        Notifier { events, log: Ghost(Seq::empty()) }
    }

    /// Every publication asked of this notifier so far, in order, with its answer.
    pub closed spec fn requests(&self) -> Seq<Publication> {
        self.log@
    }

    /// Publishing is not supported by the fixture: it always fails with a driver error, and what
    /// listeners receive stays the same.
    pub fn publish(&mut self, channel: &str, event: &Event) -> (r: Result<(), NotificationError>)
        ensures
            r matches Err(NotificationError::Driver(m)) && m@ == "not implemented"@,
            final(self).events() == old(self).events(),
            final(self).requests() == old(self).requests().push((channel@, *event, r)),
    {
        let r = Err(NotificationError::Driver("not implemented".to_owned()));
        self.log = Ghost(self.log@.push((channel@, *event, r)));
        r
    }

    /// Begins listening on a channel: the predefined events, whatever the channel and whatever
    /// was sent.
    pub fn listen(&self, channel: &str) -> (r: Result<Vec<T>, NotificationError>)
        ensures
            r matches Ok(v) && v@.len() == self.events().len() && forall|i: int|
                0 <= i < v@.len() ==> cloned::<T>(#[trigger] self.events()[i], v@[i]),
    {
        Ok(self.events.clone())
    }
}

impl Notifications for Notifier<Event> {
    open spec fn published(&self) -> Seq<Publication> {
        self.requests()
    }

    /// Always fails: see [`Notifier::publish`].
    fn send(&mut self, channel: &str, event: &Event) -> (r: Result<(), NotificationError>) {
        self.publish(channel, event)
    }
}

} // verus!
