//! The events that are delivered to the members of a family.
use vstd::prelude::*;

use crate::entities::{Allowance, Request, User, UserDescription};
use crate::uid::UID;

verus! {

/// Something that happened, sent over the notification channel of each user it concerns.
#[derive(Clone, Debug, PartialEq)]
pub enum Event {
    /// An empty ping message.
    Ping,
    /// The user has logged out; live connections of the user are to be closed.
    Logout,
    /// The allowance for a user was updated by the parent `by`.
    AllowanceUpdated { allowance: Allowance, by: UID },
    /// A family member was invited by the parent `by`.
    FamilyMemberInvited { user: UserDescription, by: UID },
    /// A family member was added by the parent `by`.
    FamilyMemberAdded { user: User, by: UID },
    /// A family member was removed by the parent `by`.
    FamilyMemberRemoved { user: User, by: UID },
    /// A request was made by the child `by`.
    RequestCreated { request: Request, by: UID },
    /// A request was granted by the parent `by`.
    RequestGranted { request: Request, by: UID },
    /// A request was declined by the parent `by`.
    RequestDeclined { request: Request, by: UID },
}

impl Event {
    /// Whether this is the forced-logout event.
    pub fn is_logout(&self) -> (r: bool)
        ensures
            r == (*self is Logout),
    {
        matches!(self, Event::Logout)
    }
}

} // verus!
