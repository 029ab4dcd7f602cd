//! Choosing who is told of an event, and handing the event to each of them.
use vstd::prelude::*;

use crate::entities::User;
use crate::events::Event;
use crate::notifications::{NotificationError, Notifications};
use crate::role::Role;
use crate::uid::{uid_text, UID};

verus! {

/// An event together with the rule that says who receives it.
#[derive(Clone, Debug, PartialEq)]
pub enum Notify {
    /// Sends a notification to a single user.
    Member { event: Event, user: UID },
    /// Sends a notification to all family members.
    Family { event: Event, family: UID },
    /// Notifies a single family member and the parents of the family.
    MemberAndParents { event: Event, uid: UID, family: UID },
    /// Sends a notification to all parents of the family.
    Parents { event: Event, family: UID },
}

/// The event of a notification.
pub open spec fn event_of(target: Notify) -> Event {
    match target {
        Notify::Member { event, .. } => event,
        Notify::Family { event, .. } => event,
        Notify::MemberAndParents { event, .. } => event,
        Notify::Parents { event, .. } => event,
    }
}

/// Whether a member of the target's family receives the event, when `from` caused it.
pub open spec fn wanted(target: Notify, u: User, from: UID) -> bool {
    match target {
        Notify::Member { .. } => false,
        Notify::Family { .. } => u.uid != from,
        Notify::MemberAndParents { uid, .. } => (u.uid == uid || u.role == Role::Parent) && u.uid
            != from,
        Notify::Parents { .. } => u.role == Role::Parent && u.uid != from,
    }
}

/// The identifiers of the members that receive the event, in the order of `members`.
pub open spec fn chosen(target: Notify, members: Seq<User>, from: UID) -> Seq<UID>
    decreases members.len(),
{
    if members.len() == 0 {
        Seq::empty()
    } else {
        let rest = chosen(target, members.drop_last(), from);
        if wanted(target, members.last(), from) {
            rest.push(members.last().uid)
        } else {
            rest
        }
    }
}

/// Who receives the event: the addressee of a direct notification, else the chosen members of
/// the family, or no one where the members could not be read.
pub open spec fn recipients(target: Notify, members: Option<Seq<User>>, from: UID) -> Seq<UID> {
    match target {
        Notify::Member { user, .. } => seq![user],
        _ => match members {
            Some(ms) => chosen(target, ms, from),
            None => Seq::empty(),
        },
    }
}

/// The members of a family as a sequence, where they could be read.
pub open spec fn members_view(members: Option<Vec<User>>) -> Option<Seq<User>> {
    match members {
        Some(v) => Some(v@),
        None => None,
    }
}

/// A user is a recipient exactly when some member with that identifier is wanted.
pub proof fn lemma_chosen_contains(target: Notify, members: Seq<User>, from: UID, x: UID)
    ensures
        chosen(target, members, from).contains(x) <==> exists|i: int|
            0 <= i < members.len() && wanted(target, #[trigger] members[i], from)
                && members[i].uid == x,
    decreases members.len(),
{
    if members.len() > 0 {
        let init = members.drop_last();
        lemma_chosen_contains(target, init, from, x);
        let rest = chosen(target, init, from);
        if chosen(target, members, from).contains(x) {
            if rest.contains(x) {
                let i = choose|i: int|
                    0 <= i < init.len() && wanted(target, #[trigger] init[i], from) && init[i].uid
                        == x;
                assert(members[i] == init[i]);
            } else {
                let k = choose|k: int|
                    0 <= k < chosen(target, members, from).len() && chosen(
                        target,
                        members,
                        from,
                    )[k] == x;
                assert(wanted(target, members.last(), from));
                assert(rest.push(members.last().uid)[k] == x);
                assert(k == rest.len());
                assert(members[members.len() - 1] == members.last());
            }
        }
        if exists|i: int|
            0 <= i < members.len() && wanted(target, #[trigger] members[i], from) && members[i].uid
                == x {
            let i = choose|i: int|
                0 <= i < members.len() && wanted(target, #[trigger] members[i], from)
                    && members[i].uid == x;
            if i < members.len() - 1 {
                assert(init[i] == members[i]);
                assert(rest.contains(x));
                let k = choose|k: int| 0 <= k < rest.len() && rest[k] == x;
                if wanted(target, members.last(), from) {
                    assert(rest.push(members.last().uid)[k] == x);
                }
            } else {
                let r = rest.push(members.last().uid);
                assert(r[r.len() - 1] == x);
            }
        }
    }
}

/// A direct notification always reaches its addressee, also when the addressee caused it.
pub proof fn lemma_member_self_inclusion(
    event: Event,
    user: UID,
    members: Option<Seq<User>>,
    from: UID,
)
    ensures
        recipients(Notify::Member { event, user }, members, from) == seq![user],
        recipients(Notify::Member { event, user }, members, user).contains(user),
{
    assert(seq![user][0] == user);
}

/// In a family of one parent and two children, a family-wide event caused by the parent reaches
/// exactly the two children, and an event for the parents caused by a child reaches exactly the
/// parent.
pub proof fn lemma_family_of_three(
    event: Event,
    family: UID,
    parent: User,
    first: User,
    second: User,
    members: Seq<User>,
)
    requires
        parent.role == Role::Parent,
        first.role == Role::Child,
        second.role == Role::Child,
        parent.uid != first.uid,
        parent.uid != second.uid,
        members.contains(parent),
        members.contains(first),
        members.contains(second),
        forall|i: int|
            0 <= i < members.len() ==> #[trigger] members[i] == parent || members[i] == first
                || members[i] == second,
    ensures
        recipients(Notify::Family { event, family }, Some(members), parent.uid).to_set() =~= set![
            first.uid,
            second.uid,
        ],
        recipients(Notify::Parents { event, family }, Some(members), first.uid).to_set() =~= set![
            parent.uid,
        ],
{
    let fam = Notify::Family { event, family };
    let par = Notify::Parents { event, family };
    assert forall|x: UID|
        #[trigger] chosen(fam, members, parent.uid).contains(x) <==> (x == first.uid || x
            == second.uid) by {
        lemma_chosen_contains(fam, members, parent.uid, x);
        if x == first.uid {
            let i = choose|i: int| 0 <= i < members.len() && members[i] == first;
            assert(wanted(fam, members[i], parent.uid));
        }
        if x == second.uid {
            let i = choose|i: int| 0 <= i < members.len() && members[i] == second;
            assert(wanted(fam, members[i], parent.uid));
        }
    }
    assert forall|x: UID|
        #[trigger] chosen(par, members, first.uid).contains(x) <==> x == parent.uid by {
        lemma_chosen_contains(par, members, first.uid, x);
        if x == parent.uid {
            let i = choose|i: int| 0 <= i < members.len() && members[i] == parent;
            assert(wanted(par, members[i], first.uid));
        }
    }
}

/// The outcome of publishing an event on one recipient's channel.
#[derive(Debug)]
pub struct Delivery {
    /// The channel: the recipient's identifier as text.
    pub channel: String,
    /// What the back end answered.
    pub result: Result<(), NotificationError>,
}

impl Notify {
    /// The event to send.
    pub fn event(&self) -> (r: &Event)
        ensures
            *r == event_of(*self),
    {
        match self {
            Notify::Member { event, .. } => event,
            Notify::Family { event, .. } => event,
            Notify::MemberAndParents { event, .. } => event,
            Notify::Parents { event, .. } => event,
        }
    }

    /// The family whose members must be read to choose the recipients, if any.
    pub fn family(&self) -> (r: Option<UID>)
        ensures
            r == match *self {
                Notify::Member { .. } => None,
                Notify::Family { family, .. } => Some(family),
                Notify::MemberAndParents { family, .. } => Some(family),
                Notify::Parents { family, .. } => Some(family),
            },
    {
        match self {
            Notify::Member { .. } => None,
            Notify::Family { family, .. } => Some(*family),
            Notify::MemberAndParents { family, .. } => Some(*family),
            Notify::Parents { family, .. } => Some(*family),
        }
    }

    /// Whether a member of the family receives this notification.
    fn wants(&self, u: &User, from: &UID) -> (r: bool)
        ensures
            r == wanted(*self, *u, *from),
    {
        match self {
            Notify::Member { .. } => false,
            Notify::Family { .. } => u.uid != *from,
            Notify::MemberAndParents { uid, .. } => (u.uid == *uid || u.role == Role::Parent)
                && u.uid != *from,
            Notify::Parents { .. } => u.role == Role::Parent && u.uid != *from,
        }
    }

    /// The identifiers of the members of the family that receive this notification.
    fn members(&self, members: &Vec<User>, from: &UID) -> (r: Vec<UID>)
        ensures
            r@ == chosen(*self, members@, *from),
    {
        let mut r: Vec<UID> = Vec::new();
        let mut i: usize = 0;
        while i < members.len()
            invariant
                i <= members@.len(),
                r@ == chosen(*self, members@.subrange(0, i as int), *from),
            decreases members@.len() - i,
        {
            let ghost before = members@.subrange(0, i as int);
            assert(members@.subrange(0, i + 1).drop_last() =~= before);
            if self.wants(&members[i], from) {
                r.push(members[i].uid);
            }
            i = i + 1;
        }
        assert(members@.subrange(0, members@.len() as int) =~= members@);
        r
    }

    /// Lists all users that should be notified, given the members of the family (`None` where
    /// they could not be read). `from` is the user that caused the event.
    pub fn users(&self, members: &Option<Vec<User>>, from: &UID) -> (r: Vec<UID>)
        ensures
            r@ == recipients(*self, members_view(*members), *from),
    {
        match self {
            Notify::Member { user, .. } => {
                let mut r: Vec<UID> = Vec::new();
                r.push(*user);
                assert(r@ =~= seq![*user]);
                r
            },
            _ => match members {
                Some(ms) => self.members(ms, from),
                None => Vec::new(),
            },
        }
    }

    /// Publishes the event once on the channel of each recipient (the recipient's identifier as
    /// text), in order, and nowhere else: the back end is asked exactly these publications. A
    /// failed publication does not stop the others, and no failure reaches the caller: the
    /// returned list gives, per recipient, the channel and what the back end answered.
    pub fn send<N: Notifications>(
        &self,
        backend: &mut N,
        members: &Option<Vec<User>>,
        from: &UID,
    ) -> (r: Vec<Delivery>)
        ensures
            r@.len() == recipients(*self, members_view(*members), *from).len(),
            final(backend).published().len() == old(backend).published().len() + r@.len(),
            final(backend).published().subrange(0, old(backend).published().len() as int)
                == old(backend).published(),
            forall|i: int|
                0 <= i < r@.len() ==> (#[trigger] r@[i]).channel@ == uid_text(
                    recipients(*self, members_view(*members), *from)[i].value,
                ) && final(backend).published()[old(backend).published().len() + i] == (
                    r@[i].channel@,
                    event_of(*self),
                    r@[i].result,
                ),
    {
        let users = self.users(members, from);
        let event = self.event();
        let ghost before = backend.published();
        let mut r: Vec<Delivery> = Vec::new();
        let mut i: usize = 0;
        while i < users.len()
            invariant
                i <= users@.len(),
                users@ == recipients(*self, members_view(*members), *from),
                *event == event_of(*self),
                r@.len() == i,
                backend.published().len() == before.len() + i,
                backend.published().subrange(0, before.len() as int) == before,
                forall|j: int|
                    0 <= j < i ==> (#[trigger] r@[j]).channel@ == uid_text(users@[j].value)
                        && backend.published()[before.len() + j] == (
                        r@[j].channel@,
                        event_of(*self),
                        r@[j].result,
                    ),
            decreases users@.len() - i,
        {
            let channel = users[i].to_string();
            let ghost prev = backend.published();
            let result = backend.send(channel.as_str(), event);
            assert(backend.published().subrange(0, before.len() as int) =~= prev.subrange(
                0,
                before.len() as int,
            ));
            r.push(Delivery { channel, result });
            i = i + 1;
        }
        r
    }
}

} // verus!
