//! The records of the household that events carry and recipients are chosen from.
use vstd::prelude::*;

use crate::currency_format::CurrencyFormat;
use crate::email::EmailAddress;
use crate::link::URL;
use crate::role::Role;
use crate::schedule::Schedule;
use crate::timestamp::Timestamp;
use crate::transaction_type::TransactionType;
use crate::uid::UID;

verus! {

/// A member of a family.
#[derive(Clone, Debug, PartialEq)]
pub struct User {
    /// The unique identifier.
    pub uid: UID,
    /// The role of this user.
    pub role: Role,
    /// The user name.
    pub name: String,
    /// The user email address, if any validated email address exists.
    pub email: Option<EmailAddress>,
    /// The unique identifier of the family.
    pub family_uid: UID,
}

impl User {
    /// This user with every field that `description` gives replaced by that of `description`.
    pub fn merge(self, description: UserDescription) -> (r: User)
        ensures
            r.uid == self.uid,
            Some(r.role) == overlay(Some(self.role), description.role),
            Some(r.name) == overlay(Some(self.name), description.name),
            Some(r.email) == overlay(Some(self.email), description.email),
            Some(r.family_uid) == overlay(Some(self.family_uid), description.family_uid),
    {
        User {
            uid: self.uid,
            role: match description.role {
                Some(v) => v,
                None => self.role,
            },
            name: match description.name {
                Some(v) => v,
                None => self.name,
            },
            email: match description.email {
                Some(v) => v,
                None => self.email,
            },
            family_uid: match description.family_uid {
                Some(v) => v,
                None => self.family_uid,
            },
        }
    }
}

/// Some of the fields of a user; a field left out is `None`.
#[derive(Clone, Debug, PartialEq, Default)]
pub struct UserDescription {
    pub role: Option<Role>,
    pub name: Option<String>,
    pub email: Option<Option<EmailAddress>>,
    pub family_uid: Option<UID>,
}

/// The field of `b` where it is given, else that of `a`.
pub open spec fn overlay<T>(a: Option<T>, b: Option<T>) -> Option<T> {
    if b is Some {
        b
    } else {
        a
    }
}

/// Takes the field of `b` where it is given, else that of `a`.
fn pick<T>(a: Option<T>, b: Option<T>) -> (r: Option<T>)
    ensures
        r == overlay(a, b),
{
    match b {
        Some(v) => Some(v),
        None => a,
    }
}

impl UserDescription {
    /// This description with every field that `other` gives replaced by that of `other`.
    pub fn merge(self, other: UserDescription) -> (r: UserDescription)
        ensures
            r.role == overlay(self.role, other.role),
            r.name == overlay(self.name, other.name),
            r.email == overlay(self.email, other.email),
            r.family_uid == overlay(self.family_uid, other.family_uid),
    {
        UserDescription {
            role: pick(self.role, other.role),
            name: pick(self.name, other.name),
            email: pick(self.email, other.email),
            family_uid: pick(self.family_uid, other.family_uid),
        }
    }

    /// The user with identifier `uid` that this description describes, if it gives every field.
    pub fn entity(self, uid: UID) -> (r: Option<User>)
        ensures
            r is Some <==> (self.role is Some && self.name is Some && self.email is Some
                && self.family_uid is Some),
            r matches Some(u) ==> u.uid == uid && Some(u.role) == self.role && Some(u.name)
                == self.name && Some(u.email) == self.email && Some(u.family_uid)
                == self.family_uid,
    {
        match (self.role, self.name, self.email, self.family_uid) {
            (Some(role), Some(name), Some(email), Some(family_uid)) => Some(
                User { uid, role, name, email, family_uid },
            ),
            _ => None,
        }
    }
}

/// The allowance of a user.
#[derive(Clone, Debug, PartialEq)]
pub struct Allowance {
    /// The unique identifier.
    pub uid: UID,
    /// The user receiving this allowance.
    pub user_uid: UID,
    /// The amount.
    pub amount: u32,
    /// The schedule of the allowance.
    pub schedule: Schedule,
}

/// Some of the fields of an allowance; a field left out is `None`.
#[derive(Clone, Debug, PartialEq, Default)]
pub struct AllowanceDescription {
    pub uid: Option<UID>,
    pub user_uid: Option<UID>,
    pub amount: Option<u32>,
    pub schedule: Option<Schedule>,
}

/// A request for money made by a child.
#[derive(Clone, Debug, PartialEq)]
pub struct Request {
    /// The unique identifier.
    pub uid: i64,
    /// The child that made the request.
    pub user_uid: UID,
    /// A short name of what is requested.
    pub name: String,
    /// A description of what is requested.
    pub description: String,
    /// The amount requested.
    pub amount: i64,
    /// A link to what is requested, if any.
    pub url: Option<URL>,
    /// When the request was made.
    pub time: Timestamp,
}

/// An invitation of a new member into a family.
#[derive(Clone, Debug, PartialEq)]
pub struct Invitation {
    /// The unique identifier.
    pub uid: UID,
    /// The future role of this user.
    pub role: Role,
    /// The user name.
    pub name: String,
    /// The future user email address.
    pub email: EmailAddress,
    /// The allowance amount, if this user is a child.
    pub allowance_amount: Option<u32>,
    /// The schedule of the allowance, if this user is a child.
    pub allowance_schedule: Option<Schedule>,
    /// The creation timestamp.
    pub time: Timestamp,
    /// The unique identifier of the family.
    pub family_uid: UID,
}

impl Invitation {
    /// The allowance that the invited user will have: one for a child whose invitation gives
    /// both amount and schedule, else none.
    pub fn allowance(&self) -> (r: Option<AllowanceDescription>)
        ensures
            r is Some <==> (self.role == Role::Child && self.allowance_amount is Some
                && self.allowance_schedule is Some),
            r matches Some(a) ==> a.uid is None && a.user_uid is None && a.amount
                == self.allowance_amount && a.schedule == self.allowance_schedule,
    {
        if self.role == Role::Child {
            match (self.allowance_amount, self.allowance_schedule) {
                (Some(amount), Some(schedule)) => Some(
                    AllowanceDescription {
                        uid: None,
                        user_uid: None,
                        amount: Some(amount),
                        schedule: Some(schedule),
                    },
                ),
                _ => None,
            }
        } else {
            None
        }
    }

    /// The user that this invitation describes.
    pub fn user(&self) -> (r: UserDescription)
        ensures
            r.role == Some(self.role),
            r.name matches Some(n) && n@ == self.name@,
            r.email matches Some(Some(e)) && e.text() == self.email.text(),
            r.family_uid == Some(self.family_uid),
    {
        UserDescription {
            role: Some(self.role),
            name: Some(self.name.clone()),
            email: Some(Some(self.email.copy())),
            family_uid: Some(self.family_uid),
        }
    }
}

/// A family.
#[derive(Clone, Debug, PartialEq)]
pub struct Family {
    /// The unique identifier.
    pub uid: UID,
    /// The family name.
    pub name: String,
}

/// A transaction on a user's account.
#[derive(Clone, Debug, PartialEq)]
pub struct Transaction {
    /// The unique identifier.
    pub uid: i64,
    /// The type of the transaction.
    pub transaction_type: TransactionType,
    /// The user whose account it is.
    pub user_uid: UID,
    /// What the transaction was for.
    pub description: String,
    /// The amount; negative where money was spent.
    pub amount: i64,
    /// When the transaction was made.
    pub time: Timestamp,
}

/// A currency: its name and how an amount in it is written.
#[derive(Clone, Debug, PartialEq)]
pub struct Currency {
    /// The currency name.
    pub name: String,
    /// The format string used to stringify values in this currency.
    pub format: CurrencyFormat,
}

/// The configuration of a family.
#[derive(Clone, Debug)]
pub struct FamilyConfiguration {
    /// The currency used by this family.
    pub currency: Currency,
}

impl FamilyConfiguration {
    /// Creates a family configuration.
    pub fn new(currency: Currency) -> (r: FamilyConfiguration)
        ensures
            r.currency == currency,
    {
        FamilyConfiguration { currency }
    }

    /// The currency used by this family.
    pub fn currency(&self) -> (r: &Currency)
        ensures
            *r == self.currency,
    {
        &self.currency
    }
}

/// Where the server listens and where its front end lives.
#[derive(Clone, Debug)]
pub struct Server {
    /// The external URL of the front end.
    pub url: String,
    /// The address to which to bind.
    pub bind: String,
}

/// A page of a listing: how many entries to give and from which one on.
#[derive(Clone, Copy, Debug, PartialEq, Eq, Structural)]
pub struct Query {
    /// The maximum number of entries to return.
    pub limit: usize,
    /// The index of the first entry to return.
    pub offset: usize,
}

impl Query {
    /// The indices of the entries of this page: from `offset` up to, not including,
    /// `offset + limit`.
    pub fn range(&self) -> (r: std::ops::Range<usize>)
        requires
            self.offset + self.limit <= usize::MAX,
        ensures
            r.start == self.offset,
            r.end == self.offset + self.limit,
    {
        self.offset..self.offset + self.limit
    }
}

} // verus!
