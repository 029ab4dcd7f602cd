//! The errors that requests answer with, and the checks of the logged-in session.
use vstd::prelude::*;

use crate::role::Role;
use crate::uid::UID;

verus! {

/// The HTTP status of a bad request.
pub const BAD_REQUEST: u16 = 400;

/// The HTTP status of a request without a valid session.
pub const UNAUTHORIZED: u16 = 401;

/// The HTTP status of a request for something the user may not touch.
pub const FORBIDDEN: u16 = 403;

/// The HTTP status of a request for something that does not exist.
pub const NOT_FOUND: u16 = 404;

/// An error that a request answers with: an HTTP status and a reason.
#[derive(Clone, Debug, PartialEq)]
pub enum ApiError {
    /// An error with a status and a reason.
    Static(u16, String),
}

impl ApiError {
    /// The user may not touch the requested resource.
    pub fn forbidden(reason: &str) -> (r: ApiError)
        ensures
            r matches ApiError::Static(s, m) && s == FORBIDDEN && m@ == reason@,
    {
        ApiError::Static(FORBIDDEN, reason.to_owned())
    }

    /// The request comes without a valid session.
    pub fn unauthorized() -> (r: ApiError)
        ensures
            r matches ApiError::Static(s, m) && s == UNAUTHORIZED && m@ == "unauthorized"@,
    {
        ApiError::Static(UNAUTHORIZED, "unauthorized".to_owned())
    }

    /// The requested resource does not exist.
    pub fn not_found(reason: &str) -> (r: ApiError)
        ensures
            r matches ApiError::Static(s, m) && s == NOT_FOUND && m@ == reason@,
    {
        ApiError::Static(NOT_FOUND, reason.to_owned())
    }

    /// The HTTP status of this error.
    pub fn status_code(&self) -> (r: u16)
        ensures
            r == match *self {
                ApiError::Static(s, _) => s,
            },
    {
        match self {
            ApiError::Static(s, _) => *s,
        }
    }

    /// The reason of this error.
    pub fn to_string(&self) -> (r: String)
        ensures
            r@ == match *self {
                ApiError::Static(_, m) => m@,
            },
    {
        match self {
            ApiError::Static(_, m) => m.clone(),
        }
    }
}

/// An argument of a request: a missing one is a bad request.
pub fn argument<T>(a: Option<T>) -> (r: Result<T, ApiError>)
    ensures
        a matches Some(v) ==> r == Ok::<T, ApiError>(v),
        a is None ==> (r matches Err(ApiError::Static(s, m)) && s == BAD_REQUEST && m@
            == "bad request"@),
{
    match a {
        Some(v) => Ok(v),
        None => Err(ApiError::Static(BAD_REQUEST, "bad request".to_owned())),
    }
}

/// Something looked up on the server's own behalf: a missing one was not found.
pub fn expect<T>(a: Option<T>) -> (r: Result<T, ApiError>)
    ensures
        a matches Some(v) ==> r == Ok::<T, ApiError>(v),
        a is None ==> (r matches Err(ApiError::Static(s, m)) && s == NOT_FOUND && m@
            == "not found"@),
{
    match a {
        Some(v) => Ok(v),
        None => Err(ApiError::Static(NOT_FOUND, "not found".to_owned())),
    }
}

/// A log-in session: who is logged in, in which family, with which role.
#[derive(Clone, Copy, Debug, PartialEq, Eq, Structural)]
pub struct State {
    /// The currently logged in user.
    pub user_uid: UID,
    /// The family of the logged in user.
    pub family_uid: UID,
    /// The family role of the logged in user.
    pub role: Role,
}

impl State {
    /// This session, where its user is `user_uid`; else forbidden.
    pub fn assert_user(self, user_uid: &UID) -> (r: Result<State, ApiError>)
        ensures
            self.user_uid == *user_uid ==> r == Ok::<State, ApiError>(self),
            self.user_uid != *user_uid ==> (r matches Err(ApiError::Static(s, m)) && s
                == FORBIDDEN && m@ == "invalid user"@),
    {
        if self.user_uid == *user_uid {
            Ok(self)
        } else {
            Err(ApiError::forbidden("invalid user"))
        }
    }

    /// This session, where its user belongs to `family_uid`; else forbidden.
    pub fn assert_family(self, family_uid: &UID) -> (r: Result<State, ApiError>)
        ensures
            self.family_uid == *family_uid ==> r == Ok::<State, ApiError>(self),
            self.family_uid != *family_uid ==> (r matches Err(ApiError::Static(s, m)) && s
                == FORBIDDEN && m@ == "invalid family"@),
    {
        if self.family_uid == *family_uid {
            Ok(self)
        } else {
            Err(ApiError::forbidden("invalid family"))
        }
    }

    /// This session, where its user has `role`; else forbidden.
    pub fn assert_role(self, role: Role) -> (r: Result<State, ApiError>)
        ensures
            self.role == role ==> r == Ok::<State, ApiError>(self),
            self.role != role ==> (r matches Err(ApiError::Static(s, m)) && s == FORBIDDEN
                && m@ == "invalid role"@),
    {
        if self.role == role {
            Ok(self)
        } else {
            Err(ApiError::forbidden("invalid role"))
        }
    }
}

} // verus!
