//! The role of a user in a family.
use vstd::prelude::*;

use crate::text::same_text;

verus! {

/// The role of a user in a family.
#[derive(Clone, Copy, Debug, PartialEq, Eq, Structural)]
pub enum Role {
    /// A child in a family.
    Child,
    /// A parent in a family.
    Parent,
}

/// The text that names a role.
pub open spec fn role_name(r: Role) -> Seq<char> {
    match r {
        Role::Child => "child"@,
        Role::Parent => "parent"@,
    }
}

/// A text that names no role.
#[derive(Debug)]
pub struct RoleParseError(pub String);

impl PartialEq for RoleParseError {
    fn eq(&self, other: &RoleParseError) -> (r: bool) {
        self.0 == other.0
    }
}

impl vstd::std_specs::cmp::PartialEqSpecImpl for RoleParseError {
    open spec fn obeys_eq_spec() -> bool {
        true
    }

    open spec fn eq_spec(&self, other: &RoleParseError) -> bool {
        self.0@ == other.0@
    }
}

impl Role {
    /// Reads a role from its name: `child` or `parent`.
    pub fn parse(source: &str) -> (r: Result<Role, RoleParseError>)
        ensures
            r matches Ok(role) ==> role_name(role) == source@,
            r matches Err(e) ==> e.0@ == source@,
            r is Ok <==> (source@ == "child"@ || source@ == "parent"@),
    {
        if same_text(source, "child") {
            Ok(Role::Child)
        } else if same_text(source, "parent") {
            Ok(Role::Parent)
        } else {
            Err(RoleParseError(source.to_owned()))
        }
    }

    /// The name of this role.
    pub fn to_string(&self) -> (r: String)
        ensures
            r@ == role_name(*self),
    {
        match self {
            Role::Child => "child".to_owned(),
            Role::Parent => "parent".to_owned(),
        }
    }
}

impl std::str::FromStr for Role {
    type Err = RoleParseError;

    fn from_str(source: &str) -> Result<Role, RoleParseError> {
        Role::parse(source)
    }
}

} // verus!
