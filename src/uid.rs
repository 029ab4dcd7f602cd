//! Unique identifiers of users, families and allowances.
use vstd::prelude::*;
use vstd::arithmetic::power::pow;

verus! {

#[verifier::external_type_specification]
#[verifier::external_body]
pub struct ExUuidError(uuid::Error);

/// A hexadecimal digit, lower case.
pub open spec fn hex_digit(n: nat) -> char {
    "0123456789abcdef"@[n as int]
}

/// The 32 lower-case hexadecimal digits of a 128-bit value, most significant first.
pub open spec fn uid_text(value: u128) -> Seq<char> {
    Seq::new(32, |i: int| hex_digit(((value as nat) / pow(16, (31 - i) as nat) as nat) % 16))
}

/// What `uuid` makes of a text: the 128-bit value that it spells, if any.
pub uninterp spec fn uuid_parsed(s: Seq<char>) -> Option<u128>;

/// Relies on `uuid::Uuid::new_v4`: a fresh random identifier.
#[verifier::external_body]
fn random_uuid() -> (r: u128) {
    uuid::Uuid::new_v4().as_u128()
}

/// Relies on `uuid::Uuid::parse_str`, which reads the simple, hyphenated, braced and URN
/// forms; the simple form is 32 hexadecimal digits.
#[verifier::external_body]
fn parse_uuid(s: &str) -> (r: Result<u128, uuid::Error>)
    ensures
        r is Ok <==> uuid_parsed(s@) is Some,
        r matches Ok(v) ==> uuid_parsed(s@) == Some(v),
        r matches Ok(w) ==> forall|v: u128| s@ == #[trigger] uid_text(v) ==> w == v,
        forall|v: u128| s@ == #[trigger] uid_text(v) ==> r is Ok,
{
    uuid::Uuid::parse_str(s).map(|u| u.as_u128())
}

/// Relies on `uuid::Uuid::simple`: the identifier as 32 lower-case hexadecimal digits.
#[verifier::external_body]
fn simple_uuid_text(value: u128) -> (r: String)
    ensures
        r@ == uid_text(value),
{
    uuid::Uuid::from_u128(value).simple().to_string()
}

/// A unique identifier.
#[derive(Clone, Copy, Debug, PartialEq, Eq, Hash, Structural)]
pub struct UID {
    pub value: u128,
}

/// A text that is no identifier.
#[derive(Debug)]
pub struct UIDParseError(pub uuid::Error);

impl UID {
    /// Creates a new random identifier.
    pub fn new() -> (r: UID) {
        UID { value: random_uuid() }
    }

    /// Reads an identifier from any of the forms that `uuid` accepts.
    pub fn parse(source: &str) -> (r: Result<UID, UIDParseError>)
        ensures
            r is Ok <==> uuid_parsed(source@) is Some,
            r matches Ok(u) ==> uuid_parsed(source@) == Some(u.value),
            forall|v: u128| source@ == #[trigger] uid_text(v) ==> (r matches Ok(u) && u.value == v),
    {
        match parse_uuid(source) {
            Ok(value) => Ok(UID { value }),
            Err(e) => Err(UIDParseError(e)),
        }
    }

    /// The identifier as 32 lower-case hexadecimal digits; also the name of the user's
    /// notification channel.
    pub fn to_string(&self) -> (r: String)
        ensures
            r@ == uid_text(self.value),
    {
        simple_uuid_text(self.value)
    }
}

impl std::str::FromStr for UID {
    type Err = UIDParseError;

    fn from_str(source: &str) -> Result<UID, UIDParseError> {
        UID::parse(source)
    }
}

} // verus!
