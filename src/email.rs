//! Validated email addresses.
use vstd::prelude::*;

verus! {

#[verifier::external_type_specification]
#[verifier::external_body]
pub struct ExEmailError(email_address::Error);

/// Whether `email_address` accepts a text as an email address.
pub uninterp spec fn email_valid(s: Seq<char>) -> bool;

/// Relies on `email_address::EmailAddress`'s `FromStr`, which on success keeps the text as it
/// was given.
#[verifier::external_body]
fn parse_email(s: &str) -> (r: Result<String, email_address::Error>)
    ensures
        r is Ok <==> email_valid(s@),
        r matches Ok(a) ==> a@ == s@,
{
    s.parse::<email_address::EmailAddress>().map(String::from)
}

/// A validated email address.
#[derive(Clone, Debug, PartialEq)]
pub struct EmailAddress {
    address: String,
}

/// A text that is no valid email address.
#[derive(Debug)]
pub struct EmailAddressParseError(pub email_address::Error);

impl EmailAddress {
    /// The text of the address.
    pub closed spec fn text(&self) -> Seq<char> {
        self.address@
    }

    /// Every address held was accepted by the validator.
    pub closed spec fn wf(&self) -> bool {
        email_valid(self.address@)
    }

    /// Reads and validates an email address.
    pub fn parse(source: &str) -> (r: Result<EmailAddress, EmailAddressParseError>)
        ensures
            r is Ok <==> email_valid(source@),
            r matches Ok(a) ==> a.text() == source@ && a.wf(),
    {
        match parse_email(source) {
            Ok(address) => Ok(EmailAddress { address }),
            Err(e) => Err(EmailAddressParseError(e)),
        }
    }

    /// A copy of this address.
    pub fn copy(&self) -> (r: EmailAddress)
        ensures
            r.text() == self.text(),
            r.wf() == self.wf(),
    {
        EmailAddress { address: self.address.clone() }
    }

    /// The address, as it was read.
    pub fn to_string(&self) -> (r: String)
        ensures
            r@ == self.text(),
    {
        self.address.clone()
    }
}

impl std::str::FromStr for EmailAddress {
    type Err = EmailAddressParseError;

    fn from_str(source: &str) -> Result<EmailAddress, EmailAddressParseError> {
        EmailAddress::parse(source)
    }
}

} // verus!
