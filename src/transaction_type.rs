//! The kind of a transaction on a user's account.
use vstd::prelude::*;

use crate::text::same_text;

verus! {

/// The type of a transaction.
#[derive(Clone, Copy, Debug, PartialEq, Eq, Structural)]
pub enum TransactionType {
    /// The transaction is an allowance payment.
    Allowance,
    /// The transaction is a gift from a parent.
    Gift,
    /// The transaction is a request that has been granted.
    Request,
}

/// The text that names a transaction type.
pub open spec fn transaction_type_name(t: TransactionType) -> Seq<char> {
    match t {
        TransactionType::Allowance => "allowance"@,
        TransactionType::Gift => "gift"@,
        TransactionType::Request => "request"@,
    }
}

/// A text that names no transaction type.
#[derive(Debug)]
pub struct TransactionTypeParseError(pub String);

impl PartialEq for TransactionTypeParseError {
    fn eq(&self, other: &TransactionTypeParseError) -> (r: bool) {
        self.0 == other.0
    }
}

impl vstd::std_specs::cmp::PartialEqSpecImpl for TransactionTypeParseError {
    open spec fn obeys_eq_spec() -> bool {
        true
    }

    open spec fn eq_spec(&self, other: &TransactionTypeParseError) -> bool {
        self.0@ == other.0@
    }
}

impl TransactionType {
    /// Reads a transaction type from its name: `allowance`, `gift` or `request`.
    pub fn parse(source: &str) -> (r: Result<TransactionType, TransactionTypeParseError>)
        ensures
            r matches Ok(t) ==> transaction_type_name(t) == source@,
            r matches Err(e) ==> e.0@ == source@,
            r is Ok <==> (source@ == "allowance"@ || source@ == "gift"@ || source@ == "request"@),
    {
        if same_text(source, "allowance") {
            Ok(TransactionType::Allowance)
        } else if same_text(source, "gift") {
            Ok(TransactionType::Gift)
        } else if same_text(source, "request") {
            Ok(TransactionType::Request)
        } else {
            Err(TransactionTypeParseError(source.to_owned()))
        }
    }

    /// The name of this transaction type.
    pub fn to_string(&self) -> (r: String)
        ensures
            r@ == transaction_type_name(*self),
    {
        match self {
            TransactionType::Allowance => "allowance".to_owned(),
            TransactionType::Gift => "gift".to_owned(),
            TransactionType::Request => "request".to_owned(),
        }
    }
}

impl std::str::FromStr for TransactionType {
    type Err = TransactionTypeParseError;

    fn from_str(source: &str) -> Result<TransactionType, TransactionTypeParseError> {
        TransactionType::parse(source)
    }
}

} // verus!
