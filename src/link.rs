//! URLs, in the form that the `url` crate writes them.
use vstd::prelude::*;

verus! {

#[verifier::external_type_specification]
#[verifier::external_body]
pub struct ExUrlParseError(url::ParseError);

/// What `url` makes of a text: its serialization, if the text is a URL.
pub uninterp spec fn url_parsed(s: Seq<char>) -> Option<Seq<char>>;

/// Relies on `url::Url::parse` and `Url::as_str`, the serialization of the parsed URL.
#[verifier::external_body]
fn parse_url(s: &str) -> (r: Result<String, url::ParseError>)
    ensures
        r is Ok <==> url_parsed(s@) is Some,
        r matches Ok(u) ==> url_parsed(s@) == Some(u@),
{
    url::Url::parse(s).map(String::from)
}

/// A URL.
#[derive(Clone, Debug, PartialEq)]
pub struct URL {
    serialization: String,
}

/// A text that is no URL.
#[derive(Debug)]
pub struct URLParseError(pub url::ParseError);

impl URL {
    /// The serialization of this URL.
    pub closed spec fn text(&self) -> Seq<char> {
        self.serialization@
    }

    /// Reads a URL.
    pub fn parse(source: &str) -> (r: Result<URL, URLParseError>)
        ensures
            r is Ok <==> url_parsed(source@) is Some,
            r matches Ok(u) ==> url_parsed(source@) == Some(u.text()),
    {
        match parse_url(source) {
            Ok(serialization) => Ok(URL { serialization }),
            Err(e) => Err(URLParseError(e)),
        }
    }

    /// The serialization of this URL.
    pub fn to_string(&self) -> (r: String)
        ensures
            r@ == self.text(),
    {
        self.serialization.clone()
    }
}

impl std::str::FromStr for URL {
    type Err = URLParseError;

    fn from_str(source: &str) -> Result<URL, URLParseError> {
        URL::parse(source)
    }
}

} // verus!
