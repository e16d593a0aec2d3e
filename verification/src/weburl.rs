//! URLs as the `url` crate parses them, held as plain values.
use vstd::prelude::*;
use crate::text::owned;

verus! {

#[verifier::external_type_specification]
#[verifier::external_body]
pub struct ExUrlParseError(url::ParseError);

/// What `url::Url::parse` makes of `input`: `None` when it rejects the input, otherwise the
/// serialization of the parsed URL and its host as `host_str` reports it.
pub uninterp spec fn url_parse_result(input: Seq<char>) -> Option<(Seq<char>, Option<Seq<char>>)>;

/// An absolute URL, as parsed by the `url` crate.
#[derive(Debug, Clone, PartialEq, Eq, Hash)]
pub struct Url {
    serialization: String,
    host: Option<String>,
}

/// The characters of an optional string.
pub open spec fn opt_view(o: Option<String>) -> Option<Seq<char>> {
    match o {
        Some(s) => Some(s@),
        None => None,
    }
}

impl View for Url {
    type V = (Seq<char>, Option<Seq<char>>);

    closed spec fn view(&self) -> (Seq<char>, Option<Seq<char>>) {
        (self.serialization@, opt_view(self.host))
    }
}

/// Trusted: `url::Url::parse`, with the parsed URL handed back as its serialization
/// (`Url::as_str`) and host (`Url::host_str`). The contract names the outcome and says
/// nothing of what the crate accepts or how it normalizes.
#[verifier::external_body]
fn parse_with_url_crate(input: &str) -> (r: Result<Url, url::ParseError>)
    ensures
        r is Ok == url_parse_result(input@) is Some,
        r matches Ok(u) ==> url_parse_result(input@) == Some(u@),
{
    match url::Url::parse(input) {
        Ok(u) => Ok(Url { serialization: u.as_str().to_string(), host: u.host_str().map(|h| h.to_string()) }),
        Err(e) => Err(e),
    }
}

impl Url {
    /// Parses an absolute URL.
    pub fn parse(input: &str) -> (r: Result<Url, url::ParseError>)
        ensures
            r is Ok == url_parse_result(input@) is Some,
            r matches Ok(u) ==> url_parse_result(input@) == Some(u@),
    {
        parse_with_url_crate(input)
    }

    /// The serialization of this URL.
    pub fn as_str(&self) -> (r: &str)
        ensures
            r@ == self@.0,
    {
        self.serialization.as_str()
    }

    /// The serialization of this URL, as an owned string.
    pub fn to_string(&self) -> (r: String)
        ensures
            r@ == self@.0,
    {
        owned(self.serialization.as_str())
    }

    /// The host of this URL, if it has one.
    pub fn host_str(&self) -> (r: Option<&str>)
        ensures
            r is Some == self@.1 is Some,
            r matches Some(h) ==> h@ == self@.1->0,
    {
        match &self.host {
            Some(h) => Some(h.as_str()),
            None => None,
        }
    }
}

} // verus!
