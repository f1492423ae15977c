//! The link of a button, which must be a valid URL.

use super::error::{ClickError, ClickFault};
use vstd::prelude::*;

verus! {

/// What `url::Url::parse` answers for `input`: `Ok` when it is a valid URL,
/// else the message of the parse error.
pub uninterp spec fn url_parse_result(input: Seq<char>) -> Result<(), Seq<char>>;

/// `url::Url::parse` of the url crate. The contract claims only that the
/// answer, valid or not and the error's message, is the one named by
/// `url_parse_result` for the same input; which strings are valid URLs is left
/// to the url crate.
#[verifier::external_body]
fn parse_url(input: &str) -> (r: Result<(), String>)
    ensures
        match r {
            Ok(()) => url_parse_result(input@) == Ok::<(), Seq<char>>(()),
            Err(m) => url_parse_result(input@) == Err::<(), Seq<char>>(m@),
        },
{
    match url::Url::parse(input) {
        Ok(_) => Ok(()),
        Err(e) => Err(e.to_string()),
    }
}

/// The link of a button: a string that is a valid URL.
#[derive(Debug, PartialEq, Eq)]
pub struct Link(String);

impl Clone for Link {
    fn clone(&self) -> (r: Self)
        ensures
            r@ == self@,
    {
        Link(self.0.clone())
    }
}

/// The link that `url` gives when checking it as a URL answered `check`.
pub open spec fn link_outcome(url: Seq<char>, check: Result<(), Seq<char>>) -> Result<
    Seq<char>,
    ClickFault,
> {
    match check {
        Ok(()) => Ok(url),
        Err(reason) => Err(ClickFault::InvalidUrl(reason)),
    }
}

impl Link {
    /// The URL of the link.
    pub closed spec fn view(&self) -> Seq<char> {
        self.0@
    }

    /// The URL of the link.
    pub fn as_str(&self) -> (r: &str)
        ensures
            r@ == self@,
    {
        self.0.as_str()
    }

    /// The link to `url`, given what checking `url` as a URL answered.
    pub fn from_check(url: String, check: Result<(), String>) -> (r: Result<Link, ClickError>)
        ensures
            match link_outcome(
                url@,
                match check {
                    Ok(()) => Ok(()),
                    Err(m) => Err(m@),
                },
            ) {
                Ok(u) => r matches Ok(l) && l@ == u,
                Err(e) => r matches Err(x) && x@ == e,
            },
    {
        match check {
            Ok(()) => Ok(Link(url)),
            Err(reason) => Err(ClickError::InvalidUrl(reason)),
        }
    }

    /// The link to `url`, which must be a valid URL.
    pub fn parse(url: String) -> (r: Result<Link, ClickError>)
        ensures
            match link_outcome(url@, url_parse_result(url@)) {
                Ok(u) => r matches Ok(l) && l@ == u,
                Err(e) => r matches Err(x) && x@ == e,
            },
    {
        let check = parse_url(url.as_str());
        Link::from_check(url, check)
    }
}

} // verus!
