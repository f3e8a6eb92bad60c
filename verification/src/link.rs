//! Links: the calls into the `url` crate that parse and print a URL.

use crate::error::{DecodeError, Expected, Failure, Field, Location};
use crate::value::Shape;
use url::{ParseError, Url};
use vstd::prelude::*;

verus! {

/// `url::Url`: a parsed URL. Nothing of what it holds is seen here but
/// through [`url_text`].
#[verifier::external_type_specification]
#[verifier::external_body]
pub struct ExUrl(Url);

/// `url::ParseError`: why a string is no URL. It is never looked into.
#[verifier::external_type_specification]
#[verifier::external_body]
pub struct ExParseError(ParseError);

/// The serialization that a URL holds: the text that it prints as.
pub uninterp spec fn url_text(u: Url) -> Seq<char>;

/// The serialization of the URL that parsing `s` gives, `None` where `s` is
/// no absolute URL.
pub uninterp spec fn url_parsed(s: Seq<char>) -> Option<Seq<char>>;

/// Whether `text` parses to a URL that prints as `text` again. Not every
/// text that a URL prints as is canonical in this sense: the `url` crate
/// parses `file://h//C:/` to a URL that prints as `file://h/C:/`, and that
/// text to one that prints as `file:///C:/`.
pub open spec fn is_canonical(text: Seq<char>) -> bool {
    url_parsed(text) == Some(text)
}

/// `Url::parse`. What it returns depends on the string alone, and nothing
/// more is claimed of it.
#[verifier::external_body]
pub(crate) fn url_parse(s: &str) -> (r: Result<Url, ParseError>)
    ensures
        match r {
            Ok(u) => url_parsed(s@) == Some(url_text(u)),
            Err(_) => url_parsed(s@) is None,
        },
{
    Url::parse(s)
}

/// `Url::as_str`: the serialization that the URL holds.
#[verifier::external_body]
pub(crate) fn url_as_str(u: &Url) -> (s: &str)
    ensures
        s@ == url_text(*u),
{
    u.as_str()
}

/// The derived `Clone` of `Url` copies the serialization with the rest.
pub assume_specification[ <Url as Clone>::clone ](u: &Url) -> (r: Url)
    ensures
        url_text(r) == url_text(*u),
;

/// Tests whether a URL is canonical, by parsing the text that it prints as
/// and comparing what comes out.
pub fn is_canonical_link(u: &Url) -> (b: bool)
    ensures
        b == is_canonical(url_text(*u)),
{
    match url_parse(url_as_str(u)) {
        Ok(again) => {
            let first = url_as_str(u).to_owned();
            let second = url_as_str(&again).to_owned();
            first == second
        },
        Err(_) => false,
    }
}

/// What a member that holds a link decodes to, given what parsing its text
/// gave: the URL, or the failure that says that `field` holds a string which
/// is no URL.
pub fn link_of(parsed: Result<Url, ParseError>, field: Field) -> (r: Result<Url, DecodeError>)
    ensures
        match parsed {
            Ok(u) => r == Ok::<Url, DecodeError>(u),
            Err(_) => r matches Err(e) && e@ == not_a_link(field),
        },
{
    match parsed {
        Ok(u) => Ok(u),
        Err(_) => Err(DecodeError::mismatch(Location::Member(field), Expected::Link, Shape::String)),
    }
}

/// The failure that says that `field` holds a string which is no URL.
pub open spec fn not_a_link(field: Field) -> Failure {
    Failure::Structure { at: Location::Member(field), expected: Expected::Link, found: Shape::String }
}

} // verus!
