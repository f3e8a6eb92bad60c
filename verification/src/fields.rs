//! Reading the members of an object.

use crate::error::{DecodeError, Expected, Failure, Field, Location};
use crate::link::{link_of, not_a_link, url_parse, url_parsed, url_text};
use crate::value::{found, lookup, view_members, Found, Json, Lookup, Shape, Value};
use url::Url;
use vstd::prelude::*;

verus! {

/// The kind of what an object holds under a key.
pub open spec fn shape_of(f: Found) -> Shape {
    match f {
        Found::Absent => Shape::Absent,
        Found::Once(v) => v.shape(),
        Found::Repeated => Shape::Repeated,
    }
}

/// The failure that says that `at` should hold `expected` and holds `f`.
pub open spec fn mismatch(at: Location, expected: Expected, f: Found) -> Failure {
    Failure::Structure { at, expected, found: shape_of(f) }
}

/// The string that `members` must hold under `key`. Anything but exactly one
/// member with a string is a failure at `at`.
pub open spec fn text_member(members: Seq<(Seq<char>, Json)>, key: Seq<char>, at: Location) -> Result<
    Seq<char>,
    Failure,
> {
    match found(members, key) {
        Found::Once(Json::String(s)) => Ok(s),
        other => Err(mismatch(at, Expected::String, other)),
    }
}

/// The link that `members` must hold as `field`: the text of the URL that
/// its string parses to.
pub open spec fn link_member(members: Seq<(Seq<char>, Json)>, field: Field) -> Result<
    Seq<char>,
    Failure,
> {
    match found(members, field.key()) {
        Found::Once(Json::String(s)) => match url_parsed(s) {
            Some(text) => Ok(text),
            None => Err(not_a_link(field)),
        },
        other => Err(mismatch(Location::Member(field), Expected::Link, other)),
    }
}

/// The link that `members` may hold as `field`: none where no member has the
/// key, and otherwise as [`link_member`].
pub open spec fn optional_link_member(members: Seq<(Seq<char>, Json)>, field: Field) -> Result<
    Option<Seq<char>>,
    Failure,
> {
    match found(members, field.key()) {
        Found::Absent => Ok(None),
        _ => match link_member(members, field) {
            Ok(text) => Ok(Some(text)),
            Err(e) => Err(e),
        },
    }
}

/// Reads the string that `members` must hold under `key`.
pub fn read_text(members: &Vec<(String, Value)>, key: &str, at: Location) -> (r: Result<
    String,
    DecodeError,
>)
    ensures
        match r {
            Ok(s) => text_member(view_members(members@), key@, at) == Ok::<Seq<char>, Failure>(s@),
            Err(e) => text_member(view_members(members@), key@, at) == Err::<Seq<char>, Failure>(
                e@,
            ),
        },
{
    match lookup(members, key) {
        Lookup::At(i) => match &members[i].1 {
            Value::String(s) => Ok(s.clone()),
            other => Err(DecodeError::mismatch(at, Expected::String, other.shape())),
        },
        Lookup::Absent => Err(DecodeError::mismatch(at, Expected::String, Shape::Absent)),
        Lookup::Repeated => Err(DecodeError::mismatch(at, Expected::String, Shape::Repeated)),
    }
}

/// Reads the link that `members` must hold as `field`.
pub fn read_link(members: &Vec<(String, Value)>, field: Field) -> (r: Result<Url, DecodeError>)
    ensures
        match r {
            Ok(u) => link_member(view_members(members@), field) == Ok::<Seq<char>, Failure>(
                url_text(u),
            ),
            Err(e) => link_member(view_members(members@), field) == Err::<Seq<char>, Failure>(e@),
        },
{
    let at = Location::Member(field);
    match lookup(members, field.as_str()) {
        Lookup::At(i) => match &members[i].1 {
            Value::String(s) => link_of(url_parse(s.as_str()), field),
            other => Err(DecodeError::mismatch(at, Expected::Link, other.shape())),
        },
        Lookup::Absent => Err(DecodeError::mismatch(at, Expected::Link, Shape::Absent)),
        Lookup::Repeated => Err(DecodeError::mismatch(at, Expected::Link, Shape::Repeated)),
    }
}

/// Reads the link that `members` may hold as `field`.
pub fn read_optional_link(members: &Vec<(String, Value)>, field: Field) -> (r: Result<
    Option<Url>,
    DecodeError,
>)
    ensures
        match r {
            Ok(None) => optional_link_member(view_members(members@), field) == Ok::<
                Option<Seq<char>>,
                Failure,
            >(None),
            Ok(Some(u)) => optional_link_member(view_members(members@), field) == Ok::<
                Option<Seq<char>>,
                Failure,
            >(Some(url_text(u))),
            Err(e) => optional_link_member(view_members(members@), field) == Err::<
                Option<Seq<char>>,
                Failure,
            >(e@),
        },
{
    match lookup(members, field.as_str()) {
        Lookup::Absent => Ok(None),
        _ => match read_link(members, field) {
            Ok(u) => Ok(Some(u)),
            Err(e) => Err(e),
        },
    }
}

} // verus!
