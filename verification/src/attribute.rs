//! Attribute entries: the two variants, and how a document tells them apart.

use crate::error::{AttributeField, DecodeError, Expected, Failure, Location};
use crate::fields::{mismatch, read_text, text_member};
use crate::value::{
    found, found_absent, found_once, lookup, view_members, Found, Json, Lookup, Number, Shape,
    Value,
};
use vstd::prelude::*;

verus! {

/// How a numerical attribute should be displayed.
#[derive(Copy, Clone, Debug, PartialEq, Eq, Hash)]
pub enum DisplayType {
    /// As a number.
    Number,
    /// As a boost percentage.
    BoostPercentage,
    /// As a boost number.
    BoostNumber,
    /// As a date.
    Date,
}

/// A key-value pair of attributes for an item.
#[derive(Debug, PartialEq, Eq, Hash)]
#[allow(inconsistent_fields)]
pub enum AttributeEntry {
    /// Textual attribute.
    String {
        /// Name of the trait.
        trait_type: String,
        /// Value of the attribute.
        value: String,
    },
    /// Numerical attribute.
    Number {
        /// Name of the trait.
        trait_type: String,
        /// Value of the attribute.
        value: u64,
        /// How the attribute should be displayed.
        display_type: Option<DisplayType>,
    },
}

/// The mathematical form of an [`AttributeEntry`].
#[allow(inconsistent_fields)]
pub enum Attribute {
    String { trait_type: Seq<char>, value: Seq<char> },
    Number { trait_type: Seq<char>, value: u64, display_type: Option<DisplayType> },
}

impl View for AttributeEntry {
    type V = Attribute;

    open spec fn view(&self) -> Attribute {
        match self {
            AttributeEntry::String { trait_type, value } => Attribute::String {
                trait_type: trait_type@,
                value: value@,
            },
            AttributeEntry::Number { trait_type, value, display_type } => Attribute::Number {
                trait_type: trait_type@,
                value: *value,
                display_type: *display_type,
            },
        }
    }
}

impl Clone for AttributeEntry {
    /// A copy that stands for the same entry.
    fn clone(&self) -> (r: Self)
        ensures
            r@ == self@,
    {
        match self {
            AttributeEntry::String { trait_type, value } => AttributeEntry::String {
                trait_type: trait_type.clone(),
                value: value.clone(),
            },
            AttributeEntry::Number { trait_type, value, display_type } => AttributeEntry::Number {
                trait_type: trait_type.clone(),
                value: *value,
                display_type: *display_type,
            },
        }
    }
}

impl DisplayType {
    /// The token that stands for this display type in a document.
    pub open spec fn token(self) -> Seq<char> {
        match self {
            DisplayType::Number => "number"@,
            DisplayType::BoostPercentage => "boost_percentage"@,
            DisplayType::BoostNumber => "boost_number"@,
            DisplayType::Date => "date"@,
        }
    }

    /// The display type that `token` stands for, if it stands for one.
    pub open spec fn of_token(token: Seq<char>) -> Option<DisplayType> {
        if token == DisplayType::Number.token() {
            Some(DisplayType::Number)
        } else if token == DisplayType::BoostPercentage.token() {
            Some(DisplayType::BoostPercentage)
        } else if token == DisplayType::BoostNumber.token() {
            Some(DisplayType::BoostNumber)
        } else if token == DisplayType::Date.token() {
            Some(DisplayType::Date)
        } else {
            None
        }
    }

    /// The token that stands for this display type in a document.
    pub fn as_str(self) -> (r: &'static str)
        ensures
            r@ == self.token(),
    {
        match self {
            DisplayType::Number => "number",
            DisplayType::BoostPercentage => "boost_percentage",
            DisplayType::BoostNumber => "boost_number",
            DisplayType::Date => "date",
        }
    }

    /// Reads a display type from its token.
    pub fn from_token(token: &str) -> (r: Option<DisplayType>)
        ensures
            r == DisplayType::of_token(token@),
    {
        let given = token.to_owned();
        if given == DisplayType::Number.as_str().to_owned() {
            Some(DisplayType::Number)
        } else if given == DisplayType::BoostPercentage.as_str().to_owned() {
            Some(DisplayType::BoostPercentage)
        } else if given == DisplayType::BoostNumber.as_str().to_owned() {
            Some(DisplayType::BoostNumber)
        } else if given == DisplayType::Date.as_str().to_owned() {
            Some(DisplayType::Date)
        } else {
            None
        }
    }

    /// No two display types share a token, so a token is read back as the
    /// display type that wrote it.
    pub proof fn token_round_trip(d: DisplayType)
        ensures
            DisplayType::of_token(d.token()) == Some(d),
    {
        reveal_strlit("number");
        reveal_strlit("boost_percentage");
        reveal_strlit("boost_number");
        reveal_strlit("date");
        assert("number"@.len() == 6);
        assert("boost_percentage"@.len() == 16);
        assert("boost_number"@.len() == 12);
        assert("date"@.len() == 4);
    }
}

/// The value of a number as an unsigned 64-bit integer: none for a negative
/// integer, for one above 2^64 - 1, and for any number written with a
/// fraction or an exponent.
pub open spec fn unsigned_of(n: Number) -> Option<u64> {
    match n {
        Number::Integer(i) => if 0 <= i <= u64::MAX {
            Some(i as u64)
        } else {
            None
        },
        Number::Real(_) => None,
    }
}

/// The display type that the members of the entry at `index` may hold: none
/// where no member has the key, the display type of its token where the
/// member is a string.
pub open spec fn display_type_member(members: Seq<(Seq<char>, Json)>, index: usize) -> Result<
    Option<DisplayType>,
    Failure,
> {
    match found(members, AttributeField::DisplayType.key()) {
        Found::Absent => Ok(None),
        Found::Once(Json::String(token)) => match DisplayType::of_token(token) {
            Some(d) => Ok(Some(d)),
            None => Err(Failure::UnknownEnumToken { index, token }),
        },
        other => Err(
            mismatch(
                Location::Attribute(index, AttributeField::DisplayType),
                Expected::String,
                other,
            ),
        ),
    }
}

/// The numerical entry that the members at `index` hold, given the number
/// under `value`. The members are read in the order `trait_type`, `value`,
/// `display_type`, and the first failure is the result.
pub open spec fn number_attribute(members: Seq<(Seq<char>, Json)>, n: Number, index: usize) -> Result<
    Attribute,
    Failure,
> {
    match text_member(
        members,
        AttributeField::TraitType.key(),
        Location::Attribute(index, AttributeField::TraitType),
    ) {
        Err(e) => Err(e),
        Ok(trait_type) => match unsigned_of(n) {
            None => Err(
                Failure::Structure {
                    at: Location::Attribute(index, AttributeField::Value),
                    expected: Expected::Unsigned,
                    found: Shape::Number,
                },
            ),
            Some(value) => match display_type_member(members, index) {
                Err(e) => Err(e),
                Ok(display_type) => Ok(Attribute::Number { trait_type, value, display_type }),
            },
        },
    }
}

/// The textual entry that the members at `index` hold, given the string
/// under `value`. A `display_type` among the members is not read.
pub open spec fn string_attribute(members: Seq<(Seq<char>, Json)>, value: Seq<char>, index: usize) -> Result<
    Attribute,
    Failure,
> {
    match text_member(
        members,
        AttributeField::TraitType.key(),
        Location::Attribute(index, AttributeField::TraitType),
    ) {
        Err(e) => Err(e),
        Ok(trait_type) => Ok(Attribute::String { trait_type, value }),
    }
}

/// What the item at `index` of `attributes` decodes to. The item's `value`
/// decides the variant: a number makes it numerical, a string textual, and
/// an item that is no object, or whose `value` is anything else, missing or
/// given twice, has no recognized shape.
pub open spec fn decode_attribute(v: Json, index: usize) -> Result<Attribute, Failure> {
    match v {
        Json::Object(members) => match found(members, AttributeField::Value.key()) {
            Found::Once(Json::Number(n)) => number_attribute(members, n, index),
            Found::Once(Json::String(s)) => string_attribute(members, s, index),
            _ => Err(Failure::UnrecognizedAttributeShape { index, raw: v }),
        },
        _ => Err(Failure::UnrecognizedAttributeShape { index, raw: v }),
    }
}

/// What an entry encodes to: an object with `trait_type` and `value`, and,
/// for a numerical entry that has one, `display_type`.
pub open spec fn encode_attribute(a: Attribute) -> Json {
    match a {
        Attribute::String { trait_type, value } => Json::Object(
            seq![
                (AttributeField::TraitType.key(), Json::String(trait_type)),
                (AttributeField::Value.key(), Json::String(value)),
            ],
        ),
        Attribute::Number { trait_type, value, display_type } => {
            let members = seq![
                (AttributeField::TraitType.key(), Json::String(trait_type)),
                (AttributeField::Value.key(), Json::Number(Number::Integer(value as i128))),
            ];
            match display_type {
                None => Json::Object(members),
                Some(d) => Json::Object(
                    members.push((AttributeField::DisplayType.key(), Json::String(d.token()))),
                ),
            }
        },
    }
}

/// Reads a number as an unsigned 64-bit integer.
pub fn to_unsigned(n: &Number) -> (r: Option<u64>)
    ensures
        r == unsigned_of(*n),
{
    match n {
        Number::Integer(i) => {
            if 0 <= *i && *i <= 0xffff_ffff_ffff_ffff {
                Some(*i as u64)
            } else {
                None
            }
        },
        Number::Real(_) => None,
    }
}

/// Reads the display type that the members of the entry at `index` may hold.
pub fn read_display_type(members: &Vec<(String, Value)>, index: usize) -> (r: Result<
    Option<DisplayType>,
    DecodeError,
>)
    ensures
        match r {
            Ok(d) => display_type_member(view_members(members@), index) == Ok::<
                Option<DisplayType>,
                Failure,
            >(d),
            Err(e) => display_type_member(view_members(members@), index) == Err::<
                Option<DisplayType>,
                Failure,
            >(e@),
        },
{
    let at = Location::Attribute(index, AttributeField::DisplayType);
    match lookup(members, AttributeField::DisplayType.as_str()) {
        Lookup::Absent => Ok(None),
        Lookup::At(i) => match &members[i].1 {
            Value::String(token) => match DisplayType::from_token(token.as_str()) {
                Some(d) => Ok(Some(d)),
                None => Err(DecodeError::UnknownEnumToken { index, token: token.clone() }),
            },
            other => Err(DecodeError::mismatch(at, Expected::String, other.shape())),
        },
        Lookup::Repeated => Err(DecodeError::mismatch(at, Expected::String, Shape::Repeated)),
    }
}

impl AttributeEntry {
    /// Decodes the item at `index` of `attributes`.
    pub fn decode(value: &Value, index: usize) -> (r: Result<AttributeEntry, DecodeError>)
        ensures
            match r {
                Ok(a) => decode_attribute(value@, index) == Ok::<Attribute, Failure>(a@),
                Err(e) => decode_attribute(value@, index) == Err::<Attribute, Failure>(e@),
            },
    {
        let trait_at = Location::Attribute(index, AttributeField::TraitType);
        match value {
            Value::Object(members) => match lookup(members, AttributeField::Value.as_str()) {
                Lookup::At(i) => match &members[i].1 {
                    Value::Number(n) => {
                        let trait_type = read_text(
                            members,
                            AttributeField::TraitType.as_str(),
                            trait_at,
                        )?;
                        match to_unsigned(n) {
                            None => Err(
                                DecodeError::mismatch(
                                    Location::Attribute(index, AttributeField::Value),
                                    Expected::Unsigned,
                                    Shape::Number,
                                ),
                            ),
                            Some(value) => {
                                let display_type = read_display_type(members, index)?;
                                Ok(AttributeEntry::Number { trait_type, value, display_type })
                            },
                        }
                    },
                    Value::String(s) => {
                        let trait_type = read_text(
                            members,
                            AttributeField::TraitType.as_str(),
                            trait_at,
                        )?;
                        Ok(AttributeEntry::String { trait_type, value: s.clone() })
                    },
                    _ => Err(
                        DecodeError::UnrecognizedAttributeShape { index, raw: value.clone() },
                    ),
                },
                _ => Err(DecodeError::UnrecognizedAttributeShape { index, raw: value.clone() }),
            },
            _ => Err(DecodeError::UnrecognizedAttributeShape { index, raw: value.clone() }),
        }
    }

    /// Encodes the entry as an object that holds its own members and no
    /// others.
    pub fn encode(&self) -> (r: Value)
        ensures
            r@ == encode_attribute(self@),
    {
        let mut members: Vec<(String, Value)> = Vec::new();
        match self {
            AttributeEntry::String { trait_type, value } => {
                members.push(
                    (AttributeField::TraitType.as_str().to_owned(), Value::String(trait_type.clone())),
                );
                members.push(
                    (AttributeField::Value.as_str().to_owned(), Value::String(value.clone())),
                );
            },
            AttributeEntry::Number { trait_type, value, display_type } => {
                members.push(
                    (AttributeField::TraitType.as_str().to_owned(), Value::String(trait_type.clone())),
                );
                members.push(
                    (
                        AttributeField::Value.as_str().to_owned(),
                        Value::Number(Number::Integer(*value as i128)),
                    ),
                );
                match display_type {
                    None => {},
                    Some(d) => {
                        members.push(
                            (
                                AttributeField::DisplayType.as_str().to_owned(),
                                Value::String(d.as_str().to_owned()),
                            ),
                        );
                    },
                }
            },
        }
        proof {
            let written = view_members(members@);
            let wanted = encode_attribute(self@)->Object_0;
            assert(written.len() == wanted.len());
            assert forall|i: int| 0 <= i < written.len() implies written[i] == wanted[i] by {
                assert(written[i] == (members@[i].0@, members@[i].1@));
            }
            assert(written =~= wanted);
        }
        Value::Object(members)
    }
}

/// The `value` of an item alone decides the variant that it decodes to: an
/// entry is numerical only where `value` is a number, and then holds that
/// number; it is textual only where `value` is a string, and then holds that
/// string. No number is read as a string, and no string as a number.
pub proof fn variant_follows_value(v: Json, index: usize)
    ensures
        decode_attribute(v, index) matches Ok(a) ==> v matches Json::Object(members) && match a {
            Attribute::Number { value, .. } => found(members, AttributeField::Value.key())
                matches Found::Once(Json::Number(n)) && unsigned_of(n) == Some(value),
            Attribute::String { value, .. } => found(members, AttributeField::Value.key())
                == Found::Once(Json::String(value)),
        },
{
}

/// The three keys of an attribute entry differ from one another.
pub proof fn attribute_keys_differ()
    ensures
        AttributeField::TraitType.key() != AttributeField::Value.key(),
        AttributeField::TraitType.key() != AttributeField::DisplayType.key(),
        AttributeField::Value.key() != AttributeField::DisplayType.key(),
{
    reveal_strlit("trait_type");
    reveal_strlit("value");
    reveal_strlit("display_type");
    assert("trait_type"@.len() == 10);
    assert("value"@.len() == 5);
    assert("display_type"@.len() == 12);
}

/// Decoding what an entry encodes to gives the entry back, at whatever
/// position it stands.
pub proof fn attribute_round_trip(a: Attribute, index: usize)
    ensures
        decode_attribute(encode_attribute(a), index) == Ok::<Attribute, Failure>(a),
{
    attribute_keys_differ();
    let members = encode_attribute(a)->Object_0;
    found_once(members, AttributeField::TraitType.key(), 0);
    found_once(members, AttributeField::Value.key(), 1);
    match a {
        Attribute::String { .. } => {},
        Attribute::Number { display_type, .. } => {
            match display_type {
                None => {
                    found_absent(members, AttributeField::DisplayType.key());
                },
                Some(d) => {
                    found_once(members, AttributeField::DisplayType.key(), 2);
                    DisplayType::token_round_trip(d);
                },
            }
        },
    }
}

} // verus!
