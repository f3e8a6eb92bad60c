//! Why a document was not decoded, and where.

use crate::value::{Json, Shape, Value};
use vstd::prelude::*;

verus! {

/// A member of a metadata document.
#[derive(Copy, Clone, Debug, PartialEq, Eq, Hash)]
pub enum Field {
    Image,
    ExternalUrl,
    Description,
    Name,
    Attributes,
    BackgroundColor,
    AnimationUrl,
    YoutubeUrl,
}

/// A member of an attribute entry.
#[derive(Copy, Clone, Debug, PartialEq, Eq, Hash)]
pub enum AttributeField {
    TraitType,
    Value,
    DisplayType,
}

/// A place in a metadata document.
#[derive(Copy, Clone, Debug, PartialEq, Eq, Hash)]
pub enum Location {
    /// The document itself.
    Document,
    /// A member of the document.
    Member(Field),
    /// A member of the attribute entry at a position of `attributes`.
    Attribute(usize, AttributeField),
}

/// What the codec accepts at some place.
#[derive(Copy, Clone, Debug, PartialEq, Eq, Hash)]
pub enum Expected {
    Object,
    Array,
    String,
    /// A string that is an absolute URL.
    Link,
    /// An integer from 0 to 2^64 - 1.
    Unsigned,
}

/// Why a value was not decoded.
#[derive(Debug, PartialEq, Eq)]
#[allow(inconsistent_fields)]
pub enum DecodeError {
    /// A required member is missing, a member is given twice, or the value at
    /// some place is not of the kind that the codec accepts there.
    Structure { at: Location, expected: Expected, found: Shape },
    /// A color is not written as exactly three pairs of hexadecimal digits.
    ColorFormat { raw: String },
    /// An item of `attributes` has neither a number nor a string as its
    /// `value`.
    UnrecognizedAttributeShape { index: usize, raw: Value },
    /// The `display_type` of the attribute entry at `index` is a string that
    /// names no display type.
    UnknownEnumToken { index: usize, token: String },
}

/// The mathematical form of a [`DecodeError`].
#[allow(inconsistent_fields)]
pub enum Failure {
    Structure { at: Location, expected: Expected, found: Shape },
    ColorFormat { raw: Seq<char> },
    UnrecognizedAttributeShape { index: usize, raw: Json },
    UnknownEnumToken { index: usize, token: Seq<char> },
}

impl Field {
    /// The key under which a document holds this member.
    pub open spec fn key(self) -> Seq<char> {
        match self {
            Field::Image => "image"@,
            Field::ExternalUrl => "external_url"@,
            Field::Description => "description"@,
            Field::Name => "name"@,
            Field::Attributes => "attributes"@,
            Field::BackgroundColor => "background_color"@,
            Field::AnimationUrl => "animation_url"@,
            Field::YoutubeUrl => "youtube_url"@,
        }
    }

    /// The key under which a document holds this member.
    pub fn as_str(self) -> (r: &'static str)
        ensures
            r@ == self.key(),
    {
        match self {
            Field::Image => "image",
            Field::ExternalUrl => "external_url",
            Field::Description => "description",
            Field::Name => "name",
            Field::Attributes => "attributes",
            Field::BackgroundColor => "background_color",
            Field::AnimationUrl => "animation_url",
            Field::YoutubeUrl => "youtube_url",
        }
    }
}

impl AttributeField {
    /// The key under which an attribute entry holds this member.
    pub open spec fn key(self) -> Seq<char> {
        match self {
            AttributeField::TraitType => "trait_type"@,
            AttributeField::Value => "value"@,
            AttributeField::DisplayType => "display_type"@,
        }
    }

    /// The key under which an attribute entry holds this member.
    pub fn as_str(self) -> (r: &'static str)
        ensures
            r@ == self.key(),
    {
        match self {
            AttributeField::TraitType => "trait_type",
            AttributeField::Value => "value",
            AttributeField::DisplayType => "display_type",
        }
    }
}

impl DecodeError {
    /// The failure that says that `at` should hold `expected` and holds
    /// `found`.
    pub fn mismatch(at: Location, expected: Expected, found: Shape) -> (e: DecodeError)
        ensures
            e@ == (Failure::Structure { at, expected, found }),
    {
        DecodeError::Structure { at, expected, found }
    }
}

impl Clone for DecodeError {
    /// A copy that stands for the same failure.
    fn clone(&self) -> (r: Self)
        ensures
            r@ == self@,
    {
        match self {
            DecodeError::Structure { at, expected, found } => DecodeError::Structure {
                at: *at,
                expected: *expected,
                found: *found,
            },
            DecodeError::ColorFormat { raw } => DecodeError::ColorFormat { raw: raw.clone() },
            DecodeError::UnrecognizedAttributeShape { index, raw } => {
                DecodeError::UnrecognizedAttributeShape { index: *index, raw: raw.clone() }
            },
            DecodeError::UnknownEnumToken { index, token } => DecodeError::UnknownEnumToken {
                index: *index,
                token: token.clone(),
            },
        }
    }
}

impl View for DecodeError {
    type V = Failure;

    open spec fn view(&self) -> Failure {
        match self {
            DecodeError::Structure { at, expected, found } => Failure::Structure {
                at: *at,
                expected: *expected,
                found: *found,
            },
            DecodeError::ColorFormat { raw } => Failure::ColorFormat { raw: raw@ },
            DecodeError::UnrecognizedAttributeShape { index, raw } => {
                Failure::UnrecognizedAttributeShape { index: *index, raw: raw@ }
            },
            DecodeError::UnknownEnumToken { index, token } => Failure::UnknownEnumToken {
                index: *index,
                token: token@,
            },
        }
    }
}

} // verus!
