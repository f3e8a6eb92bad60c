//! The token-level record and its codec.

use crate::attribute::{decode_attribute, encode_attribute, Attribute, AttributeEntry};
use crate::error::{DecodeError, Expected, Failure, Field, Location};
use crate::fields::{
    link_member, mismatch, optional_link_member, read_link, read_optional_link, read_text,
    text_member,
};
use crate::laws::{round_trip, round_trip_needs_canonical_links};
use crate::link::{is_canonical, is_canonical_link, url_as_str, url_text};
use crate::rgb8_fromhex_opt::{color_view, decode_color, deserialize, encode_color, serialize};
use crate::value::{found, lookup, view_items, view_members, Found, Json, Lookup, Shape, Value};
use rgb::RGB8;
use url::Url;
use vstd::prelude::*;

verus! {

/// Metadata for a token.
///
/// The members `name`, `description` and `image` are required; a document
/// without one of them is not decoded.
#[derive(Debug, PartialEq, Eq, Hash)]
pub struct Metadata {
    /// URL to image of the item.
    pub image: Url,
    /// External URL to another site.
    pub external_url: Option<Url>,
    /// Human-readable description of the item.
    pub description: String,
    /// Name of the item.
    pub name: String,
    /// Attributes for the item, in the order in which they are displayed.
    pub attributes: Vec<AttributeEntry>,
    /// Background color of the item. In a document it is a string of six
    /// hexadecimal digits without a `#`.
    pub background_color: Option<RGB8>,
    /// URL to multi-media attachment for the item.
    pub animation_url: Option<Url>,
    /// URL to a YouTube video.
    pub youtube_url: Option<Url>,
}

/// The mathematical form of a [`Metadata`]: each link by the text that it
/// prints as, the color by its channels.
pub struct Record {
    pub image: Seq<char>,
    pub external_url: Option<Seq<char>>,
    pub description: Seq<char>,
    pub name: Seq<char>,
    pub attributes: Seq<Attribute>,
    pub background_color: Option<(u8, u8, u8)>,
    pub animation_url: Option<Seq<char>>,
    pub youtube_url: Option<Seq<char>>,
}

/// The text that an optional link prints as.
pub open spec fn link_view(u: Option<Url>) -> Option<Seq<char>> {
    match u {
        None => None,
        Some(u) => Some(url_text(u)),
    }
}

/// Whether an optional text, where there is one, parses to a URL that prints
/// as the same text.
pub open spec fn is_canonical_or_none(text: Option<Seq<char>>) -> bool {
    match text {
        None => true,
        Some(text) => is_canonical(text),
    }
}

/// The mathematical forms of a list of entries.
pub open spec fn view_entries(entries: Seq<AttributeEntry>) -> Seq<Attribute> {
    Seq::new(entries.len(), |i: int| entries[i]@)
}

impl View for Metadata {
    type V = Record;

    open spec fn view(&self) -> Record {
        Record {
            image: url_text(self.image),
            external_url: link_view(self.external_url),
            description: self.description@,
            name: self.name@,
            attributes: view_entries(self.attributes@),
            background_color: color_view(self.background_color),
            animation_url: link_view(self.animation_url),
            youtube_url: link_view(self.youtube_url),
        }
    }
}

/// A copy of an optional link.
fn clone_link(link: &Option<Url>) -> (r: Option<Url>)
    ensures
        link_view(r) == link_view(*link),
{
    match link {
        None => None,
        Some(u) => Some(u.clone()),
    }
}

/// Tests whether an optional link, where there is one, is canonical.
pub fn is_canonical_or_absent(link: &Option<Url>) -> (b: bool)
    ensures
        b == is_canonical_or_none(link_view(*link)),
{
    match link {
        None => true,
        Some(u) => is_canonical_link(u),
    }
}

impl Clone for Metadata {
    /// A copy that stands for the same record.
    fn clone(&self) -> (r: Self)
        ensures
            r@ == self@,
    {
        let mut attributes: Vec<AttributeEntry> = Vec::new();
        let mut i: usize = 0;
        while i < self.attributes.len()
            invariant
                i <= self.attributes.len(),
                attributes@.len() == i,
                forall|j: int| 0 <= j < i ==> (#[trigger] attributes@[j])@ == self.attributes@[j]@,
            decreases self.attributes.len() - i,
        {
            attributes.push(self.attributes[i].clone());
            i += 1;
        }
        assert(view_entries(attributes@) =~= view_entries(self.attributes@));
        Metadata {
            image: self.image.clone(),
            external_url: clone_link(&self.external_url),
            description: self.description.clone(),
            name: self.name.clone(),
            attributes,
            background_color: self.background_color,
            animation_url: clone_link(&self.animation_url),
            youtube_url: clone_link(&self.youtube_url),
        }
    }
}

impl Record {
    /// Whether every link of the record parses to a URL that prints as the
    /// same text. This is a condition, not an invariant: a [`Metadata`] may
    /// hold a link of which it fails, and [`Metadata::is_normal`] tests it.
    pub open spec fn links_canonical(self) -> bool {
        &&& is_canonical(self.image)
        &&& is_canonical_or_none(self.external_url)
        &&& is_canonical_or_none(self.animation_url)
        &&& is_canonical_or_none(self.youtube_url)
    }
}

/// Whether the item at position `k` of `items` is not decoded.
pub open spec fn fails_at(items: Seq<Json>, k: int) -> bool {
    0 <= k < items.len() && decode_attribute(items[k], k as usize) is Err
}

/// What the items of `attributes` decode to: the entries, as many as there
/// are items and in their order, or the failure of the first item that is
/// not decoded.
#[verifier::opaque]
pub open spec fn decode_attributes(items: Seq<Json>) -> Result<Seq<Attribute>, Failure> {
    if exists|k: int| fails_at(items, k) {
        let first = choose|k: int| fails_at(items, k) && forall|j: int| fails_at(items, j) ==> k <= j;
        Err(decode_attribute(items[first], first as usize)->Err_0)
    } else {
        Ok(Seq::new(items.len(), |i: int| decode_attribute(items[i], i as usize)->Ok_0))
    }
}

/// The entries that the members of a document hold: none where no member has
/// the key `attributes`.
pub open spec fn attributes_member(members: Seq<(Seq<char>, Json)>) -> Result<
    Seq<Attribute>,
    Failure,
> {
    match found(members, Field::Attributes.key()) {
        Found::Absent => Ok(Seq::empty()),
        Found::Once(Json::Array(items)) => decode_attributes(items),
        other => Err(mismatch(Location::Member(Field::Attributes), Expected::Array, other)),
    }
}

/// The color that the members of a document hold: none where no member has
/// the key `background_color`.
pub open spec fn color_member(members: Seq<(Seq<char>, Json)>) -> Result<
    Option<(u8, u8, u8)>,
    Failure,
> {
    match found(members, Field::BackgroundColor.key()) {
        Found::Absent => decode_color(None),
        Found::Once(Json::String(text)) => decode_color(Some(text)),
        other => Err(mismatch(Location::Member(Field::BackgroundColor), Expected::String, other)),
    }
}

/// What a document decodes to. It must be an object. Its members are read in
/// the order `image`, `external_url`, `description`, `name`, `attributes`,
/// `background_color`, `animation_url`, `youtube_url`, each on its own, and
/// the first failure in this order is the result. Members with other keys
/// are not read.
pub open spec fn decode_record(v: Json) -> Result<Record, Failure> {
    match v {
        Json::Object(members) => {
            let image = link_member(members, Field::Image);
            let external_url = optional_link_member(members, Field::ExternalUrl);
            let description = text_member(
                members,
                Field::Description.key(),
                Location::Member(Field::Description),
            );
            let name = text_member(members, Field::Name.key(), Location::Member(Field::Name));
            let attributes = attributes_member(members);
            let background_color = color_member(members);
            let animation_url = optional_link_member(members, Field::AnimationUrl);
            let youtube_url = optional_link_member(members, Field::YoutubeUrl);
            if image is Err {
                Err(image->Err_0)
            } else if external_url is Err {
                Err(external_url->Err_0)
            } else if description is Err {
                Err(description->Err_0)
            } else if name is Err {
                Err(name->Err_0)
            } else if attributes is Err {
                Err(attributes->Err_0)
            } else if background_color is Err {
                Err(background_color->Err_0)
            } else if animation_url is Err {
                Err(animation_url->Err_0)
            } else if youtube_url is Err {
                Err(youtube_url->Err_0)
            } else {
                Ok(
                    Record {
                        image: image->Ok_0,
                        external_url: external_url->Ok_0,
                        description: description->Ok_0,
                        name: name->Ok_0,
                        attributes: attributes->Ok_0,
                        background_color: background_color->Ok_0,
                        animation_url: animation_url->Ok_0,
                        youtube_url: youtube_url->Ok_0,
                    },
                )
            }
        },
        _ => Err(
            Failure::Structure {
                at: Location::Document,
                expected: Expected::Object,
                found: v.shape(),
            },
        ),
    }
}

/// The members of an object with, behind them, a string under `key` where
/// there is a text, and nothing more where there is none.
pub open spec fn with_optional(
    members: Seq<(Seq<char>, Json)>,
    key: Seq<char>,
    text: Option<Seq<char>>,
) -> Seq<(Seq<char>, Json)> {
    match text {
        None => members,
        Some(text) => members.push((key, Json::String(text))),
    }
}

/// What a list of entries encodes to, item by item.
pub open spec fn encode_attributes(attributes: Seq<Attribute>) -> Seq<Json> {
    Seq::new(attributes.len(), |i: int| encode_attribute(attributes[i]))
}

/// The members that a record encodes to, in the order of [`decode_record`].
/// The three required members and `attributes` are always written, the last
/// as an array even where it is empty; an optional member is written only
/// where the record has a value for it.
pub open spec fn encode_members(m: Record) -> Seq<(Seq<char>, Json)> {
    let image = seq![(Field::Image.key(), Json::String(m.image))];
    let external_url = with_optional(image, Field::ExternalUrl.key(), m.external_url);
    let attributes = external_url.push((Field::Description.key(), Json::String(m.description))).push(
        (Field::Name.key(), Json::String(m.name)),
    ).push((Field::Attributes.key(), Json::Array(encode_attributes(m.attributes))));
    let background_color = with_optional(
        attributes,
        Field::BackgroundColor.key(),
        encode_color(m.background_color),
    );
    let animation_url = with_optional(background_color, Field::AnimationUrl.key(), m.animation_url);
    with_optional(animation_url, Field::YoutubeUrl.key(), m.youtube_url)
}

/// What a record encodes to: an object of the members of [`encode_members`].
pub open spec fn encode_record(m: Record) -> Json {
    Json::Object(encode_members(m))
}

/// Decodes the items of `attributes`, in their order.
pub fn read_entries(items: &Vec<Value>) -> (r: Result<Vec<AttributeEntry>, DecodeError>)
    ensures
        match r {
            Ok(entries) => decode_attributes(view_items(items@)) == Ok::<Seq<Attribute>, Failure>(
                view_entries(entries@),
            ),
            Err(e) => decode_attributes(view_items(items@)) == Err::<Seq<Attribute>, Failure>(e@),
        },
{
    let ghost view = view_items(items@);
    let mut entries: Vec<AttributeEntry> = Vec::new();
    let mut i: usize = 0;
    while i < items.len()
        invariant
            i <= items.len(),
            view == view_items(items@),
            entries@.len() == i,
            forall|j: int|
                0 <= j < i ==> decode_attribute(#[trigger] view[j], j as usize) == Ok::<
                    Attribute,
                    Failure,
                >(entries@[j]@),
        decreases items.len() - i,
    {
        match AttributeEntry::decode(&items[i], i) {
            Ok(entry) => {
                entries.push(entry);
            },
            Err(e) => {
                proof {
                    reveal(decode_attributes);
                    assert(view[i as int] == items@[i as int]@);
                    assert(fails_at(view, i as int));
                    let first = choose|k: int|
                        fails_at(view, k) && forall|j: int| fails_at(view, j) ==> k <= j;
                    assert forall|j: int| fails_at(view, j) implies i <= j by {
                        if j < i {
                            assert(decode_attribute(view[j], j as usize) is Ok);
                        }
                    }
                    assert(first == i as int) by {
                        if first < i {
                            assert(decode_attribute(view[first], first as usize) is Ok);
                        }
                    }
                }
                return Err(e);
            },
        }
        i += 1;
    }
    proof {
        reveal(decode_attributes);
        assert forall|k: int| !fails_at(view, k) by {
            if 0 <= k < view.len() {
                assert(decode_attribute(view[k], k as usize) is Ok);
            }
        }
        assert(decode_attributes(view)->Ok_0 =~= view_entries(entries@));
    }
    Ok(entries)
}

/// Reads the entries that the members of a document hold.
pub fn read_attributes(members: &Vec<(String, Value)>) -> (r: Result<
    Vec<AttributeEntry>,
    DecodeError,
>)
    ensures
        match r {
            Ok(entries) => attributes_member(view_members(members@)) == Ok::<
                Seq<Attribute>,
                Failure,
            >(view_entries(entries@)),
            Err(e) => attributes_member(view_members(members@)) == Err::<Seq<Attribute>, Failure>(
                e@,
            ),
        },
{
    let at = Location::Member(Field::Attributes);
    match lookup(members, Field::Attributes.as_str()) {
        Lookup::Absent => {
            let entries: Vec<AttributeEntry> = Vec::new();
            assert(view_entries(entries@) =~= Seq::empty());
            Ok(entries)
        },
        Lookup::At(i) => match &members[i].1 {
            Value::Array(items) => read_entries(items),
            other => Err(DecodeError::mismatch(at, Expected::Array, other.shape())),
        },
        Lookup::Repeated => Err(DecodeError::mismatch(at, Expected::Array, Shape::Repeated)),
    }
}

/// Reads the color that the members of a document hold.
pub fn read_color(members: &Vec<(String, Value)>) -> (r: Result<Option<RGB8>, DecodeError>)
    ensures
        match r {
            Ok(c) => color_member(view_members(members@)) == Ok::<Option<(u8, u8, u8)>, Failure>(
                color_view(c),
            ),
            Err(e) => color_member(view_members(members@)) == Err::<Option<(u8, u8, u8)>, Failure>(
                e@,
            ),
        },
{
    let at = Location::Member(Field::BackgroundColor);
    match lookup(members, Field::BackgroundColor.as_str()) {
        Lookup::Absent => deserialize(None),
        Lookup::At(i) => match &members[i].1 {
            Value::String(text) => deserialize(Some(text.as_str())),
            other => Err(DecodeError::mismatch(at, Expected::String, other.shape())),
        },
        Lookup::Repeated => Err(DecodeError::mismatch(at, Expected::String, Shape::Repeated)),
    }
}

/// Writes a string under `key` behind the members.
pub fn write_text(members: &mut Vec<(String, Value)>, key: &str, text: &str)
    ensures
        view_members(final(members)@) == view_members(old(members)@).push(
            (key@, Json::String(text@)),
        ),
{
    let ghost before = view_members(members@);
    members.push((key.to_owned(), Value::String(text.to_owned())));
    assert(view_members(members@) =~= before.push((key@, Json::String(text@))));
}

/// Writes a link under the key of `field` behind the members, where there is
/// one.
pub fn write_optional_link(members: &mut Vec<(String, Value)>, field: Field, link: &Option<Url>)
    ensures
        view_members(final(members)@) == with_optional(
            view_members(old(members)@),
            field.key(),
            link_view(*link),
        ),
{
    match link {
        None => {},
        Some(u) => {
            write_text(members, field.as_str(), url_as_str(u));
        },
    }
}

/// Encodes a list of entries, item by item.
pub fn write_entries(entries: &Vec<AttributeEntry>) -> (r: Vec<Value>)
    ensures
        view_items(r@) == encode_attributes(view_entries(entries@)),
{
    let mut items: Vec<Value> = Vec::new();
    let mut i: usize = 0;
    while i < entries.len()
        invariant
            i <= entries.len(),
            items@.len() == i,
            forall|j: int| 0 <= j < i ==> (#[trigger] items@[j])@ == encode_attribute(entries@[j]@),
        decreases entries.len() - i,
    {
        items.push(entries[i].encode());
        i += 1;
    }
    assert(view_items(items@) =~= encode_attributes(view_entries(entries@)));
    items
}

impl Metadata {
    /// Decodes a document. Each link is held as the `url` crate parses it,
    /// which need not be canonical: see [`Metadata::is_normal`].
    pub fn decode(value: &Value) -> (r: Result<Metadata, DecodeError>)
        ensures
            match r {
                Ok(m) => decode_record(value@) == Ok::<Record, Failure>(m@),
                Err(e) => decode_record(value@) == Err::<Record, Failure>(e@),
            },
    {
        match value {
            Value::Object(members) => {
                let image = read_link(members, Field::Image)?;
                let external_url = read_optional_link(members, Field::ExternalUrl)?;
                let description = read_text(
                    members,
                    Field::Description.as_str(),
                    Location::Member(Field::Description),
                )?;
                let name = read_text(members, Field::Name.as_str(), Location::Member(Field::Name))?;
                let attributes = read_attributes(members)?;
                let background_color = read_color(members)?;
                let animation_url = read_optional_link(members, Field::AnimationUrl)?;
                let youtube_url = read_optional_link(members, Field::YoutubeUrl)?;
                Ok(
                    Metadata {
                        image,
                        external_url,
                        description,
                        name,
                        attributes,
                        background_color,
                        animation_url,
                        youtube_url,
                    },
                )
            },
            other => Err(
                DecodeError::mismatch(Location::Document, Expected::Object, other.shape()),
            ),
        }
    }

    /// Tests whether every link of the record is canonical. That is so of
    /// just the records that survive a round trip: what such a record
    /// encodes to decodes to the same record, and what any other encodes to
    /// does not.
    pub fn is_normal(&self) -> (b: bool)
        ensures
            b == self@.links_canonical(),
            b == (decode_record(encode_record(self@)) == Ok::<Record, Failure>(self@)),
    {
        let b = is_canonical_link(&self.image) && is_canonical_or_absent(&self.external_url)
            && is_canonical_or_absent(&self.animation_url) && is_canonical_or_absent(
            &self.youtube_url,
        );
        proof {
            if b {
                round_trip(self@);
            } else {
                round_trip_needs_canonical_links(self@);
            }
        }
        b
    }

    /// Encodes the record as a document.
    pub fn encode(&self) -> (r: Value)
        ensures
            r@ == encode_record(self@),
    {
        let mut members: Vec<(String, Value)> = Vec::new();
        assert(view_members(members@) =~= Seq::empty());
        write_text(&mut members, Field::Image.as_str(), url_as_str(&self.image));
        assert(view_members(members@) =~= seq![(Field::Image.key(), Json::String(self@.image))]);
        write_optional_link(&mut members, Field::ExternalUrl, &self.external_url);
        write_text(&mut members, Field::Description.as_str(), self.description.as_str());
        write_text(&mut members, Field::Name.as_str(), self.name.as_str());
        let items = write_entries(&self.attributes);
        let ghost before = view_members(members@);
        members.push((Field::Attributes.as_str().to_owned(), Value::Array(items)));
        assert(view_members(members@) =~= before.push(
            (Field::Attributes.key(), Json::Array(encode_attributes(self@.attributes))),
        ));
        match serialize(&self.background_color) {
            None => {},
            Some(text) => {
                write_text(&mut members, Field::BackgroundColor.as_str(), text.as_str());
            },
        }
        write_optional_link(&mut members, Field::AnimationUrl, &self.animation_url);
        write_optional_link(&mut members, Field::YoutubeUrl, &self.youtube_url);
        Value::Object(members)
    }
}

} // verus!
