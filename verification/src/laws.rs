//! What holds of the codec for every record and every document.

use crate::attribute::{attribute_round_trip, decode_attribute, Attribute};
use crate::error::{Failure, Field};
use crate::link::{not_a_link, url_parsed};
use crate::metadata::{
    decode_attributes, decode_record, encode_attributes, encode_members, encode_record, fails_at,
    Record,
};
use crate::rgb8_fromhex_opt::{color_round_trip, encode_color};
use crate::value::{found, found_absent, found_after, found_push, found_without, Found, Json};
use vstd::prelude::*;

verus! {

/// Whether `key` is one of the eight keys that a document is read by.
pub open spec fn is_member_key(key: Seq<char>) -> bool {
    exists|field: Field| key == field.key()
}

/// The eight keys of a document differ from one another.
pub proof fn member_keys_differ()
    ensures
        forall|a: Field, b: Field| a != b ==> a.key() != b.key(),
{
    reveal_strlit("image");
    reveal_strlit("external_url");
    reveal_strlit("description");
    reveal_strlit("name");
    reveal_strlit("attributes");
    reveal_strlit("background_color");
    reveal_strlit("animation_url");
    reveal_strlit("youtube_url");
    assert("image"@.len() == 5);
    assert("external_url"@.len() == 12);
    assert("description"@.len() == 11 && "description"@[0] == 'd');
    assert("name"@.len() == 4);
    assert("attributes"@.len() == 10);
    assert("background_color"@.len() == 16);
    assert("animation_url"@.len() == 13);
    assert("youtube_url"@.len() == 11 && "youtube_url"@[0] == 'y');
}

/// What an object holds under `key` once a string is written under `k`
/// behind its members, where there is a text.
pub open spec fn found_after_optional(
    before: Found,
    k: Seq<char>,
    text: Option<Seq<char>>,
    key: Seq<char>,
) -> Found {
    match text {
        None => before,
        Some(text) => found_after(before, k, Json::String(text), key),
    }
}

/// What an encoded record holds under `key`, followed member by member.
pub open spec fn found_in_encoding(m: Record, key: Seq<char>) -> Found {
    let image = found_after(Found::Absent, Field::Image.key(), Json::String(m.image), key);
    let external_url = found_after_optional(image, Field::ExternalUrl.key(), m.external_url, key);
    let description = found_after(
        external_url,
        Field::Description.key(),
        Json::String(m.description),
        key,
    );
    let name = found_after(description, Field::Name.key(), Json::String(m.name), key);
    let attributes = found_after(
        name,
        Field::Attributes.key(),
        Json::Array(encode_attributes(m.attributes)),
        key,
    );
    let background_color = found_after_optional(
        attributes,
        Field::BackgroundColor.key(),
        encode_color(m.background_color),
        key,
    );
    let animation_url = found_after_optional(
        background_color,
        Field::AnimationUrl.key(),
        m.animation_url,
        key,
    );
    found_after_optional(animation_url, Field::YoutubeUrl.key(), m.youtube_url, key)
}

proof fn found_with_optional(
    members: Seq<(Seq<char>, Json)>,
    k: Seq<char>,
    text: Option<Seq<char>>,
    key: Seq<char>,
)
    ensures
        found(crate::metadata::with_optional(members, k, text), key) == found_after_optional(
            found(members, key),
            k,
            text,
            key,
        ),
{
    if let Some(text) = text {
        found_push(members, k, Json::String(text), key);
    }
}

proof fn encoding_followed(m: Record, key: Seq<char>)
    ensures
        found(encode_members(m), key) == found_in_encoding(m, key),
{
    let nothing = Seq::<(Seq<char>, Json)>::empty();
    let image = seq![(Field::Image.key(), Json::String(m.image))];
    assert(image =~= nothing.push((Field::Image.key(), Json::String(m.image))));
    found_absent(nothing, key);
    found_push(nothing, Field::Image.key(), Json::String(m.image), key);
    found_with_optional(image, Field::ExternalUrl.key(), m.external_url, key);
    let external_url = crate::metadata::with_optional(
        image,
        Field::ExternalUrl.key(),
        m.external_url,
    );
    found_push(external_url, Field::Description.key(), Json::String(m.description), key);
    let description = external_url.push((Field::Description.key(), Json::String(m.description)));
    found_push(description, Field::Name.key(), Json::String(m.name), key);
    let name = description.push((Field::Name.key(), Json::String(m.name)));
    found_push(name, Field::Attributes.key(), Json::Array(encode_attributes(m.attributes)), key);
    let attributes = name.push(
        (Field::Attributes.key(), Json::Array(encode_attributes(m.attributes))),
    );
    found_with_optional(
        attributes,
        Field::BackgroundColor.key(),
        encode_color(m.background_color),
        key,
    );
    let background_color = crate::metadata::with_optional(
        attributes,
        Field::BackgroundColor.key(),
        encode_color(m.background_color),
    );
    found_with_optional(background_color, Field::AnimationUrl.key(), m.animation_url, key);
    let animation_url = crate::metadata::with_optional(
        background_color,
        Field::AnimationUrl.key(),
        m.animation_url,
    );
    found_with_optional(animation_url, Field::YoutubeUrl.key(), m.youtube_url, key);
}

/// What an optional text is found as in a document that was encoded: a string
/// where there is one, and no member where there is none.
pub open spec fn found_optional(text: Option<Seq<char>>) -> Found {
    match text {
        None => Found::Absent,
        Some(text) => Found::Once(Json::String(text)),
    }
}

/// An encoded record holds each of its keys at most once. The three required
/// members and `attributes` are always there, `attributes` as an array even
/// where it is empty; an optional member is there where the record has a
/// value for it and is left out where it has none.
pub proof fn encoded_members(m: Record)
    ensures
        found(encode_members(m), Field::Image.key()) == Found::Once(Json::String(m.image)),
        found(encode_members(m), Field::ExternalUrl.key()) == found_optional(m.external_url),
        found(encode_members(m), Field::Description.key()) == Found::Once(
            Json::String(m.description),
        ),
        found(encode_members(m), Field::Name.key()) == Found::Once(Json::String(m.name)),
        found(encode_members(m), Field::Attributes.key()) == Found::Once(
            Json::Array(encode_attributes(m.attributes)),
        ),
        found(encode_members(m), Field::BackgroundColor.key()) == found_optional(
            encode_color(m.background_color),
        ),
        found(encode_members(m), Field::AnimationUrl.key()) == found_optional(m.animation_url),
        found(encode_members(m), Field::YoutubeUrl.key()) == found_optional(m.youtube_url),
{
    member_keys_differ();
    encoding_followed(m, Field::Image.key());
    encoding_followed(m, Field::ExternalUrl.key());
    encoding_followed(m, Field::Description.key());
    encoding_followed(m, Field::Name.key());
    encoding_followed(m, Field::Attributes.key());
    encoding_followed(m, Field::BackgroundColor.key());
    encoding_followed(m, Field::AnimationUrl.key());
    encoding_followed(m, Field::YoutubeUrl.key());
}

/// Where every item of `attributes` is decoded, there are as many entries as
/// items, and the entry at each position is what the item at that position
/// decodes to.
pub proof fn attributes_keep_order(items: Seq<Json>)
    ensures
        decode_attributes(items) matches Ok(entries) ==> {
            &&& entries.len() == items.len()
            &&& forall|i: int|
                0 <= i < items.len() ==> decode_attribute(#[trigger] items[i], i as usize) == Ok::<
                    Attribute,
                    Failure,
                >(entries[i])
        },
{
    reveal(decode_attributes);
    if decode_attributes(items) is Ok {
        assert forall|i: int| 0 <= i < items.len() implies decode_attribute(
            #[trigger] items[i],
            i as usize,
        ) is Ok by {
            assert(!fails_at(items, i));
        }
    }
}

/// Decoding what a list of entries encodes to gives the entries back.
pub proof fn attributes_round_trip(attributes: Seq<Attribute>)
    ensures
        decode_attributes(encode_attributes(attributes)) == Ok::<Seq<Attribute>, Failure>(
            attributes,
        ),
{
    reveal(decode_attributes);
    let items = encode_attributes(attributes);
    assert forall|k: int| !fails_at(items, k) by {
        if 0 <= k < items.len() {
            attribute_round_trip(attributes[k], k as usize);
        }
    }
    assert forall|i: int| 0 <= i < attributes.len() implies decode_attribute(
        items[i],
        i as usize,
    )->Ok_0 == attributes[i] by {
        attribute_round_trip(attributes[i], i as usize);
    }
    assert(decode_attributes(items)->Ok_0 =~= attributes);
}

/// What the text of a link is read back as: the text of the URL that it
/// parses to.
pub open spec fn link_again(text: Seq<char>, field: Field) -> Result<Seq<char>, Failure> {
    match url_parsed(text) {
        Some(again) => Ok(again),
        None => Err(not_a_link(field)),
    }
}

/// What the text of an optional link is read back as.
pub open spec fn optional_link_again(text: Option<Seq<char>>, field: Field) -> Result<
    Option<Seq<char>>,
    Failure,
> {
    match text {
        None => Ok(None),
        Some(text) => match link_again(text, field) {
            Ok(again) => Ok(Some(again)),
            Err(e) => Err(e),
        },
    }
}

/// What a record is read back as: the same record with each link parsed
/// again, or the failure of the first link that does not parse.
pub open spec fn record_again(m: Record) -> Result<Record, Failure> {
    let image = link_again(m.image, Field::Image);
    let external_url = optional_link_again(m.external_url, Field::ExternalUrl);
    let animation_url = optional_link_again(m.animation_url, Field::AnimationUrl);
    let youtube_url = optional_link_again(m.youtube_url, Field::YoutubeUrl);
    if image is Err {
        Err(image->Err_0)
    } else if external_url is Err {
        Err(external_url->Err_0)
    } else if animation_url is Err {
        Err(animation_url->Err_0)
    } else if youtube_url is Err {
        Err(youtube_url->Err_0)
    } else {
        Ok(
            Record {
                image: image->Ok_0,
                external_url: external_url->Ok_0,
                animation_url: animation_url->Ok_0,
                youtube_url: youtube_url->Ok_0,
                ..m
            },
        )
    }
}

/// Decoding what a record encodes to gives the record back in all but its
/// links, and each link as it parses again.
pub proof fn encoded_record_decodes(m: Record)
    ensures
        decode_record(encode_record(m)) == record_again(m),
{
    encoded_members(m);
    attributes_round_trip(m.attributes);
    color_round_trip(m.background_color);
}

/// Round trip: decoding what a record encodes to gives the record back,
/// where every link of the record is canonical.
pub proof fn round_trip(m: Record)
    requires
        m.links_canonical(),
    ensures
        decode_record(encode_record(m)) == Ok::<Record, Failure>(m),
{
    encoded_record_decodes(m);
}

/// The round trip gives the record back for no other record: one with a link
/// that is not canonical decodes, once encoded, to another record or not at
/// all.
pub proof fn round_trip_needs_canonical_links(m: Record)
    ensures
        decode_record(encode_record(m)) == Ok::<Record, Failure>(m) ==> m.links_canonical(),
{
    encoded_record_decodes(m);
}

/// Defaulting: a document without `attributes` decodes as the same document
/// with an empty array written under `attributes`, and so, where it is
/// decoded, to a record without entries.
pub proof fn missing_attributes_are_empty(members: Seq<(Seq<char>, Json)>)
    requires
        found(members, Field::Attributes.key()) is Absent,
    ensures
        decode_record(Json::Object(members)) == decode_record(
            Json::Object(members.push((Field::Attributes.key(), Json::Array(Seq::empty())))),
        ),
        decode_record(Json::Object(members)) matches Ok(m) ==> m.attributes == Seq::<
            Attribute,
        >::empty(),
{
    reveal(decode_attributes);
    member_keys_differ();
    let empty = Json::Array(Seq::empty());
    let key = Field::Attributes.key();
    found_push(members, key, empty, Field::Image.key());
    found_push(members, key, empty, Field::ExternalUrl.key());
    found_push(members, key, empty, Field::Description.key());
    found_push(members, key, empty, Field::Name.key());
    found_push(members, key, empty, Field::Attributes.key());
    found_push(members, key, empty, Field::BackgroundColor.key());
    found_push(members, key, empty, Field::AnimationUrl.key());
    found_push(members, key, empty, Field::YoutubeUrl.key());
    assert(!exists|k: int| fails_at(Seq::<Json>::empty(), k));
    assert(decode_attributes(Seq::<Json>::empty())->Ok_0 =~= Seq::<Attribute>::empty());
}

/// Unknown keys: a member whose key is none of the eight is not read. The
/// document decodes as it does without that member, wherever it stands and
/// whatever it holds.
pub proof fn unknown_member_is_ignored(members: Seq<(Seq<char>, Json)>, at: int)
    requires
        0 <= at < members.len(),
        !is_member_key(members[at].0),
    ensures
        decode_record(Json::Object(members.remove(at))) == decode_record(Json::Object(members)),
{
    assert forall|field: Field| members[at].0 != #[trigger] field.key() by {}
    found_without(members, at, Field::Image.key());
    found_without(members, at, Field::ExternalUrl.key());
    found_without(members, at, Field::Description.key());
    found_without(members, at, Field::Name.key());
    found_without(members, at, Field::Attributes.key());
    found_without(members, at, Field::BackgroundColor.key());
    found_without(members, at, Field::AnimationUrl.key());
    found_without(members, at, Field::YoutubeUrl.key());
}

/// A document without `background_color` decodes, where it is decoded, to a
/// record without color, and a record without color encodes to a document
/// without `background_color`.
pub proof fn no_color_is_no_member(members: Seq<(Seq<char>, Json)>, m: Record)
    ensures
        found(members, Field::BackgroundColor.key()) is Absent && decode_record(
            Json::Object(members),
        ) == Ok::<Record, Failure>(m) ==> m.background_color is None,
        m.background_color is None ==> found(encode_members(m), Field::BackgroundColor.key())
            is Absent,
{
    encoded_members(m);
}

} // verus!
