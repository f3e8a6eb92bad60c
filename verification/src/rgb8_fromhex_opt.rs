//! The color codec: an optional RGB color as six hexadecimal digits, with no
//! leading marker.

use crate::base16::{bytes_of_hex, hex_decode, hex_encode, hex_of_bytes, hex_round_trip, is_hex};
use crate::error::{DecodeError, Failure};
use rgb::{ComponentSlice, Rgb, RGB8};
use vstd::prelude::*;

verus! {

/// `rgb::Rgb`: a pixel of three channels. Nothing of what it holds is seen
/// here but through [`rgb_channels`].
#[verifier::external_type_specification]
#[verifier::external_body]
#[verifier::reject_recursive_types(T)]
pub struct ExRgb<T>(Rgb<T>);

/// The red, green and blue channels that a color holds, in this order.
pub uninterp spec fn rgb_channels(c: RGB8) -> (u8, u8, u8);

/// `rgb::Rgb { r, g, b }`: the color whose channels are the three arguments.
#[verifier::external_body]
pub(crate) fn rgb_new(r: u8, g: u8, b: u8) -> (c: RGB8)
    ensures
        rgb_channels(c) == (r, g, b),
{
    Rgb { r, g, b }
}

/// `ComponentSlice::as_slice` on a color, copied into a vector: the crate
/// hands out the three channels as a slice, red first.
#[verifier::external_body]
#[allow(deprecated)]
pub(crate) fn rgb_to_vec(c: &RGB8) -> (v: Vec<u8>)
    ensures
        v@ == channel_bytes(rgb_channels(*c)),
{
    c.as_slice().to_vec()
}

/// The three channels as a byte string, red first.
pub open spec fn channel_bytes(c: (u8, u8, u8)) -> Seq<u8> {
    seq![c.0, c.1, c.2]
}

/// Whether `raw` is a color: hexadecimal text of exactly three bytes.
pub open spec fn is_color_text(raw: Seq<char>) -> bool {
    is_hex(raw) && raw.len() == 6
}

/// The color that `raw` stands for, where it is one.
pub open spec fn color_of_text(raw: Seq<char>) -> (u8, u8, u8) {
    let bytes = bytes_of_hex(raw);
    (bytes[0], bytes[1], bytes[2])
}

/// The text of a color: six lower-case hexadecimal digits.
pub open spec fn text_of_color(c: (u8, u8, u8)) -> Seq<char> {
    hex_of_bytes(channel_bytes(c))
}

/// What an optional color text decodes to: no color where there is no text,
/// the color where the text is one, and otherwise a failure that holds the
/// text.
pub open spec fn decode_color(raw: Option<Seq<char>>) -> Result<Option<(u8, u8, u8)>, Failure> {
    match raw {
        None => Ok(None),
        Some(text) => if is_color_text(text) {
            Ok(Some(color_of_text(text)))
        } else {
            Err(Failure::ColorFormat { raw: text })
        },
    }
}

/// What an optional color encodes to: no text where there is no color.
pub open spec fn encode_color(c: Option<(u8, u8, u8)>) -> Option<Seq<char>> {
    match c {
        None => None,
        Some(c) => Some(text_of_color(c)),
    }
}

/// The characters of an optional string slice.
pub open spec fn text_view(raw: Option<&str>) -> Option<Seq<char>> {
    match raw {
        None => None,
        Some(text) => Some(text@),
    }
}

/// The characters of an optional string.
pub open spec fn text_view_owned(raw: Option<String>) -> Option<Seq<char>> {
    match raw {
        None => None,
        Some(text) => Some(text@),
    }
}

/// The channels of an optional color.
pub open spec fn color_view(c: Option<RGB8>) -> Option<(u8, u8, u8)> {
    match c {
        None => None,
        Some(c) => Some(rgb_channels(c)),
    }
}

/// Reads an optional color from its text, `None` standing for a member that
/// the document does not have. Digits of either case are accepted.
pub fn deserialize(raw: Option<&str>) -> (r: Result<Option<RGB8>, DecodeError>)
    ensures
        match r {
            Ok(c) => decode_color(text_view(raw)) == Ok::<Option<(u8, u8, u8)>, Failure>(
                color_view(c),
            ),
            Err(e) => decode_color(text_view(raw)) == Err::<Option<(u8, u8, u8)>, Failure>(e@),
        },
{
    match raw {
        None => Ok(None),
        Some(text) => {
            match hex_decode(text) {
                Ok(bytes) => {
                    if bytes.len() != 3 {
                        Err(DecodeError::ColorFormat { raw: text.to_owned() })
                    } else {
                        Ok(Some(rgb_new(bytes[0], bytes[1], bytes[2])))
                    }
                },
                Err(_) => Err(DecodeError::ColorFormat { raw: text.to_owned() }),
            }
        },
    }
}

/// Writes an optional color as text. Where there is no color there is no
/// text, and the member is left out of the document.
pub fn serialize(value: &Option<RGB8>) -> (r: Option<String>)
    ensures
        text_view_owned(r) == encode_color(color_view(*value)),
{
    match value {
        None => None,
        Some(c) => {
            let bytes = rgb_to_vec(c);
            Some(hex_encode(&bytes))
        },
    }
}

/// The text of a color is a color text, and stands for that color.
pub proof fn color_text_round_trip(c: (u8, u8, u8))
    ensures
        is_color_text(text_of_color(c)),
        color_of_text(text_of_color(c)) == c,
{
    hex_round_trip(channel_bytes(c));
}

/// Decoding what an optional color encodes to gives the color back, and no
/// color where there was none.
pub proof fn color_round_trip(c: Option<(u8, u8, u8)>)
    ensures
        decode_color(encode_color(c)) == Ok::<Option<(u8, u8, u8)>, Failure>(c),
{
    if let Some(color) = c {
        color_text_round_trip(color);
    }
}

} // verus!
