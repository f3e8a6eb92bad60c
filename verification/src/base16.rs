//! Hexadecimal text: what it means, and the calls into the `hex` crate that
//! read and write it.

use hex::FromHexError;
use vstd::prelude::*;

verus! {

/// `hex::FromHexError`: why a string is no hexadecimal text. It is never
/// looked into.
#[verifier::external_type_specification]
#[verifier::external_body]
pub struct ExFromHexError(FromHexError);

/// The value of a hexadecimal digit of either case, `None` for any other
/// character.
pub open spec fn digit_value(c: char) -> Option<u8> {
    let n = c as u32;
    if '0' as u32 <= n <= '9' as u32 {
        Some((n - '0' as u32) as u8)
    } else if 'a' as u32 <= n <= 'f' as u32 {
        Some((n - 'a' as u32 + 10) as u8)
    } else if 'A' as u32 <= n <= 'F' as u32 {
        Some((n - 'A' as u32 + 10) as u8)
    } else {
        None
    }
}

/// The lower-case digit that stands for `n`, where `n < 16`.
pub open spec fn lower_digit(n: u8) -> char {
    if n < 10 {
        ('0' as u8 + n) as u8 as char
    } else {
        ('a' as u8 + n - 10) as u8 as char
    }
}

/// Whether `s` is hexadecimal text: an even number of characters, each of
/// them a hexadecimal digit.
pub open spec fn is_hex(s: Seq<char>) -> bool {
    &&& s.len() % 2 == 0
    &&& forall|i: int| 0 <= i < s.len() ==> (#[trigger] digit_value(s[i])) is Some
}

/// The bytes that hexadecimal text stands for: one byte for each pair of
/// digits, the first digit of a pair being the high half.
pub open spec fn bytes_of_hex(s: Seq<char>) -> Seq<u8> {
    Seq::new(
        s.len() / 2,
        |i: int| (16 * digit_value(s[2 * i])->0 + digit_value(s[2 * i + 1])->0) as u8,
    )
}

/// The lower-case hexadecimal text of `bytes`: two digits for each byte, the
/// high half first.
pub open spec fn hex_of_bytes(bytes: Seq<u8>) -> Seq<char> {
    Seq::new(
        2 * bytes.len(),
        |i: int|
            if i % 2 == 0 {
                lower_digit(bytes[i / 2] / 16)
            } else {
                lower_digit(bytes[i / 2] % 16)
            },
    )
}

/// `hex::decode` on a string. The crate reads the string byte by byte: it
/// fails on an odd number of bytes and on any byte that is not an ASCII
/// hexadecimal digit, and otherwise gives one byte for each pair of digits,
/// the first digit shifted into the high half. A character outside ASCII is
/// made of bytes that are no digits, so the claim can be stated over
/// characters.
#[verifier::external_body]
pub(crate) fn hex_decode(s: &str) -> (r: Result<Vec<u8>, FromHexError>)
    ensures
        match r {
            Ok(bytes) => is_hex(s@) && bytes@ == bytes_of_hex(s@),
            Err(_) => !is_hex(s@),
        },
{
    hex::decode(s)
}

/// `hex::encode` on a byte vector. The crate writes, for each byte in turn,
/// the digit of its high half and then the digit of its low half, both taken
/// from the table `0123456789abcdef`.
#[verifier::external_body]
pub(crate) fn hex_encode(bytes: &Vec<u8>) -> (r: String)
    ensures
        r@ == hex_of_bytes(bytes@),
{
    hex::encode(bytes)
}

/// Every digit that `lower_digit` writes is read back as the number it was
/// written for.
pub proof fn lower_digit_reads_back(n: u8)
    requires
        n < 16,
    ensures
        digit_value(lower_digit(n)) == Some(n),
{
}

/// Hexadecimal text written from bytes is hexadecimal text, and stands for
/// those bytes.
pub proof fn hex_round_trip(bytes: Seq<u8>)
    ensures
        is_hex(hex_of_bytes(bytes)),
        bytes_of_hex(hex_of_bytes(bytes)) == bytes,
{
    let text = hex_of_bytes(bytes);
    assert forall|i: int| 0 <= i < text.len() implies (#[trigger] digit_value(text[i])) is Some by {
        let b = bytes[i / 2];
        lower_digit_reads_back(b / 16);
        lower_digit_reads_back(b % 16);
    }
    assert forall|i: int| 0 <= i < bytes.len() implies bytes_of_hex(text)[i] == bytes[i] by {
        let b = bytes[i];
        assert((2 * i) / 2 == i && (2 * i + 1) / 2 == i);
        assert((2 * i) % 2 == 0 && (2 * i + 1) % 2 == 1);
        lower_digit_reads_back(b / 16);
        lower_digit_reads_back(b % 16);
    }
    assert(bytes_of_hex(text) =~= bytes);
}

} // verus!
