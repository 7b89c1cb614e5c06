//! The trusted boundary: every call into the `gsm7` and `hex` crates, and the
//! few `String` operations of std that vstd does not specify. Verus believes
//! the contracts below; each doc comment says what is claimed of the callee.

use vstd::prelude::*;

use gsm7::{Gsm7Reader, Gsm7Writer};

use crate::septets::{gsm7_with_padding, is_gsm7_text, septet_count};
use crate::ucs2::utf16_lossy;

verus! {

/// What `gsm7` makes of a text (`Gsm7Writer::write_str` followed by
/// `Gsm7Writer::into_writer`): the packed octets, or the text of the error it
/// reports where it refuses a char that is neither in the default alphabet
/// nor in its escape table.
pub uninterp spec fn gsm7_write(text: Seq<char>) -> Result<Seq<u8>, Seq<char>>;

/// The octets that `gsm7` packs a text into, or `None` where it refuses it.
pub open spec fn gsm7_packed(text: Seq<char>) -> Option<Seq<u8>> {
    match gsm7_write(text) {
        Ok(bytes) => Some(bytes),
        Err(_) => None,
    }
}

/// What `gsm7::Gsm7Reader` reads out of packed octets: the chars it hands out
/// before its first error or the end of the input, and the text of that
/// error, if one came.
pub uninterp spec fn gsm7_read(data: Seq<u8>) -> (Seq<char>, Option<Seq<char>>);

/// The chars `gsm7::Gsm7Reader` reads out of packed octets, up to the end of
/// the input, or `None` where it reports an error first.
pub open spec fn gsm7_unpacked(data: Seq<u8>) -> Option<Seq<char>> {
    match gsm7_read(data) {
        (chars, None) => Some(chars),
        (_, Some(_)) => None,
    }
}

/// The value of one ASCII hex digit, either case, as `hex` reads it.
pub open spec fn hex_digit_value(b: u8) -> Option<u8> {
    if 0x30 <= b <= 0x39 {
        Some((b - 0x30) as u8)
    } else if 0x41 <= b <= 0x46 {
        Some((b - 0x41 + 10) as u8)
    } else if 0x61 <= b <= 0x66 {
        Some((b - 0x61 + 10) as u8)
    } else {
        None
    }
}

/// What `hex::decode` returns: `None` for an odd length or a non-hex byte,
/// else one octet per pair of digits, the first digit being the high nibble.
pub open spec fn hex_decoded(data: Seq<u8>) -> Option<Seq<u8>> {
    if data.len() % 2 == 0 && forall|i: int| 0 <= i < data.len() ==> (#[trigger] hex_digit_value(data[i])) is Some {
        Some(
            Seq::new(
                data.len() / 2,
                |i: int| (hex_digit_value(data[2 * i])->0 * 16 + hex_digit_value(data[2 * i + 1])->0) as u8,
            ),
        )
    } else {
        None
    }
}

/// Calls `Gsm7Writer::new`, `Gsm7Writer::write_str` and
/// `Gsm7Writer::into_writer` over a `Vec<u8>`. Claimed, from the crate's
/// source: the result is the named `gsm7_write` of the text; it succeeds
/// exactly when every char is in the writer's escape list or its 128-char
/// table (`GSM7_CHARSET`), as `is_gsm7_text` lists them; the writer emits
/// 7 bits per default-alphabet char and 14 per escape-table char, then pads to
/// a whole octet (its CR pad is cut at the octet boundary, so the length is
/// the septet count times 7 rounded up to octets); and reading the octets back
/// with `Gsm7Reader` yields the text, plus one `@` when the zero padding holds
/// a whole septet, unless the text holds the bare escape char U+001B, which
/// the writer emits as a lone escape septet. An error's text is the named
/// `gsm7_write` error of the text.
#[verifier::external_body]
pub(crate) fn encode_string_to_7bit(input: &str) -> (res: Result<Vec<u8>, String>)
    ensures
        match res {
            Ok(b) => gsm7_write(input@) == Ok::<Seq<u8>, Seq<char>>(b@),
            Err(e) => gsm7_write(input@) == Err::<Seq<u8>, Seq<char>>(e@),
        },
        res is Ok <==> is_gsm7_text(input@),
        res matches Ok(b) ==> b@.len() == (7 * septet_count(input@) + 7) / 8,
        res matches Ok(b) ==> !input@.contains('\x1b') ==> gsm7_unpacked(b@) == Some(
            gsm7_with_padding(input@),
        ),
{
    let mut writer = Gsm7Writer::new(Vec::new());
    if let Err(e) = writer.write_str(input) {
        return Err(e.to_string());
    }
    match writer.into_writer() {
        Ok(bytes) => Ok(bytes),
        Err(e) => Err(e.to_string()),
    }
}

/// Reads `data` with `Gsm7Reader::new` over a `std::io::Cursor`, taking the
/// items the iterator hands out until its first error or its end. Claimed:
/// the chars taken and the error's text are the named `gsm7_read` of the
/// octets.
#[verifier::external_body]
pub(crate) fn decode_gsm7(data: &[u8]) -> (res: (Vec<char>, Option<String>))
    ensures
        gsm7_read(data@) == (res.0@, match res.1 {
            Some(e) => Some(e@),
            None => None::<Seq<char>>,
        }),
{
    let mut chars: Vec<char> = Vec::new();
    for item in Gsm7Reader::new(std::io::Cursor::new(data)) {
        match item {
            Ok(c) => chars.push(c),
            Err(e) => return (chars, Some(e.to_string())),
        }
    }
    (chars, None)
}

/// The text of the error `hex::decode` reports for refused input (its
/// `FromHexError` displayed).
pub uninterp spec fn hex_error(data: Seq<u8>) -> Seq<char>;

/// Calls `hex::decode`. Claimed, from the crate's source: odd-length input
/// and any byte that is not an ASCII hex digit (either case) are refused,
/// and otherwise each pair of digits becomes one octet, high nibble first;
/// an error's text is the named `hex_error` of the input.
#[verifier::external_body]
pub(crate) fn hex_decode(data: &[u8]) -> (res: Result<Vec<u8>, String>)
    ensures
        match res {
            Ok(bytes) => hex_decoded(data@) == Some(bytes@),
            Err(e) => hex_decoded(data@) is None && e@ == hex_error(data@),
        },
{
    match hex::decode(data) {
        Ok(bytes) => Ok(bytes),
        Err(e) => Err(e.to_string()),
    }
}

/// Calls `String::push`, which appends one char to the string.
#[verifier::external_body]
pub(crate) fn push_char(s: &mut String, c: char)
    ensures
        final(s)@ == old(s)@.push(c),
{
    s.push(c)
}

/// The text `String::from_utf8_lossy` makes of octets: their UTF-8 decoding,
/// each invalid sequence replaced by U+FFFD.
pub uninterp spec fn utf8_lossy(bytes: Seq<u8>) -> Seq<char>;

/// Calls `String::from_utf8_lossy`. Claimed, from its documentation: the
/// result is the named `utf8_lossy` of the octets, and for valid UTF-8 it is
/// their decoding.
#[verifier::external_body]
pub(crate) fn from_utf8_lossy(bytes: &[u8]) -> (s: String)
    ensures
        s@ == utf8_lossy(bytes@),
        vstd::utf8::valid_utf8(bytes@) ==> s@ == vstd::utf8::decode_utf8(bytes@),
{
    String::from_utf8_lossy(bytes).into_owned()
}

/// Calls `String::from_utf16_lossy`. Claimed, from its documentation (and
/// that of `char::decode_utf16`, which it follows): the code units decoded
/// as UTF-16, each unpaired surrogate replaced by U+FFFD, as `utf16_lossy`
/// states.
#[verifier::external_body]
pub(crate) fn from_utf16_lossy(units: &[u16]) -> (s: String)
    ensures
        s@ == utf16_lossy(units@),
{
    String::from_utf16_lossy(units)
}

} // verus!
