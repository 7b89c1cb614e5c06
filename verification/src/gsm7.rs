//! GSM 7-bit default alphabet: septet packing and unpacking (TS 23.038 §6.2.1).

use vstd::prelude::*;

use vstd::std_specs::iter::IteratorSpec;

use crate::error::Error;
use crate::septets::{char_septets, gsm7_with_padding, is_gsm7_escaped, is_gsm7_text, septet_count};
use crate::trusted::{
    decode_gsm7, encode_string_to_7bit, gsm7_packed, gsm7_read, gsm7_unpacked, gsm7_write,
    push_char,
};

verus! {

/// Drop up to `k` trailing `@` chars (each a zero septet of carrier padding).
pub open spec fn strip_padding(chars: Seq<char>, k: nat) -> Seq<char>
    decreases k,
{
    if k == 0 || chars.len() == 0 || chars.last() != '@' {
        chars
    } else {
        strip_padding(chars.drop_last(), (k - 1) as nat)
    }
}

/// How many more septets `octets` octets hold than the `septets` the message
/// declares: the septets that can only be padding.
pub open spec fn padding_septets(octets: nat, septets: nat) -> nat {
    if octets * 8 / 7 >= septets {
        (octets * 8 / 7 - septets) as nat
    } else {
        0
    }
}

/// The text `unpack_gsm7` gives back for packed octets and a septet count, or
/// `None` where the octets do not decode.
pub open spec fn spec_unpack_gsm7(data: Seq<u8>, septets: nat) -> Option<Seq<char>> {
    match gsm7_unpacked(data) {
        Some(chars) => Some(strip_padding(chars, padding_septets(data.len(), septets))),
        None => None,
    }
}

/// The octets of user data that decode to `chars` when every char is below
/// U+0100, each char becoming the octet of its code point.
pub open spec fn chars_as_octets(chars: Seq<char>) -> Option<Seq<u8>> {
    if forall|i: int| 0 <= i < chars.len() ==> (#[trigger] chars[i]) as u32 <= 0xff {
        Some(Seq::new(chars.len(), |i: int| (chars[i] as u32) as u8))
    } else {
        None
    }
}

/// What decoding 7-bit user data to octets gives: the octets of the chars
/// read, without a trailing `@` (0x40) when their count is not the declared
/// septet count; `None` where the data does not decode or a char is above
/// U+00FF.
pub open spec fn spec_decode_7bit(raw: Seq<u8>, expected_length: nat) -> Option<Seq<u8>> {
    match gsm7_unpacked(raw) {
        None => None,
        Some(chars) => septet_octets(chars, expected_length),
    }
}

/// The octets of chars read from 7-bit user data: each char's code point,
/// without a trailing `@` (0x40) when their count is not the declared
/// septet count; `None` where a char is above U+00FF.
pub open spec fn septet_octets(chars: Seq<char>, expected_length: nat) -> Option<Seq<u8>> {
    match chars_as_octets(chars) {
        None => None,
        Some(bytes) => if bytes.len() != expected_length && bytes.len() > 0 && bytes.last() == 0x40 {
            Some(bytes.drop_last())
        } else {
            Some(bytes)
        },
    }
}

proof fn lemma_septet_count_step(s: Seq<char>, k: int)
    requires
        0 <= k < s.len(),
    ensures
        septet_count(s.take(k + 1)) == septet_count(s.take(k)) + char_septets(s[k]),
{
    assert(s.take(k + 1).drop_last() =~= s.take(k));
}

/// The septet count of a text, char by char.
fn count_septets(input: &str) -> (n: usize)
    requires
        septet_count(input@) <= usize::MAX,
    ensures
        n == septet_count(input@),
{
    let mut it = input.chars();
    let mut n: usize = 0;
    let ghost mut k: int = 0;
    loop
        invariant
            0 <= k <= input@.len(),
            it.remaining() == input@.skip(k),
            n == septet_count(input@.take(k)),
            septet_count(input@) <= usize::MAX,
        ensures
            n == septet_count(input@),
        decreases input@.len() - k,
    {
        match it.next() {
            Some(c) => {
                proof {
                    lemma_septet_count_step(input@, k);
                    lemma_septet_count_prefix(input@, k + 1);
                }
                if c == '\x0c' || c == '^' || c == '{' || c == '}' || c == '\\' || c == '['
                    || c == '~' || c == ']' || c == '|' || c == '€' {
                    n = n + 2;
                } else {
                    n = n + 1;
                }
                proof {
                    k = k + 1;
                }
            },
            None => {
                assert(input@.take(k) =~= input@);
                break ;
            },
        }
    }
    n
}

proof fn lemma_septet_count_prefix(s: Seq<char>, k: int)
    requires
        0 <= k <= s.len(),
    ensures
        septet_count(s.take(k)) <= septet_count(s),
    decreases s.len() - k,
{
    if k < s.len() {
        lemma_septet_count_step(s, k);
        lemma_septet_count_prefix(s, k + 1);
    } else {
        assert(s.take(k) =~= s);
    }
}

/// Octets read back from a packed text hold one septet more than the text
/// exactly when the text's septet count is 7 more than a multiple of 8.
pub(crate) proof fn lemma_padding_of_packed(n: nat)
    ensures
        padding_septets((7 * n + 7) / 8, n) == if (7 * n) % 8 == 1 {
            1nat
        } else {
            0nat
        },
{
    let q = n / 8;
    let r = n % 8;
    assert(n == 8 * q + r && 0 <= r < 8) by (nonlinear_arith)
        requires
            q == n / 8,
            r == n % 8,
    ;
    assert((7 * n + 7) / 8 == 7 * q + r) by (nonlinear_arith)
        requires
            n == 8 * q + r,
            0 <= r < 8,
    ;
    assert((7 * n) % 8 == (7 * r) % 8) by (nonlinear_arith)
        requires
            n == 8 * q + r,
    ;
    assert((7 * q + r) * 8 / 7 == 8 * q + (8 * r) / 7) by (nonlinear_arith)
        requires
            0 <= r < 8,
            q >= 0,
    ;
    assert((8 * r) / 7 == if r == 7 { 8int } else { r as int });
    assert((7 * r) % 8 == 1 <==> r == 7);
}

/// A text that the SMS-SUBMIT decoder reads back octet for octet: no char
/// costs two septets, none is the bare escape char, and every char is below
/// U+0100 so that it fits an octet.
pub open spec fn is_octet_gsm7_text(s: Seq<char>) -> bool {
    forall|i: int|
        0 <= i < s.len() ==> !is_gsm7_escaped(#[trigger] s[i]) && s[i] != '\x1b' && (s[i] as u32)
            <= 0xff
}

proof fn lemma_septet_count_plain(s: Seq<char>)
    requires
        forall|i: int| 0 <= i < s.len() ==> !is_gsm7_escaped(#[trigger] s[i]),
    ensures
        septet_count(s) == s.len(),
    decreases s.len(),
{
    if s.len() > 0 {
        assert(!is_gsm7_escaped(s[s.len() - 1]));
        lemma_septet_count_plain(s.drop_last());
    }
}

/// What packing `text` into `bytes` of `septets` septets means: the octets
/// are those `gsm7` packs the text into, the septet count is the text's, the
/// octets are the septets rounded up to whole octets, and, for a text without
/// the bare escape char, reading the octets back gives the text and one `@`
/// of padding where the last octet leaves a whole septet unused.
pub open spec fn gsm7_packs_to(text: Seq<char>, bytes: Seq<u8>, septets: nat) -> bool {
    &&& gsm7_packed(text) == Some(bytes)
    &&& septets == septet_count(text)
    &&& bytes.len() == (7 * septets + 7) / 8
    &&& !text.contains('\x1b') ==> gsm7_unpacked(bytes) == Some(gsm7_with_padding(text))
}

/// A one-septet-per-char text, packed, decodes to the octets of its chars
/// as the SMS-SUBMIT user-data decoder reads them.
pub(crate) proof fn lemma_octet_text_decodes(t: Seq<char>, bytes: Seq<u8>, n: nat)
    requires
        gsm7_packs_to(t, bytes, n),
        is_octet_gsm7_text(t),
    ensures
        spec_decode_7bit(bytes, n) == chars_as_octets(t),
{
    lemma_padding_of_packed(n);
    lemma_septet_count_plain(t);
    assert(!t.contains('\x1b'));
    let padded = gsm7_with_padding(t);
    assert(chars_as_octets(t) is Some);
    if (7 * n) % 8 == 1 {
        assert(padded == t.push('@'));
        assert(chars_as_octets(padded) is Some);
        assert(chars_as_octets(padded)->0.drop_last() =~= chars_as_octets(t)->0);
    } else {
        assert(chars_as_octets(padded) == chars_as_octets(t));
    }
}

/// Pack a text into GSM 7-bit septets (TS 23.038 §6.2.1), returning the packed
/// octets and the septet count, the value of TP-User-Data-Length on a 7-bit
/// message (an escaped char counts two septets). Fails where the text holds a
/// char outside the default alphabet and its escape table.
pub fn pack_gsm7(input: &str) -> (res: Result<(Vec<u8>, usize), Error>)
    requires
        septet_count(input@) <= usize::MAX,
    ensures
        res is Ok <==> gsm7_packed(input@) is Some,
        res is Ok <==> is_gsm7_text(input@),
        res matches Err(e) ==> gsm7_write(input@) == Err::<Seq<u8>, Seq<char>>(e@),
        res matches Ok((bytes, septets)) ==> gsm7_packs_to(input@, bytes@, septets as nat),
        // Unpacking gives the text back, for text without the bare escape char.
        res matches Ok((bytes, septets)) ==> !input@.contains('\x1b') ==> spec_unpack_gsm7(
            bytes@,
            septets as nat,
        ) == Some(input@),
        // The SMS-SUBMIT user-data decoder reads a one-septet-per-char text
        // back as the octets of its chars.
        res matches Ok((bytes, septets)) ==> is_octet_gsm7_text(input@) ==> spec_decode_7bit(
            bytes@,
            septets as nat,
        ) == chars_as_octets(input@),
{
    let bytes = match encode_string_to_7bit(input) {
        Ok(b) => b,
        Err(e) => return Err(Error::from(e)),
    };
    let septets = count_septets(input);
    proof {
        let n = septets as nat;
        lemma_padding_of_packed(n);
        if is_octet_gsm7_text(input@) {
            lemma_octet_text_decodes(input@, bytes@, n);
        }
        if !input@.contains('\x1b') {
            if (7 * n) % 8 == 1 {
                assert(input@.push('@').drop_last() =~= input@);
                assert(strip_padding(input@, 0) == input@);
            }
        }
    }
    Ok((bytes, septets))
}

/// The text of the error `gsm7`'s reader reports on octets (empty where it
/// reports none).
pub open spec fn gsm7_read_error(octets: Seq<u8>) -> Seq<char> {
    match gsm7_read(octets) {
        (_, Some(e)) => e,
        (_, None) => Seq::empty(),
    }
}

/// The error text of 7-bit user data that does not decode to octets: a char
/// above U+00FF among those read before any reader error comes first, as
/// converting the chars one by one meets it first; else the reader's error.
pub open spec fn decode_7bit_error(raw: Seq<u8>) -> Seq<char> {
    match gsm7_read(raw) {
        (chars, _) => if chars_as_octets(chars) is None {
            "Failed to convert GSM byte to u8: unicode code point out of range"@
        } else {
            "Failed to decode 7-bit GSM data: "@ + gsm7_read_error(raw)
        },
    }
}

/// The text made of `chars`, in order.
pub fn chars_to_string(chars: &Vec<char>) -> (text: String)
    ensures
        text@ == chars@,
{
    let mut text = String::new();
    let mut i: usize = 0;
    while i < chars.len()
        invariant
            i <= chars@.len(),
            text@ == chars@.take(i as int),
        decreases chars@.len() - i,
    {
        push_char(&mut text, chars[i]);
        i = i + 1;
        assert(text@ =~= chars@.take(i as int));
    }
    assert(chars@.take(chars@.len() as int) =~= chars@);
    text
}

/// Unpack GSM 7-bit octets to text (TS 23.038 §6.2.1). The octets may hold
/// more septets than the message declares (`octets * 8 / 7` of them); that
/// excess is carrier padding read as trailing `@`, and up to that many
/// trailing `@` are dropped, so a genuine trailing `@` is kept.
pub fn unpack_gsm7(data: &[u8], septets: usize) -> (res: Result<String, Error>)
    requires
        data@.len() * 8 <= usize::MAX,
    ensures
        match spec_unpack_gsm7(data@, septets as nat) {
            Some(text) => res is Ok && res->Ok_0@ == text,
            None => res is Err && res->Err_0@ == "gsm7 decode: "@ + gsm7_read_error(data@),
        },
{
    let (chars, err) = decode_gsm7(data);
    match err {
        Some(e) => Err(Error::with_detail("gsm7 decode: ", e.as_str())),
        None => Ok(unpack_chars(chars, data.len(), septets)),
    }
}

/// The text of the chars read from `octets` packed octets that declare
/// `septets` septets: up to `octets * 8 / 7 - septets` trailing `@` (the
/// septets that can only be padding) are dropped.
pub fn unpack_chars(chars: Vec<char>, octets: usize, septets: usize) -> (text: String)
    requires
        octets * 8 <= usize::MAX,
    ensures
        text@ == strip_padding(chars@, padding_septets(octets as nat, septets as nat)),
{
    let mut chars = chars;
    let mut padding = (octets * 8 / 7).saturating_sub(septets);
    let ghost goal = strip_padding(chars@, padding_septets(octets as nat, septets as nat));
    proof {
        assert(padding == padding_septets(octets as nat, septets as nat));
    }
    while padding > 0 && chars.len() > 0 && chars[chars.len() - 1] == '@'
        invariant
            strip_padding(chars@, padding as nat) == goal,
        decreases padding,
    {
        chars.pop();
        padding = padding - 1;
    }
    chars_to_string(&chars)
}

/// Decode 7-bit user data to octets, one per char read; a trailing `@` beyond
/// the declared septet count is carrier padding and is dropped.
pub(crate) fn decode_7bit_to_bytes(raw: &[u8], expected_length: usize) -> (res: Result<
    Vec<u8>,
    Error,
>)
    ensures
        match spec_decode_7bit(raw@, expected_length as nat) {
            Some(bytes) => res is Ok && res->Ok_0@ == bytes,
            None => res is Err && res->Err_0@ == decode_7bit_error(raw@),
        },
{
    let (chars, err) = decode_gsm7(raw);
    match err {
        None => septet_chars_to_octets(chars, expected_length),
        // A char above U+00FF read before the reader's error is reported
        // first, as converting the chars one by one meets it first.
        Some(e) => match septet_chars_to_octets(chars, expected_length) {
            Err(conversion) => Err(conversion),
            Ok(_) => Err(Error::with_detail("Failed to decode 7-bit GSM data: ", e.as_str())),
        },
    }
}

/// The octets of chars read from 7-bit user data that declares
/// `expected_length` septets: each char's code point, a trailing `@` beyond
/// the declared count dropped as carrier padding; an error for a char above
/// U+00FF.
pub fn septet_chars_to_octets(chars: Vec<char>, expected_length: usize) -> (res: Result<
    Vec<u8>,
    Error,
>)
    ensures
        match septet_octets(chars@, expected_length as nat) {
            Some(bytes) => res is Ok && res->Ok_0@ == bytes,
            None => res is Err && res->Err_0@ == "Failed to convert GSM byte to u8: unicode code point out of range"@,
        },
{
    let mut decoded: Vec<u8> = Vec::new();
    let mut i: usize = 0;
    while i < chars.len()
        invariant
            i <= chars@.len(),
            decoded@ == Seq::new(i as nat, |j: int| (chars@[j] as u32) as u8),
            forall|j: int| 0 <= j < i ==> (#[trigger] chars@[j]) as u32 <= 0xff,
        decreases chars@.len() - i,
    {
        let c = chars[i];
        let code = c as u32;
        if code > 0xff {
            assert(!(chars@[i as int] as u32 <= 0xff));
            assert(chars_as_octets(chars@) is None);
            return Err(Error::new("Failed to convert GSM byte to u8: unicode code point out of range"));
        }
        decoded.push(code as u8);
        i = i + 1;
        assert(decoded@ =~= Seq::new(i as nat, |j: int| (chars@[j] as u32) as u8));
    }
    assert(decoded@ =~= chars_as_octets(chars@)->0);
    if decoded.len() != expected_length && decoded.len() > 0 && decoded[decoded.len() - 1] == 0x40 {
        decoded.pop();
    }
    Ok(decoded)
}

} // verus!
