//! Semi-octet (swapped-nibble BCD) encoding of digit strings, as TS 23.040
//! §9.1.2.3 writes addresses and time stamps: each pair of digits is written
//! low digit first.

use vstd::prelude::*;
use vstd::utf8::{encode_utf8, is_char_boundary};

use crate::trusted::{hex_decode, hex_decoded, hex_error};

verus! {

/// The digits with the chars of each two-byte pair reversed (an even count
/// of bytes): a pair that starts with an ASCII byte holds two chars, which
/// change places; any other pair, cut on char boundaries, is one two-byte
/// char and stays as it is.
pub open spec fn swap_pairs(digits: Seq<u8>) -> Seq<u8> {
    Seq::new(
        digits.len(),
        |i: int|
            if i % 2 == 0 {
                if digits[i] < 0x80 {
                    digits[i + 1]
                } else {
                    digits[i]
                }
            } else {
                if digits[i - 1] < 0x80 {
                    digits[i - 1]
                } else {
                    digits[i]
                }
            },
    )
}

/// The error text of packing digits that do not pack: `hex`'s error for the
/// pair-reversed digits.
pub open spec fn semi_octets_error(digits: Seq<u8>) -> Seq<char> {
    hex_error(swap_pairs(digits))
}

/// The octets that a string of hex digits packs into as semi-octets, or `None`
/// where a byte is not a hex digit or the count is odd.
pub open spec fn semi_octets(digits: Seq<u8>) -> Option<Seq<u8>> {
    if digits.len() % 2 == 0 {
        hex_decoded(swap_pairs(digits))
    } else {
        None
    }
}

/// Every pair of bytes of the string starts on a char boundary: the encoders
/// cut their digit strings into two-byte slices, which must fall between
/// chars.
pub open spec fn pairs_on_char_boundaries(bytes: Seq<u8>) -> bool {
    forall|j: int| 0 <= j < bytes.len() && j % 2 == 0 ==> #[trigger] is_char_boundary(bytes, j)
}

/// Whether every pair of bytes of `s` starts on a char boundary.
pub fn pairs_start_on_char_boundaries(s: &str) -> (b: bool)
    ensures
        b == pairs_on_char_boundaries(encode_utf8(s@)),
{
    let bytes = s.as_bytes();
    let n = bytes.len();
    let mut j: usize = 0;
    while j < n
        invariant
            n == encode_utf8(s@).len(),
            j % 2 == 0 || j == n,
            j <= n,
            forall|k: int| 0 <= k < j && k % 2 == 0 ==> #[trigger] is_char_boundary(encode_utf8(s@), k),
        decreases n - j,
    {
        if !s.is_char_boundary(j) {
            return false;
        }
        if n - j < 2 {
            j = n;
        } else {
            j = j + 2;
        }
    }
    true
}

/// Pack an even-length digit string into semi-octets with `hex::decode`,
/// after reversing the chars of each pair. The error is `hex`'s own text.
pub(crate) fn encode_semi_octets(digits: &[u8]) -> (res: Result<Vec<u8>, String>)
    requires
        digits@.len() % 2 == 0,
    ensures
        match semi_octets(digits@) {
            Some(octets) => res is Ok && res->Ok_0@ == octets,
            None => res is Err && res->Err_0@ == semi_octets_error(digits@),
        },
{
    let mut swapped: Vec<u8> = Vec::with_capacity(digits.len());
    let mut i: usize = 0;
    while i < digits.len()
        invariant
            digits@.len() % 2 == 0,
            i % 2 == 0,
            i <= digits@.len(),
            swapped@ == swap_pairs(digits@).take(i as int),
        decreases digits@.len() - i,
    {
        if digits[i] < 0x80 {
            swapped.push(digits[i + 1]);
            swapped.push(digits[i]);
        } else {
            swapped.push(digits[i]);
            swapped.push(digits[i + 1]);
        }
        i = i + 2;
        assert(swapped@ =~= swap_pairs(digits@).take(i as int));
    }
    assert(swapped@ =~= swap_pairs(digits@));
    hex_decode(swapped.as_slice())
}

} // verus!
