//! SMS addresses (TS 23.040 §9.1.2.5, TS 24.011 §8.2.5): a length octet, the
//! type-of-number / numbering-plan octet, then semi-octet BCD digits, or GSM
//! 7-bit text for an alphanumeric address (TON 5).

use vstd::prelude::*;
use vstd::utf8::encode_utf8;

use crate::bcd::{
    encode_semi_octets, pairs_on_char_boundaries, pairs_start_on_char_boundaries, semi_octets,
    semi_octets_error,
};
use crate::cursor::Cursor;
use crate::error::Error;
use crate::gsm7::{chars_to_string, gsm7_read_error};
use crate::trusted::{
    decode_gsm7, encode_string_to_7bit, gsm7_packed, gsm7_unpacked, gsm7_write, push_char,
};

verus! {

/// An SMS address: type of number, numbering plan, and the digits (or, for
/// TON 5, the alphanumeric label).
#[derive(Debug, Clone, PartialEq, Eq)]
pub struct SMSAddress {
    pub ton: u8,
    pub npi: u8,
    pub address: String,
}

/// The value an [`SMSAddress`] denotes.
#[verifier::ext_equal]
pub struct AddressModel {
    pub ton: u8,
    pub npi: u8,
    pub address: Seq<char>,
}

impl View for SMSAddress {
    type V = AddressModel;

    open spec fn view(&self) -> AddressModel {
        AddressModel { ton: self.ton, npi: self.npi, address: self.address@ }
    }
}

/// The type-of-number / numbering-plan octet: the extension bit, the TON in
/// bits 4-6 and the NPI in the low bits.
pub open spec fn ton_npi_octet(ton: u8, npi: u8) -> u8 {
    0x80u8 | (ton << 4u8) | npi
}

/// The digits of an address with an odd count padded by the filler `F`.
pub open spec fn padded_digits(address: Seq<char>) -> Seq<u8> {
    let bytes = encode_utf8(address);
    if bytes.len() % 2 != 0 {
        bytes.push(0x46)
    } else {
        bytes
    }
}

/// The address length octet: the digit count, or, when the length counts
/// octets (RP layer), the octets of TON/NPI and digits.
pub open spec fn address_length_octet(digit_count: nat, length_as_bytes: bool) -> u8 {
    if length_as_bytes {
        ((digit_count % 256) / 2 + if digit_count % 2 != 0 {
            2int
        } else {
            1int
        }) as u8
    } else {
        (digit_count % 256) as u8
    }
}

/// The wire form of an address, or `None` where it cannot be encoded: an
/// alphanumeric label that GSM 7-bit refuses, or digits that are not hex.
pub open spec fn spec_encode_address(a: AddressModel, length_as_bytes: bool) -> Option<Seq<u8>> {
    if a.ton == 5 {
        match gsm7_packed(a.address) {
            Some(packed) => Some(
                seq![((packed.len() % 256) * 2) as u8, ton_npi_octet(a.ton, a.npi)] + packed,
            ),
            None => None,
        }
    } else {
        match semi_octets(padded_digits(a.address)) {
            Some(octets) => Some(
                seq![
                    address_length_octet(encode_utf8(a.address).len(), length_as_bytes),
                    ton_npi_octet(a.ton, a.npi),
                ] + octets,
            ),
            None => None,
        }
    }
}

/// The error text of an address that does not encode: `gsm7`'s error for an
/// alphanumeric label, `hex`'s error for digits.
pub open spec fn address_encode_error(a: AddressModel) -> Seq<char> {
    if a.ton == 5 {
        "Failed to encode address: "@ + match gsm7_write(a.address) {
            Err(e) => e,
            Ok(_) => Seq::empty(),
        }
    } else {
        "Failed to decode BCD address as hex: "@ + semi_octets_error(padded_digits(a.address))
    }
}

/// Inputs on which encoding an address cannot complete: a packed
/// alphanumeric label of 128 or more octets (modulo 256) overflows its
/// doubled length octet, and digits whose byte pairs cut through a char
/// cannot be split into pairs.
pub open spec fn address_encode_aborts(a: AddressModel) -> bool {
    if a.ton == 5 {
        gsm7_packed(a.address) matches Some(packed) && packed.len() % 256 >= 128
    } else {
        !pairs_on_char_boundaries(encode_utf8(a.address))
    }
}

/// The upper-case hex digit of a semi-octet.
pub open spec fn hex_upper(n: u8) -> char {
    if n < 10 {
        (0x30 + n) as char
    } else {
        (0x41 + n - 10) as char
    }
}

/// A decoded digit, or nothing for the filler `F`.
pub open spec fn unless_filler(c: char) -> Seq<char> {
    if c == 'F' {
        seq![]
    } else {
        seq![c]
    }
}

/// The digits a run of BCD octets decodes to, low semi-octet first, with
/// every `F` dropped.
pub open spec fn bcd_digits(octets: Seq<u8>) -> Seq<char>
    decreases octets.len(),
{
    if octets.len() == 0 {
        seq![]
    } else {
        bcd_digits(octets.drop_last()) + unless_filler(hex_upper(octets.last() % 16)) + unless_filler(
            hex_upper(octets.last() / 16),
        )
    }
}

/// How many digit octets follow the TON/NPI octet for a length octet: half
/// the digit count rounded up, or, when the length counts octets, the
/// length less the TON/NPI octet.
pub open spec fn address_digit_octets(length: u8, length_as_bytes: bool) -> int {
    if !length_as_bytes && length % 2 != 0 {
        (length + 1) / 2
    } else if length_as_bytes {
        length - 1
    } else {
        (length / 2) as int
    }
}

/// The label that the GSM 7-bit octets of an alphanumeric address (TON 5)
/// decode to: the chars read, without a last `@` that can only be the zero
/// padding of the last octet (the octets hold one septet more than a packed
/// text of one septet fewer would leave unused); `None` where the octets do
/// not decode.
pub open spec fn alphanumeric_label(octets: Seq<u8>) -> Option<Seq<char>> {
    match gsm7_unpacked(octets) {
        None => None,
        Some(chars) => Some(
            if chars.len() > 0 && chars.last() == '@' && octets.len() * 8 / 7 >= 1 && (7 * (
            octets.len() * 8 / 7 - 1)) % 8 == 1 {
                chars.drop_last()
            } else {
                chars
            },
        ),
    }
}

/// The address that the octets after the TON/NPI octet denote: the label
/// for TON 5, the BCD digits otherwise.
pub open spec fn decoded_address(ton_npi: u8, octets: Seq<u8>) -> Option<AddressModel> {
    let ton = (ton_npi / 16) as u8;
    let npi = (ton_npi % 16) as u8;
    if ton == 5 {
        match alphanumeric_label(octets) {
            None => None,
            Some(label) => Some(AddressModel { ton, npi, address: label }),
        }
    } else {
        Some(AddressModel { ton, npi, address: bcd_digits(octets) })
    }
}

/// Decoding an address at `pos`: `None` where the input ends first or an
/// alphanumeric label does not decode, else the address (`None` for a zero
/// length octet) and the position after it.
pub open spec fn spec_decode_address(data: Seq<u8>, pos: int, length_as_bytes: bool) -> Option<
    (Option<AddressModel>, int),
> {
    if pos < 0 || pos >= data.len() {
        None
    } else if data[pos] == 0 {
        Some((None, pos + 1))
    } else if pos + 1 >= data.len() {
        None
    } else {
        let length = data[pos];
        let ton_npi = data[pos + 1] % 128;
        let n = address_digit_octets(length, length_as_bytes);
        if pos + 2 + n > data.len() {
            None
        } else {
            match decoded_address(ton_npi, data.subrange(pos + 2, pos + 2 + n)) {
                None => None,
                Some(a) => Some((Some(a), pos + 2 + n)),
            }
        }
    }
}

/// The text of a read that met the end of the input first.
pub open spec fn end_of_input_text() -> Seq<char> {
    "failed to fill whole buffer"@
}

/// The error text of an address that does not decode at `pos`: the first
/// read that meets the end of the input, or the label that does not decode.
pub open spec fn address_decode_error(data: Seq<u8>, pos: int, length_as_bytes: bool) -> Seq<char> {
    if pos >= data.len() {
        "Unable to read address length "@ + end_of_input_text()
    } else if pos + 1 >= data.len() {
        "Unable to read TON/NPI "@ + end_of_input_text()
    } else if pos + 2 + address_digit_octets(data[pos], length_as_bytes) > data.len() {
        "Unable to read address byte "@ + end_of_input_text()
    } else {
        "Unable to decode alphanumeric address: "@ + gsm7_read_error(
            data.subrange(pos + 2, pos + 2 + address_digit_octets(data[pos], length_as_bytes)),
        )
    }
}

/// The value an optional address denotes.
pub open spec fn option_address_model(a: Option<SMSAddress>) -> Option<AddressModel> {
    match a {
        Some(x) => Some(x@),
        None => None,
    }
}

/// The message of a failed read: the end of the input came first.
pub(crate) fn end_of_input() -> (s: &'static str)
    ensures
        s@ == "failed to fill whole buffer"@,
{
    "failed to fill whole buffer"
}

fn hex_upper_char(n: u8) -> (c: char)
    requires
        n < 16,
    ensures
        c == hex_upper(n),
{
    if n < 10 {
        (0x30 + n) as char
    } else {
        (0x41 + n - 10) as char
    }
}

/// Decode the GSM 7-bit octets of an alphanumeric address to its label.
fn decode_alphanumeric(octets: &[u8]) -> (res: Result<String, Error>)
    requires
        octets@.len() <= 255,
    ensures
        match alphanumeric_label(octets@) {
            Some(label) => res is Ok && res->Ok_0@ == label,
            None => res is Err && res->Err_0@ == "Unable to decode alphanumeric address: "@
                + gsm7_read_error(octets@),
        },
{
    let (mut chars, err) = decode_gsm7(octets);
    if let Some(e) = err {
        return Err(Error::with_detail("Unable to decode alphanumeric address: ", e.as_str()));
    }
    let read = octets.len() * 8 / 7;
    if chars.len() > 0 && chars[chars.len() - 1] == '@' && read >= 1 && (7 * (read - 1)) % 8 == 1 {
        chars.pop();
    }
    Ok(chars_to_string(&chars))
}

impl SMSAddress {
    /// Encode the address. With `length_as_bytes` the length octet counts the
    /// octets after it (RP layer, TS 24.011); otherwise it counts digits (TP
    /// layer, TS 23.040). TON 5 carries the label as GSM 7-bit; any other TON
    /// carries semi-octet BCD digits, an odd count padded with `F`.
    pub fn encode(&self, length_as_bytes: bool) -> (res: Result<Vec<u8>, Error>)
        requires
            !address_encode_aborts(self@),
        ensures
            match spec_encode_address(self@, length_as_bytes) {
                Some(bytes) => res is Ok && res->Ok_0@ == bytes,
                None => res is Err && res->Err_0@ == address_encode_error(self@),
            },
    {
        let ton_npi = 0x80u8 | (self.ton << 4u8) | self.npi;
        if self.ton == 0x05 {
            let packed = match encode_string_to_7bit(self.address.as_str()) {
                Ok(p) => p,
                Err(e) => return Err(Error::with_detail("Failed to encode address: ", e.as_str())),
            };
            let mut data: Vec<u8> = Vec::new();
            data.push(((packed.len() % 256) as u8) * 2);
            data.push(ton_npi);
            let mut i: usize = 0;
            while i < packed.len()
                invariant
                    i <= packed@.len(),
                    data@ == seq![((packed@.len() % 256) * 2) as u8, ton_npi] + packed@.take(
                        i as int,
                    ),
                decreases packed@.len() - i,
            {
                data.push(packed[i]);
                i = i + 1;
                assert(data@ =~= seq![((packed@.len() % 256) * 2) as u8, ton_npi] + packed@.take(
                    i as int,
                ));
            }
            assert(packed@.take(packed@.len() as int) =~= packed@);
            Ok(data)
        } else {
            let bytes = self.address.as_str().as_bytes();
            let n = bytes.len();
            let mut digits: Vec<u8> = Vec::with_capacity(n);
            let mut i: usize = 0;
            while i < n
                invariant
                    n == bytes@.len(),
                    i <= n,
                    digits@ == bytes@.take(i as int),
                decreases n - i,
            {
                digits.push(bytes[i]);
                i = i + 1;
                assert(digits@ =~= bytes@.take(i as int));
            }
            assert(digits@ =~= bytes@);
            let length_octet = if length_as_bytes {
                if n % 2 != 0 {
                    ((n % 256) as u8) / 2 + 2
                } else {
                    ((n % 256) as u8) / 2 + 1
                }
            } else {
                (n % 256) as u8
            };
            if n % 2 != 0 {
                digits.push(0x46);
            }
            let octets = match encode_semi_octets(digits.as_slice()) {
                Ok(o) => o,
                Err(e) => return Err(
                    Error::with_detail("Failed to decode BCD address as hex: ", e.as_str()),
                ),
            };
            let mut data: Vec<u8> = Vec::new();
            data.push(length_octet);
            data.push(ton_npi);
            let mut k: usize = 0;
            while k < octets.len()
                invariant
                    k <= octets@.len(),
                    data@ == seq![length_octet, ton_npi] + octets@.take(k as int),
                decreases octets@.len() - k,
            {
                data.push(octets[k]);
                k = k + 1;
                assert(data@ =~= seq![length_octet, ton_npi] + octets@.take(k as int));
            }
            assert(octets@.take(octets@.len() as int) =~= octets@);
            Ok(data)
        }
    }

    /// Encode as [`SMSAddress::encode`] does, or return `None` on the inputs
    /// that encoder is not defined on.
    pub fn try_encode(&self, length_as_bytes: bool) -> (res: Option<Result<Vec<u8>, Error>>)
        ensures
            address_encode_aborts(self@) <==> res is None,
            res matches Some(r) ==> match spec_encode_address(self@, length_as_bytes) {
                Some(bytes) => r is Ok && r->Ok_0@ == bytes,
                None => r is Err && r->Err_0@ == address_encode_error(self@),
            },
    {
        if self.ton == 0x05 {
            if let Ok(packed) = encode_string_to_7bit(self.address.as_str()) {
                if packed.len() % 256 >= 128 {
                    return None;
                }
            }
        } else if !pairs_start_on_char_boundaries(self.address.as_str()) {
            return None;
        }
        Some(self.encode(length_as_bytes))
    }
}

/// Decode an address at the cursor. With `length_as_bytes` the length octet
/// counts the octets after it (RP layer); otherwise it counts digits (TP
/// layer), an odd count ending in a filler semi-octet. A zero length octet is
/// an absent address. Every `F` semi-octet is dropped from the digits.
pub fn decode_sms_address(cursor: &mut Cursor, length_as_bytes: bool) -> (res: Result<
    Option<SMSAddress>,
    Error,
>)
    ensures
        final(cursor).data() == old(cursor).data(),
        match spec_decode_address(old(cursor).data(), old(cursor).pos(), length_as_bytes) {
            Some((a, next)) => {
                &&& res is Ok
                &&& option_address_model(res->Ok_0) == a
                &&& final(cursor).pos() == next
            },
            None => res is Err && res->Err_0@ == address_decode_error(
                old(cursor).data(),
                old(cursor).pos(),
                length_as_bytes,
            ),
        },
{
    broadcast use Cursor::lemma_pos_nonnegative;

    let length = match cursor.read_u8() {
        Some(b) => b,
        None => return Err(Error::with_detail("Unable to read address length ", end_of_input())),
    };
    if length == 0 {
        return Ok(None);
    }
    let ton_npi = match cursor.read_u8() {
        Some(b) => b % 128,
        None => return Err(Error::with_detail("Unable to read TON/NPI ", end_of_input())),
    };
    let ton = ton_npi / 16;
    let npi = ton_npi % 16;
    let n: usize = if !length_as_bytes && length % 2 != 0 {
        (length as usize + 1) / 2
    } else if length_as_bytes {
        length as usize - 1
    } else {
        length as usize / 2
    };
    if ton == 5 {
        let octets = match cursor.read_exact(n) {
            Some(o) => o,
            None => return Err(Error::with_detail("Unable to read address byte ", end_of_input())),
        };
        return match decode_alphanumeric(octets.as_slice()) {
            Ok(address) => Ok(Some(SMSAddress { ton, npi, address })),
            Err(e) => Err(e),
        };
    }
    let ghost start = cursor.pos();
    let ghost data = cursor.data();
    let mut address = String::new();
    let mut i: usize = 0;
    assert(data.subrange(start, start) =~= Seq::<u8>::empty());
    while i < n
        invariant
            data == old(cursor).data(),
            cursor.data() == data,
            start == old(cursor).pos() + 2,
            0 <= start <= data.len(),
            cursor.pos() == start + i,
            start + i <= data.len(),
            i <= n,
            n == address_digit_octets(length, length_as_bytes),
            length == data[old(cursor).pos()],
            length != 0,
            ton_npi == data[old(cursor).pos() + 1] % 128,
            address@ == bcd_digits(data.subrange(start, start + i)),
        decreases n - i,
    {
        let byte = match cursor.read_u8() {
            Some(b) => b,
            None => return Err(Error::with_detail("Unable to read address byte ", end_of_input())),
        };
        let low = hex_upper_char(byte % 16);
        let high = hex_upper_char(byte / 16);
        if low != 'F' {
            push_char(&mut address, low);
        }
        if high != 'F' {
            push_char(&mut address, high);
        }
        assert(byte == data[start + i]);
        i = i + 1;
        assert(start + i <= data.len());
        proof {
            let prev = data.subrange(start, start + i - 1);
            let cur = data.subrange(start, start + i);
            assert(cur.len() == i);
            assert(cur.drop_last() =~= prev);
            assert(cur[i - 1] == byte);
        }
    }
    Ok(Some(SMSAddress { ton, npi, address }))
}

} // verus!
