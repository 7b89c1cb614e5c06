//! Conveniences for gateways that carry SMS between SIP, SMPP and SS7: the
//! E.164 form of an address, the destination of an SMS-SUBMIT, an
//! SMS-DELIVER built from `deliver_sm`-shaped fields, and the digit string of
//! a service-centre time stamp.

use vstd::prelude::*;

use crate::address::SMSAddress;
use crate::cursor::Cursor;
use crate::deliver::{
    deliver_encode_aborts, deliver_encode_error, spec_encode_deliver, DeliverModel, SmsDeliver,
};
use crate::error::Error;
use crate::submit::{
    decode_submit_checked, spec_decode_submit, submit_decode_error, DecodeOutcome, Decoding,
};
use crate::trusted::push_char;

verus! {

impl SMSAddress {
    /// The E.164 form: a leading `+` for an international number (TON 1),
    /// the bare address otherwise.
    pub fn to_e164(&self) -> (s: String)
        ensures
            s@ == if self.ton == 1 {
                seq!['+'] + self.address@
            } else {
                self.address@
            },
    {
        if self.ton == 0x01 {
            let mut s = String::new();
            push_char(&mut s, '+');
            s.append(self.address.as_str());
            s
        } else {
            self.address.clone()
        }
    }
}

/// The destination number (TP-DA) of an SMS-SUBMIT TPDU, without a leading
/// `+`. Fails with the decoder's error where the TPDU does not decode, and
/// where it has no TP-DA.
pub fn destination_from_tpdu(tpdu: &[u8]) -> (res: Result<String, Error>)
    ensures
        match spec_decode_submit(tpdu@, 0) {
            DecodeOutcome::Decoded(m, _) => match m.tp_destination_address {
                Some(a) => res is Ok && res->Ok_0@ == a.address,
                None => res is Err && res->Err_0@ == "SMS-SUBMIT has no TP-DA"@,
            },
            _ => res is Err && res->Err_0@ == submit_decode_error(tpdu@, 0),
        },
{
    let mut cursor = Cursor::new(tpdu);
    match decode_submit_checked(&mut cursor) {
        Decoding::Done(Ok(submit)) => match submit.tp_destination_address {
            Some(a) => Ok(a.address),
            None => Err(Error::new("SMS-SUBMIT has no TP-DA")),
        },
        Decoding::Done(Err(e)) => Err(e),
        Decoding::Aborted => {
            proof {
                reveal(spec_decode_submit);
            }
            Err(Error::new(crate::submit::user_data_too_short()))
        },
    }
}

/// TP-UDL as given, or else the user data's octet count (modulo 256), the
/// right value for 8-bit and UCS-2 user data.
pub open spec fn user_data_length_or_octets(user_data: Seq<u8>, user_data_length: Option<u8>) -> u8 {
    match user_data_length {
        Some(l) => l,
        None => (user_data.len() % 256) as u8,
    }
}

/// TP-UDL as given, or else the user data's octet count (modulo 256).
pub fn user_data_length_or_len(user_data: &[u8], user_data_length: Option<u8>) -> (n: u8)
    ensures
        n == user_data_length_or_octets(user_data@, user_data_length),
{
    match user_data_length {
        Some(l) => l,
        None => (user_data.len() % 256) as u8,
    }
}

/// The SMS-DELIVER that [`build_sms_deliver_tpdu`] encodes: no reply path,
/// status report or loop prevention, more-messages-to-send set, TP-MTI 0, and
/// TP-UDL as given or else the user data's octet count (modulo 256).
pub open spec fn deliver_for(
    source_addr: Seq<char>,
    source_addr_ton: u8,
    source_addr_npi: u8,
    short_message: Seq<u8>,
    protocol_id: u8,
    data_coding: u8,
    udhi: bool,
    scts: Seq<char>,
    user_data_length: Option<u8>,
) -> DeliverModel {
    DeliverModel {
        tp_rp: false,
        tp_udhi: udhi,
        tp_sri: false,
        tp_lp: false,
        tp_mms: true,
        tp_mti: 0,
        tp_originating_address: crate::address::AddressModel {
            ton: source_addr_ton,
            npi: source_addr_npi,
            address: source_addr,
        },
        tp_pid: protocol_id,
        tp_dcs: data_coding,
        tp_service_centre_timestamp: scts,
        tp_user_data_length: user_data_length_or_octets(short_message, user_data_length),
        tp_user_data: short_message,
    }
}

/// Encode an SMS-DELIVER TPDU from SMPP `deliver_sm`-shaped fields, for
/// MT-Forward-SM. For GSM 7-bit (`data_coding` 0) pass `user_data_length`
/// as the septet count. Fails where the SMS-DELIVER does not encode, and also
/// on the inputs its encoder cannot complete on.
pub fn build_sms_deliver_tpdu(
    source_addr: String,
    source_addr_ton: u8,
    source_addr_npi: u8,
    short_message: Vec<u8>,
    protocol_id: u8,
    data_coding: u8,
    udhi: bool,
    scts: String,
    user_data_length: Option<u8>,
) -> (res: Result<Vec<u8>, Error>)
    ensures
        ({
            let d = deliver_for(
                source_addr@,
                source_addr_ton,
                source_addr_npi,
                short_message@,
                protocol_id,
                data_coding,
                udhi,
                scts@,
                user_data_length,
            );
            if deliver_encode_aborts(d) {
                res is Err && res->Err_0@ == "SMS-DELIVER fields cannot be cut into semi-octet pairs"@
            } else {
                match spec_encode_deliver(d) {
                    Some(bytes) => res is Ok && res->Ok_0@ == bytes,
                    None => res is Err && res->Err_0@ == deliver_encode_error(d),
                }
            }
        }),
{
    let tp_user_data_length = user_data_length_or_len(short_message.as_slice(), user_data_length);
    let deliver = SmsDeliver {
        tp_rp: false,
        tp_udhi: udhi,
        tp_sri: false,
        tp_lp: false,
        tp_mms: true,
        tp_mti: 0,
        tp_originating_address: SMSAddress {
            ton: source_addr_ton,
            npi: source_addr_npi,
            address: source_addr,
        },
        tp_pid: protocol_id,
        tp_dcs: data_coding,
        tp_service_centre_timestamp: scts,
        tp_user_data_length,
        tp_user_data: short_message,
    };
    match deliver.try_encode() {
        Some(r) => r,
        None => Err(Error::new("SMS-DELIVER fields cannot be cut into semi-octet pairs")),
    }
}

/// The decimal digit char of `d`.
pub open spec fn digit_char(d: nat) -> char {
    (0x30 + d) as char
}

/// The decimal digits of `n`, most significant first.
pub open spec fn decimal(n: nat) -> Seq<char>
    decreases n,
{
    if n < 10 {
        seq![digit_char(n)]
    } else {
        decimal(n / 10).push(digit_char(n % 10))
    }
}

/// A number as `{:02}` formats it: zero-padded to two chars, a minus sign
/// before the digits of a negative number.
pub open spec fn two_digit_field(n: int) -> Seq<char> {
    if n < 0 {
        seq!['-'] + decimal((-n) as nat)
    } else if n < 10 {
        seq!['0', digit_char(n as nat)]
    } else {
        decimal(n as nat)
    }
}

/// The remainder of `year` by 100 as Rust computes it: with the sign of the
/// year.
pub open spec fn year_of_century(year: i32) -> int {
    if year >= 0 {
        (year as int) % 100
    } else {
        -((-(year as int)) % 100)
    }
}

/// The 14-digit time-stamp string for a date and time: two digits each of
/// year (of the century), month, day, hour, minute and second, then `00`
/// for the time zone.
pub open spec fn spec_scts_digits(
    year: i32,
    month: u32,
    day: u32,
    hour: u32,
    minute: u32,
    second: u32,
) -> Seq<char> {
    two_digit_field(year_of_century(year)) + two_digit_field(month as int) + two_digit_field(
        day as int,
    ) + two_digit_field(hour as int) + two_digit_field(minute as int) + two_digit_field(
        second as int,
    ) + seq!['0', '0']
}

fn push_decimal(s: &mut String, n: u32)
    ensures
        final(s)@ == old(s)@ + decimal(n as nat),
    decreases n,
{
    if n >= 10 {
        push_decimal(s, n / 10);
    }
    push_char(s, ((0x30 + n % 10) as u8) as char);
    proof {
        if n >= 10 {
            assert(decimal(n as nat) == decimal((n / 10) as nat).push(digit_char((n % 10) as nat)));
        }
    }
}

fn push_two_digit_field(s: &mut String, n: i64)
    requires
        -0x1_0000_0000 < n < 0x1_0000_0000,
    ensures
        final(s)@ == old(s)@ + two_digit_field(n as int),
{
    if n < 0 {
        push_char(s, '-');
        push_decimal(s, (-n) as u32);
    } else if n < 10 {
        push_char(s, '0');
        push_char(s, ((0x30 + n) as u8) as char);
    } else {
        push_decimal(s, n as u32);
    }
}

/// The digit string of a service-centre time stamp (TS 23.040 §9.2.3.11)
/// for a date and time, as the encoders take it: year of the century,
/// month, day, hour, minute and second as two digits each, then `00`.
pub fn scts_digits(year: i32, month: u32, day: u32, hour: u32, minute: u32, second: u32) -> (s:
    String)
    ensures
        s@ == spec_scts_digits(year, month, day, hour, minute, second),
{
    let y = year as i64;
    let yc = if y >= 0 {
        y % 100
    } else {
        -((-y) % 100)
    };
    let mut s = String::new();
    push_two_digit_field(&mut s, yc);
    push_two_digit_field(&mut s, month as i64);
    push_two_digit_field(&mut s, day as i64);
    push_two_digit_field(&mut s, hour as i64);
    push_two_digit_field(&mut s, minute as i64);
    push_two_digit_field(&mut s, second as i64);
    push_char(&mut s, '0');
    push_char(&mut s, '0');
    s
}

} // verus!
