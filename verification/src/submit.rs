//! The User-Data-Header and the SMS-SUBMIT TPDU decoder (TS 23.040 §9.2.2.2,
//! §9.2.3.24).

use vstd::prelude::*;

use crate::address::{
    address_decode_error, decode_sms_address, end_of_input, end_of_input_text, option_address_model,
    spec_decode_address, AddressModel, SMSAddress,
};
use crate::cursor::Cursor;
use crate::error::Error;
use crate::gsm7::{decode_7bit_error, decode_7bit_to_bytes, spec_decode_7bit};

verus! {

broadcast use Cursor::lemma_pos_nonnegative;

/// A User-Data-Header: its length octet (UDHL) and its information elements.
#[derive(Debug, Clone, PartialEq)]
pub struct UserDataHeader {
    pub user_data_header_length: u8,
    pub user_data_header_value: Vec<u8>,
}

/// The value a [`UserDataHeader`] denotes.
#[verifier::ext_equal]
pub struct HeaderModel {
    pub length: u8,
    pub value: Seq<u8>,
}

impl View for UserDataHeader {
    type V = HeaderModel;

    open spec fn view(&self) -> HeaderModel {
        HeaderModel { length: self.user_data_header_length, value: self.user_data_header_value@ }
    }
}

/// The value an optional header denotes.
pub open spec fn option_header_model(h: Option<UserDataHeader>) -> Option<HeaderModel> {
    match h {
        Some(x) => Some(x@),
        None => None,
    }
}

/// Decoding a header at `pos`: its length octet, then that many octets;
/// `None` where the input ends first.
pub open spec fn spec_decode_header(data: Seq<u8>, pos: int) -> Option<(HeaderModel, int)> {
    if pos < 0 || pos >= data.len() || pos + 1 + data[pos] > data.len() {
        None
    } else {
        Some(
            (
                HeaderModel {
                    length: data[pos],
                    value: data.subrange(pos + 1, pos + 1 + data[pos]),
                },
                pos + 1 + data[pos],
            ),
        )
    }
}

/// The error text of a header that does not decode at `pos`: its length
/// octet or its value runs past the end of the input.
pub open spec fn header_decode_error(data: Seq<u8>, pos: int) -> Seq<char> {
    if pos >= data.len() {
        "Unable to read User Data Header Length: "@ + end_of_input_text()
    } else {
        "Unable to read User Data Header Value: "@ + end_of_input_text()
    }
}

impl UserDataHeader {
    /// The header on the wire: the length octet, then the value.
    pub fn encode(&self) -> (data: Vec<u8>)
        ensures
            data@ == seq![self.user_data_header_length] + self.user_data_header_value@,
    {
        let mut data: Vec<u8> = Vec::new();
        data.push(self.user_data_header_length);
        let mut i: usize = 0;
        while i < self.user_data_header_value.len()
            invariant
                i <= self.user_data_header_value@.len(),
                data@ == seq![self.user_data_header_length] + self.user_data_header_value@.take(
                    i as int,
                ),
            decreases self.user_data_header_value@.len() - i,
        {
            data.push(self.user_data_header_value[i]);
            i = i + 1;
            assert(data@ =~= seq![self.user_data_header_length]
                + self.user_data_header_value@.take(i as int));
        }
        assert(self.user_data_header_value@.take(i as int) =~= self.user_data_header_value@);
        data
    }

    /// Read a header at the cursor: the length octet, then that many octets.
    pub fn decode(cursor: &mut Cursor) -> (res: Result<UserDataHeader, Error>)
        ensures
            final(cursor).data() == old(cursor).data(),
            match spec_decode_header(old(cursor).data(), old(cursor).pos()) {
                Some((h, next)) => res is Ok && res->Ok_0@ == h && final(cursor).pos() == next,
                None => res is Err && res->Err_0@ == header_decode_error(
                    old(cursor).data(),
                    old(cursor).pos(),
                ),
            },
    {
        let user_data_header_length = match cursor.read_u8() {
            Some(b) => b,
            None => return Err(
                Error::with_detail("Unable to read User Data Header Length: ", end_of_input()),
            ),
        };
        let user_data_header_value = match cursor.read_exact(user_data_header_length as usize) {
            Some(v) => v,
            None => return Err(
                Error::with_detail("Unable to read User Data Header Value: ", end_of_input()),
            ),
        };
        Ok(UserDataHeader { user_data_header_length, user_data_header_value })
    }
}

/// An SMS-SUBMIT TPDU (mobile originated), as decoded: the first-octet
/// flags, the fields that follow, the raw user-data octets and, when TP-UDHI
/// is set, the header read from their start.
#[derive(Debug, Clone)]
pub struct SmsSubmit {
    pub tp_rp: bool,
    pub tp_udhi: bool,
    pub tp_srr: bool,
    pub tp_mti: u8,
    pub tp_rd: bool,
    pub tp_vpf: u8,
    pub tp_mr: u8,
    pub tp_destination_address: Option<SMSAddress>,
    pub tp_pid: u8,
    pub tp_dcs: u8,
    pub tp_validity_period: Option<u8>,
    pub tp_user_data_length: u8,
    pub tp_user_data_raw: Vec<u8>,
    pub tp_user_data_header: Option<UserDataHeader>,
    pub tp_user_data: Vec<u8>,
}

/// The value an [`SmsSubmit`] denotes.
#[verifier::ext_equal]
pub struct SubmitModel {
    pub tp_rp: bool,
    pub tp_udhi: bool,
    pub tp_srr: bool,
    pub tp_mti: u8,
    pub tp_rd: bool,
    pub tp_vpf: u8,
    pub tp_mr: u8,
    pub tp_destination_address: Option<AddressModel>,
    pub tp_pid: u8,
    pub tp_dcs: u8,
    pub tp_validity_period: Option<u8>,
    pub tp_user_data_length: u8,
    pub tp_user_data_raw: Seq<u8>,
    pub tp_user_data_header: Option<HeaderModel>,
    pub tp_user_data: Seq<u8>,
}

impl View for SmsSubmit {
    type V = SubmitModel;

    open spec fn view(&self) -> SubmitModel {
        SubmitModel {
            tp_rp: self.tp_rp,
            tp_udhi: self.tp_udhi,
            tp_srr: self.tp_srr,
            tp_mti: self.tp_mti,
            tp_rd: self.tp_rd,
            tp_vpf: self.tp_vpf,
            tp_mr: self.tp_mr,
            tp_destination_address: option_address_model(self.tp_destination_address),
            tp_pid: self.tp_pid,
            tp_dcs: self.tp_dcs,
            tp_validity_period: self.tp_validity_period,
            tp_user_data_length: self.tp_user_data_length,
            tp_user_data_raw: self.tp_user_data_raw@,
            tp_user_data_header: option_header_model(self.tp_user_data_header),
            tp_user_data: self.tp_user_data@,
        }
    }
}

/// How decoding a TPDU ends: with the value and the position after it, with
/// an error, or short: GSM 7-bit user data holding fewer chars than its
/// header's UDHL + 2, an error with a message of its own.
pub enum DecodeOutcome<T> {
    Decoded(T, int),
    Failed,
    Aborts,
}

/// How reading user data ends: with the header and the user data, with an
/// error, or short (fewer chars than the header's UDHL + 2).
pub enum UserDataOutcome {
    Decoded(Option<HeaderModel>, Seq<u8>),
    Failed,
    Aborts,
}

/// The octets of user data: `ceil(7 * UDL / 8)` for GSM 7-bit (TP-DCS 0),
/// where TP-UDL counts septets; TP-UDL itself otherwise.
pub open spec fn user_data_octets(udl: u8, dcs: u8) -> int {
    if dcs == 0 {
        (7 * udl + 7) / 8
    } else {
        udl as int
    }
}

/// What the raw user-data octets decode to. With TP-UDHI a header is read
/// from their start. GSM 7-bit data (TP-DCS 0) is decoded to octets from the
/// start, header included, and then the header's UDHL + 2 leading chars are
/// skipped; when fewer chars than that were read, the user data is short.
/// Any other coding keeps the raw octets, header included.
pub open spec fn spec_user_data(raw: Seq<u8>, udhi: bool, dcs: u8, udl: u8) -> UserDataOutcome {
    if udhi && spec_decode_header(raw, 0) is None {
        UserDataOutcome::Failed
    } else {
        let header = if udhi {
            Some(spec_decode_header(raw, 0).unwrap().0)
        } else {
            None
        };
        if dcs == 0 {
            match spec_decode_7bit(raw, udl as nat) {
                None => UserDataOutcome::Failed,
                Some(octets) => if udhi {
                    let skip = header.unwrap().length + 2;
                    if octets.len() < skip {
                        UserDataOutcome::Aborts
                    } else {
                        UserDataOutcome::Decoded(header, octets.skip(skip))
                    }
                } else {
                    UserDataOutcome::Decoded(header, octets)
                },
            }
        } else {
            UserDataOutcome::Decoded(header, raw)
        }
    }
}

/// The error text of user data that does not decode: the header's, else the
/// 7-bit decoding's.
pub open spec fn user_data_error(raw: Seq<u8>, udhi: bool) -> Seq<char> {
    if udhi && spec_decode_header(raw, 0) is None {
        "Unable to decode User Data Header: "@ + header_decode_error(raw, 0)
    } else {
        "Unable to decode 7-bit TP-User-Data: "@ + decode_7bit_error(raw)
    }
}

/// What decoding an SMS-SUBMIT at `pos` gives, after the first octet,
/// TP-MR and TP-DA, from `at` (TP-PID) onward.
pub open spec fn spec_decode_submit_fields(
    data: Seq<u8>,
    first: u8,
    mr: u8,
    da: Option<AddressModel>,
    at: int,
) -> DecodeOutcome<SubmitModel> {
    let vpf = first / 16;
    let vp_octets: int = if vpf != 0 {
        1
    } else {
        0
    };
    if at + 2 + vp_octets >= data.len() {
        DecodeOutcome::Failed
    } else {
        let pid = data[at];
        let dcs = data[at + 1];
        let udl = data[at + 2 + vp_octets];
        let raw_start = at + 3 + vp_octets;
        let raw_end = raw_start + user_data_octets(udl, dcs);
        if raw_end > data.len() {
            DecodeOutcome::Failed
        } else {
            let raw = data.subrange(raw_start, raw_end);
            let udhi = (first / 64) % 2 == 1;
            match spec_user_data(raw, udhi, dcs, udl) {
                UserDataOutcome::Failed => DecodeOutcome::Failed,
                UserDataOutcome::Aborts => DecodeOutcome::Aborts,
                UserDataOutcome::Decoded(header, user_data) => DecodeOutcome::Decoded(
                    SubmitModel {
                        tp_rp: first / 128 == 1,
                        tp_udhi: udhi,
                        tp_srr: (first / 32) % 2 == 1,
                        tp_mti: first % 4,
                        tp_rd: (first / 4) % 2 == 1,
                        tp_vpf: vpf,
                        tp_mr: mr,
                        tp_destination_address: da,
                        tp_pid: pid,
                        tp_dcs: dcs,
                        tp_validity_period: if vpf != 0 {
                            Some(data[at + 2])
                        } else {
                            None
                        },
                        tp_user_data_length: udl,
                        tp_user_data_raw: raw,
                        tp_user_data_header: header,
                        tp_user_data: user_data,
                    },
                    raw_end,
                ),
            }
        }
    }
}

/// What decoding an SMS-SUBMIT TPDU at `pos` gives (TS 23.040 §9.2.2.2): the
/// first octet (TP-RP bit 7, TP-UDHI bit 6, TP-SRR bit 5, TP-MTI bits 0-1,
/// TP-RD bit 2, TP-VPF read as the whole high nibble), TP-MR, TP-DA, TP-PID, TP-DCS, TP-VP when
/// TP-VPF is not 0, TP-UDL and the user data.
#[verifier::opaque]
pub open spec fn spec_decode_submit(data: Seq<u8>, pos: int) -> DecodeOutcome<SubmitModel> {
    if pos < 0 || pos + 1 >= data.len() {
        DecodeOutcome::Failed
    } else {
        match spec_decode_address(data, pos + 2, false) {
            None => DecodeOutcome::Failed,
            Some((da, at)) => spec_decode_submit_fields(data, data[pos], data[pos + 1], da, at),
        }
    }
}

/// The error text of an SMS-SUBMIT that does not decode at `pos`: that of the
/// first read that fails, in the order the fields come (see
/// [`spec_decode_submit`]).
pub open spec fn submit_decode_error(data: Seq<u8>, pos: int) -> Seq<char> {
    if pos >= data.len() {
        "Unable to read first byte "@ + end_of_input_text()
    } else if pos + 1 >= data.len() {
        "Unable to read TP-MR "@ + end_of_input_text()
    } else {
        match spec_decode_address(data, pos + 2, false) {
            None => address_decode_error(data, pos + 2, false),
            Some((_, at)) => submit_fields_error(data, data[pos], at),
        }
    }
}

/// The error text of the fields after TP-DA, from `at` (TP-PID) onward.
pub open spec fn submit_fields_error(data: Seq<u8>, first: u8, at: int) -> Seq<char> {
    let vo: int = if first / 16 != 0 {
        1
    } else {
        0
    };
    if at >= data.len() {
        "Unable to read TP-PID "@ + end_of_input_text()
    } else if at + 1 >= data.len() {
        "Unable to read TP-DCS "@ + end_of_input_text()
    } else if vo == 1 && at + 2 >= data.len() {
        "Unable to read TP-Validity-Period "@ + end_of_input_text()
    } else if at + 2 + vo >= data.len() {
        "Unable to read TP-User-Data-Length "@ + end_of_input_text()
    } else {
        let dcs = data[at + 1];
        let udl = data[at + 2 + vo];
        let raw_start = at + 3 + vo;
        let raw_end = raw_start + user_data_octets(udl, dcs);
        if raw_end > data.len() {
            "Unable to read TP-User-Data buffer "@ + end_of_input_text()
        } else {
            let raw = data.subrange(raw_start, raw_end);
            let udhi = (first / 64) % 2 == 1;
            if spec_user_data(raw, udhi, dcs, udl) is Aborts {
                "TP-User-Data shorter than its header"@
            } else {
                user_data_error(raw, udhi)
            }
        }
    }
}

/// How decoding ended, in executable form.
pub(crate) enum Decoding<T> {
    Done(Result<T, Error>),
    Aborted,
}

/// Decode the user data of an SMS-SUBMIT from its raw octets.
fn decode_user_data(raw: &Vec<u8>, udhi: bool, dcs: u8, udl: u8) -> (res: Decoding<
    (Option<UserDataHeader>, Vec<u8>),
>)
    ensures
        match spec_user_data(raw@, udhi, dcs, udl) {
            UserDataOutcome::Decoded(h, ud) => res matches Decoding::Done(Ok((rh, rud))) && option_header_model(rh) == h && rud@ == ud,
            UserDataOutcome::Failed => res matches Decoding::Done(Err(e)) && e@ == user_data_error(raw@, udhi),
            UserDataOutcome::Aborts => res is Aborted,
        },
{
    let mut cursor = Cursor::new(raw.as_slice());
    let header = if udhi {
        match UserDataHeader::decode(&mut cursor) {
            Ok(h) => Some(h),
            Err(e) => return Decoding::Done(
                Err(Error::with_detail("Unable to decode User Data Header: ", e.message())),
            ),
        }
    } else {
        None
    };
    if dcs == 0 {
        let octets = match decode_7bit_to_bytes(raw.as_slice(), udl as usize) {
            Ok(o) => o,
            Err(e) => return Decoding::Done(
                Err(Error::with_detail("Unable to decode 7-bit TP-User-Data: ", e.message())),
            ),
        };
        match &header {
            Some(h) => {
                let skip = h.user_data_header_length as usize + 2;
                if octets.len() < skip {
                    return Decoding::Aborted;
                }
                let mut rest: Vec<u8> = Vec::new();
                let mut i: usize = skip;
                while i < octets.len()
                    invariant
                        skip <= i <= octets@.len(),
                        rest@ == octets@.subrange(skip as int, i as int),
                    decreases octets@.len() - i,
                {
                    rest.push(octets[i]);
                    i = i + 1;
                    assert(rest@ =~= octets@.subrange(skip as int, i as int));
                }
                assert(octets@.skip(skip as int) =~= octets@.subrange(skip as int, octets@.len() as int));
                Decoding::Done(Ok((header, rest)))
            },
            None => Decoding::Done(Ok((header, octets))),
        }
    } else {
        let mut whole = Cursor::new(raw.as_slice());
        let user_data = whole.read_to_end();
        assert(raw@.subrange(0, raw@.len() as int) =~= raw@);
        Decoding::Done(Ok((header, user_data)))
    }
}

/// Read one octet, or fail with `what` as the message.
fn read_field(cursor: &mut Cursor, what: &str) -> (res: Result<u8, Error>)
    ensures
        final(cursor).data() == old(cursor).data(),
        old(cursor).pos() < old(cursor).data().len() ==> res == Ok::<u8, Error>(old(cursor).data()[old(cursor).pos()]) && final(cursor).pos() == old(cursor).pos() + 1,
        old(cursor).pos() >= old(cursor).data().len() ==> res is Err && res->Err_0@ == what@
            + end_of_input_text(),
{
    match cursor.read_u8() {
        Some(b) => Ok(b),
        None => Err(Error::with_detail(what, end_of_input())),
    }
}

/// Decode an SMS-SUBMIT at the cursor, telling short user data apart from
/// the other errors.
pub(crate) fn decode_submit_checked(cursor: &mut Cursor) -> (res: Decoding<SmsSubmit>)
    ensures
        final(cursor).data() == old(cursor).data(),
        match spec_decode_submit(old(cursor).data(), old(cursor).pos()) {
            DecodeOutcome::Decoded(m, next) => res matches Decoding::Done(Ok(s)) && s@ == m && final(cursor).pos() == next,
            DecodeOutcome::Failed => res matches Decoding::Done(Err(e)) && e@ == submit_decode_error(
                old(cursor).data(),
                old(cursor).pos(),
            ),
            DecodeOutcome::Aborts => res is Aborted,
        },
{
    reveal(spec_decode_submit);
    let first_byte = match read_field(cursor, "Unable to read first byte ") {
        Ok(b) => b,
        Err(e) => return Decoding::Done(Err(e)),
    };
    let tp_rp = first_byte / 128 == 1;
    let tp_udhi = (first_byte / 64) % 2 == 1;
    let tp_srr = (first_byte / 32) % 2 == 1;
    let tp_mti = first_byte % 4;
    let tp_rd = (first_byte / 4) % 2 == 1;
    let tp_vpf = first_byte / 16;
    let tp_mr = match read_field(cursor, "Unable to read TP-MR ") {
        Ok(b) => b,
        Err(e) => return Decoding::Done(Err(e)),
    };
    let tp_destination_address = match decode_sms_address(cursor, false) {
        Ok(a) => a,
        Err(e) => return Decoding::Done(Err(e)),
    };
    let tp_pid = match read_field(cursor, "Unable to read TP-PID ") {
        Ok(b) => b,
        Err(e) => return Decoding::Done(Err(e)),
    };
    let tp_dcs = match read_field(cursor, "Unable to read TP-DCS ") {
        Ok(b) => b,
        Err(e) => return Decoding::Done(Err(e)),
    };
    let tp_validity_period = if tp_vpf != 0 {
        match read_field(cursor, "Unable to read TP-Validity-Period ") {
            Ok(b) => Some(b),
            Err(e) => return Decoding::Done(Err(e)),
        }
    } else {
        None
    };
    let tp_user_data_length = match read_field(cursor, "Unable to read TP-User-Data-Length ") {
        Ok(b) => b,
        Err(e) => return Decoding::Done(Err(e)),
    };
    let length_in_bytes: usize = if tp_dcs == 0 {
        (7 * tp_user_data_length as usize + 7) / 8
    } else {
        tp_user_data_length as usize
    };
    let raw_user_data = match cursor.read_exact(length_in_bytes) {
        Some(v) => v,
        None => return Decoding::Done(
            Err(Error::with_detail("Unable to read TP-User-Data buffer ", end_of_input())),
        ),
    };
    let (tp_user_data_header, tp_user_data) = match decode_user_data(
        &raw_user_data,
        tp_udhi,
        tp_dcs,
        tp_user_data_length,
    ) {
        Decoding::Done(Ok(parts)) => parts,
        Decoding::Done(Err(e)) => return Decoding::Done(Err(e)),
        Decoding::Aborted => return Decoding::Aborted,
    };
    Decoding::Done(
        Ok(
            SmsSubmit {
                tp_rp,
                tp_udhi,
                tp_srr,
                tp_mti,
                tp_rd,
                tp_vpf,
                tp_mr,
                tp_destination_address,
                tp_pid,
                tp_dcs,
                tp_validity_period,
                tp_user_data_length,
                tp_user_data_raw: raw_user_data,
                tp_user_data_header,
                tp_user_data,
            },
        ),
    )
}

/// Decode an SMS-SUBMIT TPDU at the cursor (TS 23.040 §9.2.2.2). The
/// cursor ends after the TPDU. Malformed or truncated input gives an error,
/// also GSM 7-bit user data holding fewer chars than the header's UDHL + 2
/// ("TP-User-Data shorter than its header").
pub fn decode_sms_submit_tpdu(cursor: &mut Cursor) -> (res: Result<SmsSubmit, Error>)
    ensures
        final(cursor).data() == old(cursor).data(),
        match spec_decode_submit(old(cursor).data(), old(cursor).pos()) {
            DecodeOutcome::Decoded(m, next) => res is Ok && res->Ok_0@ == m && final(cursor).pos() == next,
            _ => res is Err && res->Err_0@ == submit_decode_error(
                old(cursor).data(),
                old(cursor).pos(),
            ),
        },
{
    match decode_submit_checked(cursor) {
        Decoding::Done(r) => r,
        Decoding::Aborted => {
            proof {
                reveal(spec_decode_submit);
            }
            Err(Error::new(user_data_too_short()))
        },
    }
}

/// The message for GSM 7-bit user data that holds fewer chars than its
/// header's UDHL + 2.
pub fn user_data_too_short() -> (s: &'static str)
    ensures
        s@ == "TP-User-Data shorter than its header"@,
{
    "TP-User-Data shorter than its header"
}

} // verus!
