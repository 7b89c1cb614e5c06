//! The mobile-terminated TPDUs: SMS-DELIVER (TS 23.040 §9.2.2.1) and
//! SMS-SUBMIT-REPORT (TS 23.040 §9.2.2.1a).

use vstd::prelude::*;
use vstd::utf8::encode_utf8;

use crate::address::{
    address_encode_aborts, address_encode_error, spec_encode_address, AddressModel, SMSAddress,
};
use crate::bcd::{encode_semi_octets, pairs_on_char_boundaries, semi_octets, semi_octets_error};
use crate::error::Error;

verus! {

/// A service-centre time stamp given as a digit string, packed as semi-octets.
pub open spec fn spec_encode_timestamp(ts: Seq<char>) -> Option<Seq<u8>> {
    semi_octets(encode_utf8(ts))
}

/// The error text of a time stamp that is not hex digits.
pub open spec fn timestamp_error(ts: Seq<char>) -> Seq<char> {
    "Failed to decode BCD address: "@ + semi_octets_error(encode_utf8(ts))
}

/// Time stamps that cannot be cut into two-byte digit pairs: an odd byte
/// length, or a pair that cuts through a char.
pub open spec fn timestamp_encode_aborts(ts: Seq<char>) -> bool {
    encode_utf8(ts).len() % 2 != 0 || !pairs_on_char_boundaries(encode_utf8(ts))
}

/// Pack a time-stamp digit string as semi-octets.
fn encode_timestamp(ts: &str) -> (res: Result<Vec<u8>, Error>)
    requires
        !timestamp_encode_aborts(ts@),
    ensures
        match spec_encode_timestamp(ts@) {
            Some(octets) => res is Ok && res->Ok_0@ == octets,
            None => res is Err && res->Err_0@ == timestamp_error(ts@),
        },
{
    match encode_semi_octets(ts.as_bytes()) {
        Ok(octets) => Ok(octets),
        Err(e) => Err(Error::with_detail("Failed to decode BCD address: ", e.as_str())),
    }
}

/// An SMS-DELIVER TPDU (mobile terminated).
#[derive(Debug, Clone)]
pub struct SmsDeliver {
    pub tp_rp: bool,
    pub tp_udhi: bool,
    pub tp_sri: bool,
    pub tp_lp: bool,
    pub tp_mms: bool,
    pub tp_mti: u8,
    pub tp_originating_address: SMSAddress,
    pub tp_pid: u8,
    pub tp_dcs: u8,
    pub tp_service_centre_timestamp: String,
    pub tp_user_data_length: u8,
    pub tp_user_data: Vec<u8>,
}

/// The value an [`SmsDeliver`] denotes.
#[verifier::ext_equal]
pub struct DeliverModel {
    pub tp_rp: bool,
    pub tp_udhi: bool,
    pub tp_sri: bool,
    pub tp_lp: bool,
    pub tp_mms: bool,
    pub tp_mti: u8,
    pub tp_originating_address: AddressModel,
    pub tp_pid: u8,
    pub tp_dcs: u8,
    pub tp_service_centre_timestamp: Seq<char>,
    pub tp_user_data_length: u8,
    pub tp_user_data: Seq<u8>,
}

impl View for SmsDeliver {
    type V = DeliverModel;

    open spec fn view(&self) -> DeliverModel {
        DeliverModel {
            tp_rp: self.tp_rp,
            tp_udhi: self.tp_udhi,
            tp_sri: self.tp_sri,
            tp_lp: self.tp_lp,
            tp_mms: self.tp_mms,
            tp_mti: self.tp_mti,
            tp_originating_address: self.tp_originating_address@,
            tp_pid: self.tp_pid,
            tp_dcs: self.tp_dcs,
            tp_service_centre_timestamp: self.tp_service_centre_timestamp@,
            tp_user_data_length: self.tp_user_data_length,
            tp_user_data: self.tp_user_data@,
        }
    }
}

/// A flag's bit when the flag is set, else 0.
pub open spec fn flag(set: bool, bit: u8) -> u8 {
    if set {
        bit
    } else {
        0u8
    }
}

/// The SMS-DELIVER first octet: TP-RP bit 7, TP-UDHI bit 6, TP-SRI bit 5,
/// TP-LP bit 3, TP-MMS bit 2, or-ed with TP-MTI.
pub open spec fn deliver_first_octet(d: DeliverModel) -> u8 {
    flag(d.tp_rp, 0x80) | flag(d.tp_udhi, 0x40) | flag(d.tp_sri, 0x20) | flag(d.tp_lp, 0x08)
        | flag(d.tp_mms, 0x04) | d.tp_mti
}

/// The wire form of an SMS-DELIVER: first octet, TP-OA (length in digits),
/// TP-PID, TP-DCS, TP-SCTS, TP-UDL, TP-UD; `None` where the address or the
/// time stamp cannot be encoded.
pub open spec fn spec_encode_deliver(d: DeliverModel) -> Option<Seq<u8>> {
    match spec_encode_address(d.tp_originating_address, false) {
        None => None,
        Some(oa) => match spec_encode_timestamp(d.tp_service_centre_timestamp) {
            None => None,
            Some(ts) => Some(
                seq![deliver_first_octet(d)] + oa + seq![d.tp_pid, d.tp_dcs] + ts + seq![
                    d.tp_user_data_length,
                ] + d.tp_user_data,
            ),
        },
    }
}

/// The error text of an SMS-DELIVER that does not encode: the originating
/// address's, else the time stamp's.
pub open spec fn deliver_encode_error(d: DeliverModel) -> Seq<char> {
    if spec_encode_address(d.tp_originating_address, false) is None {
        address_encode_error(d.tp_originating_address)
    } else {
        timestamp_error(d.tp_service_centre_timestamp)
    }
}

/// The inputs on which encoding an SMS-DELIVER cannot complete: the address
/// cannot, or it encodes and the time stamp cannot be cut into digit pairs.
pub open spec fn deliver_encode_aborts(d: DeliverModel) -> bool {
    address_encode_aborts(d.tp_originating_address) || (spec_encode_address(
        d.tp_originating_address,
        false,
    ) is Some && timestamp_encode_aborts(d.tp_service_centre_timestamp))
}

impl SmsDeliver {
    /// Encode the SMS-DELIVER to wire octets (TS 23.040 §9.2.2.1).
    pub fn encode(&self) -> (res: Result<Vec<u8>, Error>)
        requires
            !deliver_encode_aborts(self@),
        ensures
            match spec_encode_deliver(self@) {
                Some(bytes) => res is Ok && res->Ok_0@ == bytes,
                None => res is Err && res->Err_0@ == deliver_encode_error(self@),
            },
    {
        let first_byte = (if self.tp_rp { 0x80u8 } else { 0u8 }) | (if self.tp_udhi {
            0x40u8
        } else {
            0u8
        }) | (if self.tp_sri { 0x20u8 } else { 0u8 }) | (if self.tp_lp { 0x08u8 } else { 0u8 }) | (
        if self.tp_mms { 0x04u8 } else { 0u8 }) | self.tp_mti;
        let mut data: Vec<u8> = Vec::new();
        data.push(first_byte);
        let mut oa = match self.tp_originating_address.encode(false) {
            Ok(v) => v,
            Err(e) => return Err(e),
        };
        data.append(&mut oa);
        data.push(self.tp_pid);
        data.push(self.tp_dcs);
        let mut ts = match encode_timestamp(self.tp_service_centre_timestamp.as_str()) {
            Ok(v) => v,
            Err(e) => return Err(e),
        };
        data.append(&mut ts);
        data.push(self.tp_user_data_length);
        let mut ud = self.tp_user_data.clone();
        data.append(&mut ud);
        Ok(data)
    }

    /// Encode as [`SmsDeliver::encode`] does, or return `None` on the inputs
    /// that encoder is not defined on.
    pub fn try_encode(&self) -> (res: Option<Result<Vec<u8>, Error>>)
        ensures
            deliver_encode_aborts(self@) <==> res is None,
            res matches Some(r) ==> match spec_encode_deliver(self@) {
                Some(bytes) => r is Ok && r->Ok_0@ == bytes,
                None => r is Err && r->Err_0@ == deliver_encode_error(self@),
            },
    {
        match self.tp_originating_address.try_encode(false) {
            None => return None,
            Some(Err(_)) => {},
            Some(Ok(_)) => {
                if timestamp_cannot_encode(self.tp_service_centre_timestamp.as_str()) {
                    return None;
                }
            },
        }
        Some(self.encode())
    }
}

/// Whether a time-stamp digit string cannot be cut into two-byte pairs.
pub fn timestamp_cannot_encode(ts: &str) -> (b: bool)
    ensures
        b == timestamp_encode_aborts(ts@),
{
    ts.as_bytes().len() % 2 != 0 || !crate::bcd::pairs_start_on_char_boundaries(ts)
}

/// An SMS-SUBMIT-REPORT TPDU, carried in an RP-ACK to acknowledge an MO
/// message with the service-centre time stamp.
#[derive(Debug, Clone)]
pub struct SmsSubmitReport {
    pub tp_udhi: u8,
    pub tp_parameter_indicator: u8,
    pub tp_service_centre_timestamp: String,
}

/// The value an [`SmsSubmitReport`] denotes.
#[verifier::ext_equal]
pub struct SubmitReportModel {
    pub tp_udhi: u8,
    pub tp_parameter_indicator: u8,
    pub tp_service_centre_timestamp: Seq<char>,
}

impl View for SmsSubmitReport {
    type V = SubmitReportModel;

    open spec fn view(&self) -> SubmitReportModel {
        SubmitReportModel {
            tp_udhi: self.tp_udhi,
            tp_parameter_indicator: self.tp_parameter_indicator,
            tp_service_centre_timestamp: self.tp_service_centre_timestamp@,
        }
    }
}

/// The wire form of an SMS-SUBMIT-REPORT: the first octet (TP-UDHI shifted
/// to bit 6, TP-MTI 1), TP-PI, TP-SCTS; `None` where the time stamp is not
/// hex digits.
pub open spec fn spec_encode_submit_report(r: SubmitReportModel) -> Option<Seq<u8>> {
    match spec_encode_timestamp(r.tp_service_centre_timestamp) {
        None => None,
        Some(ts) => Some(seq![(r.tp_udhi << 6u8) | 1u8, r.tp_parameter_indicator] + ts),
    }
}

impl SmsSubmitReport {
    /// Encode the SMS-SUBMIT-REPORT to wire octets (TS 23.040 §9.2.2.1a).
    pub fn encode(&self) -> (res: Result<Vec<u8>, Error>)
        requires
            !timestamp_encode_aborts(self@.tp_service_centre_timestamp),
        ensures
            match spec_encode_submit_report(self@) {
                Some(bytes) => res is Ok && res->Ok_0@ == bytes,
                None => res is Err && res->Err_0@ == timestamp_error(self@.tp_service_centre_timestamp),
            },
    {
        let mut data: Vec<u8> = Vec::new();
        data.push((self.tp_udhi << 6u8) | 1u8);
        data.push(self.tp_parameter_indicator);
        let mut ts = match encode_timestamp(self.tp_service_centre_timestamp.as_str()) {
            Ok(v) => v,
            Err(e) => return Err(e),
        };
        data.append(&mut ts);
        Ok(data)
    }
}

} // verus!
