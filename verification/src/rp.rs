//! The relay layer (TS 24.011 §7.3): RP-DATA in both directions and RP-ACK.

use vstd::prelude::*;

use crate::address::{
    address_decode_error, address_encode_aborts, address_encode_error, decode_sms_address,
    end_of_input_text, end_of_input, option_address_model,
    spec_decode_address, spec_encode_address, AddressModel, SMSAddress,
};
use crate::cursor::Cursor;
use crate::deliver::{
    deliver_encode_aborts, deliver_encode_error, spec_encode_deliver, timestamp_error, spec_encode_submit_report,
    timestamp_encode_aborts, DeliverModel, SmsDeliver, SmsSubmitReport, SubmitReportModel,
};
use crate::error::Error;
use crate::submit::{
    decode_submit_checked, spec_decode_submit, submit_decode_error, user_data_too_short, DecodeOutcome, Decoding, SmsSubmit,
    SubmitModel,
};

verus! {

broadcast use Cursor::lemma_pos_nonnegative;

/// An RP-DATA message from the mobile station (MO), carrying an SMS-SUBMIT.
#[derive(Debug, Clone)]
pub struct RpDataMsToNetwork {
    pub rp_message_type: u8,
    pub rp_message_reference: u8,
    pub rp_originator_address: Option<SMSAddress>,
    pub rp_destination_address: Option<SMSAddress>,
    pub sms_submit: SmsSubmit,
}

/// The value an [`RpDataMsToNetwork`] denotes.
#[verifier::ext_equal]
pub struct RpDataMoModel {
    pub rp_message_type: u8,
    pub rp_message_reference: u8,
    pub rp_originator_address: Option<AddressModel>,
    pub rp_destination_address: Option<AddressModel>,
    pub sms_submit: SubmitModel,
}

impl View for RpDataMsToNetwork {
    type V = RpDataMoModel;

    open spec fn view(&self) -> RpDataMoModel {
        RpDataMoModel {
            rp_message_type: self.rp_message_type,
            rp_message_reference: self.rp_message_reference,
            rp_originator_address: option_address_model(self.rp_originator_address),
            rp_destination_address: option_address_model(self.rp_destination_address),
            sms_submit: self.sms_submit@,
        }
    }
}

/// What parsing an MO RP-DATA gives (TS 24.011 §7.3.1.1): RP-Message-Type,
/// RP-MR, RP-OA and RP-DA (lengths in octets, zero for absent), the
/// RP-User-Data length octet (read and not checked), then the SMS-SUBMIT.
pub open spec fn spec_parse_rp_data(data: Seq<u8>) -> DecodeOutcome<RpDataMoModel> {
    if data.len() < 2 {
        DecodeOutcome::Failed
    } else {
        match spec_decode_address(data, 2, true) {
            None => DecodeOutcome::Failed,
            Some((oa, p1)) => match spec_decode_address(data, p1, true) {
                None => DecodeOutcome::Failed,
                Some((da, p2)) => if p2 >= data.len() {
                    DecodeOutcome::Failed
                } else {
                    match spec_decode_submit(data, p2 + 1) {
                        DecodeOutcome::Failed => DecodeOutcome::Failed,
                        DecodeOutcome::Aborts => DecodeOutcome::Aborts,
                        DecodeOutcome::Decoded(submit, next) => DecodeOutcome::Decoded(
                            RpDataMoModel {
                                rp_message_type: data[0],
                                rp_message_reference: data[1],
                                rp_originator_address: oa,
                                rp_destination_address: da,
                                sms_submit: submit,
                            },
                            next,
                        ),
                    }
                },
            },
        }
    }
}

/// The error text of an MO RP-DATA that does not parse: that of the first
/// part that fails, in wire order, the SMS-SUBMIT's last.
pub open spec fn rp_data_parse_error(data: Seq<u8>) -> Seq<char> {
    if data.len() < 1 {
        "Could not read RP-Message-Type "@ + end_of_input_text()
    } else if data.len() < 2 {
        "Could not read RP-Message-Reference: "@ + end_of_input_text()
    } else {
        match spec_decode_address(data, 2, true) {
            None => "Could not decode RP-Originator Address: "@ + address_decode_error(data, 2, true),
            Some((_, p1)) => match spec_decode_address(data, p1, true) {
                None => "Could not decode RP-Destination Address: "@ + address_decode_error(
                    data,
                    p1,
                    true,
                ),
                Some((_, p2)) => if p2 >= data.len() {
                    "Could not read TPDU Length: "@ + end_of_input_text()
                } else {
                    "Could not decode TPDU: "@ + submit_decode_error(data, p2 + 1)
                },
            },
        }
    }
}

fn parse_rp_checked(data: &[u8]) -> (res: Decoding<RpDataMsToNetwork>)
    ensures
        match spec_parse_rp_data(data@) {
            DecodeOutcome::Decoded(m, _) => res matches Decoding::Done(Ok(r)) && r@ == m,
            DecodeOutcome::Failed => res matches Decoding::Done(Err(e)) && e@ == rp_data_parse_error(
                data@,
            ),
            DecodeOutcome::Aborts => res is Aborted,
        },
{
    let mut cursor = Cursor::new(data);
    let rp_message_type = match cursor.read_u8() {
        Some(b) => b,
        None => return Decoding::Done(
            Err(Error::with_detail("Could not read RP-Message-Type ", end_of_input())),
        ),
    };
    let rp_message_reference = match cursor.read_u8() {
        Some(b) => b,
        None => return Decoding::Done(
            Err(Error::with_detail("Could not read RP-Message-Reference: ", end_of_input())),
        ),
    };
    let rp_originator_address = match decode_sms_address(&mut cursor, true) {
        Ok(a) => a,
        Err(e) => return Decoding::Done(
            Err(Error::with_detail("Could not decode RP-Originator Address: ", e.message())),
        ),
    };
    let rp_destination_address = match decode_sms_address(&mut cursor, true) {
        Ok(a) => a,
        Err(e) => return Decoding::Done(
            Err(Error::with_detail("Could not decode RP-Destination Address: ", e.message())),
        ),
    };
    if cursor.read_u8().is_none() {
        return Decoding::Done(Err(Error::with_detail("Could not read TPDU Length: ", end_of_input())));
    }
    let sms_submit = match decode_submit_checked(&mut cursor) {
        Decoding::Done(Ok(s)) => s,
        Decoding::Done(Err(e)) => return Decoding::Done(
            Err(Error::with_detail("Could not decode TPDU: ", e.message())),
        ),
        Decoding::Aborted => return Decoding::Aborted,
    };
    Decoding::Done(
        Ok(
            RpDataMsToNetwork {
                rp_message_type,
                rp_message_reference,
                rp_originator_address,
                rp_destination_address,
                sms_submit,
            },
        ),
    )
}

/// Parse an MO RP-DATA (TS 24.011 §7.3.1.1) carrying an SMS-SUBMIT, e.g. the
/// body of a UE-originated SIP MESSAGE. Malformed or truncated input gives an
/// error, also GSM 7-bit user data holding fewer chars than its header's
/// UDHL + 2.
pub fn parse_rp_data(data: &[u8]) -> (res: Result<RpDataMsToNetwork, Error>)
    ensures
        match spec_parse_rp_data(data@) {
            DecodeOutcome::Decoded(m, _) => res is Ok && res->Ok_0@ == m,
            _ => res is Err && res->Err_0@ == rp_data_parse_error(data@),
        },
{
    match parse_rp_checked(data) {
        Decoding::Done(r) => r,
        Decoding::Aborted => {
            proof {
                reveal(spec_decode_submit);
            }
            Err(Error::with_detail("Could not decode TPDU: ", user_data_too_short()))
        },
    }
}

/// An RP-DATA message to the mobile station (MT), carrying an SMS-DELIVER.
#[derive(Debug, Clone)]
pub struct RpDataNetworkToMs {
    pub rp_message_type: u8,
    pub rp_message_reference: u8,
    pub rp_originator_address: Option<SMSAddress>,
    pub rp_destination_address: Option<SMSAddress>,
    pub sms_deliver: SmsDeliver,
}

/// The value an [`RpDataNetworkToMs`] denotes.
#[verifier::ext_equal]
pub struct RpDataMtModel {
    pub rp_message_type: u8,
    pub rp_message_reference: u8,
    pub rp_originator_address: Option<AddressModel>,
    pub rp_destination_address: Option<AddressModel>,
    pub sms_deliver: DeliverModel,
}

impl View for RpDataNetworkToMs {
    type V = RpDataMtModel;

    open spec fn view(&self) -> RpDataMtModel {
        RpDataMtModel {
            rp_message_type: self.rp_message_type,
            rp_message_reference: self.rp_message_reference,
            rp_originator_address: option_address_model(self.rp_originator_address),
            rp_destination_address: option_address_model(self.rp_destination_address),
            sms_deliver: self.sms_deliver@,
        }
    }
}

/// An optional RP address on the wire: its encoding with the length in
/// octets, or a single zero octet when absent.
pub open spec fn spec_encode_rp_address(a: Option<AddressModel>) -> Option<Seq<u8>> {
    match a {
        None => Some(seq![0u8]),
        Some(x) => spec_encode_address(x, true),
    }
}

/// An RP address that is present and cannot be encoded (see
/// `address_encode_aborts`).
pub open spec fn rp_address_encode_aborts(a: Option<AddressModel>) -> bool {
    a matches Some(x) && address_encode_aborts(x)
}

/// The error text of an MT RP-DATA that does not encode: that of the first
/// part that does not, in wire order: RP-OA, RP-DA, the SMS-DELIVER.
pub open spec fn rp_data_mt_encode_error(m: RpDataMtModel) -> Seq<char> {
    if spec_encode_rp_address(m.rp_originator_address) is None {
        address_encode_error(m.rp_originator_address->0)
    } else if spec_encode_rp_address(m.rp_destination_address) is None {
        address_encode_error(m.rp_destination_address->0)
    } else {
        deliver_encode_error(m.sms_deliver)
    }
}

/// The wire form of an MT RP-DATA: RP-Message-Type, RP-MR, RP-OA, RP-DA,
/// the SMS-DELIVER's length (modulo 256), then the SMS-DELIVER.
pub open spec fn spec_encode_rp_data_mt(m: RpDataMtModel) -> Option<Seq<u8>> {
    match spec_encode_rp_address(m.rp_originator_address) {
        None => None,
        Some(oa) => match spec_encode_rp_address(m.rp_destination_address) {
            None => None,
            Some(da) => match spec_encode_deliver(m.sms_deliver) {
                None => None,
                Some(tpdu) => Some(
                    seq![m.rp_message_type, m.rp_message_reference] + oa + da + seq![
                        (tpdu.len() % 256) as u8,
                    ] + tpdu,
                ),
            },
        },
    }
}

/// The inputs on which encoding an MT RP-DATA cannot complete: the first of
/// RP-OA, RP-DA and the SMS-DELIVER that does not encode to an error cannot.
pub open spec fn rp_data_mt_encode_aborts(m: RpDataMtModel) -> bool {
    rp_address_encode_aborts(m.rp_originator_address) || (spec_encode_rp_address(
        m.rp_originator_address,
    ) is Some && (rp_address_encode_aborts(m.rp_destination_address) || (spec_encode_rp_address(
        m.rp_destination_address,
    ) is Some && deliver_encode_aborts(m.sms_deliver))))
}

fn encode_rp_address(a: &Option<SMSAddress>) -> (res: Result<Vec<u8>, Error>)
    requires
        !rp_address_encode_aborts(option_address_model(*a)),
    ensures
        match spec_encode_rp_address(option_address_model(*a)) {
            Some(bytes) => res is Ok && res->Ok_0@ == bytes,
            None => res is Err && res->Err_0@ == address_encode_error(option_address_model(*a)->0),
        },
{
    match a {
        Some(address) => address.encode(true),
        None => {
            let mut v: Vec<u8> = Vec::new();
            v.push(0);
            Ok(v)
        },
    }
}

fn try_encode_rp_address(a: &Option<SMSAddress>) -> (res: Option<Result<Vec<u8>, Error>>)
    ensures
        rp_address_encode_aborts(option_address_model(*a)) <==> res is None,
        res matches Some(r) ==> match spec_encode_rp_address(option_address_model(*a)) {
            Some(bytes) => r is Ok && r->Ok_0@ == bytes,
            None => r is Err && r->Err_0@ == address_encode_error(option_address_model(*a)->0),
        },
{
    match a {
        Some(address) => address.try_encode(true),
        None => Some(encode_rp_address(a)),
    }
}

impl RpDataNetworkToMs {
    /// Encode the MT RP-DATA to wire octets (TS 24.011 §7.3.1.1), e.g. for the
    /// body of a SIP MESSAGE.
    pub fn encode(&self) -> (res: Result<Vec<u8>, Error>)
        requires
            !rp_data_mt_encode_aborts(self@),
        ensures
            match spec_encode_rp_data_mt(self@) {
                Some(bytes) => res is Ok && res->Ok_0@ == bytes,
                None => res is Err && res->Err_0@ == rp_data_mt_encode_error(self@),
            },
    {
        let mut data: Vec<u8> = Vec::new();
        data.push(self.rp_message_type);
        data.push(self.rp_message_reference);
        let mut oa = match encode_rp_address(&self.rp_originator_address) {
            Ok(v) => v,
            Err(e) => return Err(e),
        };
        data.append(&mut oa);
        let mut da = match encode_rp_address(&self.rp_destination_address) {
            Ok(v) => v,
            Err(e) => return Err(e),
        };
        data.append(&mut da);
        let sms_deliver_encoded = match self.sms_deliver.encode() {
            Ok(v) => v,
            Err(e) => return Err(e),
        };
        data.push((sms_deliver_encoded.len() % 256) as u8);
        let mut tpdu = match self.sms_deliver.encode() {
            Ok(v) => v,
            Err(e) => return Err(e),
        };
        data.append(&mut tpdu);
        Ok(data)
    }

    /// Encode as [`RpDataNetworkToMs::encode`] does, or return `None` on the
    /// inputs that encoder is not defined on.
    pub fn try_encode(&self) -> (res: Option<Result<Vec<u8>, Error>>)
        ensures
            rp_data_mt_encode_aborts(self@) <==> res is None,
            res matches Some(r) ==> match spec_encode_rp_data_mt(self@) {
                Some(bytes) => r is Ok && r->Ok_0@ == bytes,
                None => r is Err && r->Err_0@ == rp_data_mt_encode_error(self@),
            },
    {
        match try_encode_rp_address(&self.rp_originator_address) {
            None => return None,
            Some(Err(_)) => return Some(self.encode()),
            Some(Ok(_)) => {},
        }
        match try_encode_rp_address(&self.rp_destination_address) {
            None => return None,
            Some(Err(_)) => return Some(self.encode()),
            Some(Ok(_)) => {},
        }
        match self.sms_deliver.try_encode() {
            None => None,
            Some(_) => Some(self.encode()),
        }
    }
}

/// An RP-ACK message to the mobile station, carrying an SMS-SUBMIT-REPORT
/// in its RP-User-Data element.
#[derive(Debug, Clone)]
pub struct RpAck {
    pub rp_message_type: u8,
    pub rp_message_reference: u8,
    pub rp_user_data_element_id: u8,
    pub rp_user_data_element_length: u8,
    pub sms_submit_report: SmsSubmitReport,
}

/// The value an [`RpAck`] denotes.
#[verifier::ext_equal]
pub struct RpAckModel {
    pub rp_message_type: u8,
    pub rp_message_reference: u8,
    pub rp_user_data_element_id: u8,
    pub rp_user_data_element_length: u8,
    pub sms_submit_report: SubmitReportModel,
}

impl View for RpAck {
    type V = RpAckModel;

    open spec fn view(&self) -> RpAckModel {
        RpAckModel {
            rp_message_type: self.rp_message_type,
            rp_message_reference: self.rp_message_reference,
            rp_user_data_element_id: self.rp_user_data_element_id,
            rp_user_data_element_length: self.rp_user_data_element_length,
            sms_submit_report: self.sms_submit_report@,
        }
    }
}

/// The wire form of an RP-ACK: RP-Message-Type, RP-MR, the RP-User-Data
/// element's IEI and length, then the SMS-SUBMIT-REPORT.
pub open spec fn spec_encode_rp_ack(m: RpAckModel) -> Option<Seq<u8>> {
    match spec_encode_submit_report(m.sms_submit_report) {
        None => None,
        Some(report) => Some(
            seq![
                m.rp_message_type,
                m.rp_message_reference,
                m.rp_user_data_element_id,
                m.rp_user_data_element_length,
            ] + report,
        ),
    }
}

impl RpAck {
    /// Encode the RP-ACK to wire octets (TS 24.011 §7.3.2.1).
    pub fn encode(&self) -> (res: Result<Vec<u8>, Error>)
        requires
            !timestamp_encode_aborts(self@.sms_submit_report.tp_service_centre_timestamp),
        ensures
            match spec_encode_rp_ack(self@) {
                Some(bytes) => res is Ok && res->Ok_0@ == bytes,
                None => res is Err && res->Err_0@ == timestamp_error(
                    self@.sms_submit_report.tp_service_centre_timestamp,
                ),
            },
    {
        let mut data: Vec<u8> = Vec::new();
        data.push(self.rp_message_type);
        data.push(self.rp_message_reference);
        data.push(self.rp_user_data_element_id);
        data.push(self.rp_user_data_element_length);
        let mut report = match self.sms_submit_report.encode() {
            Ok(v) => v,
            Err(e) => return Err(e),
        };
        data.append(&mut report);
        Ok(data)
    }

    /// The RP-ACK a network sends for an MO RP-DATA: RP-Message-Type 3
    /// (RP-ACK network to MS), the echoed RP-MR, RP-User-Data IEI 0x41 and the
    /// element length computed from the encoded report; fails where the
    /// report does not encode.
    pub fn network_to_ms(sms_submit_report: SmsSubmitReport, rp_message_reference: u8) -> (res:
        Result<RpAck, Error>)
        requires
            !timestamp_encode_aborts(sms_submit_report@.tp_service_centre_timestamp),
        ensures
            match spec_encode_submit_report(sms_submit_report@) {
                Some(report) => res is Ok && res->Ok_0@ == (RpAckModel {
                    rp_message_type: 3,
                    rp_message_reference,
                    rp_user_data_element_id: 0x41,
                    rp_user_data_element_length: (report.len() % 256) as u8,
                    sms_submit_report: sms_submit_report@,
                }),
                None => res is Err && res->Err_0@ == timestamp_error(
                    sms_submit_report@.tp_service_centre_timestamp,
                ),
            },
    {
        let encoded = match sms_submit_report.encode() {
            Ok(v) => v,
            Err(e) => return Err(e),
        };
        Ok(
            RpAck {
                rp_message_type: 0x03,
                rp_message_reference,
                rp_user_data_element_id: 0x41,
                rp_user_data_element_length: (encoded.len() % 256) as u8,
                sms_submit_report,
            },
        )
    }
}

} // verus!
