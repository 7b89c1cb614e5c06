//! Fluent builders for the PDU and component types: consuming setters that
//! chain, a required inner value passed to `builder(..)`, and a terminal
//! `build()`. The text helpers set the user data and its length but never
//! TP-DCS; `validity_period` does not set TP-VPF.

use vstd::prelude::*;

use crate::address::{AddressModel, SMSAddress};
use crate::deliver::{DeliverModel, SmsDeliver, SmsSubmitReport, SubmitReportModel};
use crate::error::Error;
use crate::gsm7::pack_gsm7;
use crate::rp::{RpAck, RpAckModel, RpDataMoModel, RpDataMsToNetwork, RpDataMtModel, RpDataNetworkToMs};
use crate::septets::septet_count;
use crate::submit::{option_header_model, HeaderModel, SmsSubmit, SubmitModel, UserDataHeader};
use crate::trusted::{gsm7_packed, gsm7_write};
use crate::ucs2::{ucs2_bytes, utf16be_octets};

verus! {
/// Builder for [`SMSAddress`]; see [`SMSAddress::builder`].
#[derive(Debug, Clone)]
pub struct SMSAddressBuilder {
    ton: u8,
    npi: u8,
    address: String,
}

impl View for SMSAddressBuilder {
    type V = AddressModel;

    closed spec fn view(&self) -> AddressModel {
        AddressModel { ton: self.ton, npi: self.npi, address: self.address@ }
    }
}

impl SMSAddress {
    /// Start building an address: TON and NPI 0, empty address.
    pub fn builder() -> (b: SMSAddressBuilder)
        ensures
            b@ == (AddressModel { ton: 0, npi: 0, address: Seq::empty() }),
    {
        SMSAddressBuilder { ton: 0, npi: 0, address: String::new() }
    }
}

impl SMSAddressBuilder {
    /// Type of number (e.g. `1` international, `5` alphanumeric).
    pub fn ton(self, v: u8) -> (r: Self)
        ensures
            r@ == (AddressModel { ton: v, ..self@ }),
    {
        let mut b = self;
        b.ton = v;
        b
    }
    /// Numbering-plan identification.
    pub fn npi(self, v: u8) -> (r: Self)
        ensures
            r@ == (AddressModel { npi: v, ..self@ }),
    {
        let mut b = self;
        b.npi = v;
        b
    }
    /// The digits, or for TON 5 the alphanumeric label.
    pub fn address(self, v: &str) -> (r: Self)
        ensures
            r@ == (AddressModel { address: v@, ..self@ }),
    {
        let mut b = self;
        b.address = v.to_owned();
        b
    }
    /// Finish and return the address.
    pub fn build(self) -> (a: SMSAddress)
        ensures
            a@ == self@,
    {
        SMSAddress { ton: self.ton, npi: self.npi, address: self.address }
    }
}
/// The state of a [`UserDataHeaderBuilder`]: the value, and the length when
/// one was set.
#[verifier::ext_equal]
pub struct HeaderBuilderModel {
    pub value: Seq<u8>,
    pub length: Option<u8>,
}

/// Builder for [`UserDataHeader`]; see [`UserDataHeader::builder`].
#[derive(Debug, Clone)]
pub struct UserDataHeaderBuilder {
    value: Vec<u8>,
    length: Option<u8>,
}

impl View for UserDataHeaderBuilder {
    type V = HeaderBuilderModel;

    closed spec fn view(&self) -> HeaderBuilderModel {
        HeaderBuilderModel { value: self.value@, length: self.length }
    }
}

impl UserDataHeader {
    /// Start building a header: empty value, length derived from the value
    /// unless set.
    pub fn builder() -> (b: UserDataHeaderBuilder)
        ensures
            b@ == (HeaderBuilderModel { value: Seq::empty(), length: None }),
    {
        UserDataHeaderBuilder { value: Vec::new(), length: None }
    }
}

impl UserDataHeaderBuilder {
    /// The header information elements.
    pub fn value(self, v: Vec<u8>) -> (r: Self)
        ensures
            r@ == (HeaderBuilderModel { value: v@, ..self@ }),
    {
        let mut b = self;
        b.value = v;
        b
    }
    /// Override the header length (by default the value's octet count).
    pub fn length(self, v: u8) -> (r: Self)
        ensures
            r@ == (HeaderBuilderModel { length: Some(v), ..self@ }),
    {
        let mut b = self;
        b.length = Some(v);
        b
    }
    /// Finish and return the header; its length is the one set, or else the
    /// value's octet count (modulo 256).
    pub fn build(self) -> (h: UserDataHeader)
        ensures
            h@ == (HeaderModel {
                length: match self@.length {
                    Some(l) => l,
                    None => (self@.value.len() % 256) as u8,
                },
                value: self@.value,
            }),
    {
        let user_data_header_length = match self.length {
            Some(l) => l,
            None => (self.value.len() % 256) as u8,
        };
        UserDataHeader { user_data_header_length, user_data_header_value: self.value }
    }
}
/// The state of an [`SmsSubmitBuilder`]: the fields so far, and the message
/// of a failed `gsm7_text`, which `build` reports.
#[verifier::ext_equal]
pub struct SubmitBuilderModel {
    pub fields: SubmitModel,
    pub error: Option<Seq<char>>,
}

/// Builder for [`SmsSubmit`]; see [`SmsSubmit::builder`].
#[derive(Debug, Clone)]
pub struct SmsSubmitBuilder {
    submit: SmsSubmit,
    err: Option<Error>,
}

/// The message of an optional error.
pub open spec fn option_error_model(e: Option<Error>) -> Option<Seq<char>> {
    match e {
        Some(x) => Some(x@),
        None => None,
    }
}

impl View for SmsSubmitBuilder {
    type V = SubmitBuilderModel;

    closed spec fn view(&self) -> SubmitBuilderModel {
        SubmitBuilderModel { fields: self.submit@, error: option_error_model(self.err) }
    }
}

impl SmsSubmit {
    /// Start building an SMS-SUBMIT: TP-MTI 1, every other field 0, false,
    /// absent or empty.
    pub fn builder() -> (b: SmsSubmitBuilder)
        ensures
            b@ == (SubmitBuilderModel {
                fields: SubmitModel {
                    tp_rp: false,
                    tp_udhi: false,
                    tp_srr: false,
                    tp_mti: 1,
                    tp_rd: false,
                    tp_vpf: 0,
                    tp_mr: 0,
                    tp_destination_address: None,
                    tp_pid: 0,
                    tp_dcs: 0,
                    tp_validity_period: None,
                    tp_user_data_length: 0,
                    tp_user_data_raw: Seq::empty(),
                    tp_user_data_header: None,
                    tp_user_data: Seq::empty(),
                },
                error: None,
            }),
    {
        SmsSubmitBuilder {
            submit: SmsSubmit {
                tp_rp: false,
                tp_udhi: false,
                tp_srr: false,
                tp_mti: 1,
                tp_rd: false,
                tp_vpf: 0,
                tp_mr: 0,
                tp_destination_address: None,
                tp_pid: 0,
                tp_dcs: 0,
                tp_validity_period: None,
                tp_user_data_length: 0,
                tp_user_data_raw: Vec::new(),
                tp_user_data_header: None,
                tp_user_data: Vec::new(),
            },
            err: None,
        }
    }
}

impl SmsSubmitBuilder {
    /// TP-Reply-Path.
    pub fn rp(self, v: bool) -> (r: Self)
        ensures
            r@ == (SubmitBuilderModel { fields: SubmitModel { tp_rp: v, ..self@.fields }, ..self@ }),
    {
        let mut b = self;
        b.submit.tp_rp = v;
        b
    }
    /// TP-User-Data-Header-Indicator.
    pub fn udhi(self, v: bool) -> (r: Self)
        ensures
            r@ == (SubmitBuilderModel { fields: SubmitModel { tp_udhi: v, ..self@.fields }, ..self@ }),
    {
        let mut b = self;
        b.submit.tp_udhi = v;
        b
    }
    /// TP-Status-Report-Request.
    pub fn srr(self, v: bool) -> (r: Self)
        ensures
            r@ == (SubmitBuilderModel { fields: SubmitModel { tp_srr: v, ..self@.fields }, ..self@ }),
    {
        let mut b = self;
        b.submit.tp_srr = v;
        b
    }
    /// TP-Message-Type-Indicator (by default 1, SMS-SUBMIT).
    pub fn mti(self, v: u8) -> (r: Self)
        ensures
            r@ == (SubmitBuilderModel { fields: SubmitModel { tp_mti: v, ..self@.fields }, ..self@ }),
    {
        let mut b = self;
        b.submit.tp_mti = v;
        b
    }
    /// TP-Reject-Duplicates.
    pub fn rd(self, v: bool) -> (r: Self)
        ensures
            r@ == (SubmitBuilderModel { fields: SubmitModel { tp_rd: v, ..self@.fields }, ..self@ }),
    {
        let mut b = self;
        b.submit.tp_rd = v;
        b
    }
    /// TP-Validity-Period-Format; not implied by `validity_period`.
    pub fn vpf(self, v: u8) -> (r: Self)
        ensures
            r@ == (SubmitBuilderModel { fields: SubmitModel { tp_vpf: v, ..self@.fields }, ..self@ }),
    {
        let mut b = self;
        b.submit.tp_vpf = v;
        b
    }
    /// TP-Message-Reference.
    pub fn mr(self, v: u8) -> (r: Self)
        ensures
            r@ == (SubmitBuilderModel { fields: SubmitModel { tp_mr: v, ..self@.fields }, ..self@ }),
    {
        let mut b = self;
        b.submit.tp_mr = v;
        b
    }
    /// TP-Protocol-Identifier.
    pub fn pid(self, v: u8) -> (r: Self)
        ensures
            r@ == (SubmitBuilderModel { fields: SubmitModel { tp_pid: v, ..self@.fields }, ..self@ }),
    {
        let mut b = self;
        b.submit.tp_pid = v;
        b
    }
    /// TP-Data-Coding-Scheme.
    pub fn dcs(self, v: u8) -> (r: Self)
        ensures
            r@ == (SubmitBuilderModel { fields: SubmitModel { tp_dcs: v, ..self@.fields }, ..self@ }),
    {
        let mut b = self;
        b.submit.tp_dcs = v;
        b
    }
    /// TP-User-Data-Length (septets for GSM 7-bit, octets otherwise).
    pub fn user_data_length(self, v: u8) -> (r: Self)
        ensures
            r@ == (SubmitBuilderModel { fields: SubmitModel { tp_user_data_length: v, ..self@.fields }, ..self@ }),
    {
        let mut b = self;
        b.submit.tp_user_data_length = v;
        b
    }
    /// TP-Destination-Address.
    pub fn destination_address(self, v: SMSAddress) -> (r: Self)
        ensures
            r@ == (SubmitBuilderModel { fields: SubmitModel { tp_destination_address: Some(v@), ..self@.fields }, ..self@ }),
    {
        let mut b = self;
        b.submit.tp_destination_address = Some(v);
        b
    }
    /// TP-Validity-Period; set `vpf` too, it is not implied.
    pub fn validity_period(self, v: u8) -> (r: Self)
        ensures
            r@ == (SubmitBuilderModel { fields: SubmitModel { tp_validity_period: Some(v), ..self@.fields }, ..self@ }),
    {
        let mut b = self;
        b.submit.tp_validity_period = Some(v);
        b
    }
    /// The user-data octets; does not set TP-UDL.
    pub fn user_data(self, v: Vec<u8>) -> (r: Self)
        ensures
            r@ == (SubmitBuilderModel { fields: SubmitModel { tp_user_data: v@, ..self@.fields }, ..self@ }),
    {
        let mut b = self;
        b.submit.tp_user_data = v;
        b
    }
    /// The raw on-wire user-data octets.
    pub fn user_data_raw(self, v: Vec<u8>) -> (r: Self)
        ensures
            r@ == (SubmitBuilderModel { fields: SubmitModel { tp_user_data_raw: v@, ..self@.fields }, ..self@ }),
    {
        let mut b = self;
        b.submit.tp_user_data_raw = v;
        b
    }
    /// TP-User-Data-Header; set `udhi` too.
    pub fn user_data_header(self, v: UserDataHeader) -> (r: Self)
        ensures
            r@ == (SubmitBuilderModel { fields: SubmitModel { tp_user_data_header: Some(v@), ..self@.fields }, ..self@ }),
    {
        let mut b = self;
        b.submit.tp_user_data_header = Some(v);
        b
    }
    /// Pack `text` as GSM 7-bit and set the user data and its septet count
    /// as TP-UDL (modulo 256); TP-DCS is left alone. A text GSM 7-bit refuses
    /// leaves the fields as they were and makes `build` fail.
    pub fn gsm7_text(self, text: &str) -> (r: Self)
        requires
            septet_count(text@) <= usize::MAX,
        ensures
            match gsm7_packed(text@) {
                Some(packed) => r@ == (SubmitBuilderModel {
                    fields: SubmitModel {
                        tp_user_data: packed,
                        tp_user_data_length: (septet_count(text@) % 256) as u8,
                        ..self@.fields
                    },
                    ..self@
                }),
                None => r@.fields == self@.fields && (gsm7_write(text@) matches Err(m) && r@.error == Some(m)),
            },
    {
        let mut b = self;
        match pack_gsm7(text) {
            Ok((bytes, septets)) => {
                b.submit.tp_user_data = bytes;
                b.submit.tp_user_data_length = (septets % 256) as u8;
            },
            Err(e) => {
                b.err = Some(e);
            },
        }
        b
    }

    /// Encode `text` as UCS-2 (UTF-16BE) and set the user data and its octet
    /// count as TP-UDL (modulo 256); TP-DCS is left alone.
    pub fn ucs2_text(self, text: &str) -> (r: Self)
        ensures
            r@ == (SubmitBuilderModel {
                fields: SubmitModel {
                    tp_user_data: utf16be_octets(text@),
                    tp_user_data_length: (utf16be_octets(text@).len() % 256) as u8,
                    ..self@.fields
                },
                ..self@
            }),
    {
        let bytes = ucs2_bytes(text);
        let mut b = self;
        b.submit.tp_user_data_length = (bytes.len() % 256) as u8;
        b.submit.tp_user_data = bytes;
        b
    }

    /// Finish: the SMS-SUBMIT, or the error of a failed `gsm7_text`.
    pub fn build(self) -> (res: Result<SmsSubmit, Error>)
        ensures
            match self@.error {
                Some(m) => res is Err && res->Err_0@ == m,
                None => res is Ok && res->Ok_0@ == self@.fields,
            },
    {
        match self.err {
            Some(e) => Err(e),
            None => Ok(self.submit),
        }
    }
}
/// The state of an [`SmsDeliverBuilder`]: the fields so far, and the message
/// of a failed `gsm7_text`, which `build` reports.
#[verifier::ext_equal]
pub struct DeliverBuilderModel {
    pub fields: DeliverModel,
    pub error: Option<Seq<char>>,
}

/// Builder for [`SmsDeliver`]; see [`SmsDeliver::builder`].
#[derive(Debug, Clone)]
pub struct SmsDeliverBuilder {
    deliver: SmsDeliver,
    err: Option<Error>,
}

impl View for SmsDeliverBuilder {
    type V = DeliverBuilderModel;

    closed spec fn view(&self) -> DeliverBuilderModel {
        DeliverBuilderModel { fields: self.deliver@, error: option_error_model(self.err) }
    }
}

impl SmsDeliver {
    /// Start building an SMS-DELIVER from the given originating address:
    /// TP-MTI 0, every other field 0, false or empty.
    pub fn builder(originating_address: SMSAddress) -> (b: SmsDeliverBuilder)
        ensures
            b@ == (DeliverBuilderModel {
                fields: DeliverModel {
                    tp_rp: false,
                    tp_udhi: false,
                    tp_sri: false,
                    tp_lp: false,
                    tp_mms: false,
                    tp_mti: 0,
                    tp_originating_address: originating_address@,
                    tp_pid: 0,
                    tp_dcs: 0,
                    tp_service_centre_timestamp: Seq::empty(),
                    tp_user_data_length: 0,
                    tp_user_data: Seq::empty(),
                },
                error: None,
            }),
    {
        SmsDeliverBuilder {
            deliver: SmsDeliver {
                tp_rp: false,
                tp_udhi: false,
                tp_sri: false,
                tp_lp: false,
                tp_mms: false,
                tp_mti: 0,
                tp_originating_address: originating_address,
                tp_pid: 0,
                tp_dcs: 0,
                tp_service_centre_timestamp: String::new(),
                tp_user_data_length: 0,
                tp_user_data: Vec::new(),
            },
            err: None,
        }
    }
}

impl SmsDeliverBuilder {
    /// TP-Reply-Path.
    pub fn rp(self, v: bool) -> (r: Self)
        ensures
            r@ == (DeliverBuilderModel { fields: DeliverModel { tp_rp: v, ..self@.fields }, ..self@ }),
    {
        let mut b = self;
        b.deliver.tp_rp = v;
        b
    }
    /// TP-User-Data-Header-Indicator.
    pub fn udhi(self, v: bool) -> (r: Self)
        ensures
            r@ == (DeliverBuilderModel { fields: DeliverModel { tp_udhi: v, ..self@.fields }, ..self@ }),
    {
        let mut b = self;
        b.deliver.tp_udhi = v;
        b
    }
    /// TP-Status-Report-Indication.
    pub fn sri(self, v: bool) -> (r: Self)
        ensures
            r@ == (DeliverBuilderModel { fields: DeliverModel { tp_sri: v, ..self@.fields }, ..self@ }),
    {
        let mut b = self;
        b.deliver.tp_sri = v;
        b
    }
    /// TP-Loop-Prevention.
    pub fn lp(self, v: bool) -> (r: Self)
        ensures
            r@ == (DeliverBuilderModel { fields: DeliverModel { tp_lp: v, ..self@.fields }, ..self@ }),
    {
        let mut b = self;
        b.deliver.tp_lp = v;
        b
    }
    /// TP-More-Messages-to-Send.
    pub fn mms(self, v: bool) -> (r: Self)
        ensures
            r@ == (DeliverBuilderModel { fields: DeliverModel { tp_mms: v, ..self@.fields }, ..self@ }),
    {
        let mut b = self;
        b.deliver.tp_mms = v;
        b
    }
    /// TP-Message-Type-Indicator (by default 0, SMS-DELIVER).
    pub fn mti(self, v: u8) -> (r: Self)
        ensures
            r@ == (DeliverBuilderModel { fields: DeliverModel { tp_mti: v, ..self@.fields }, ..self@ }),
    {
        let mut b = self;
        b.deliver.tp_mti = v;
        b
    }
    /// TP-Protocol-Identifier.
    pub fn pid(self, v: u8) -> (r: Self)
        ensures
            r@ == (DeliverBuilderModel { fields: DeliverModel { tp_pid: v, ..self@.fields }, ..self@ }),
    {
        let mut b = self;
        b.deliver.tp_pid = v;
        b
    }
    /// TP-Data-Coding-Scheme.
    pub fn dcs(self, v: u8) -> (r: Self)
        ensures
            r@ == (DeliverBuilderModel { fields: DeliverModel { tp_dcs: v, ..self@.fields }, ..self@ }),
    {
        let mut b = self;
        b.deliver.tp_dcs = v;
        b
    }
    /// TP-User-Data-Length (septets for GSM 7-bit, octets otherwise).
    pub fn user_data_length(self, v: u8) -> (r: Self)
        ensures
            r@ == (DeliverBuilderModel { fields: DeliverModel { tp_user_data_length: v, ..self@.fields }, ..self@ }),
    {
        let mut b = self;
        b.deliver.tp_user_data_length = v;
        b
    }
    /// TP-Originating-Address.
    pub fn originating_address(self, v: SMSAddress) -> (r: Self)
        ensures
            r@ == (DeliverBuilderModel { fields: DeliverModel { tp_originating_address: v@, ..self@.fields }, ..self@ }),
    {
        let mut b = self;
        b.deliver.tp_originating_address = v;
        b
    }
    /// TP-Service-Centre-Time-Stamp, as the digit string the encoder packs into semi-octets (e.g. `25010112000000`).
    pub fn service_centre_timestamp(self, v: &str) -> (r: Self)
        ensures
            r@ == (DeliverBuilderModel { fields: DeliverModel { tp_service_centre_timestamp: v@, ..self@.fields }, ..self@ }),
    {
        let mut b = self;
        b.deliver.tp_service_centre_timestamp = v.to_owned();
        b
    }
    /// The user-data octets; does not set TP-UDL.
    pub fn user_data(self, v: Vec<u8>) -> (r: Self)
        ensures
            r@ == (DeliverBuilderModel { fields: DeliverModel { tp_user_data: v@, ..self@.fields }, ..self@ }),
    {
        let mut b = self;
        b.deliver.tp_user_data = v;
        b
    }
    /// Pack `text` as GSM 7-bit and set the user data and its septet count
    /// as TP-UDL (modulo 256); TP-DCS is left alone. A text GSM 7-bit refuses
    /// leaves the fields as they were and makes `build` fail.
    pub fn gsm7_text(self, text: &str) -> (r: Self)
        requires
            septet_count(text@) <= usize::MAX,
        ensures
            match gsm7_packed(text@) {
                Some(packed) => r@ == (DeliverBuilderModel {
                    fields: DeliverModel {
                        tp_user_data: packed,
                        tp_user_data_length: (septet_count(text@) % 256) as u8,
                        ..self@.fields
                    },
                    ..self@
                }),
                None => r@.fields == self@.fields && (gsm7_write(text@) matches Err(m) && r@.error == Some(m)),
            },
    {
        let mut b = self;
        match pack_gsm7(text) {
            Ok((bytes, septets)) => {
                b.deliver.tp_user_data = bytes;
                b.deliver.tp_user_data_length = (septets % 256) as u8;
            },
            Err(e) => {
                b.err = Some(e);
            },
        }
        b
    }

    /// Encode `text` as UCS-2 (UTF-16BE) and set the user data and its octet
    /// count as TP-UDL (modulo 256); TP-DCS is left alone.
    pub fn ucs2_text(self, text: &str) -> (r: Self)
        ensures
            r@ == (DeliverBuilderModel {
                fields: DeliverModel {
                    tp_user_data: utf16be_octets(text@),
                    tp_user_data_length: (utf16be_octets(text@).len() % 256) as u8,
                    ..self@.fields
                },
                ..self@
            }),
    {
        let bytes = ucs2_bytes(text);
        let mut b = self;
        b.deliver.tp_user_data_length = (bytes.len() % 256) as u8;
        b.deliver.tp_user_data = bytes;
        b
    }

    /// Finish: the SMS-DELIVER, or the error of a failed `gsm7_text`.
    pub fn build(self) -> (res: Result<SmsDeliver, Error>)
        ensures
            match self@.error {
                Some(m) => res is Err && res->Err_0@ == m,
                None => res is Ok && res->Ok_0@ == self@.fields,
            },
    {
        match self.err {
            Some(e) => Err(e),
            None => Ok(self.deliver),
        }
    }
}
/// Builder for [`SmsSubmitReport`]; see [`SmsSubmitReport::builder`].
#[derive(Debug, Clone)]
pub struct SmsSubmitReportBuilder {
    report: SmsSubmitReport,
}

impl View for SmsSubmitReportBuilder {
    type V = SubmitReportModel;

    closed spec fn view(&self) -> SubmitReportModel {
        self.report@
    }
}

impl SmsSubmitReport {
    /// Start building an SMS-SUBMIT-REPORT: every field 0 or empty.
    pub fn builder() -> (b: SmsSubmitReportBuilder)
        ensures
            b@ == (SubmitReportModel {
                tp_udhi: 0,
                tp_parameter_indicator: 0,
                tp_service_centre_timestamp: Seq::empty(),
            }),
    {
        SmsSubmitReportBuilder {
            report: SmsSubmitReport {
                tp_udhi: 0,
                tp_parameter_indicator: 0,
                tp_service_centre_timestamp: String::new(),
            },
        }
    }
}

impl SmsSubmitReportBuilder {
    /// TP-User-Data-Header-Indicator bit.
    pub fn udhi(self, v: u8) -> (r: Self)
        ensures
            r@ == (SubmitReportModel { tp_udhi: v, ..self@ }),
    {
        let mut b = self;
        b.report.tp_udhi = v;
        b
    }
    /// TP-Parameter-Indicator.
    pub fn parameter_indicator(self, v: u8) -> (r: Self)
        ensures
            r@ == (SubmitReportModel { tp_parameter_indicator: v, ..self@ }),
    {
        let mut b = self;
        b.report.tp_parameter_indicator = v;
        b
    }
    /// TP-Service-Centre-Time-Stamp digit string.
    pub fn service_centre_timestamp(self, v: &str) -> (r: Self)
        ensures
            r@ == (SubmitReportModel { tp_service_centre_timestamp: v@, ..self@ }),
    {
        let mut b = self;
        b.report.tp_service_centre_timestamp = v.to_owned();
        b
    }
    /// Finish and return the SMS-SUBMIT-REPORT.
    pub fn build(self) -> (r: SmsSubmitReport)
        ensures
            r@ == self@,
    {
        self.report
    }
}
/// Builder for [`RpDataMsToNetwork`]; see [`RpDataMsToNetwork::builder`].
#[derive(Debug, Clone)]
pub struct RpDataMsToNetworkBuilder {
    rp: RpDataMsToNetwork,
}

impl View for RpDataMsToNetworkBuilder {
    type V = RpDataMoModel;

    closed spec fn view(&self) -> RpDataMoModel {
        self.rp@
    }
}

impl RpDataMsToNetwork {
    /// Start building an MO RP-DATA around an SMS-SUBMIT: RP-Message-Type 0, RP-MR 0, no addresses.
    pub fn builder(sms_submit: SmsSubmit) -> (b: RpDataMsToNetworkBuilder)
        ensures
            b@ == (RpDataMoModel {
                rp_message_type: 0,
                rp_message_reference: 0,
                rp_originator_address: None,
                rp_destination_address: None,
                sms_submit: sms_submit@,
            }),
    {
        RpDataMsToNetworkBuilder {
            rp: RpDataMsToNetwork {
                rp_message_type: 0,
                rp_message_reference: 0,
                rp_originator_address: None,
                rp_destination_address: None,
                sms_submit,
            },
        }
    }
}

impl RpDataMsToNetworkBuilder {
    /// RP-Message-Type (by default 0, RP-DATA MS to network).
    pub fn message_type(self, v: u8) -> (r: Self)
        ensures
            r@ == (RpDataMoModel { rp_message_type: v, ..self@ }),
    {
        let mut b = self;
        b.rp.rp_message_type = v;
        b
    }
    /// RP-Message-Reference.
    pub fn message_reference(self, v: u8) -> (r: Self)
        ensures
            r@ == (RpDataMoModel { rp_message_reference: v, ..self@ }),
    {
        let mut b = self;
        b.rp.rp_message_reference = v;
        b
    }
    /// RP-Originator-Address.
    pub fn originator_address(self, v: SMSAddress) -> (r: Self)
        ensures
            r@ == (RpDataMoModel { rp_originator_address: Some(v@), ..self@ }),
    {
        let mut b = self;
        b.rp.rp_originator_address = Some(v);
        b
    }
    /// RP-Destination-Address.
    pub fn destination_address(self, v: SMSAddress) -> (r: Self)
        ensures
            r@ == (RpDataMoModel { rp_destination_address: Some(v@), ..self@ }),
    {
        let mut b = self;
        b.rp.rp_destination_address = Some(v);
        b
    }
    /// Replace the wrapped TPDU.
    pub fn sms_submit(self, v: SmsSubmit) -> (r: Self)
        ensures
            r@ == (RpDataMoModel { sms_submit: v@, ..self@ }),
    {
        let mut b = self;
        b.rp.sms_submit = v;
        b
    }
    /// Finish and return the RP-DATA.
    pub fn build(self) -> (r: RpDataMsToNetwork)
        ensures
            r@ == self@,
    {
        self.rp
    }
}
/// Builder for [`RpDataNetworkToMs`]; see [`RpDataNetworkToMs::builder`].
#[derive(Debug, Clone)]
pub struct RpDataNetworkToMsBuilder {
    rp: RpDataNetworkToMs,
}

impl View for RpDataNetworkToMsBuilder {
    type V = RpDataMtModel;

    closed spec fn view(&self) -> RpDataMtModel {
        self.rp@
    }
}

impl RpDataNetworkToMs {
    /// Start building an MT RP-DATA around an SMS-DELIVER: RP-Message-Type 1, RP-MR 0, no addresses.
    pub fn builder(sms_deliver: SmsDeliver) -> (b: RpDataNetworkToMsBuilder)
        ensures
            b@ == (RpDataMtModel {
                rp_message_type: 1,
                rp_message_reference: 0,
                rp_originator_address: None,
                rp_destination_address: None,
                sms_deliver: sms_deliver@,
            }),
    {
        RpDataNetworkToMsBuilder {
            rp: RpDataNetworkToMs {
                rp_message_type: 1,
                rp_message_reference: 0,
                rp_originator_address: None,
                rp_destination_address: None,
                sms_deliver,
            },
        }
    }
}

impl RpDataNetworkToMsBuilder {
    /// RP-Message-Type (by default 1, RP-DATA network to MS).
    pub fn message_type(self, v: u8) -> (r: Self)
        ensures
            r@ == (RpDataMtModel { rp_message_type: v, ..self@ }),
    {
        let mut b = self;
        b.rp.rp_message_type = v;
        b
    }
    /// RP-Message-Reference.
    pub fn message_reference(self, v: u8) -> (r: Self)
        ensures
            r@ == (RpDataMtModel { rp_message_reference: v, ..self@ }),
    {
        let mut b = self;
        b.rp.rp_message_reference = v;
        b
    }
    /// RP-Originator-Address.
    pub fn originator_address(self, v: SMSAddress) -> (r: Self)
        ensures
            r@ == (RpDataMtModel { rp_originator_address: Some(v@), ..self@ }),
    {
        let mut b = self;
        b.rp.rp_originator_address = Some(v);
        b
    }
    /// RP-Destination-Address.
    pub fn destination_address(self, v: SMSAddress) -> (r: Self)
        ensures
            r@ == (RpDataMtModel { rp_destination_address: Some(v@), ..self@ }),
    {
        let mut b = self;
        b.rp.rp_destination_address = Some(v);
        b
    }
    /// Replace the wrapped TPDU.
    pub fn sms_deliver(self, v: SmsDeliver) -> (r: Self)
        ensures
            r@ == (RpDataMtModel { sms_deliver: v@, ..self@ }),
    {
        let mut b = self;
        b.rp.sms_deliver = v;
        b
    }
    /// Finish and return the RP-DATA.
    pub fn build(self) -> (r: RpDataNetworkToMs)
        ensures
            r@ == self@,
    {
        self.rp
    }
}
/// Builder for [`RpAck`]; see [`RpAck::builder`].
#[derive(Debug, Clone)]
pub struct RpAckBuilder {
    ack: RpAck,
}

impl View for RpAckBuilder {
    type V = RpAckModel;

    closed spec fn view(&self) -> RpAckModel {
        self.ack@
    }
}

impl RpAck {
    /// Start building an RP-ACK around an SMS-SUBMIT-REPORT: RP-Message-Type
    /// 3 (RP-ACK network to MS), RP-User-Data IEI 0x41, RP-MR and element
    /// length 0.
    pub fn builder(sms_submit_report: SmsSubmitReport) -> (b: RpAckBuilder)
        ensures
            b@ == (RpAckModel {
                rp_message_type: 3,
                rp_message_reference: 0,
                rp_user_data_element_id: 0x41,
                rp_user_data_element_length: 0,
                sms_submit_report: sms_submit_report@,
            }),
    {
        RpAckBuilder {
            ack: RpAck {
                rp_message_type: 3,
                rp_message_reference: 0,
                rp_user_data_element_id: 0x41,
                rp_user_data_element_length: 0,
                sms_submit_report,
            },
        }
    }
}

impl RpAckBuilder {
    /// RP-Message-Type (by default 3, RP-ACK network to MS).
    pub fn message_type(self, v: u8) -> (r: Self)
        ensures
            r@ == (RpAckModel { rp_message_type: v, ..self@ }),
    {
        let mut b = self;
        b.ack.rp_message_type = v;
        b
    }
    /// RP-Message-Reference, echoing the RP-DATA acknowledged.
    pub fn message_reference(self, v: u8) -> (r: Self)
        ensures
            r@ == (RpAckModel { rp_message_reference: v, ..self@ }),
    {
        let mut b = self;
        b.ack.rp_message_reference = v;
        b
    }
    /// RP-User-Data element IEI (by default 0x41).
    pub fn user_data_element_id(self, v: u8) -> (r: Self)
        ensures
            r@ == (RpAckModel { rp_user_data_element_id: v, ..self@ }),
    {
        let mut b = self;
        b.ack.rp_user_data_element_id = v;
        b
    }
    /// RP-User-Data element length.
    pub fn user_data_element_length(self, v: u8) -> (r: Self)
        ensures
            r@ == (RpAckModel { rp_user_data_element_length: v, ..self@ }),
    {
        let mut b = self;
        b.ack.rp_user_data_element_length = v;
        b
    }
    /// Replace the wrapped SMS-SUBMIT-REPORT.
    pub fn sms_submit_report(self, v: SmsSubmitReport) -> (r: Self)
        ensures
            r@ == (RpAckModel { sms_submit_report: v@, ..self@ }),
    {
        let mut b = self;
        b.ack.sms_submit_report = v;
        b
    }
    /// Finish and return the RP-ACK.
    pub fn build(self) -> (r: RpAck)
        ensures
            r@ == self@,
    {
        self.ack
    }
}

} // verus!
