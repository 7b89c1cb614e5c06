//! SMS transfer-layer and relay-layer PDU codec (3GPP TS 23.040, TS 23.038,
//! TS 24.011): RP-DATA in both directions, RP-ACK, SMS-SUBMIT, SMS-DELIVER
//! and SMS-SUBMIT-REPORT; GSM 7-bit septet packing, UCS-2 user data, the
//! User-Data-Header, and BCD and GSM 7-bit alphanumeric addresses.
//!
//! Bytes in, bytes out. Every function carries a contract over the models
//! (`AddressModel`, `SubmitModel`, ...) that the types view as, and Verus
//! proves each one; the calls into the `gsm7` and `hex` crates, and a few
//! `String` operations of std, go through the trusted items of `trusted`.
//! `laws` states what the decoders read back of what the encoders wrote.

pub mod address;
pub mod bcd;
pub mod builder;
pub mod cursor;
pub mod deliver;
pub mod error;
pub mod gateway;
pub mod gsm7;
pub mod laws;
pub mod wire_laws;
pub mod rp;
pub mod septets;
pub mod submit;
pub mod trusted;
pub mod ucs2;

pub use address::{decode_sms_address, SMSAddress};
pub use builder::{
    RpAckBuilder, RpDataMsToNetworkBuilder, RpDataNetworkToMsBuilder, SMSAddressBuilder,
    SmsDeliverBuilder, SmsSubmitBuilder, SmsSubmitReportBuilder, UserDataHeaderBuilder,
};
pub use cursor::Cursor;
pub use deliver::{SmsDeliver, SmsSubmitReport};
pub use error::Error;
pub use gateway::{build_sms_deliver_tpdu, destination_from_tpdu, scts_digits, user_data_length_or_len};
pub use gsm7::{chars_to_string, pack_gsm7, septet_chars_to_octets, unpack_chars, unpack_gsm7};
pub use rp::{parse_rp_data, RpAck, RpDataMsToNetwork, RpDataNetworkToMs};
pub use submit::{decode_sms_submit_tpdu, SmsSubmit, UserDataHeader};
pub use ucs2::ucs2_bytes;
