use tpdu::{
    decode_sms_submit_tpdu, pack_gsm7, septet_chars_to_octets, unpack_chars,
    user_data_length_or_len, Cursor, RpDataNetworkToMs, SMSAddress, SmsDeliver,
};

fn addr(digits: &str) -> SMSAddress {
    SMSAddress { ton: 1, npi: 1, address: digits.into() }
}

fn deliver(oa: SMSAddress) -> SmsDeliver {
    SmsDeliver {
        tp_rp: false,
        tp_udhi: false,
        tp_sri: false,
        tp_lp: false,
        tp_mms: true,
        tp_mti: 0,
        tp_originating_address: oa,
        tp_pid: 0,
        tp_dcs: 4,
        tp_service_centre_timestamp: "25010112000000".into(),
        tp_user_data_length: 1,
        tp_user_data: vec![0x61],
    }
}

#[test]
fn rp_data_mt_reports_the_first_failing_part() {
    let mt = RpDataNetworkToMs {
        rp_message_type: 1,
        rp_message_reference: 0,
        rp_originator_address: Some(addr("12G4")),
        rp_destination_address: Some(addr("12H4")),
        sms_deliver: deliver(addr("15550199")),
    };
    assert_eq!(
        mt.encode().unwrap_err().message(),
        "Failed to decode BCD address as hex: Invalid character 'G' at position 3"
    );
    let mt = RpDataNetworkToMs { rp_originator_address: None, ..mt };
    assert_eq!(
        mt.encode().unwrap_err().message(),
        "Failed to decode BCD address as hex: Invalid character 'H' at position 3"
    );
}

#[test]
fn a_two_byte_char_pair_is_kept_whole_for_hex() {
    let e = deliver(addr("\u{e9}")).encode().unwrap_err();
    assert_eq!(e.message(), "Failed to decode BCD address as hex: Invalid character '\u{c3}' at position 0");
}

#[test]
fn a_bad_time_stamp_reports_hex_error() {
    let mut d = deliver(addr("15550199"));
    d.tp_service_centre_timestamp = "2501011200000x".into();
    assert_eq!(
        d.encode().unwrap_err().message(),
        "Failed to decode BCD address: Invalid character 'x' at position 12"
    );
}

#[test]
fn deferred_gsm7_error_is_the_packing_error() {
    let packed = pack_gsm7("\u{1f600}").unwrap_err();
    let built = SmsDeliver::builder(addr("15550100")).gsm7_text("\u{1f600}").build().unwrap_err();
    assert_eq!(built, packed);
}

#[test]
fn conversion_error_comes_before_a_later_reader_error() {
    // Septets 0x10 (Greek capital delta), then an escape followed by 0x00,
    // which the reader refuses.
    let mut t = vec![0x01, 0x00];
    t.extend(addr("15550100").encode(false).unwrap());
    t.extend_from_slice(&[0x00, 0x00, 0x03, 0x90, 0x0d, 0x00]);
    let e = decode_sms_submit_tpdu(&mut Cursor::new(t.as_slice())).unwrap_err();
    assert_eq!(
        e.message(),
        "Unable to decode 7-bit TP-User-Data: Failed to convert GSM byte to u8: unicode code point out of range"
    );
}

#[test]
fn unpack_chars_drops_only_padding() {
    assert_eq!(unpack_chars(vec!['a', 'b', '@'], 3, 2), "ab");
    assert_eq!(unpack_chars(vec!['a', 'b', '@'], 3, 3), "ab@");
}

#[test]
fn septet_chars_become_octets() {
    assert_eq!(septet_chars_to_octets(vec!['h', 'i', '@'], 2).unwrap(), b"hi");
    assert_eq!(septet_chars_to_octets(vec!['h', 'i', '@'], 3).unwrap(), b"hi@");
    assert!(septet_chars_to_octets(vec!['\u{394}'], 1).is_err());
}

#[test]
fn user_data_length_defaults_to_octets() {
    assert_eq!(user_data_length_or_len(&[1, 2, 3], None), 3);
    assert_eq!(user_data_length_or_len(&[1, 2, 3], Some(7)), 7);
}

#[test]
fn ucs2_text_replaces_unpaired_surrogates() {
    let mut t = vec![0x01, 0x00];
    t.extend(addr("15550100").encode(false).unwrap());
    t.extend_from_slice(&[0x00, 0x08, 0x08, 0xd8, 0x3d, 0xde, 0x00, 0xd8, 0x00, 0x00, 0x61]);
    let s = decode_sms_submit_tpdu(&mut Cursor::new(t.as_slice())).unwrap();
    assert_eq!(s.text().unwrap(), "\u{1f600}\u{fffd}a");
}

#[test]
fn decoder_errors_name_the_first_failing_read() {
    let mut c = Cursor::new(&[0x08, 0x91, 0x51]);
    assert_eq!(
        tpdu::decode_sms_address(&mut c, false).unwrap_err().message(),
        "Unable to read address byte failed to fill whole buffer"
    );
    let mut c = Cursor::new(&[0x01]);
    assert_eq!(
        decode_sms_submit_tpdu(&mut c).unwrap_err().message(),
        "Unable to read TP-MR failed to fill whole buffer"
    );
    assert_eq!(
        tpdu::parse_rp_data(&[]).unwrap_err().message(),
        "Could not read RP-Message-Type failed to fill whole buffer"
    );
    assert_eq!(
        tpdu::parse_rp_data(&[0x00, 0x01, 0x00, 0x00]).unwrap_err().message(),
        "Could not read TPDU Length: failed to fill whole buffer"
    );
    assert_eq!(
        tpdu::parse_rp_data(&[0x00, 0x01, 0x00, 0x00, 0x02, 0x01]).unwrap_err().message(),
        "Could not decode TPDU: Unable to read TP-MR failed to fill whole buffer"
    );
    assert!(tpdu::unpack_gsm7(&[0x1b], 1).unwrap_err().message().starts_with("gsm7 decode: "));
}
