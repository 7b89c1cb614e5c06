//! The codec's laws on concrete values, its edge cases, one exact value per
//! formula, and an input for each way it fails.

use tpdu::{
    build_sms_deliver_tpdu, decode_sms_address, decode_sms_submit_tpdu, destination_from_tpdu,
    pack_gsm7, parse_rp_data, scts_digits,
    ucs2_bytes, unpack_gsm7, Cursor, RpAck, RpDataNetworkToMs, SMSAddress, SmsDeliver,
    SmsSubmit, SmsSubmitReport, UserDataHeader,
};

fn addr(ton: u8, npi: u8, digits: &str) -> SMSAddress {
    SMSAddress {
        ton,
        npi,
        address: digits.into(),
    }
}

fn deliver(oa: SMSAddress, scts: &str, ud: Vec<u8>, udl: u8) -> SmsDeliver {
    SmsDeliver {
        tp_rp: false,
        tp_udhi: false,
        tp_sri: false,
        tp_lp: false,
        tp_mms: true,
        tp_mti: 0,
        tp_originating_address: oa,
        tp_pid: 0,
        tp_dcs: 0,
        tp_service_centre_timestamp: scts.into(),
        tp_user_data_length: udl,
        tp_user_data: ud,
    }
}

/// An SMS-SUBMIT with TP-UDHI set (and so a TP-VP) whose GSM 7-bit user data
/// is two octets holding a UDHL of 1: two chars decode, fewer than UDHL + 2.
fn short_udh_tpdu() -> Vec<u8> {
    let mut t = vec![0x41, 0x05];
    t.extend(addr(1, 1, "15550100").encode(false).unwrap());
    t.extend_from_slice(&[0x00, 0x00, 0xa7, 0x02, 0x01, 0x00]);
    t
}

#[test]
fn bcd_address_encodes_to_swapped_semi_octets() {
    let enc = addr(1, 1, "15550100").encode(false).unwrap();
    assert_eq!(enc, vec![0x08, 0x91, 0x51, 0x55, 0x10, 0x00]);
    let odd = addr(1, 1, "155").encode(true).unwrap();
    assert_eq!(odd, vec![0x03, 0x91, 0x51, 0xf5]);
}

#[test]
fn address_with_a_non_hex_digit_fails() {
    assert!(addr(1, 1, "12G4").encode(false).is_err());
}

#[test]
fn address_roundtrip_at_rp_layer() {
    for digits in ["15550000", "155501234", ""] {
        let a = addr(2, 9, digits);
        let mut enc = a.encode(true).unwrap();
        enc.push(0xaa);
        let mut cur = Cursor::new(enc.as_slice());
        let dec = decode_sms_address(&mut cur, true).unwrap().unwrap();
        assert_eq!(dec, a);
        assert_eq!(cur.position(), enc.len() - 1);
    }
}

#[test]
fn zero_length_address_is_absent() {
    let mut cur = Cursor::new(&[0x00, 0x07]);
    assert_eq!(decode_sms_address(&mut cur, false).unwrap(), None);
    assert_eq!(cur.position(), 1);
}

#[test]
fn truncated_address_fails() {
    let mut cur = Cursor::new(&[0x08, 0x91, 0x51]);
    assert!(decode_sms_address(&mut cur, false).is_err());
}

#[test]
fn alphanumeric_address_is_gsm7() {
    let enc = addr(5, 0, "TPDU").encode(false).unwrap();
    let (packed, _) = pack_gsm7("TPDU").unwrap();
    assert_eq!(enc[0], (packed.len() as u8) * 2);
    assert_eq!(&enc[2..], packed.as_slice());
}

#[test]
fn alphanumeric_address_round_trips() {
    for label in ["TPDU", "Bank", "OPERATOR", "abcdefg", "x"] {
        let a = addr(5, 0, label);
        let mut enc = a.encode(false).unwrap();
        let used = enc.len();
        enc.extend_from_slice(&[0x00, 0x11]);
        let mut cur = Cursor::new(enc.as_slice());
        assert_eq!(decode_sms_address(&mut cur, false).unwrap(), Some(a));
        assert_eq!(cur.position(), used);
    }
}

#[test]
fn alphanumeric_address_that_does_not_decode_is_an_error() {
    // TON 5 with one octet holding an escape septet and nothing after it.
    let mut cur = Cursor::new(&[0x02, 0xd0, 0x1b]);
    assert!(decode_sms_address(&mut cur, false).is_err());
}

#[test]
fn submit_report_encodes_exactly() {
    let report = SmsSubmitReport {
        tp_udhi: 1,
        tp_parameter_indicator: 0,
        tp_service_centre_timestamp: "25010112000000".into(),
    };
    assert_eq!(
        report.encode().unwrap(),
        vec![0x41, 0x00, 0x52, 0x10, 0x10, 0x21, 0x00, 0x00, 0x00]
    );
}

#[test]
fn non_hex_timestamp_fails() {
    let report = SmsSubmitReport {
        tp_udhi: 0,
        tp_parameter_indicator: 0,
        tp_service_centre_timestamp: "2501011200000Z".into(),
    };
    assert!(report.encode().is_err());
}

#[test]
fn odd_timestamp_cannot_be_encoded() {
    let d = deliver(addr(1, 1, "15550199"), "250101120000000", vec![], 0);
    assert!(d.try_encode().is_none());
    let mt = RpDataNetworkToMs {
        rp_message_type: 1,
        rp_message_reference: 0,
        rp_originator_address: None,
        rp_destination_address: None,
        sms_deliver: d,
    };
    assert!(mt.try_encode().is_none());
}

#[test]
fn deliver_encodes_exactly() {
    let d = deliver(addr(1, 1, "15550199"), "25010112000000", vec![0xe8, 0x32], 2);
    assert_eq!(
        d.encode().unwrap(),
        vec![
            0x04, 0x08, 0x91, 0x51, 0x55, 0x10, 0x99, 0x00, 0x00, 0x52, 0x10, 0x10, 0x21, 0x00,
            0x00, 0x00, 0x02, 0xe8, 0x32
        ]
    );
    assert_eq!(d.try_encode().unwrap().unwrap(), d.encode().unwrap());
}

#[test]
fn rp_data_mt_frames_the_deliver() {
    let d = deliver(addr(1, 1, "15550199"), "25010112000000", vec![0xe8, 0x32], 2);
    let tpdu = d.encode().unwrap();
    let mt = RpDataNetworkToMs {
        rp_message_type: 1,
        rp_message_reference: 9,
        rp_originator_address: Some(addr(1, 1, "15550000")),
        rp_destination_address: None,
        sms_deliver: d,
    };
    let wire = mt.encode().unwrap();
    let oa = addr(1, 1, "15550000").encode(true).unwrap();
    let mut expected = vec![1, 9];
    expected.extend(oa);
    expected.push(0);
    expected.push(tpdu.len() as u8);
    expected.extend(tpdu);
    assert_eq!(wire, expected);
}

#[test]
fn rp_ack_for_a_report_computes_its_element_length() {
    let report = SmsSubmitReport::builder()
        .service_centre_timestamp("25010112000000")
        .build();
    let ack = RpAck::network_to_ms(report, 42).unwrap();
    assert_eq!(ack.rp_message_type, 3);
    assert_eq!(ack.rp_message_reference, 42);
    assert_eq!(ack.rp_user_data_element_id, 0x41);
    assert_eq!(ack.rp_user_data_element_length, 9);
    assert_eq!(ack.encode().unwrap()[..4], [3, 42, 0x41, 9]);
}

#[test]
fn user_data_header_encodes() {
    let h = UserDataHeader {
        user_data_header_length: 5,
        user_data_header_value: vec![0x00, 0x03, 0x42, 0x02, 0x01],
    };
    assert_eq!(h.encode(), vec![0x05, 0x00, 0x03, 0x42, 0x02, 0x01]);
    let mut cur = Cursor::new(&[0x02, 0xaa, 0xbb, 0xcc]);
    assert_eq!(
        UserDataHeader::decode(&mut cur).unwrap(),
        UserDataHeader {
            user_data_header_length: 2,
            user_data_header_value: vec![0xaa, 0xbb],
        }
    );
    let mut short = Cursor::new(&[0x03, 0xaa]);
    assert!(UserDataHeader::decode(&mut short).is_err());
}

#[test]
fn user_data_header_round_trips() {
    let h = UserDataHeader {
        user_data_header_length: 3,
        user_data_header_value: vec![0x00, 0x01, 0x7f],
    };
    let mut wire = h.encode();
    wire.extend_from_slice(&[0xee, 0xff]);
    let mut cur = Cursor::new(wire.as_slice());
    assert_eq!(UserDataHeader::decode(&mut cur).unwrap(), h);
    assert_eq!(cur.position(), 4);
}

#[test]
fn gsm7_genuine_trailing_at_is_kept() {
    for text in ["abc@", "1234567@", "@"] {
        let (b, s) = pack_gsm7(text).unwrap();
        assert_eq!(unpack_gsm7(&b, s).unwrap(), text);
    }
}

#[test]
fn gsm7_padding_septet_is_dropped() {
    // 7 septets leave a whole zero septet in the last octet.
    let (b, s) = pack_gsm7("1234567").unwrap();
    assert_eq!(s, 7);
    assert_eq!(unpack_gsm7(&b, 8).unwrap(), "1234567@");
    assert_eq!(unpack_gsm7(&b, 7).unwrap(), "1234567");
}

#[test]
fn gsm7_invalid_escape_fails() {
    assert!(unpack_gsm7(&[0x1b, 0x00], 2).is_err());
}

#[test]
fn gsm7_refuses_chars_outside_the_alphabet() {
    assert!(pack_gsm7("😀").is_err());
    assert!(pack_gsm7("a\u{4e2d}").is_err());
}

#[test]
fn submit_user_data_after_a_gsm7_header_skips_udhl_plus_two_chars() {
    let (ud, septets) = pack_gsm7("@@hello").unwrap();
    assert_eq!(ud[0], 0x00);
    let mut t = vec![0x41, 0x02];
    t.extend(addr(1, 1, "15550100").encode(false).unwrap());
    t.extend_from_slice(&[0x00, 0x00, 0xa7, septets as u8]);
    t.extend(ud);
    let mut cur = Cursor::new(t.as_slice());
    let s = decode_sms_submit_tpdu(&mut cur).unwrap();
    assert!(s.tp_udhi);
    assert_eq!(s.tp_validity_period, Some(0xa7));
    assert_eq!(
        s.tp_user_data_header,
        Some(UserDataHeader {
            user_data_header_length: 0,
            user_data_header_value: vec![],
        })
    );
    assert_eq!(s.tp_user_data, b"hello");
    assert_eq!(cur.position(), t.len());
}

#[test]
fn short_udh_user_data_is_an_error() {
    let t = short_udh_tpdu();
    let mut cur = Cursor::new(t.as_slice());
    let e = decode_sms_submit_tpdu(&mut cur).unwrap_err();
    assert_eq!(e.message(), "TP-User-Data shorter than its header");
    let mut rp = vec![0x00, 0x01, 0x00, 0x00, t.len() as u8];
    rp.extend_from_slice(&t);
    let e = parse_rp_data(&rp).unwrap_err();
    assert_eq!(e.message(), "Could not decode TPDU: TP-User-Data shorter than its header");
}

#[test]
fn every_strict_prefix_of_a_submit_is_an_error() {
    let mut t = vec![0x01, 0x03];
    t.extend(addr(1, 1, "15550100").encode(false).unwrap());
    let (ud, septets) = pack_gsm7("ok").unwrap();
    t.extend_from_slice(&[0x00, 0x00, septets as u8]);
    t.extend(ud);
    let mut c = Cursor::new(t.as_slice());
    assert_eq!(decode_sms_submit_tpdu(&mut c).unwrap().tp_user_data, b"ok");
    assert_eq!(c.position(), t.len());
    for j in 0..t.len() {
        assert!(decode_sms_submit_tpdu(&mut Cursor::new(&t[..j])).is_err());
    }
}

#[test]
fn submit_reject_duplicates_is_bit_2() {
    let mut t = vec![0x45, 0x00];
    t.extend(addr(1, 1, "15550100").encode(false).unwrap());
    t.extend_from_slice(&[0x00, 0x04, 0xa7, 0x01, 0x00, 0x61]);
    let s = decode_sms_submit_tpdu(&mut Cursor::new(t.as_slice())).unwrap();
    assert!(s.tp_rd);
    assert!(s.tp_udhi);
    let mut u = vec![0x01, 0x00];
    u.extend(addr(1, 1, "15550100").encode(false).unwrap());
    u.extend_from_slice(&[0x00, 0x04, 0x01, 0x61]);
    assert!(!decode_sms_submit_tpdu(&mut Cursor::new(u.as_slice())).unwrap().tp_rd);
}

#[test]
fn submit_flags_are_read_as_the_decoder_reads_them() {
    let mut t = vec![0xa5, 0x00];
    t.extend(addr(1, 1, "15550100").encode(false).unwrap());
    t.extend_from_slice(&[0x00, 0x04, 0xff, 0x01, 0x61]);
    let s = decode_sms_submit_tpdu(&mut Cursor::new(t.as_slice())).unwrap();
    assert!(s.tp_rp);
    assert!(!s.tp_udhi);
    assert!(s.tp_srr);
    assert_eq!(s.tp_mti, 1);
    assert_eq!(s.tp_vpf, 0x0a);
    assert!(s.tp_rd);
    assert_eq!(s.tp_validity_period, Some(0xff));
    assert_eq!(s.tp_user_data, vec![0x61]);
}

#[test]
fn gsm7_user_data_above_u00ff_fails() {
    let (ud, septets) = pack_gsm7("Δ").unwrap();
    let mut t = vec![0x01, 0x00];
    t.extend(addr(1, 1, "15550100").encode(false).unwrap());
    t.extend_from_slice(&[0x00, 0x00, septets as u8]);
    t.extend(ud);
    assert!(decode_sms_submit_tpdu(&mut Cursor::new(t.as_slice())).is_err());
}

#[test]
fn submit_text_by_coding() {
    let mut s: SmsSubmit = SmsSubmit::builder().user_data(b"ping".to_vec()).build().unwrap();
    assert_eq!(s.text().as_deref(), Some("ping"));
    s.tp_dcs = 8;
    s.tp_user_data = ucs2_bytes("Hé€");
    assert_eq!(s.text().as_deref(), Some("Hé€"));
    s.tp_user_data.push(0);
    assert_eq!(s.text(), None);
    s.tp_dcs = 4;
    assert_eq!(s.text(), None);
}

#[test]
fn ucs2_bytes_are_utf16_big_endian() {
    assert_eq!(ucs2_bytes("Hé€"), vec![0x00, 0x48, 0x00, 0xe9, 0x20, 0xac]);
    assert_eq!(ucs2_bytes("😀"), vec![0xd8, 0x3d, 0xde, 0x00]);
}

#[test]
fn e164_form() {
    assert_eq!(addr(1, 1, "15550100").to_e164(), "+15550100");
    assert_eq!(addr(0, 1, "15550100").to_e164(), "15550100");
}

#[test]
fn scts_digit_string() {
    assert_eq!(scts_digits(2025, 1, 1, 12, 0, 0), "25010112000000");
    assert_eq!(scts_digits(2009, 12, 31, 23, 59, 59), "09123123595900");
    assert_eq!(scts_digits(-7, 1, 2, 3, 4, 5), "-7010203040500");
}

#[test]
fn deliver_tpdu_from_deliver_sm_fields() {
    let wire = build_sms_deliver_tpdu(
        "15550199".into(),
        1,
        1,
        vec![0xe8, 0x32],
        0,
        0,
        false,
        "25010112000000".into(),
        Some(2),
    )
    .unwrap();
    let d = deliver(addr(1, 1, "15550199"), "25010112000000", vec![0xe8, 0x32], 2);
    assert_eq!(wire, d.encode().unwrap());
    let defaulted = build_sms_deliver_tpdu(
        "15550199".into(),
        1,
        1,
        vec![1, 2, 3],
        0,
        4,
        false,
        "25010112000000".into(),
        None,
    )
    .unwrap();
    assert_eq!(defaulted[defaulted.len() - 4], 3);
    assert!(build_sms_deliver_tpdu(
        "15550199".into(),
        1,
        1,
        vec![],
        0,
        0,
        false,
        "123".into(),
        None
    )
    .is_err());
}

#[test]
fn destination_of_a_tpdu() {
    let mut t = vec![0x01, 0x00];
    t.extend(addr(1, 1, "15550101").encode(false).unwrap());
    t.extend_from_slice(&[0x00, 0x04, 0x00]);
    assert_eq!(destination_from_tpdu(&t).unwrap(), "15550101");
    assert!(destination_from_tpdu(&[0x01, 0x00, 0x00, 0x00, 0x04, 0x00]).is_err());
    assert!(destination_from_tpdu(&short_udh_tpdu()).is_err());
    assert!(destination_from_tpdu(&[]).is_err());
}

#[test]
fn parse_rp_data_reads_both_rp_addresses() {
    let oa = addr(1, 1, "15550001");
    let da = addr(1, 1, "15550002");
    let mut t = vec![0x01, 0x00];
    t.extend(addr(1, 1, "15550100").encode(false).unwrap());
    t.extend_from_slice(&[0x00, 0x04, 0x02, 0xab, 0xcd]);
    let mut rp = vec![0x00, 0x11];
    rp.extend(oa.encode(true).unwrap());
    rp.extend(da.encode(true).unwrap());
    rp.push(t.len() as u8);
    rp.extend(t);
    let p = parse_rp_data(&rp).unwrap();
    assert_eq!(p.rp_originator_address, Some(oa));
    assert_eq!(p.rp_destination_address, Some(da));
    assert_eq!(p.sms_submit.tp_user_data, vec![0xab, 0xcd]);
    assert_eq!(p.sms_submit.tp_user_data_raw, vec![0xab, 0xcd]);
}

#[test]
fn ucs2_text_reads_back_through_text() {
    for t in ["h\u{e9}llo \u{1f600}", "", "\u{4e2d}\u{6587}"] {
        let s = SmsSubmit::builder().dcs(8).ucs2_text(t).build().unwrap();
        assert_eq!(s.text().unwrap(), t);
    }
}
