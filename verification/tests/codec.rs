//! The codec's unit scenarios: GSM 7-bit packing, SMS-SUBMIT decoding inside
//! RP-DATA, MT encoding, RP-ACK, and addresses. Synthetic data only:
//! fictional 555-01xx numbers and neutral text.

use tpdu::{
    decode_sms_address, pack_gsm7, parse_rp_data, unpack_gsm7, Cursor, Error, RpAck,
    RpDataNetworkToMs, SMSAddress, SmsDeliver, SmsSubmitReport, UserDataHeader,
};

/// Assemble an SMS-SUBMIT TPDU from parts (TS 23.040 §9.2.2.2).
#[allow(clippy::too_many_arguments)]
fn submit_tpdu(
    first_byte: u8,
    mr: u8,
    dest: &SMSAddress,
    pid: u8,
    dcs: u8,
    vp: Option<u8>,
    udl: u8,
    ud: &[u8],
) -> Vec<u8> {
    let mut t = vec![first_byte, mr];
    t.extend(dest.encode(false).unwrap());
    t.push(pid);
    t.push(dcs);
    if let Some(v) = vp {
        t.push(v);
    }
    t.push(udl);
    t.extend_from_slice(ud);
    t
}

/// Wrap an MO TPDU in RP-DATA MS to network (TS 24.011 §7.3.1.1).
fn rp_data_mo(rp_ref: u8, rp_da: Option<&SMSAddress>, tpdu: &[u8]) -> Vec<u8> {
    let mut d = vec![0x00, rp_ref, 0x00];
    match rp_da {
        Some(a) => d.extend(a.encode(true).unwrap()),
        None => d.push(0x00),
    }
    d.push(tpdu.len() as u8);
    d.extend_from_slice(tpdu);
    d
}

fn ucs2(s: &str) -> Vec<u8> {
    s.encode_utf16().flat_map(|u| u.to_be_bytes()).collect()
}

#[test]
fn error_is_std_error_and_displays() {
    let e: Error = "boom".into();
    assert_eq!(e.message(), "boom");
    assert_eq!(e.to_string(), "boom");
}

#[test]
fn gsm7_pack_septets_and_roundtrip() {
    let (bytes, septets) = pack_gsm7("hi").unwrap();
    assert_eq!(septets, 2);
    assert_eq!(unpack_gsm7(&bytes, septets).unwrap(), "hi");
}

#[test]
fn lib_gsm7_roundtrip_varied() {
    for input in [
        "",
        "a",
        "tpdu rocks",
        "Symbols @ {} [] | ~ ^ €",
        "voorbeeld",
    ] {
        let (b, s) = pack_gsm7(input).unwrap();
        assert_eq!(unpack_gsm7(&b, s).unwrap(), input, "roundtrip {input:?}");
    }
}

#[test]
fn gsm7_extension_chars_are_two_septets() {
    let (_, s) = pack_gsm7("€[]").unwrap();
    assert_eq!(s, 6);
}

#[test]
fn decode_submit_7bit_no_vp() {
    let dest = SMSAddress {
        ton: 1,
        npi: 1,
        address: "15550100".into(),
    };
    let (ud, septets) = pack_gsm7("ping").unwrap();
    let tpdu = submit_tpdu(0x01, 7, &dest, 0, 0, None, septets as u8, &ud);
    let rp = rp_data_mo(1, None, &tpdu);

    let p = parse_rp_data(&rp).unwrap();
    assert_eq!(p.rp_message_type, 0);
    assert_eq!(p.rp_message_reference, 1);
    assert_eq!(p.rp_originator_address, None);
    assert_eq!(p.rp_destination_address, None);
    assert_eq!(p.sms_submit.tp_mti, 1);
    assert!(!p.sms_submit.tp_udhi);
    assert!(!p.sms_submit.tp_rp);
    assert!(!p.sms_submit.tp_srr);
    assert_eq!(p.sms_submit.tp_mr, 7);
    assert_eq!(p.sms_submit.tp_vpf, 0);
    assert_eq!(p.sms_submit.tp_validity_period, None);
    assert_eq!(p.sms_submit.tp_destination_address, Some(dest));
    assert_eq!(p.sms_submit.tp_user_data, b"ping");
}

#[test]
fn decode_submit_with_validity_and_sc_address() {
    let dest = SMSAddress {
        ton: 1,
        npi: 1,
        address: "155501234".into(),
    };
    let sc = SMSAddress {
        ton: 1,
        npi: 1,
        address: "15550000".into(),
    };
    let (ud, septets) = pack_gsm7("hello from tpdu").unwrap();
    let tpdu = submit_tpdu(0x11, 0x2a, &dest, 0, 0, Some(0xff), septets as u8, &ud);
    let rp = rp_data_mo(2, Some(&sc), &tpdu);

    let p = parse_rp_data(&rp).unwrap();
    assert_eq!(p.rp_destination_address, Some(sc));
    assert_eq!(p.sms_submit.tp_vpf, 1);
    assert_eq!(p.sms_submit.tp_validity_period, Some(0xff));
    assert_eq!(p.sms_submit.tp_destination_address, Some(dest));
    assert_eq!(p.sms_submit.tp_user_data, b"hello from tpdu");
}

#[test]
fn decode_submit_ucs2() {
    let dest = SMSAddress {
        ton: 1,
        npi: 1,
        address: "15550102".into(),
    };
    let ud = ucs2("Hé€");
    let tpdu = submit_tpdu(0x01, 1, &dest, 0, 0x08, None, ud.len() as u8, &ud);
    let rp = rp_data_mo(3, None, &tpdu);

    let p = parse_rp_data(&rp).unwrap();
    assert_eq!(p.sms_submit.tp_dcs, 0x08);
    assert_eq!(p.sms_submit.tp_user_data, ud);
}

#[test]
fn decode_submit_with_udh() {
    let dest = SMSAddress {
        ton: 1,
        npi: 1,
        address: "15550103".into(),
    };
    let udh = [0x05u8, 0x00, 0x03, 0x42, 0x02, 0x01];
    let mut ud = udh.to_vec();
    ud.extend_from_slice(&ucs2("part1"));
    let tpdu = submit_tpdu(0x51, 9, &dest, 0, 0x08, Some(0xff), ud.len() as u8, &ud);
    let rp = rp_data_mo(4, None, &tpdu);

    let p = parse_rp_data(&rp).unwrap();
    assert!(p.sms_submit.tp_udhi);
    assert_eq!(
        p.sms_submit.tp_user_data_header,
        Some(UserDataHeader {
            user_data_header_length: 5,
            user_data_header_value: vec![0x00, 0x03, 0x42, 0x02, 0x01],
        })
    );
}

#[test]
fn decode_truncated_user_data_errors() {
    let dest = SMSAddress {
        ton: 1,
        npi: 1,
        address: "15550100".into(),
    };
    let tpdu = submit_tpdu(0x01, 1, &dest, 0, 0, None, 10, &[]);
    let rp = rp_data_mo(1, None, &tpdu);
    assert!(parse_rp_data(&rp).is_err());
}

#[test]
fn decode_short_input_errors_not_panics() {
    assert!(parse_rp_data(&[]).is_err());
    assert!(parse_rp_data(&[0x00]).is_err());
}

#[test]
fn encode_mt_deliver_roundtrips_oa() {
    let oa = SMSAddress {
        ton: 1,
        npi: 1,
        address: "15550199".into(),
    };
    let (ud, septets) = pack_gsm7("delivered").unwrap();
    let deliver = SmsDeliver {
        tp_rp: false,
        tp_udhi: false,
        tp_sri: false,
        tp_lp: false,
        tp_mms: true,
        tp_mti: 0,
        tp_originating_address: oa.clone(),
        tp_pid: 0,
        tp_dcs: 0,
        tp_service_centre_timestamp: "25010112000000".into(),
        tp_user_data_length: septets as u8,
        tp_user_data: ud.clone(),
    };
    let mt = RpDataNetworkToMs {
        rp_message_type: 0x01,
        rp_message_reference: 0,
        rp_originator_address: Some(oa),
        rp_destination_address: None,
        sms_deliver: deliver,
    };
    let encoded = mt.encode().unwrap();
    assert_eq!(encoded[0], 0x01);
    assert!(encoded.ends_with(&ud));
    assert_eq!(encoded, mt.encode().unwrap());
}

#[test]
fn encode_rp_ack() {
    let report = SmsSubmitReport {
        tp_udhi: 0,
        tp_parameter_indicator: 0,
        tp_service_centre_timestamp: "25010112000000".into(),
    };
    let ack = RpAck {
        rp_message_type: 0x03,
        rp_message_reference: 7,
        rp_user_data_element_id: 0x41,
        rp_user_data_element_length: 0x09,
        sms_submit_report: report,
    };
    let e = ack.encode().unwrap();
    assert_eq!(e[0], 0x03);
    assert_eq!(e[1], 7);
    assert_eq!(e[2], 0x41);
}

#[test]
fn alphanumeric_address_encodes() {
    let a = SMSAddress {
        ton: 5,
        npi: 0,
        address: "TPDU".into(),
    };
    let enc = a.encode(true).unwrap();
    assert!(!enc.is_empty());
    assert_eq!(enc[1], 0x80 | (5 << 4));
    assert_eq!(enc, a.encode(true).unwrap());
}

#[test]
fn address_bcd_roundtrips_via_decoder() {
    for addr in ["15550100", "155501234"] {
        let a = SMSAddress {
            ton: 1,
            npi: 1,
            address: addr.into(),
        };
        let enc = a.encode(false).unwrap();
        let mut cur = Cursor::new(enc.as_slice());
        let dec = decode_sms_address(&mut cur, false).unwrap().unwrap();
        assert_eq!(dec, a);
    }
}
