//! The fluent builders against the public-field structs they build.

use tpdu::{
    pack_gsm7, parse_rp_data, RpAck, RpDataMsToNetwork, SMSAddress, SmsDeliver, SmsSubmit,
    SmsSubmitReport, UserDataHeader,
};

#[test]
fn sms_address_builder_matches_literal() {
    let built = SMSAddress::builder().ton(1).npi(1).address("15550100").build();
    assert_eq!(
        built,
        SMSAddress {
            ton: 1,
            npi: 1,
            address: "15550100".into(),
        }
    );
}

#[test]
fn udh_builder_derives_length() {
    let built = UserDataHeader::builder()
        .value(vec![0x00, 0x03, 0x42, 0x02, 0x01])
        .build();
    assert_eq!(built.user_data_header_length, 5);
    assert_eq!(built.user_data_header_value, vec![0x00, 0x03, 0x42, 0x02, 0x01]);

    let overridden = UserDataHeader::builder().value(vec![0xaa]).length(9).build();
    assert_eq!(overridden.user_data_header_length, 9);
}

#[test]
fn deliver_builder_gsm7_matches_hand_built_encode() {
    let oa = SMSAddress::builder().ton(1).npi(1).address("15550199").build();
    let (ud, septets) = pack_gsm7("delivered").unwrap();

    let built = SmsDeliver::builder(oa.clone())
        .mms(true)
        .dcs(0)
        .service_centre_timestamp("25010112000000")
        .gsm7_text("delivered")
        .build()
        .unwrap();

    let hand = SmsDeliver {
        tp_rp: false,
        tp_udhi: false,
        tp_sri: false,
        tp_lp: false,
        tp_mms: true,
        tp_mti: 0,
        tp_originating_address: oa,
        tp_pid: 0,
        tp_dcs: 0,
        tp_service_centre_timestamp: "25010112000000".into(),
        tp_user_data_length: septets as u8,
        tp_user_data: ud,
    };

    assert_eq!(built.encode().unwrap(), hand.encode().unwrap());
}

#[test]
fn deliver_builder_ucs2_sets_byte_length() {
    let oa = SMSAddress::builder().ton(1).npi(1).address("15550102").build();
    let built = SmsDeliver::builder(oa)
        .dcs(0x08)
        .service_centre_timestamp("25010112000000")
        .ucs2_text("Hé€")
        .build()
        .unwrap();
    assert_eq!(built.tp_user_data_length, 6);
    assert_eq!(built.tp_user_data.len(), 6);
}

#[test]
fn submit_builder_roundtrips_through_parser() {
    let dest = SMSAddress::builder().ton(1).npi(1).address("15550100").build();
    let submit = SmsSubmit::builder()
        .mr(7)
        .destination_address(dest.clone())
        .dcs(0)
        .gsm7_text("ping")
        .build()
        .unwrap();

    let mo = RpDataMsToNetwork::builder(submit).message_reference(1).build();

    let tpdu = {
        let s = &mo.sms_submit;
        let mut t = vec![(s.tp_udhi as u8) << 6 | s.tp_mti, s.tp_mr];
        t.extend(s.tp_destination_address.as_ref().unwrap().encode(false).unwrap());
        t.push(s.tp_pid);
        t.push(s.tp_dcs);
        t.push(s.tp_user_data_length);
        t.extend_from_slice(&s.tp_user_data);
        t
    };
    let mut rp = vec![mo.rp_message_type, mo.rp_message_reference, 0x00, 0x00];
    rp.push(tpdu.len() as u8);
    rp.extend_from_slice(&tpdu);

    let parsed = parse_rp_data(&rp).unwrap();
    assert_eq!(parsed.rp_message_reference, 1);
    assert_eq!(parsed.sms_submit.tp_mr, 7);
    assert_eq!(parsed.sms_submit.tp_destination_address, Some(dest));
    assert_eq!(parsed.sms_submit.tp_user_data, b"ping");
}

#[test]
fn rp_ack_builder_defaults_and_encodes() {
    let report = SmsSubmitReport::builder()
        .service_centre_timestamp("25010112000000")
        .build();
    let ack = RpAck::builder(report).message_reference(7).build();
    let e = ack.encode().unwrap();
    assert_eq!(e[0], 0x03);
    assert_eq!(e[1], 7);
    assert_eq!(e[2], 0x41);
}

#[test]
fn gsm7_text_error_surfaces_at_build() {
    let oa = SMSAddress::builder().address("15550100").build();
    let r = SmsDeliver::builder(oa).gsm7_text("😀").build();
    assert!(r.is_err());
}
