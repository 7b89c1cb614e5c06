use tpdu::{pack_gsm7, parse_rp_data, unpack_gsm7, RpDataNetworkToMs, SMSAddress, SmsDeliver};

#[test]
fn quick_start_parses_an_mo_rp_data() -> Result<(), tpdu::Error> {
    let dest = SMSAddress { ton: 1, npi: 1, address: "15550100".into() };
    let (ud, septets) = pack_gsm7("hello tpdu")?;

    let mut tpdu = vec![0x01, 0x01];
    tpdu.extend(dest.encode(false)?);
    tpdu.extend([0x00, 0x00, septets as u8]);
    tpdu.extend(ud);
    let mut rp = vec![0x00, 0x01, 0x00, 0x00];
    rp.push(tpdu.len() as u8);
    rp.extend(tpdu);

    let parsed = parse_rp_data(&rp)?;
    assert_eq!(parsed.sms_submit.tp_user_data, b"hello tpdu");
    assert_eq!(
        parsed.sms_submit.tp_destination_address,
        Some(SMSAddress { ton: 1, npi: 1, address: "15550100".into() }),
    );
    Ok(())
}

#[test]
fn quick_start_builds_an_mt_rp_data() -> Result<(), tpdu::Error> {
    let oa = SMSAddress::builder().ton(1).npi(1).address("15550199").build();
    let deliver = SmsDeliver::builder(oa.clone())
        .mms(true)
        .dcs(0)
        .service_centre_timestamp("25010112000000")
        .gsm7_text("hello tpdu")
        .build()?;
    let mt = RpDataNetworkToMs::builder(deliver).originator_address(oa).build();
    let wire: Vec<u8> = mt.encode()?;
    assert_eq!(wire[0], 0x01);
    Ok(())
}

#[test]
fn quick_start_gsm7_round_trip() -> Result<(), tpdu::Error> {
    let (packed, septets) = pack_gsm7("hello tpdu")?;
    assert_eq!(septets, 10);
    assert_eq!(unpack_gsm7(&packed, septets)?, "hello tpdu");
    Ok(())
}
