//! Laws on what the encoders put on the wire and what the 7-bit decoder
//! keeps: each flag in its bit, each field at its place, each part whole.

use vstd::prelude::*;

use crate::address::{spec_decode_address, spec_encode_address};
use crate::deliver::{
    deliver_first_octet, spec_encode_deliver, spec_encode_submit_report, spec_encode_timestamp,
    DeliverModel, SubmitReportModel,
};
use crate::rp::{spec_encode_rp_ack, spec_encode_rp_address, spec_encode_rp_data_mt, RpAckModel, RpDataMtModel};
use crate::gateway::deliver_for;
use crate::gsm7::{chars_as_octets, gsm7_packs_to, septet_octets, spec_decode_7bit};
use crate::address::{bcd_digits, padded_digits, AddressModel};
use crate::trusted::hex_digit_value;
use crate::laws::{
    is_bcd_number, is_plain_bcd_address, lemma_address_roundtrip, lemma_bcd_digits_prefix,
    lemma_decode_address_shift, lemma_rp_addresses_decode, lemma_semi_octets_of_number,
};
use crate::septets::gsm7_with_padding;
use crate::trusted::gsm7_unpacked;

verus! {

/// Turning chars read from 7-bit user data into octets keeps every char:
/// the octets are those of the chars, or those without the last one only
/// where that last one is `@` (0x40) and the char count is not the declared
/// septet count; and it fails exactly where a char is above U+00FF.
pub proof fn lemma_septet_octets_keep_chars(chars: Seq<char>, n: nat)
    ensures
        septet_octets(chars, n) is Some <==> chars_as_octets(chars) is Some,
        chars_as_octets(chars) matches Some(all) ==> {
            ||| septet_octets(chars, n) == Some(all)
            ||| all.len() > 0 && all.last() == 0x40 && all.len() != n && septet_octets(chars, n)
                == Some(all.drop_last())
        },
        chars_as_octets(chars) matches Some(all) ==> (all.len() == n ==> septet_octets(chars, n)
            == Some(all)),
{
}

/// Decoding 7-bit user data to octets keeps every char the reader reads: the
/// octets are those of the chars read, or those without the last one only
/// where it is `@` (0x40) and the count is not the declared septet count.
pub proof fn lemma_decode_7bit_keeps_chars(raw: Seq<u8>, n: nat)
    ensures
        spec_decode_7bit(raw, n) is Some <==> (gsm7_unpacked(raw) matches Some(c)
            && chars_as_octets(c) is Some),
        gsm7_unpacked(raw) matches Some(c) ==> (chars_as_octets(c) matches Some(all) ==> {
            ||| spec_decode_7bit(raw, n) == Some(all)
            ||| all.len() > 0 && all.last() == 0x40 && all.len() != n && spec_decode_7bit(raw, n)
                == Some(all.drop_last())
        }),
{
    if let Some(c) = gsm7_unpacked(raw) {
        lemma_septet_octets_keep_chars(c, n);
    }
}

/// A char is the char of its code point.
proof fn lemma_char_of_code(c: char)
    ensures
        ((c as u32) as int) as char == c,
{
}

/// A packed GSM 7-bit text, escape-table chars included, decodes to all of
/// its chars: for a text without the bare escape char, of chars below
/// U+0100 and not ending in `@`, packed as `pack_gsm7` packs it into `ud`
/// with `n` septets, the decoded octets start with the octets of every char
/// of the text, and at most one padding `@` follows them.
pub proof fn lemma_gsm7_text_decodes_all_chars(text: Seq<char>, ud: Seq<u8>, n: nat)
    requires
        gsm7_packs_to(text, ud, n),
        !text.contains('\x1b'),
        forall|i: int| 0 <= i < text.len() ==> (#[trigger] text[i]) as u32 <= 0xff,
        text.len() > 0 ==> text.last() != '@',
    ensures
        chars_as_octets(text) matches Some(t) && spec_decode_7bit(ud, n) matches Some(o) && {
            &&& o.take(text.len() as int) == t
            &&& o.len() == text.len() || (o.len() == text.len() + 1 && o.last() == 0x40)
        },
{
    let padded = gsm7_with_padding(text);
    assert(gsm7_unpacked(ud) == Some(padded));
    assert(chars_as_octets(text) is Some);
    let t = chars_as_octets(text)->0;
    assert forall|i: int| 0 <= i < padded.len() implies (#[trigger] padded[i]) as u32 <= 0xff by {
        if i < text.len() {
            assert(padded[i] == text[i]);
        }
    }
    assert(chars_as_octets(padded) is Some);
    let all = chars_as_octets(padded)->0;
    lemma_septet_octets_keep_chars(padded, n);
    let o = spec_decode_7bit(ud, n)->0;
    if padded.len() == text.len() {
        assert(padded =~= text);
        if text.len() > 0 {
            let c = text.last();
            let x = c as u32;
            assert(x <= 0xff);
            assert(all.last() == x as u8);
            assert((x as u8) as u32 == x);
            lemma_char_of_code(c);
            if x == 0x40 {
                assert((0x40int as char) == '@');
                assert(c == '@');
            }
            assert(all.last() != 0x40);
        }
        assert(o == all);
        assert(o.take(text.len() as int) =~= t);
    } else {
        assert(padded == text.push('@'));
        assert(all.take(text.len() as int) =~= t);
        assert(all.drop_last() =~= t);
    }
}

/// The first octet of an encoded SMS-DELIVER carries each flag in its
/// TS 23.040 §9.2.2.1 bit: TP-RP bit 7, TP-UDHI bit 6, TP-SRI bit 5, TP-LP
/// bit 3, TP-MMS bit 2, TP-MTI bits 0-1, and bit 4 clear, for a TP-MTI below 4.
pub proof fn lemma_deliver_first_octet_bits(d: DeliverModel)
    requires
        d.tp_mti < 4,
    ensures
        spec_encode_deliver(d) matches Some(b) ==> {
            &&& b.len() > 0
            &&& ((b[0] / 128) % 2 == 1 <==> d.tp_rp)
            &&& ((b[0] / 64) % 2 == 1 <==> d.tp_udhi)
            &&& ((b[0] / 32) % 2 == 1 <==> d.tp_sri)
            &&& (b[0] / 16) % 2 == 0
            &&& ((b[0] / 8) % 2 == 1 <==> d.tp_lp)
            &&& ((b[0] / 4) % 2 == 1 <==> d.tp_mms)
            &&& b[0] % 4 == d.tp_mti
        },
{
    if let Some(b) = spec_encode_deliver(d) {
        let x = deliver_first_octet(d);
        assert(b[0] == x);
        let (rp, udhi, sri, lp, mms, mti) = (d.tp_rp, d.tp_udhi, d.tp_sri, d.tp_lp, d.tp_mms, d.tp_mti);
        assert(x == ((if rp { 0x80u8 } else { 0u8 }) | (if udhi { 0x40u8 } else { 0u8 }) | (if sri {
            0x20u8
        } else {
            0u8
        }) | (if lp { 0x08u8 } else { 0u8 }) | (if mms { 0x04u8 } else { 0u8 }) | mti));
        assert({
            &&& ((x / 128) % 2 == 1 <==> rp)
            &&& ((x / 64) % 2 == 1 <==> udhi)
            &&& ((x / 32) % 2 == 1 <==> sri)
            &&& (x / 16) % 2 == 0
            &&& ((x / 8) % 2 == 1 <==> lp)
            &&& ((x / 4) % 2 == 1 <==> mms)
            &&& x % 4 == mti
        }) by (bit_vector)
            requires
                mti < 4,
                x == ((if rp { 0x80u8 } else { 0u8 }) | (if udhi { 0x40u8 } else { 0u8 }) | (if sri {
                    0x20u8
                } else {
                    0u8
                }) | (if lp { 0x08u8 } else { 0u8 }) | (if mms { 0x04u8 } else { 0u8 }) | mti),
        ;
    }
}

/// The fields of an encoded SMS-DELIVER stand at their places: TP-OA from
/// octet 1, then TP-PID, TP-DCS, the time stamp's semi-octets, TP-UDL, and
/// the user data last, whole.
pub proof fn lemma_deliver_fields_in_place(d: DeliverModel)
    ensures
        spec_encode_deliver(d) matches Some(b) ==> (spec_encode_address(
            d.tp_originating_address,
            false,
        ) matches Some(oa) && {
            &&& b.subrange(1, 1 + oa.len() as int) == oa
            &&& b[1 + oa.len() as int] == d.tp_pid
            &&& b[2 + oa.len() as int] == d.tp_dcs
            &&& b.len() == 3 + oa.len() + crate::deliver::spec_encode_timestamp(
                d.tp_service_centre_timestamp,
            )->0.len() + 1 + d.tp_user_data.len()
            &&& b[b.len() - d.tp_user_data.len() - 1] == d.tp_user_data_length
            &&& b.subrange(b.len() - d.tp_user_data.len(), b.len() as int) == d.tp_user_data
        }),
{
    if let Some(b) = spec_encode_deliver(d) {
        let oa = spec_encode_address(d.tp_originating_address, false)->0;
        let ts = crate::deliver::spec_encode_timestamp(d.tp_service_centre_timestamp)->0;
        let ud = d.tp_user_data;
        let front = seq![deliver_first_octet(d)] + oa + seq![d.tp_pid, d.tp_dcs] + ts;
        assert(b =~= front + seq![d.tp_user_data_length] + ud);
        assert(b.subrange(1, 1 + oa.len() as int) =~= oa);
        assert(b[1 + oa.len() as int] == d.tp_pid);
        assert(b[2 + oa.len() as int] == d.tp_dcs);
        assert(b[b.len() - ud.len() - 1] == d.tp_user_data_length);
        assert(b.subrange(b.len() - ud.len(), b.len() as int) =~= ud);
    }
}

/// The TP-OA of an encoded SMS-DELIVER decodes back from octet 1, for an
/// address that BCD-encodes and decodes back and has at least one digit.
pub proof fn lemma_deliver_originator_decodes(d: DeliverModel)
    requires
        is_plain_bcd_address(d.tp_originating_address),
        d.tp_originating_address.address.len() > 0,
    ensures
        spec_encode_deliver(d) matches Some(b) ==> (spec_encode_address(
            d.tp_originating_address,
            false,
        ) matches Some(oa) && spec_decode_address(b, 1, false) == Some(
            (Some(d.tp_originating_address), 1 + oa.len() as int),
        )),
{
    if let Some(b) = spec_encode_deliver(d) {
        let oa = spec_encode_address(d.tp_originating_address, false)->0;
        let ts = crate::deliver::spec_encode_timestamp(d.tp_service_centre_timestamp)->0;
        let rest = seq![d.tp_pid, d.tp_dcs] + ts + seq![d.tp_user_data_length] + d.tp_user_data;
        lemma_address_roundtrip(d.tp_originating_address, false, rest);
        let head = seq![deliver_first_octet(d)];
        assert(b =~= head + (oa + rest));
        lemma_decode_address_shift(head, oa + rest, false);
    }
}

/// An SMS-DELIVER built from `deliver_sm`-shaped fields (what
/// `build_sms_deliver_tpdu` encodes) carries them where TS 23.040 puts them:
/// TP-UDHI as given in bit 6 and TP-MMS set in bit 2 with no other flag and
/// TP-MTI 0; `protocol_id` as TP-PID and `data_coding` as TP-DCS right after
/// TP-OA; TP-UDL as given or the user data's length; the user data last.
pub proof fn lemma_built_deliver_carries_fields(
    source_addr: Seq<char>,
    source_addr_ton: u8,
    source_addr_npi: u8,
    short_message: Seq<u8>,
    protocol_id: u8,
    data_coding: u8,
    udhi: bool,
    scts: Seq<char>,
    user_data_length: Option<u8>,
)
    ensures
        ({
            let d = deliver_for(
                source_addr,
                source_addr_ton,
                source_addr_npi,
                short_message,
                protocol_id,
                data_coding,
                udhi,
                scts,
                user_data_length,
            );
            spec_encode_deliver(d) matches Some(b) ==> (spec_encode_address(
                d.tp_originating_address,
                false,
            ) matches Some(oa) && {
                &&& b[0] == if udhi { 0x44u8 } else { 0x04u8 }
                &&& oa == spec_encode_address(
                    crate::address::AddressModel {
                        ton: source_addr_ton,
                        npi: source_addr_npi,
                        address: source_addr,
                    },
                    false,
                )->0
                &&& b[1 + oa.len() as int] == protocol_id
                &&& b[2 + oa.len() as int] == data_coding
                &&& b[b.len() - short_message.len() - 1] == match user_data_length {
                    Some(l) => l,
                    None => (short_message.len() % 256) as u8,
                }
                &&& b.subrange(b.len() - short_message.len(), b.len() as int) == short_message
            })
        }),
{
    let d = deliver_for(
        source_addr,
        source_addr_ton,
        source_addr_npi,
        short_message,
        protocol_id,
        data_coding,
        udhi,
        scts,
        user_data_length,
    );
    lemma_deliver_first_octet_bits(d);
    lemma_deliver_fields_in_place(d);
    if let Some(b) = spec_encode_deliver(d) {
        let x = b[0];
        assert(x == if udhi { 0x44u8 } else { 0x04u8 }) by (bit_vector)
            requires
                ((x / 128) % 2 == 1 <==> false),
                ((x / 64) % 2 == 1 <==> udhi),
                ((x / 32) % 2 == 1 <==> false),
                (x / 16) % 2 == 0,
                ((x / 8) % 2 == 1 <==> false),
                ((x / 4) % 2 == 1 <==> true),
                x % 4 == 0,
        ;
    }
}

/// A time stamp of an even count of BCD digits packs into semi-octets that
/// the address digit reader reads back as the same digits: each pair is
/// written low digit first.
pub proof fn lemma_timestamp_digits_read_back(ts: Seq<char>)
    requires
        is_bcd_number(ts),
        ts.len() % 2 == 0,
    ensures
        spec_encode_timestamp(ts) matches Some(o) && o.len() == ts.len() / 2 && bcd_digits(o) == ts,
{
    lemma_semi_octets_of_number(ts);
    assert(padded_digits(ts) == vstd::utf8::encode_utf8(ts)) by {
        crate::laws::lemma_bcd_number_ascii(ts);
    }
    let o = spec_encode_timestamp(ts)->0;
    lemma_bcd_digits_prefix(ts, o, o.len() as int);
    assert(o.take(o.len() as int) =~= o);
    assert(ts.take(ts.len() as int) =~= ts);
}

/// An encoded RP-ACK is its four RP octets (RP-Message-Type, RP-MR, the
/// RP-User-Data IEI and length) followed by the whole SMS-SUBMIT-REPORT:
/// its first octet (TP-UDHI in bit 6, TP-MTI 1), TP-PI, then the time
/// stamp's semi-octets.
pub proof fn lemma_rp_ack_carries_whole_report(m: RpAckModel)
    ensures
        spec_encode_rp_ack(m) matches Some(b) ==> (spec_encode_timestamp(
            m.sms_submit_report.tp_service_centre_timestamp,
        ) matches Some(ts) && {
            &&& b.len() == 6 + ts.len()
            &&& b[0] == m.rp_message_type
            &&& b[1] == m.rp_message_reference
            &&& b[2] == m.rp_user_data_element_id
            &&& b[3] == m.rp_user_data_element_length
            &&& b[4] == (m.sms_submit_report.tp_udhi << 6u8) | 1u8
            &&& b[4] % 4 == 1
            &&& b[5] == m.sms_submit_report.tp_parameter_indicator
            &&& b.subrange(6, b.len() as int) == ts
        }),
{
    if let Some(b) = spec_encode_rp_ack(m) {
        let r = m.sms_submit_report;
        let ts = spec_encode_timestamp(r.tp_service_centre_timestamp)->0;
        assert(b =~= seq![
            m.rp_message_type,
            m.rp_message_reference,
            m.rp_user_data_element_id,
            m.rp_user_data_element_length,
            (r.tp_udhi << 6u8) | 1u8,
            r.tp_parameter_indicator,
        ] + ts);
        assert(b.subrange(6, b.len() as int) =~= ts);
        let u = r.tp_udhi;
        assert(((u << 6u8) | 1u8) % 4 == 1) by (bit_vector);
    }
}

/// The RP-ACK a network builds for a report (RP-Message-Type 3, the echoed
/// RP-MR, IEI 0x41, the element length taken from the encoded report, as
/// `RpAck::network_to_ms` builds it) says in its element length how many
/// octets follow it: all of the encoded report, when it is shorter than
/// 256 octets.
pub proof fn lemma_rp_ack_element_length_counts_report(r: SubmitReportModel, mr: u8)
    ensures
        spec_encode_submit_report(r) matches Some(report) ==> ({
            let m = RpAckModel {
                rp_message_type: 3,
                rp_message_reference: mr,
                rp_user_data_element_id: 0x41,
                rp_user_data_element_length: (report.len() % 256) as u8,
                sms_submit_report: r,
            };
            spec_encode_rp_ack(m) matches Some(b) && b[1] == mr && (b.len() - 4) % 256
                == b[3] as int && (report.len() < 256 ==> b.len() == 4 + b[3])
                && b.subrange(4, b.len() as int) == report
        }),
{
    if let Some(report) = spec_encode_submit_report(r) {
        let m = RpAckModel {
            rp_message_type: 3,
            rp_message_reference: mr,
            rp_user_data_element_id: 0x41,
            rp_user_data_element_length: (report.len() % 256) as u8,
            sms_submit_report: r,
        };
        let b = spec_encode_rp_ack(m)->0;
        assert(b.subrange(4, b.len() as int) =~= report);
    }
}

/// An encoded MT RP-DATA carries its RP-OA and RP-DA as the RP layer writes
/// them: for addresses that BCD-encode and decode back, the decoder reads
/// RP-OA from octet 2 and RP-DA right after it (each absent as a zero
/// octet), and after them come the SMS-DELIVER's length octet and the
/// whole SMS-DELIVER.
pub proof fn lemma_rp_data_mt_addresses_decode(m: RpDataMtModel)
    requires
        m.rp_originator_address matches Some(a) ==> is_plain_bcd_address(a),
        m.rp_destination_address matches Some(a) ==> is_plain_bcd_address(a),
    ensures
        spec_encode_rp_data_mt(m) matches Some(b) ==> (b[0] == m.rp_message_type && b[1]
            == m.rp_message_reference && (spec_decode_address(b, 2, true) matches Some((oa, p1)) && (
        oa == m.rp_originator_address && (spec_decode_address(b, p1, true) matches Some((da, p2)) && (
        da == m.rp_destination_address && p2 < b.len() && (spec_encode_deliver(
            m.sms_deliver,
        ) matches Some(tpdu) && (b[p2] == (tpdu.len() % 256) as u8 && b.subrange(
            p2 + 1,
            b.len() as int,
        ) == tpdu))))))),
{
    if let Some(b) = spec_encode_rp_data_mt(m) {
        let head = seq![m.rp_message_type, m.rp_message_reference];
        let tpdu = spec_encode_deliver(m.sms_deliver)->0;
        let tail = seq![(tpdu.len() % 256) as u8] + tpdu;
        lemma_rp_addresses_decode(head, m.rp_originator_address, m.rp_destination_address, tail);
        let oa = spec_encode_rp_address(m.rp_originator_address)->0;
        let da = spec_encode_rp_address(m.rp_destination_address)->0;
        assert(b =~= head + oa + da + tail);
        let p2: int = 2 + oa.len() as int + da.len() as int;
        assert(b[p2] == (tpdu.len() % 256) as u8);
        assert(b.subrange(p2 + 1, b.len() as int) =~= tpdu);
    }
}

/// The wire form of a BCD address (TS 23.040 §9.1.2.5, TS 24.011 §8.2.5.1):
/// the length octet counts the digits, or at the RP layer the octets after
/// it; the next octet has bit 7 set, the TON in bits 4-6 and the NPI in bits
/// 0-3; then each octet holds two digits, the earlier in its low nibble, and
/// an odd count ends with the filler 15 in the last high nibble.
pub proof fn lemma_address_wire_form(a: AddressModel, length_as_bytes: bool)
    requires
        is_plain_bcd_address(a),
    ensures
        spec_encode_address(a, length_as_bytes) matches Some(b) && {
            let s = a.address;
            let n = s.len();
            &&& b.len() == 2 + (n + 1) / 2
            &&& b[0] as int == if length_as_bytes {
                ((n + 1) / 2 + 1) as int
            } else {
                n as int
            }
            &&& b[1] / 128 == 1 && (b[1] / 16) % 8 == a.ton && b[1] % 16 == a.npi
            &&& forall|k: int|
                0 <= k < (n + 1) / 2 ==> {
                    &&& (#[trigger] b[2 + k]) % 16 == hex_digit_value(s[2 * k] as u8)->0
                    &&& b[2 + k] / 16 == if 2 * k + 1 < n {
                        hex_digit_value(s[2 * k + 1] as u8)->0
                    } else {
                        15u8
                    }
                }
        },
{
    let s = a.address;
    let n = s.len();
    lemma_semi_octets_of_number(s);
    crate::laws::lemma_bcd_number_ascii(s);
    let o = crate::bcd::semi_octets(padded_digits(s))->0;
    let b = spec_encode_address(a, length_as_bytes)->0;
    let tn = crate::address::ton_npi_octet(a.ton, a.npi);
    assert(b =~= seq![crate::address::address_length_octet(n, length_as_bytes), tn] + o);
    let ton = a.ton;
    let npi = a.npi;
    assert((0x80u8 | (ton << 4u8) | npi) / 128 == 1 && ((0x80u8 | (ton << 4u8) | npi) / 16) % 8
        == ton && (0x80u8 | (ton << 4u8) | npi) % 16 == npi) by (bit_vector)
        requires
            ton < 8,
            npi < 16,
    ;
    assert(n % 256 == n);
    assert forall|k: int| 0 <= k < (n + 1) / 2 implies {
        &&& (#[trigger] b[2 + k]) % 16 == hex_digit_value(s[2 * k] as u8)->0
        &&& b[2 + k] / 16 == if 2 * k + 1 < n {
            hex_digit_value(s[2 * k + 1] as u8)->0
        } else {
            15u8
        }
    } by {
        assert(b[2 + k] == o[k]);
    }
}

} // verus!
