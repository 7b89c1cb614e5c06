//! Laws of the codec that relate several of its functions: what a decoder
//! reads back of what an encoder wrote.

use vstd::prelude::*;
use vstd::utf8::{encode_utf8, is_ascii_chars, is_ascii_chars_encode_utf8};

use crate::address::{
    bcd_digits, hex_upper, padded_digits, spec_decode_address, spec_encode_address,
    ton_npi_octet, unless_filler, AddressModel,
};
use crate::bcd::{semi_octets, swap_pairs};
use crate::deliver::spec_encode_deliver;
use crate::rp::{spec_encode_rp_data_mt, spec_parse_rp_data, RpDataMoModel, RpDataMtModel};
use crate::submit::{
    spec_decode_header, spec_decode_submit, spec_user_data, DecodeOutcome, HeaderModel, SubmitModel,
    UserDataOutcome,
};
use crate::gsm7::{
    chars_as_octets, gsm7_packs_to, is_octet_gsm7_text, lemma_octet_text_decodes,
    lemma_padding_of_packed,
};
use crate::septets::{char_septets, gsm7_with_padding, septet_count};
use crate::trusted::{hex_decoded, hex_digit_value};
use crate::ucs2::{
    is_high_surrogate, is_low_surrogate, spec_user_data_text, units_be, units_of_octets, utf16_all,
    utf16_lossy, utf16_units, utf16be_octets,
};

verus! {

/// A BCD digit as addresses carry it: `0`-`9`, or `A`-`E` (`F` is the filler).
pub open spec fn is_bcd_digit(c: char) -> bool {
    ('0' <= c && c <= '9') || ('A' <= c && c <= 'E')
}

/// A digit string made of BCD digits only.
pub open spec fn is_bcd_number(s: Seq<char>) -> bool {
    forall|i: int| 0 <= i < s.len() ==> is_bcd_digit(#[trigger] s[i])
}

proof fn lemma_bcd_digit(c: char)
    requires
        is_bcd_digit(c),
    ensures
        hex_digit_value(c as u8) matches Some(v) && v < 15 && hex_upper(v) == c,
{
}

pub(crate) proof fn lemma_bcd_number_ascii(s: Seq<char>)
    requires
        is_bcd_number(s),
    ensures
        is_ascii_chars(s),
        encode_utf8(s).len() == s.len(),
        forall|i: int| 0 <= i < s.len() ==> encode_utf8(s)[i] == s[i] as u8,
{
    assert forall|i: int| 0 <= i < s.len() implies '\0' <= #[trigger] s[i] <= '\u{7f}' by {
        assert(is_bcd_digit(s[i]));
    }
    is_ascii_chars_encode_utf8(s);
}

/// The semi-octets of a BCD number: octet `k` holds digit `2k` in its low
/// nibble and digit `2k + 1`, or the filler 15 past the end, in its high one.
pub(crate) proof fn lemma_semi_octets_of_number(s: Seq<char>)
    requires
        is_bcd_number(s),
    ensures
        semi_octets(padded_digits(s)) matches Some(o) && o.len() == (s.len() + 1) / 2 && forall|
            k: int,
        |
            0 <= k < o.len() ==> {
                &&& (#[trigger] o[k]) % 16 == hex_digit_value(s[2 * k] as u8)->0
                &&& o[k] / 16 == if 2 * k + 1 < s.len() {
                    hex_digit_value(s[2 * k + 1] as u8)->0
                } else {
                    15u8
                }
            },
{
    lemma_bcd_number_ascii(s);
    let p = padded_digits(s);
    let n = s.len();
    assert(p.len() % 2 == 0);
    assert(forall|i: int| 0 <= i < n ==> p[i] == s[i] as u8);
    assert forall|i: int| 0 <= i < p.len() implies (#[trigger] hex_digit_value(p[i])) is Some
        && hex_digit_value(p[i])->0 < 16 by {
        if i < n {
            lemma_bcd_digit(s[i]);
        }
    }
    let w = swap_pairs(p);
    assert forall|i: int| 0 <= i < w.len() implies (#[trigger] hex_digit_value(w[i])) is Some by {
        if i % 2 == 0 {
            assert(hex_digit_value(p[i + 1]) is Some);
        } else {
            assert(hex_digit_value(p[i - 1]) is Some);
        }
    }
    assert(hex_decoded(w) is Some);
    let o = semi_octets(p)->0;
    assert forall|k: int| 0 <= k < o.len() implies {
        &&& (#[trigger] o[k]) % 16 == hex_digit_value(s[2 * k] as u8)->0
        &&& o[k] / 16 == if 2 * k + 1 < s.len() {
            hex_digit_value(s[2 * k + 1] as u8)->0
        } else {
            15u8
        }
    } by {
        assert(hex_digit_value(p[2 * k]) is Some);
        assert(hex_digit_value(p[2 * k + 1]) is Some);
        let lo = hex_digit_value(p[2 * k])->0;
        let hi = hex_digit_value(p[2 * k + 1])->0;
        assert(w[2 * k] == p[2 * k + 1]);
        assert(w[2 * k + 1] == p[2 * k]);
        assert(o[k] == (hi * 16 + lo) as u8);
        assert(o[k] % 16 == lo);
        assert(o[k] / 16 == hi);
    }
}

/// The digits the first `k` semi-octets of a BCD number decode back to.
pub(crate) proof fn lemma_bcd_digits_prefix(s: Seq<char>, o: Seq<u8>, k: int)
    requires
        is_bcd_number(s),
        o.len() == (s.len() + 1) / 2,
        0 <= k <= o.len(),
        forall|j: int|
            0 <= j < o.len() ==> {
                &&& (#[trigger] o[j]) % 16 == hex_digit_value(s[2 * j] as u8)->0
                &&& o[j] / 16 == if 2 * j + 1 < s.len() {
                    hex_digit_value(s[2 * j + 1] as u8)->0
                } else {
                    15u8
                }
            },
    ensures
        bcd_digits(o.take(k)) == s.take(if 2 * k <= s.len() {
            2 * k
        } else {
            s.len() as int
        }),
    decreases k,
{
    if k == 0 {
        assert(o.take(0) =~= Seq::<u8>::empty());
        assert(s.take(0) =~= Seq::<char>::empty());
    } else {
        lemma_bcd_digits_prefix(s, o, k - 1);
        assert(o.take(k).drop_last() =~= o.take(k - 1));
        assert(o.take(k).last() == o[k - 1]);
        let j = k - 1;
        lemma_bcd_digit(s[2 * j]);
        assert(hex_upper(o[j] % 16) == s[2 * j]);
        assert(unless_filler(hex_upper(o[j] % 16)) == seq![s[2 * j]]);
        if 2 * j + 1 < s.len() {
            lemma_bcd_digit(s[2 * j + 1]);
            assert(unless_filler(hex_upper(o[j] / 16)) == seq![s[2 * j + 1]]);
            assert(s.take(2 * j) + seq![s[2 * j]] + seq![s[2 * j + 1]] =~= s.take(2 * k));
        } else {
            assert(hex_upper(o[j] / 16) == 'F');
            assert(s.take(2 * j) + seq![s[2 * j]] + Seq::<char>::empty() =~= s.take(s.len() as int));
        }
    }
}

/// Decoding an encoded address gives it back (TS 23.040 §9.1.2.5): for a
/// TON other than alphanumeric below 8, an NPI below 16 and a number of
/// fewer than 256 BCD digits (at least one where the length counts digits,
/// since a zero length octet means no address), the decoder reads the
/// same address from the encoding, with any octets after it, and stops
/// right after it.
pub proof fn lemma_address_roundtrip(a: AddressModel, length_as_bytes: bool, rest: Seq<u8>)
    requires
        a.ton < 8,
        a.ton != 5,
        a.npi < 16,
        is_bcd_number(a.address),
        a.address.len() < 256,
        !length_as_bytes ==> a.address.len() > 0,
    ensures
        spec_encode_address(a, length_as_bytes) matches Some(enc) && spec_decode_address(
            enc + rest,
            0,
            length_as_bytes,
        ) == Some((Some(a), enc.len() as int)),
{
    let s = a.address;
    let n = s.len();
    lemma_bcd_number_ascii(s);
    lemma_semi_octets_of_number(s);
    let o = semi_octets(padded_digits(s))->0;
    let enc = spec_encode_address(a, length_as_bytes)->0;
    let data = enc + rest;
    let tn = ton_npi_octet(a.ton, a.npi);
    let ton = a.ton;
    let npi = a.npi;
    assert(((0x80u8 | (ton << 4u8) | npi) % 128) / 16 == ton && ((0x80u8 | (ton << 4u8) | npi)
        % 128) % 16 == npi) by (bit_vector)
        requires
            ton < 8,
            npi < 16,
    ;
    let len_octet = crate::address::address_length_octet(n, length_as_bytes);
    assert(enc == seq![len_octet, tn] + o);
    assert(n % 256 == n);
    if length_as_bytes {
        assert(len_octet == n / 2 + if n % 2 != 0 { 2int } else { 1int });
    } else {
        assert(len_octet == n);
    }
    assert(len_octet != 0);
    assert(crate::address::address_digit_octets(len_octet, length_as_bytes) == o.len());
    assert(data[0] == len_octet);
    assert(data[1] == tn);
    lemma_bcd_digits_prefix(s, o, o.len() as int);
    assert(o.take(o.len() as int) =~= o);
    assert(s.take(n as int) =~= s);
    assert(bcd_digits(o) == s);
    assert(data.subrange(2, 2 + o.len() as int) =~= o);
    let decoded = AddressModel { ton: (((tn % 128) / 16) as u8), npi: (((tn % 128) % 16) as u8), address: bcd_digits(o) };
    assert(decoded =~= a);
}

/// Decoding an encoded User-Data-Header gives it back: for a header whose
/// length octet is the length of its value, the decoder reads the same
/// header from `UDHL` followed by the value, with any octets after it, and
/// stops right after the value.
pub proof fn lemma_header_roundtrip(h: HeaderModel, rest: Seq<u8>)
    requires
        h.length == h.value.len(),
    ensures
        spec_decode_header(seq![h.length] + h.value + rest, 0) == Some(
            (h, 1 + h.value.len() as int),
        ),
{
    let data = seq![h.length] + h.value + rest;
    assert(data[0] == h.length);
    assert(data.subrange(1, 1 + h.length) =~= h.value);
    let decoded = HeaderModel { length: data[0], value: data.subrange(1, 1 + data[0]) };
    assert(decoded =~= h);
}

/// Decoding an encoded alphanumeric address (TON 5) gives it back at the TP
/// layer: for an NPI below 16 and a non-empty label without the bare escape
/// char and not ending in `@`, that GSM 7-bit packs (as `pack_gsm7` does)
/// into fewer than 128 octets, the encoding is the doubled octet count, the
/// TON/NPI octet and the packed label, and the decoder reads the same address
/// from it, with any octets after it, and stops right after it.
pub proof fn lemma_alphanumeric_address_roundtrip(a: AddressModel, packed: Seq<u8>, rest: Seq<u8>)
    requires
        a.ton == 5,
        a.npi < 16,
        gsm7_packs_to(a.address, packed, septet_count(a.address)),
        !a.address.contains('\x1b'),
        packed.len() < 128,
        a.address.len() > 0,
        a.address.last() != '@',
    ensures
        spec_encode_address(a, false) == Some(
            seq![(packed.len() * 2) as u8, ton_npi_octet(a.ton, a.npi)] + packed,
        ),
        spec_decode_address(spec_encode_address(a, false)->0 + rest, 0, false) == Some(
            (Some(a), 2 + packed.len() as int),
        ),
{
    let text = a.address;
    let m = septet_count(text);
    let l = packed.len();
    assert(m >= 1) by {
        assert(m == septet_count(text.drop_last()) + char_septets(text.last()));
    }
    assert(l * 8 >= 7 * m) by (nonlinear_arith)
        requires
            l == (7 * m + 7) / 8,
    ;
    assert(l * 8 / 7 >= m) by (nonlinear_arith)
        requires
            l * 8 >= 7 * m,
    ;
    lemma_padding_of_packed(m);
    let enc = seq![(l * 2) as u8, ton_npi_octet(a.ton, a.npi)] + packed;
    assert(spec_encode_address(a, false) == Some(enc));
    let data = enc + rest;
    let npi = a.npi;
    let tn = ton_npi_octet(a.ton, a.npi);
    assert(((0x80u8 | (5u8 << 4u8) | npi) % 128) / 16 == 5 && ((0x80u8 | (5u8 << 4u8) | npi)
        % 128) % 16 == npi) by (bit_vector)
        requires
            npi < 16,
    ;
    assert(data[0] == (l * 2) as u8);
    assert(data[1] == tn);
    assert(crate::address::address_digit_octets((l * 2) as u8, false) == l);
    assert(data.subrange(2, 2 + l as int) =~= packed);
    let chars = gsm7_with_padding(text);
    if (7 * m) % 8 == 1 {
        assert(l * 8 / 7 == m + 1);
        assert(chars.drop_last() =~= text);
    } else {
        assert(l * 8 / 7 == m);
        assert(chars == text);
    }
    assert(crate::address::alphanumeric_label(packed) == Some(text));
    let decoded = AddressModel { ton: (((tn % 128) / 16) as u8), npi: (((tn % 128) % 16) as u8), address: text };
    assert(decoded =~= a);
}

/// An address decodes the same after any prefix, its end moved along.
pub(crate) proof fn lemma_decode_address_shift(prefix: Seq<u8>, x: Seq<u8>, length_as_bytes: bool)
    ensures
        spec_decode_address(prefix + x, prefix.len() as int, length_as_bytes) == match spec_decode_address(
            x,
            0,
            length_as_bytes,
        ) {
            Some((a, next)) => Some((a, next + prefix.len())),
            None => None,
        },
{
    let d = prefix + x;
    let k = prefix.len() as int;
    if x.len() > 0 {
        assert(d[k] == x[0]);
    }
    if x.len() > 1 && x[0] != 0 {
        assert(d[k + 1] == x[1]);
        let n = crate::address::address_digit_octets(x[0], length_as_bytes);
        assert(n >= 0);
        if 2 + n <= x.len() {
            assert(d.subrange(k + 2, k + 2 + n) =~= x.subrange(2, 2 + n));
        }
    }
}

/// The octets of an SMS-SUBMIT assembled from its fields (TS 23.040
/// §9.2.2.2): first octet, TP-MR, TP-DA, TP-PID, TP-DCS, TP-VP when given,
/// TP-UDL, then the user-data octets.
pub open spec fn assemble_submit(
    first: u8,
    mr: u8,
    destination: Seq<u8>,
    pid: u8,
    dcs: u8,
    vp: Option<u8>,
    udl: u8,
    user_data: Seq<u8>,
) -> Seq<u8> {
    seq![first, mr] + destination + seq![pid, dcs] + match vp {
        Some(v) => seq![v],
        None => Seq::<u8>::empty(),
    } + seq![udl] + user_data
}

/// The fields after TP-DA decode as laid out from `at`: TP-PID, TP-DCS,
/// TP-VP when TP-VPF is not 0, TP-UDL, then user data of the length TP-UDL
/// and TP-DCS call for.
proof fn lemma_submit_fields_laid_out(
    data: Seq<u8>,
    first: u8,
    mr: u8,
    da: Option<AddressModel>,
    at: int,
    pid: u8,
    dcs: u8,
    vp: Option<u8>,
    udl: u8,
    user_data: Seq<u8>,
)
    requires
        0 <= at,
        (first / 16 != 0) <==> vp is Some,
        user_data.len() == crate::submit::user_data_octets(udl, dcs),
        data.len() >= at + 3 + (if vp is Some { 1int } else { 0int }) + user_data.len(),
        data[at] == pid,
        data[at + 1] == dcs,
        vp matches Some(v) ==> data[at + 2] == v,
        data[at + 2 + (if vp is Some { 1int } else { 0int })] == udl,
        data.subrange(
            at + 3 + (if vp is Some { 1int } else { 0int }),
            at + 3 + (if vp is Some { 1int } else { 0int }) + user_data.len(),
        ) == user_data,
    ensures
        ({
            let udhi = (first / 64) % 2 == 1;
            let end = at + 3 + (if vp is Some { 1int } else { 0int }) + user_data.len();
            crate::submit::spec_decode_submit_fields(data, first, mr, da, at) == match spec_user_data(
                user_data,
                udhi,
                dcs,
                udl,
            ) {
                UserDataOutcome::Decoded(header, ud) => DecodeOutcome::Decoded(
                    SubmitModel {
                        tp_rp: first / 128 == 1,
                        tp_udhi: udhi,
                        tp_srr: (first / 32) % 2 == 1,
                        tp_mti: first % 4,
                        tp_rd: (first / 4) % 2 == 1,
                        tp_vpf: first / 16,
                        tp_mr: mr,
                        tp_destination_address: da,
                        tp_pid: pid,
                        tp_dcs: dcs,
                        tp_validity_period: vp,
                        tp_user_data_length: udl,
                        tp_user_data_raw: user_data,
                        tp_user_data_header: header,
                        tp_user_data: ud,
                    },
                    end,
                ),
                UserDataOutcome::Failed => DecodeOutcome::Failed,
                UserDataOutcome::Aborts => DecodeOutcome::Aborts,
            }
        }),
{
}

/// Decoding an SMS-SUBMIT assembled from its fields gives the fields back:
/// for a destination address that round-trips (see
/// [`lemma_address_roundtrip`]), a validity period present exactly when the
/// first octet's high nibble (TP-VPF as decoded) is not 0, and user data of
/// the length TP-UDL and TP-DCS call for, the decoder reads the first-octet
/// flags, TP-MR, TP-DA, TP-PID, TP-DCS, TP-VP, TP-UDL and the raw user data
/// back, and the header and user data that the user-data rules give, and
/// stops right after the TPDU, whatever follows it.
#[verifier::rlimit(40)]
pub proof fn lemma_submit_decodes_fields(
    first: u8,
    mr: u8,
    destination: AddressModel,
    pid: u8,
    dcs: u8,
    vp: Option<u8>,
    udl: u8,
    user_data: Seq<u8>,
    rest: Seq<u8>,
)
    requires
        is_plain_bcd_address(destination),
        destination.address.len() > 0,
        (first / 16 != 0) <==> vp is Some,
        user_data.len() == crate::submit::user_data_octets(udl, dcs),
    ensures
        spec_encode_address(destination, false) matches Some(da) && ({
            let tpdu = assemble_submit(first, mr, da, pid, dcs, vp, udl, user_data);
            let udhi = (first / 64) % 2 == 1;
            spec_decode_submit(tpdu + rest, 0) == match spec_user_data(user_data, udhi, dcs, udl) {
                UserDataOutcome::Decoded(header, ud) => DecodeOutcome::Decoded(
                    SubmitModel {
                        tp_rp: first / 128 == 1,
                        tp_udhi: udhi,
                        tp_srr: (first / 32) % 2 == 1,
                        tp_mti: first % 4,
                        tp_rd: (first / 4) % 2 == 1,
                        tp_vpf: first / 16,
                        tp_mr: mr,
                        tp_destination_address: Some(destination),
                        tp_pid: pid,
                        tp_dcs: dcs,
                        tp_validity_period: vp,
                        tp_user_data_length: udl,
                        tp_user_data_raw: user_data,
                        tp_user_data_header: header,
                        tp_user_data: ud,
                    },
                    tpdu.len() as int,
                ),
                UserDataOutcome::Failed => DecodeOutcome::Failed,
                UserDataOutcome::Aborts => DecodeOutcome::Aborts,
            }
        }),
{
    let da = spec_encode_address(destination, false)->0;
    let vpseq = match vp {
        Some(v) => seq![v],
        None => Seq::<u8>::empty(),
    };
    let after = seq![pid, dcs] + vpseq + seq![udl] + user_data + rest;
    lemma_submit_head_decodes(first, mr, destination, after);
    let tpdu = assemble_submit(first, mr, da, pid, dcs, vp, udl, user_data);
    let data = tpdu + rest;
    assert(data =~= seq![first, mr] + da + after);
    let at: int = 2 + da.len() as int;
    let vo: int = if vp is Some { 1 } else { 0 };
    assert(data[at] == pid);
    assert(data[at + 1] == dcs);
    if vp is Some {
        assert(data[at + 2] == vp->0);
    }
    assert(data[at + 2 + vo] == udl);
    assert(data.subrange(at + 3 + vo, at + 3 + vo + user_data.len()) =~= user_data);
    assert(tpdu.len() == at + 3 + vo + user_data.len());
    lemma_submit_fields_laid_out(data, first, mr, Some(destination), at, pid, dcs, vp, udl, user_data);
}

/// An SMS-SUBMIT whose first octet, TP-MR and TP-DA (an address that
/// round-trips) lead the input decodes as its fields after TP-DA do.
proof fn lemma_submit_head_decodes(first: u8, mr: u8, destination: AddressModel, after: Seq<u8>)
    requires
        is_plain_bcd_address(destination),
        destination.address.len() > 0,
    ensures
        spec_encode_address(destination, false) matches Some(da) && spec_decode_submit(
            seq![first, mr] + da + after,
            0,
        ) == crate::submit::spec_decode_submit_fields(
            seq![first, mr] + da + after,
            first,
            mr,
            Some(destination),
            2 + da.len() as int,
        ),
{
    reveal(spec_decode_submit);
    lemma_address_roundtrip(destination, false, after);
    let da = spec_encode_address(destination, false)->0;
    let head = seq![first, mr];
    let data = head + da + after;
    assert(data =~= head + (da + after));
    lemma_decode_address_shift(head, da + after, false);
    assert(spec_decode_address(data, 2, false) == Some((Some(destination), 2 + da.len() as int)));
    assert(data[0] == first);
    assert(data[1] == mr);
}

/// An SMS-SUBMIT carrying a GSM 7-bit text decodes to what was written:
/// for a destination that round-trips, a text of one septet per char below
/// U+0100 without the bare escape char, packed as `pack_gsm7` packs it into
/// `ud` with `n` septets (at most 255), the TPDU `01 MR TP-DA PID 00 n ud`
/// decodes, whatever follows it, to TP-MTI 1 with no other flag, the same
/// TP-MR, TP-DA and TP-PID, TP-DCS 0, no TP-VP, TP-UDL `n`, the raw octets
/// `ud`, no header, and the text's chars as octets, and stops right after it.
pub proof fn lemma_submit_gsm7_text_roundtrip(
    mr: u8,
    destination: AddressModel,
    pid: u8,
    text: Seq<char>,
    ud: Seq<u8>,
    n: nat,
    rest: Seq<u8>,
)
    requires
        is_plain_bcd_address(destination),
        destination.address.len() > 0,
        gsm7_packs_to(text, ud, n),
        is_octet_gsm7_text(text),
        n <= 255,
    ensures
        spec_encode_address(destination, false) matches Some(da) && ({
            let tpdu = seq![0x01u8, mr] + da + seq![pid, 0x00u8, n as u8] + ud;
            spec_decode_submit(tpdu + rest, 0) matches DecodeOutcome::Decoded(s, next) && {
                &&& next == tpdu.len()
                &&& s.tp_mti == 1 && !s.tp_rp && !s.tp_udhi && !s.tp_srr && !s.tp_rd
                &&& s.tp_vpf == 0 && s.tp_validity_period is None
                &&& s.tp_mr == mr && s.tp_destination_address == Some(destination)
                &&& s.tp_pid == pid && s.tp_dcs == 0 && s.tp_user_data_length == n
                &&& s.tp_user_data_raw == ud && s.tp_user_data_header is None
                &&& Some(s.tp_user_data) == chars_as_octets(text)
            }
        }),
{
    lemma_octet_text_decodes(text, ud, n);
    lemma_submit_decodes_fields(0x01, mr, destination, pid, 0, None, n as u8, ud, rest);
    let da = spec_encode_address(destination, false)->0;
    assert(assemble_submit(0x01, mr, da, pid, 0, None, n as u8, ud) =~= seq![0x01u8, mr] + da
        + seq![pid, 0x00u8, n as u8] + ud);
    assert(spec_user_data(ud, false, 0, n as u8) == UserDataOutcome::Decoded(
        None,
        chars_as_octets(text)->0,
    ));
}

/// A strict prefix of a TPDU that decodes as an SMS-SUBMIT to its very end
/// fails to decode: every field is read at the same place, and the first one
/// that runs past the cut fails.
pub proof fn lemma_submit_prefix_fails(t: Seq<u8>, j: int)
    requires
        spec_decode_submit(t, 0) matches DecodeOutcome::Decoded(_, next) && next == t.len(),
        0 <= j < t.len(),
    ensures
        spec_decode_submit(t.take(j), 0) is Failed,
{
    reveal(spec_decode_submit);
    let p = t.take(j);
    if j >= 2 {
        let (da, at) = spec_decode_address(t, 2, false)->0;
        lemma_decode_address_prefix(t, j, 2, false);
        if at <= j {
            assert(p[0] == t[0] && p[1] == t[1]);
            let first = t[0];
            let vo: int = if first / 16 != 0 { 1 } else { 0 };
            if at + 2 + vo < j {
                assert(p[at + 1] == t[at + 1]);
                assert(p[at + 2 + vo] == t[at + 2 + vo]);
            }
        }
    }
}

/// An address decodes in a prefix of the input as in the whole input when it
/// ends within the prefix, and not at all when it runs past it.
proof fn lemma_decode_address_prefix(t: Seq<u8>, j: int, pos: int, length_as_bytes: bool)
    requires
        0 <= j <= t.len(),
        spec_decode_address(t, pos, length_as_bytes) is Some,
    ensures
        spec_decode_address(t, pos, length_as_bytes) matches Some((_, e)) && (e <= j
            ==> spec_decode_address(t.take(j), pos, length_as_bytes) == spec_decode_address(
            t,
            pos,
            length_as_bytes,
        )) && (e > j ==> spec_decode_address(t.take(j), pos, length_as_bytes) is None),
{
    let p = t.take(j);
    let (_, e) = spec_decode_address(t, pos, length_as_bytes)->0;
    if e <= j {
        assert(p[pos] == t[pos]);
        if t[pos] != 0 {
            assert(p[pos + 1] == t[pos + 1]);
            let n = crate::address::address_digit_octets(t[pos], length_as_bytes);
            assert(p.subrange(pos + 2, pos + 2 + n) =~= t.subrange(pos + 2, pos + 2 + n));
        }
    } else if pos < j {
        assert(p[pos] == t[pos]);
        if pos + 1 < j {
            assert(p[pos + 1] == t[pos + 1]);
        }
    }
}

/// An address that BCD-encodes and decodes back: a TON other than
/// alphanumeric below 8, an NPI below 16 and fewer than 256 BCD digits.
pub open spec fn is_plain_bcd_address(a: AddressModel) -> bool {
    a.ton < 8 && a.ton != 5 && a.npi < 16 && is_bcd_number(a.address) && a.address.len() < 256
}

/// An RP address decodes back after any prefix and before anything.
pub(crate) proof fn lemma_rp_address_decodes(head: Seq<u8>, a: Option<AddressModel>, tail: Seq<u8>)
    requires
        a matches Some(x) ==> is_plain_bcd_address(x),
    ensures
        crate::rp::spec_encode_rp_address(a) matches Some(e) && spec_decode_address(
            head + e + tail,
            head.len() as int,
            true,
        ) == Some((a, head.len() + e.len() as int)),
{
    match a {
        Some(x) => lemma_address_roundtrip(x, true, tail),
        None => {},
    }
    let e = crate::rp::spec_encode_rp_address(a)->0;
    assert(head + e + tail =~= head + (e + tail));
    lemma_decode_address_shift(head, e + tail, true);
}

/// Two RP addresses in a row decode back, the second starting where the
/// first ends.
#[verifier::rlimit(30)]
pub(crate) proof fn lemma_rp_addresses_decode(
    head: Seq<u8>,
    originator: Option<AddressModel>,
    destination: Option<AddressModel>,
    tail: Seq<u8>,
)
    requires
        originator matches Some(a) ==> is_plain_bcd_address(a),
        destination matches Some(a) ==> is_plain_bcd_address(a),
    ensures
        crate::rp::spec_encode_rp_address(originator) matches Some(oa)
            && crate::rp::spec_encode_rp_address(destination) matches Some(da) && ({
            let data = head + oa + da + tail;
            &&& spec_decode_address(data, head.len() as int, true) == Some(
                (originator, head.len() + oa.len() as int),
            )
            &&& spec_decode_address(data, head.len() + oa.len() as int, true) == Some(
                (destination, head.len() + oa.len() + da.len() as int),
            )
        }),
{
    lemma_rp_address_decodes(head, destination, tail);
    let da = crate::rp::spec_encode_rp_address(destination)->0;
    lemma_rp_address_decodes(head, originator, da + tail);
    let oa = crate::rp::spec_encode_rp_address(originator)->0;
    lemma_rp_address_decodes(head + oa, destination, tail);
    assert(head + oa + (da + tail) =~= head + oa + da + tail);
}

/// An outcome with its end position moved along by `k`.
pub open spec fn shift_outcome<T>(o: DecodeOutcome<T>, k: int) -> DecodeOutcome<T> {
    match o {
        DecodeOutcome::Decoded(v, next) => DecodeOutcome::Decoded(v, next + k),
        DecodeOutcome::Failed => DecodeOutcome::Failed,
        DecodeOutcome::Aborts => DecodeOutcome::Aborts,
    }
}

/// An SMS-SUBMIT decodes the same after any prefix, its end moved along.
#[verifier::rlimit(50)]
proof fn lemma_decode_submit_shift(prefix: Seq<u8>, x: Seq<u8>)
    ensures
        spec_decode_submit(prefix + x, prefix.len() as int) == shift_outcome(
            spec_decode_submit(x, 0),
            prefix.len() as int,
        ),
{
    reveal(spec_decode_submit);
    let d = prefix + x;
    let k = prefix.len() as int;
    if x.len() >= 2 {
        assert(d[k] == x[0]);
        assert(d[k + 1] == x[1]);
        let p2 = prefix + seq![x[0], x[1]];
        let x2 = x.skip(2);
        assert(d =~= p2 + x2);
        assert(x =~= seq![x[0], x[1]] + x2);
        lemma_decode_address_shift(p2, x2, false);
        lemma_decode_address_shift(seq![x[0], x[1]], x2, false);
        match spec_decode_address(x2, 0, false) {
            Some((a, next)) => {
                let at = next + 2;
                assert forall|i: int| 0 <= i < x.len() implies #[trigger] d[k + i] == x[i] by {}
                if at + 2 < x.len() + 0 {
                    assert(d[k + at] == x[at]);
                    assert(d[k + at + 1] == x[at + 1]);
                }
                let first = x[0];
                let vo: int = if first / 16 != 0 { 1 } else { 0 };
                if at + 2 + vo < x.len() {
                    assert(d[k + at + 2] == x[at + 2]);
                    assert(d[k + at + 2 + vo] == x[at + 2 + vo]);
                    let udl = x[at + 2 + vo];
                    let dcs = x[at + 1];
                    let rs = at + 3 + vo;
                    let re = rs + crate::submit::user_data_octets(udl, dcs);
                    if re <= x.len() {
                        assert(d.subrange(k + rs, k + re) =~= x.subrange(rs, re));
                    }
                }
            },
            None => {},
        }
    }
}

/// Parsing an MO RP-DATA assembled from its fields reads them back:
/// RP-Message-Type, RP-MR, each RP address (given by the RP-layer encoding of
/// an address that round-trips, see [`lemma_address_roundtrip`], or absent as
/// a zero octet), any RP-User-Data length octet, and then whatever decoding
/// the SMS-SUBMIT on its own gives.
#[verifier::rlimit(80)]
pub proof fn lemma_rp_data_decodes_fields(
    message_type: u8,
    message_reference: u8,
    originator: Option<AddressModel>,
    destination: Option<AddressModel>,
    length_octet: u8,
    tpdu: Seq<u8>,
)
    requires
        originator matches Some(a) ==> is_plain_bcd_address(a),
        destination matches Some(a) ==> is_plain_bcd_address(a),
    ensures
        crate::rp::spec_encode_rp_address(originator) matches Some(oa) && crate::rp::spec_encode_rp_address(destination) matches Some(da) && spec_parse_rp_data(
            seq![message_type, message_reference] + oa + da + seq![length_octet] + tpdu,
        ) == match spec_decode_submit(tpdu, 0) {
            DecodeOutcome::Decoded(submit, next) => DecodeOutcome::Decoded(
                RpDataMoModel {
                    rp_message_type: message_type,
                    rp_message_reference: message_reference,
                    rp_originator_address: originator,
                    rp_destination_address: destination,
                    sms_submit: submit,
                },
                next + 3 + oa.len() + da.len(),
            ),
            DecodeOutcome::Failed => DecodeOutcome::Failed,
            DecodeOutcome::Aborts => DecodeOutcome::Aborts,
        },
{
    let head = seq![message_type, message_reference];
    let tail = seq![length_octet] + tpdu;
    lemma_rp_addresses_decode(head, originator, destination, tail);
    let oa = crate::rp::spec_encode_rp_address(originator)->0;
    let da = crate::rp::spec_encode_rp_address(destination)->0;
    let data = head + oa + da + tail;
    let p2: int = 2 + oa.len() as int + da.len() as int;
    assert(data[p2] == length_octet);
    assert(data =~= (head + oa + da + seq![length_octet]) + tpdu);
    lemma_decode_submit_shift(head + oa + da + seq![length_octet], tpdu);
    assert(data[0] == message_type);
    assert(data[1] == message_reference);
    let inner = spec_decode_submit(tpdu, 0);
    assert(spec_decode_submit(data, p2 + 1) == shift_outcome(inner, p2 + 1));
    match inner {
        DecodeOutcome::Decoded(submit, next) => {
            assert(spec_decode_submit(data, p2 + 1) == DecodeOutcome::Decoded(submit, next + p2 + 1));
        },
        DecodeOutcome::Failed => {
            assert(spec_decode_submit(data, p2 + 1) is Failed);
        },
        DecodeOutcome::Aborts => {
            assert(spec_decode_submit(data, p2 + 1) is Aborts);
        },
    }
}

/// An encoded MT RP-DATA starts with its RP-Message-Type and RP-MR, carries
/// the SMS-DELIVER's length right before it, and ends with the
/// SMS-DELIVER's user data.
pub proof fn lemma_rp_data_mt_frame(m: RpDataMtModel)
    ensures
        spec_encode_rp_data_mt(m) matches Some(bytes) ==> {
            &&& bytes[0] == m.rp_message_type
            &&& bytes[1] == m.rp_message_reference
            &&& spec_encode_deliver(m.sms_deliver) matches Some(tpdu) && bytes.len() > tpdu.len()
                && bytes[bytes.len() - tpdu.len() - 1] == (tpdu.len() % 256) as u8
                && bytes.subrange(bytes.len() - tpdu.len(), bytes.len() as int) == tpdu
            &&& bytes.len() >= m.sms_deliver.tp_user_data.len() && bytes.subrange(
                bytes.len() - m.sms_deliver.tp_user_data.len(),
                bytes.len() as int,
            ) == m.sms_deliver.tp_user_data
        },
{
    if let Some(bytes) = spec_encode_rp_data_mt(m) {
        let oa = crate::rp::spec_encode_rp_address(m.rp_originator_address)->0;
        let da = crate::rp::spec_encode_rp_address(m.rp_destination_address)->0;
        let tpdu = spec_encode_deliver(m.sms_deliver)->0;
        let front = seq![m.rp_message_type, m.rp_message_reference] + oa + da + seq![(tpdu.len() % 256) as u8];
        assert(bytes =~= front + tpdu);
        assert(bytes.subrange(bytes.len() - tpdu.len(), bytes.len() as int) =~= tpdu);
        let ud = m.sms_deliver.tp_user_data;
        let oa2 = spec_encode_address(m.sms_deliver.tp_originating_address, false)->0;
        let ts = crate::deliver::spec_encode_timestamp(m.sms_deliver.tp_service_centre_timestamp)->0;
        let tfront = seq![crate::deliver::deliver_first_octet(m.sms_deliver)] + oa2 + seq![m.sms_deliver.tp_pid, m.sms_deliver.tp_dcs] + ts + seq![m.sms_deliver.tp_user_data_length];
        assert(tpdu =~= tfront + ud);
        assert(bytes =~= (front + tfront) + ud);
        assert(bytes.subrange(bytes.len() - ud.len(), bytes.len() as int) =~= ud);
    }
}

/// Big-endian octets of code units, units appended one after another.
proof fn lemma_units_be_append(a: Seq<u16>, b: Seq<u16>)
    ensures
        units_be(a + b) == units_be(a) + units_be(b),
    decreases b.len(),
{
    if b.len() == 0 {
        assert(a + b =~= a);
        assert(units_be(b) =~= Seq::<u8>::empty());
    } else {
        lemma_units_be_append(a, b.drop_last());
        assert((a + b).drop_last() =~= a + b.drop_last());
        assert((a + b).last() == b.last());
    }
}

/// A text's UTF-16BE octets are the big-endian octets of its code units.
proof fn lemma_octets_of_units(t: Seq<char>)
    ensures
        utf16be_octets(t) == units_be(utf16_all(t)),
    decreases t.len(),
{
    if t.len() > 0 {
        lemma_octets_of_units(t.drop_last());
        lemma_units_be_append(utf16_all(t.drop_last()), utf16_units(t.last()));
    }
}

/// Big-endian octets of code units, octet by octet.
proof fn lemma_units_be_index(u: Seq<u16>)
    ensures
        units_be(u).len() == 2 * u.len(),
        forall|i: int|
            0 <= i < u.len() ==> units_be(u)[2 * i] == (u[i] / 0x100) as u8 && units_be(u)[2 * i + 1]
                == (u[i] % 0x100) as u8,
    decreases u.len(),
{
    if u.len() > 0 {
        lemma_units_be_index(u.drop_last());
        let p = units_be(u.drop_last());
        assert forall|i: int| 0 <= i < u.len() implies units_be(u)[2 * i] == (u[i] / 0x100) as u8
            && units_be(u)[2 * i + 1] == (u[i] % 0x100) as u8 by {
            if i < u.len() - 1 {
                assert(u.drop_last()[i] == u[i]);
            }
        }
    }
}

/// Reading big-endian octet pairs back gives the code units.
proof fn lemma_units_round_trip(u: Seq<u16>)
    ensures
        units_of_octets(units_be(u)) == u,
{
    lemma_units_be_index(u);
    let o = units_be(u);
    assert forall|i: int| 0 <= i < u.len() implies #[trigger] units_of_octets(o)[i] == u[i] by {
        let x = u[i];
        assert(o[2 * i] == (x / 0x100) as u8 && o[2 * i + 1] == (x % 0x100) as u8);
        assert(((x / 0x100) as u8) as u16 * 0x100 + ((x % 0x100) as u8) as u16 == x) by (bit_vector);
    }
    assert(units_of_octets(o) =~= u);
}

/// One char's code units decode lossily back to the char, whatever follows.
proof fn lemma_lossy_one_char(c: char, v: Seq<u16>)
    ensures
        utf16_lossy(utf16_units(c) + v) == seq![c] + utf16_lossy(v),
{
    let x = c as u32;
    let w = utf16_units(c) + v;
    assert(!(0xd800 <= x <= 0xdfff));
    if x < 0x10000 {
        assert(w[0] == x as u16);
        assert(!is_high_surrogate(w[0]) && !is_low_surrogate(w[0]));
        assert(w.skip(1) =~= v);
        assert(((x as u16) as int) as char == c);
    } else {
        let d = (x - 0x10000) as u32;
        let hi = (0xd800 + d / 0x400) as u16;
        let lo = (0xdc00 + d % 0x400) as u16;
        assert(x <= 0x10ffff);
        assert(w[0] == hi && w[1] == lo);
        assert(is_high_surrogate(hi) && is_low_surrogate(lo));
        assert(w.skip(2) =~= v);
        assert(0x10000 + (hi - 0xd800) * 0x400 + (lo - 0xdc00) == x);
        assert(((x as int) as char) == c);
    }
}

/// A text's code units decode lossily back to the text, whatever follows.
proof fn lemma_lossy_text(s: Seq<char>, v: Seq<u16>)
    ensures
        utf16_lossy(utf16_all(s) + v) == s + utf16_lossy(v),
    decreases s.len(),
{
    if s.len() == 0 {
        assert(utf16_all(s) + v =~= v);
        assert(s + utf16_lossy(v) =~= utf16_lossy(v));
    } else {
        let c = s.last();
        let w = utf16_units(c) + v;
        lemma_lossy_text(s.drop_last(), w);
        lemma_lossy_one_char(c, v);
        assert(utf16_all(s) + v =~= utf16_all(s.drop_last()) + w);
        assert(s.drop_last() + (seq![c] + utf16_lossy(v)) =~= s + utf16_lossy(v));
    }
}

/// UCS-2 user data that `ucs2_bytes` made of a text reads back as that text
/// through `SmsSubmit::text` (TP-DCS 8): UTF-16BE written and read agree,
/// surrogate pairs included.
pub proof fn lemma_ucs2_text_roundtrip(t: Seq<char>)
    ensures
        spec_user_data_text(8, utf16be_octets(t)) == Some(t),
{
    lemma_octets_of_units(t);
    lemma_units_be_index(utf16_all(t));
    lemma_units_round_trip(utf16_all(t));
    lemma_lossy_text(t, Seq::empty());
    assert(t + Seq::<char>::empty() =~= t);
    assert(utf16_all(t) + Seq::<u16>::empty() =~= utf16_all(t));
}

} // verus!
