//! UCS-2 / UTF-16BE user data (TS 23.038 §6.2.3) and the text of decoded user
//! data.

use vstd::prelude::*;
use vstd::std_specs::iter::IteratorSpec;

use crate::submit::SmsSubmit;
use crate::trusted::{from_utf16_lossy, from_utf8_lossy, utf8_lossy};

verus! {

/// The UTF-16 code units of a char: itself below U+10000, else a surrogate
/// pair.
pub open spec fn utf16_units(c: char) -> Seq<u16> {
    let v = c as u32;
    if v < 0x10000 {
        seq![v as u16]
    } else {
        let w = (v - 0x10000) as u32;
        seq![(0xd800 + w / 0x400) as u16, (0xdc00 + w % 0x400) as u16]
    }
}

/// Whether a code unit is a high (leading) surrogate.
pub open spec fn is_high_surrogate(u: u16) -> bool {
    0xd800 <= u && u <= 0xdbff
}

/// Whether a code unit is a low (trailing) surrogate.
pub open spec fn is_low_surrogate(u: u16) -> bool {
    0xdc00 <= u && u <= 0xdfff
}

/// UTF-16 code units decoded lossily: a high surrogate followed by a low
/// one is the char they pair to, any other surrogate is U+FFFD, and every
/// other unit is its own char.
pub open spec fn utf16_lossy(units: Seq<u16>) -> Seq<char>
    decreases units.len(),
{
    if units.len() == 0 {
        seq![]
    } else if units.len() >= 2 && is_high_surrogate(units[0]) && is_low_surrogate(units[1]) {
        seq![
            (0x10000 + (units[0] - 0xd800) * 0x400 + (units[1] - 0xdc00)) as char,
        ] + utf16_lossy(units.skip(2))
    } else if is_high_surrogate(units[0]) || is_low_surrogate(units[0]) {
        seq!['\u{fffd}'] + utf16_lossy(units.skip(1))
    } else {
        seq![units[0] as char] + utf16_lossy(units.skip(1))
    }
}

/// Code units as big-endian octets.
pub open spec fn units_be(units: Seq<u16>) -> Seq<u8>
    decreases units.len(),
{
    if units.len() == 0 {
        seq![]
    } else {
        units_be(units.drop_last()) + seq![
            (units.last() / 0x100) as u8,
            (units.last() % 0x100) as u8,
        ]
    }
}

/// The UTF-16 code units of a text.
pub open spec fn utf16_all(s: Seq<char>) -> Seq<u16>
    decreases s.len(),
{
    if s.len() == 0 {
        seq![]
    } else {
        utf16_all(s.drop_last()) + utf16_units(s.last())
    }
}

/// Big-endian octet pairs read as code units.
pub open spec fn units_of_octets(o: Seq<u8>) -> Seq<u16> {
    Seq::new(o.len() / 2, |i: int| (o[2 * i] as u16 * 0x100 + o[2 * i + 1] as u16) as u16)
}

/// A text as UTF-16BE octets.
pub open spec fn utf16be_octets(s: Seq<char>) -> Seq<u8>
    decreases s.len(),
{
    if s.len() == 0 {
        seq![]
    } else {
        utf16be_octets(s.drop_last()) + units_be(utf16_units(s.last()))
    }
}

fn push_unit(out: &mut Vec<u8>, u: u16)
    ensures
        final(out)@ == old(out)@ + seq![(u / 0x100) as u8, (u % 0x100) as u8],
{
    out.push((u / 0x100) as u8);
    out.push((u % 0x100) as u8);
}

/// Encode a text as UCS-2 user data: UTF-16, big-endian (TS 23.038 §6.2.3).
pub fn ucs2_bytes(text: &str) -> (bytes: Vec<u8>)
    ensures
        bytes@ == utf16be_octets(text@),
{
    let mut it = text.chars();
    let mut out: Vec<u8> = Vec::new();
    let ghost mut k: int = 0;
    loop
        invariant
            0 <= k <= text@.len(),
            it.remaining() == text@.skip(k),
            out@ == utf16be_octets(text@.take(k)),
        ensures
            out@ == utf16be_octets(text@),
        decreases text@.len() - k,
    {
        match it.next() {
            Some(c) => {
                proof {
                    assert(text@.take(k + 1).drop_last() =~= text@.take(k));
                    assert(text@.take(k + 1).last() == c);
                }
                let v = c as u32;
                if v < 0x10000 {
                    push_unit(&mut out, v as u16);
                    proof {
                        let units = seq![v as u16];
                        reveal_with_fuel(units_be, 2);
                        assert(utf16_units(c) == units);
                        assert(units.drop_last() =~= Seq::<u16>::empty());
                        assert(units_be(units) =~= seq![((v as u16) / 0x100) as u8, ((v as u16) % 0x100) as u8]);
                    }
                } else {
                    let w = v - 0x10000;
                    let hi = (0xd800 + w / 0x400) as u16;
                    let lo = (0xdc00 + w % 0x400) as u16;
                    push_unit(&mut out, hi);
                    push_unit(&mut out, lo);
                    proof {
                        let units = seq![hi, lo];
                        reveal_with_fuel(units_be, 3);
                        assert(utf16_units(c) == units);
                        assert(units.drop_last() =~= seq![hi]);
                        assert(seq![hi].drop_last() =~= Seq::<u16>::empty());
                        assert(units_be(seq![hi]) =~= seq![(hi / 0x100) as u8, (hi % 0x100) as u8]);
                        assert(units_be(units) =~= seq![(hi / 0x100) as u8, (hi % 0x100) as u8, (lo / 0x100) as u8, (lo % 0x100) as u8]);
                    }
                }
                proof {
                    k = k + 1;
                }
            },
            None => {
                assert(text@.take(k) =~= text@);
                break ;
            },
        }
    }
    out
}

/// The user data of a TPDU as text, by its data coding: GSM 7-bit (TP-DCS 0)
/// decoded octets read as UTF-8 (lossily), UCS-2 (TP-DCS 8) read as
/// UTF-16BE (lossily, `None` for an odd octet count), `None` for any other
/// coding.
pub open spec fn spec_user_data_text(dcs: u8, user_data: Seq<u8>) -> Option<Seq<char>> {
    if dcs == 0 {
        Some(utf8_lossy(user_data))
    } else if dcs == 8 {
        if user_data.len() % 2 != 0 {
            None
        } else {
            Some(utf16_lossy(units_of_octets(user_data)))
        }
    } else {
        None
    }
}

impl SmsSubmit {
    /// The user data as text when it is GSM 7-bit (TP-DCS 0) or UCS-2
    /// (TP-DCS 8); `None` for any other coding.
    pub fn text(&self) -> (t: Option<String>)
        ensures
            match spec_user_data_text(self.tp_dcs, self.tp_user_data@) {
                Some(s) => t is Some && t->0@ == s,
                None => t is None,
            },
    {
        if self.tp_dcs == 0 {
            Some(from_utf8_lossy(self.tp_user_data.as_slice()))
        } else if self.tp_dcs == 8 {
            let bytes = &self.tp_user_data;
            if bytes.len() % 2 != 0 {
                return None;
            }
            let mut units: Vec<u16> = Vec::new();
            let mut i: usize = 0;
            while i < bytes.len() / 2
                invariant
                    bytes@.len() % 2 == 0,
                    i <= bytes@.len() / 2,
                    units@ == Seq::new(
                        i as nat,
                        |j: int| (bytes@[2 * j] as u16 * 0x100 + bytes@[2 * j + 1] as u16) as u16,
                    ),
                decreases bytes@.len() / 2 - i,
            {
                let u = (bytes[2 * i] as u16 * 0x100 + bytes[2 * i + 1] as u16) as u16;
                units.push(u);
                i = i + 1;
                assert(units@ =~= Seq::new(
                    i as nat,
                    |j: int| (bytes@[2 * j] as u16 * 0x100 + bytes@[2 * j + 1] as u16) as u16,
                ));
            }
            Some(from_utf16_lossy(units.as_slice()))
        } else {
            None
        }
    }
}

} // verus!
