use vstd::prelude::*;

verus! {

/// The chars that GSM 7-bit carries as an escape plus a second septet
/// (TS 23.038 §6.2.1.1): form feed and `^ { } \ [ ~ ] | €`.
pub open spec fn is_gsm7_escaped(c: char) -> bool {
    c == '\x0c' || c == '^' || c == '{' || c == '}' || c == '\\' || c == '[' || c == '~' || c
        == ']' || c == '|' || c == '€'
}

/// The chars of the GSM 7-bit default alphabet (TS 23.038 §6.2.1): the
/// printable ASCII chars but `` ` `` and those the escape table carries, and
/// the national, Greek and control chars of the table.
pub open spec fn is_gsm7_default_char(c: char) -> bool {
    ||| (' ' <= c && c <= '#') || ('%' <= c && c <= '?') || ('A' <= c && c <= 'Z') || ('a' <= c
        && c <= 'z')
    ||| c == '@' || c == '£' || c == '$' || c == '¥' || c == 'è' || c == 'é' || c == 'ù' || c == 'ì'
        || c == 'ò' || c == 'Ç' || c == '\n' || c == 'Ø' || c == 'ø' || c == '\r' || c == 'Å' || c
        == 'å'
    ||| c == 'Δ' || c == '_' || c == 'Φ' || c == 'Γ' || c == 'Λ' || c == 'Ω' || c == 'Π' || c == 'Ψ'
        || c == 'Σ' || c == 'Θ' || c == 'Ξ' || c == '\x1b' || c == 'Æ' || c == 'æ' || c == 'ß' || c
        == 'É'
    ||| c == '¤' || c == '¡' || c == 'Ä' || c == 'Ö' || c == 'Ñ' || c == 'Ü' || c == '§' || c == '¿'
        || c == 'ä' || c == 'ö' || c == 'ñ' || c == 'ü' || c == 'à'
}

/// A text GSM 7-bit can carry: every char in the default alphabet or in its
/// escape table.
pub open spec fn is_gsm7_text(s: Seq<char>) -> bool {
    forall|i: int|
        0 <= i < s.len() ==> is_gsm7_default_char(#[trigger] s[i]) || is_gsm7_escaped(s[i])
}

/// The septets a char costs: two for an escaped char, one otherwise.
pub open spec fn char_septets(c: char) -> nat {
    if is_gsm7_escaped(c) {
        2
    } else {
        1
    }
}

/// The septets a text costs: the value of TP-User-Data-Length for it on a
/// GSM 7-bit message.
pub open spec fn septet_count(s: Seq<char>) -> nat
    decreases s.len(),
{
    if s.len() == 0 {
        0
    } else {
        septet_count(s.drop_last()) + char_septets(s.last())
    }
}

/// What reading packed septets back gives for a text: the text itself, plus
/// one `@` when the zero bits padding the last octet hold a whole septet
/// (the septet count is 7 more than a multiple of 8).
pub open spec fn gsm7_with_padding(s: Seq<char>) -> Seq<char> {
    if (7 * septet_count(s)) % 8 == 1 {
        s.push('@')
    } else {
        s
    }
}

} // verus!
