//! Calls into `std` text handling that `vstd` gives no specification.
//!
//! Each function here is trusted: Verus believes its contract, which says
//! what the standard library documents of the call.
use vstd::prelude::*;

verus! {

/// Unicode lowercase of a text (the Derived Core Property `Lowercase`).
pub uninterp spec fn unicode_lowercase(s: Seq<char>) -> Seq<char>;

/// An ASCII character.
pub open spec fn is_ascii_char(c: char) -> bool {
    (c as u32) < 128
}

/// A text of ASCII characters only.
pub open spec fn is_ascii_text(s: Seq<char>) -> bool {
    forall|i: int| 0 <= i < s.len() ==> is_ascii_char(#[trigger] s[i])
}

/// ASCII lowercase of one character: `A`..`Z` become `a`..`z`.
pub open spec fn ascii_lower(c: char) -> char {
    if 65 <= (c as u32) <= 90 {
        ((c as u32) + 32) as char
    } else {
        c
    }
}

/// ASCII lowercase of a text.
pub open spec fn ascii_lowercase(s: Seq<char>) -> Seq<char> {
    Seq::new(s.len(), |i: int| ascii_lower(s[i]))
}

/// `str::to_lowercase`: the Unicode lowercase of `s`, which on ASCII text is
/// the ASCII lowercase.
#[verifier::external_body]
pub(crate) fn to_lowercase(s: &str) -> (r: String)
    ensures
        r@ == unicode_lowercase(s@),
        is_ascii_text(s@) ==> r@ == ascii_lowercase(s@),
{
    s.to_lowercase()
}

/// A text with every leading `0x` removed, repeatedly.
pub open spec fn strip_hex_prefixes(s: Seq<char>) -> Seq<char>
    decreases s.len(),
{
    if s.len() >= 2 && s[0] == '0' && s[1] == 'x' {
        strip_hex_prefixes(s.skip(2))
    } else {
        s
    }
}

/// `str::trim_start_matches("0x")`: `s` with all `0x` prefixes repeatedly
/// removed.
#[verifier::external_body]
pub(crate) fn trim_hex_prefixes(s: &str) -> (r: &str)
    ensures
        r@ == strip_hex_prefixes(s@),
{
    s.trim_start_matches("0x")
}

/// A hexadecimal digit character, in either case.
pub open spec fn is_hex_char(c: char) -> bool {
    ('0' <= c <= '9') || ('a' <= c <= 'f') || ('A' <= c <= 'F')
}

/// The value of a hexadecimal digit character.
pub open spec fn hex_char_value(c: char) -> nat {
    if '0' <= c <= '9' {
        ((c as u32) - 48) as nat
    } else if 'a' <= c <= 'f' {
        ((c as u32) - 87) as nat
    } else {
        ((c as u32) - 55) as nat
    }
}

/// The number written by hexadecimal digits, most significant first.
pub open spec fn hex_digits_value(s: Seq<char>) -> nat
    decreases s.len(),
{
    if s.len() == 0 {
        0
    } else {
        hex_digits_value(s.drop_last()) * 16 + hex_char_value(s.last())
    }
}

/// The digits of a radix-16 numeral: the text after an optional `+`.
pub open spec fn radix16_digits(s: Seq<char>) -> Seq<char> {
    if s.len() > 0 && s[0] == '+' {
        s.drop_first()
    } else {
        s
    }
}

/// A text that `u128::from_str_radix(_, 16)` accepts: an optional `+`, then
/// at least one hexadecimal digit and nothing else, naming a value that fits
/// in 128 bits.
pub open spec fn is_u128_hex_numeral(s: Seq<char>) -> bool {
    let d = radix16_digits(s);
    &&& d.len() > 0
    &&& forall|i: int| 0 <= i < d.len() ==> is_hex_char(#[trigger] d[i])
    &&& hex_digits_value(d) <= u128::MAX
}

/// The text of the error that `u128::from_str_radix(_, 16)` reports on a
/// text that is no numeral.
pub uninterp spec fn u128_hex_error_text(s: Seq<char>) -> Seq<char>;

/// `u128::from_str_radix(s, 16)`, its error turned into its text: the value
/// of the numeral when `s` is one; the parse error's text otherwise.
#[verifier::external_body]
pub(crate) fn parse_u128_hex(s: &str) -> (r: Result<u128, String>)
    ensures
        r is Ok <==> is_u128_hex_numeral(s@),
        r matches Ok(v) ==> v == hex_digits_value(radix16_digits(s@)),
        r matches Err(e) ==> e@ == u128_hex_error_text(s@),
{
    match u128::from_str_radix(s, 16) {
        Ok(v) => Ok(v),
        Err(e) => Err(e.to_string()),
    }
}

} // verus!
