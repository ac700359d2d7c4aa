//! Decimal and hexadecimal renderings of numbers, used to build the text
//! of error messages.

use vstd::prelude::*;

verus! {

/// The ASCII digit for `d` (`0 <= d < 10`).
pub open spec fn digit_char(d: nat) -> char {
    (48 + d) as char
}

/// The decimal digits of `n`, most significant first, without leading zeros.
pub open spec fn decimal_text(n: nat) -> Seq<char>
    decreases n,
{
    if n < 10 {
        seq![digit_char(n)]
    } else {
        decimal_text(n / 10).push(digit_char(n % 10))
    }
}

/// The decimal rendering of `v`, with a leading `-` when it is negative.
pub open spec fn signed_decimal_text(v: int) -> Seq<char> {
    if v < 0 {
        seq!['-'] + decimal_text((-v) as nat)
    } else {
        decimal_text(v as nat)
    }
}

/// The upper-case hexadecimal digit for `d` (`0 <= d < 16`).
pub open spec fn hex_digit_char(d: nat) -> char {
    if d < 10 {
        (48 + d) as char
    } else {
        (55 + d) as char
    }
}

/// Two upper-case hexadecimal digits for `b`.
pub open spec fn hex2_text(b: u8) -> Seq<char> {
    seq![hex_digit_char((b / 16) as nat), hex_digit_char((b % 16) as nat)]
}

/// Renders `v` in decimal with std's integer formatting (`{}`), which
/// writes the digits without leading zeros and a `-` before a negative
/// value.
#[verifier::external_body]
pub(crate) fn decimal_string(v: i64) -> (s: String)
    ensures
        s@ == signed_decimal_text(v as int),
{
    format!("{}", v)
}

/// Renders `b` as two upper-case hexadecimal digits with std's formatting
/// (`{:02X}`).
#[verifier::external_body]
pub(crate) fn hex2_string(b: u8) -> (s: String)
    ensures
        s@ == hex2_text(b),
{
    format!("{:02X}", b)
}

/// Eight upper-case hexadecimal digits for `v`, most significant first.
pub open spec fn hex8_text(v: u32) -> Seq<char> {
    Seq::new(8, |i: int| hex_digit_char(((v as int / pow16(7 - i)) % 16) as nat))
}

/// `16` to the power `k`.
pub open spec fn pow16(k: int) -> int
    decreases k,
{
    if k <= 0 {
        1
    } else {
        16 * pow16(k - 1)
    }
}

/// Renders `v` as eight upper-case hexadecimal digits with std's formatting
/// (`{:08X}`).
#[verifier::external_body]
pub(crate) fn hex8_string(v: u32) -> (s: String)
    ensures
        s@ == hex8_text(v),
{
    format!("{:08X}", v)
}

/// Renders a duration with std's `Debug` formatting (such as `500ms` or
/// `5s`); what the text holds is left unstated.
#[verifier::external_body]
pub(crate) fn duration_debug_string(d: std::time::Duration) -> (s: String) {
    format!("{:?}", d)
}

/// Renders `v` in decimal with std's integer formatting (`{}`), which
/// writes the digits without leading zeros.
#[verifier::external_body]
pub(crate) fn decimal_string_usize(v: usize) -> (s: String)
    ensures
        s@ == decimal_text(v as nat),
{
    format!("{}", v)
}

/// Views ASCII bytes as a string slice with `std::str::from_utf8`, which
/// accepts every sequence of bytes below 128 (each is one UTF-8 character,
/// the character of the same number).
#[verifier::external_body]
pub(crate) fn ascii_str(bytes: &[u8]) -> (s: &str)
    requires
        forall|i: int| 0 <= i < bytes@.len() ==> #[trigger] bytes@[i] < 128,
    ensures
        s@ == Seq::new(bytes@.len(), |i: int| bytes@[i] as char),
{
    match std::str::from_utf8(bytes) {
        Ok(s) => s,
        Err(_) => "",
    }
}

} // verus!
