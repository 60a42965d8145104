//! ASCII digit bytes and the small decimal numbers read from them.

use vstd::prelude::*;

verus! {

/// The byte is an ASCII decimal digit, `'0'` through `'9'`.
pub open spec fn is_digit(b: u8) -> bool {
    48 <= b <= 57
}

/// Numeric value of an ASCII digit byte.
pub open spec fn digit_val(b: u8) -> int {
    b - 48
}

/// Decimal number encoded by four digit bytes.
pub open spec fn num_from_4(s: Seq<u8>) -> int {
    digit_val(s[0]) * 1000 + digit_val(s[1]) * 100 + digit_val(s[2]) * 10 + digit_val(s[3])
}

/// Decimal number encoded by two digit bytes.
pub open spec fn num_from_2(s: Seq<u8>) -> int {
    digit_val(s[0]) * 10 + digit_val(s[1])
}

/// Decimal number encoded by the six leading digit bytes: the
/// administrative region code of an identity number.
pub open spec fn region_code_val(s: Seq<u8>) -> int {
    digit_val(s[0]) * 100000 + digit_val(s[1]) * 10000 + digit_val(s[2]) * 1000
        + digit_val(s[3]) * 100 + digit_val(s[4]) * 10 + digit_val(s[5])
}

/// Reads four ASCII digit bytes as one decimal number.
pub fn u16_from_char4(c: [u8; 4]) -> (r: u16)
    requires
        is_digit(c@[0]),
        is_digit(c@[1]),
        is_digit(c@[2]),
        is_digit(c@[3]),
    ensures
        r == num_from_4(c@),
{
    (c[0] - 48) as u16 * 1000 + (c[1] - 48) as u16 * 100 + (c[2] - 48) as u16 * 10 + (c[3]
        - 48) as u16
}

/// Reads two ASCII digit bytes as one decimal number.
pub fn u8_from_char2(c: [u8; 2]) -> (r: u8)
    requires
        is_digit(c@[0]),
        is_digit(c@[1]),
    ensures
        r == num_from_2(c@),
{
    (c[0] - 48) * 10 + (c[1] - 48)
}

/// Reads the six leading digit bytes as the numeric region code.
pub fn u32_from_code6(c: [u8; 6]) -> (r: u32)
    requires
        forall|i: int| 0 <= i < 6 ==> is_digit(#[trigger] c@[i]),
    ensures
        r == region_code_val(c@),
{
    (c[0] - 48) as u32 * 100000 + (c[1] - 48) as u32 * 10000 + (c[2] - 48) as u32 * 1000 + (c[3]
        - 48) as u32 * 100 + (c[4] - 48) as u32 * 10 + (c[5] - 48) as u32
}

} // verus!
