//! Hexadecimal digits: what counts as one, what it is worth, and how a nibble
//! is written in upper and in lower case.

use vstd::prelude::*;
use vstd::string::*;

verus! {

/// `c` is one of `0-9`, `a-f`, `A-F`.
pub open spec fn is_hex_digit(c: char) -> bool {
    ('0' <= c && c <= '9') || ('a' <= c && c <= 'f') || ('A' <= c && c <= 'F')
}

/// The value, 0 to 15, of a hexadecimal digit.
pub open spec fn hex_digit_value(c: char) -> int
    recommends
        is_hex_digit(c),
{
    if '0' <= c && c <= '9' {
        c as int - '0' as int
    } else if 'a' <= c && c <= 'f' {
        c as int - 'a' as int + 10
    } else {
        c as int - 'A' as int + 10
    }
}

/// The upper-case digit that writes the nibble `v`.
pub open spec fn upper_hex_char(v: int) -> char
    recommends
        0 <= v < 16,
{
    if v < 10 {
        ('0' as int + v) as u8 as char
    } else {
        ('A' as int + v - 10) as u8 as char
    }
}

/// The lower-case digit that writes the nibble `v`.
pub open spec fn lower_hex_char(v: int) -> char
    recommends
        0 <= v < 16,
{
    if v < 10 {
        ('0' as int + v) as u8 as char
    } else {
        ('a' as int + v - 10) as u8 as char
    }
}

/// `c` with a lower-case ASCII letter turned into its capital.
pub open spec fn ascii_upper(c: char) -> char {
    if 'a' <= c && c <= 'z' {
        (c as int - 32) as u8 as char
    } else {
        c
    }
}

/// `c` with an ASCII capital turned into its lower-case letter.
pub open spec fn ascii_lower(c: char) -> char {
    if 'A' <= c && c <= 'Z' {
        (c as int + 32) as u8 as char
    } else {
        c
    }
}

/// Both ways of writing a nibble are hexadecimal digits worth that nibble,
/// and they differ by case only.
pub proof fn hex_char_of_value(v: int)
    requires
        0 <= v < 16,
    ensures
        is_hex_digit(upper_hex_char(v)),
        is_hex_digit(lower_hex_char(v)),
        hex_digit_value(upper_hex_char(v)) == v,
        hex_digit_value(lower_hex_char(v)) == v,
        ascii_lower(upper_hex_char(v)) == lower_hex_char(v),
        ascii_upper(lower_hex_char(v)) == upper_hex_char(v),
        ascii_upper(upper_hex_char(v)) == upper_hex_char(v),
        ascii_lower(lower_hex_char(v)) == lower_hex_char(v),
{
}

/// Writing the value of a hexadecimal digit gives the digit back, in the
/// case asked for.
pub proof fn hex_value_of_char(c: char)
    requires
        is_hex_digit(c),
    ensures
        0 <= hex_digit_value(c) < 16,
        upper_hex_char(hex_digit_value(c)) == ascii_upper(c),
        lower_hex_char(hex_digit_value(c)) == ascii_lower(c),
{
}

/// The value of the ASCII byte `b` read as a hexadecimal digit, if it is one.
pub fn hex_digit_of_byte(b: u8) -> (r: Option<u8>)
    ensures
        r is Some <==> is_hex_digit(b as char),
        r matches Some(v) ==> v as int == hex_digit_value(b as char),
{
    if b >= 48 && b <= 57 {
        Some(b - 48)
    } else if b >= 97 && b <= 102 {
        Some(b - 87)
    } else if b >= 65 && b <= 70 {
        Some(b - 55)
    } else {
        None
    }
}

/// The one-character text that writes the nibble `v` in upper case.
pub fn upper_hex_str(v: u8) -> (r: &'static str)
    requires
        v < 16,
    ensures
        r@ == seq![upper_hex_char(v as int)],
{
    let digits: &'static str = "0123456789ABCDEF";
    proof {
        reveal_strlit("0123456789ABCDEF");
    }
    let r = digits.substring_ascii(v as usize, v as usize + 1);
    r
}

/// The one-character text that writes the nibble `v` in lower case.
pub fn lower_hex_str(v: u8) -> (r: &'static str)
    requires
        v < 16,
    ensures
        r@ == seq![lower_hex_char(v as int)],
{
    let digits: &'static str = "0123456789abcdef";
    proof {
        reveal_strlit("0123456789abcdef");
    }
    let r = digits.substring_ascii(v as usize, v as usize + 1);
    r
}

} // verus!
