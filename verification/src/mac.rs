//! The hardware address of a display, and its two written forms: sixteen
//! hexadecimal digits, in upper case for people and in lower case for file
//! names.

use crate::error::AppError;
use crate::hex::{
    ascii_lower, ascii_upper, hex_char_of_value, hex_digit_of_byte, hex_digit_value,
    hex_value_of_char, is_hex_digit, lower_hex_char, lower_hex_str, upper_hex_char, upper_hex_str,
};
use vstd::prelude::*;
use vstd::string::*;

verus! {

/// The number of bytes in a hardware address.
pub const MAC_LEN: usize = 8;

/// The hardware address of one display. Addresses are equal, and ordered,
/// byte by byte.
#[derive(Debug, Copy, Clone, PartialEq, Eq, PartialOrd, Ord)]
pub struct EpdMac(pub [u8; MAC_LEN]);

impl View for EpdMac {
    type V = Seq<u8>;

    open spec fn view(&self) -> Seq<u8> {
        self.0@
    }
}

/// `s` is the text of an address: sixteen hexadecimal digits.
pub open spec fn is_mac_text(s: Seq<char>) -> bool {
    &&& s.len() == 2 * MAC_LEN
    &&& forall|i: int| 0 <= i < s.len() ==> is_hex_digit(#[trigger] s[i])
}

/// The byte that the digits `hi` and `lo` write, `hi` first.
pub open spec fn byte_of_digits(hi: char, lo: char) -> u8 {
    (16 * hex_digit_value(hi) + hex_digit_value(lo)) as u8
}

/// The bytes that the text `s` writes, two digits a byte, from left to right.
pub open spec fn mac_bytes(s: Seq<char>) -> Seq<u8>
    recommends
        is_mac_text(s),
{
    Seq::new(MAC_LEN as nat, |i: int| byte_of_digits(s[2 * i], s[2 * i + 1]))
}

/// The nibble that digit `i` of the text of `bytes` writes: the high half of
/// a byte, then its low half.
pub open spec fn nibble(bytes: Seq<u8>, i: int) -> int {
    if i % 2 == 0 {
        bytes[i / 2] as int / 16
    } else {
        bytes[i / 2] as int % 16
    }
}

/// The text of `bytes` in upper case, the first byte first.
pub open spec fn upper_text(bytes: Seq<u8>) -> Seq<char> {
    Seq::new(2 * bytes.len(), |i: int| upper_hex_char(nibble(bytes, i)))
}

/// The text of `bytes` in lower case, the first byte first.
pub open spec fn lower_text(bytes: Seq<u8>) -> Seq<char> {
    Seq::new(2 * bytes.len(), |i: int| lower_hex_char(nibble(bytes, i)))
}

/// `s` with each lower-case ASCII letter turned into its capital.
pub open spec fn uppercase(s: Seq<char>) -> Seq<char> {
    Seq::new(s.len(), |i: int| ascii_upper(s[i]))
}

/// `s` with each ASCII capital turned into its lower-case letter.
pub open spec fn lowercase(s: Seq<char>) -> Seq<char> {
    Seq::new(s.len(), |i: int| ascii_lower(s[i]))
}

/// What a text that is no address is answered with.
pub open spec fn parse_error_text(s: Seq<char>) -> Seq<char> {
    if s.len() != 2 * MAC_LEN {
        "Mac must be 8 bytes long!"@
    } else {
        "Could not parse MAC from "@ + s
    }
}

/// The refusal of the text `s`.
fn parse_error(s: &str, len: usize) -> (e: AppError)
    requires
        len == s@.len(),
    ensures
        e is InvalidAddress,
        e.text() == parse_error_text(s@),
{
    if len != 2 * MAC_LEN {
        AppError::InvalidAddress("Mac must be 8 bytes long!".to_owned())
    } else {
        AppError::InvalidAddress("Could not parse MAC from ".to_owned().concat(s))
    }
}

impl EpdMac {
    /// Reads an address from its text: sixteen hexadecimal digits, in either
    /// case, two for each byte, the first byte first. Any other text is
    /// refused.
    pub fn parse(s: &str) -> (r: Result<EpdMac, AppError>)
        ensures
            r is Ok <==> is_mac_text(s@),
            r matches Ok(mac) ==> mac@ == mac_bytes(s@),
            r matches Err(e) ==> e is InvalidAddress && e.text() == parse_error_text(s@),
    {
        if !s.is_ascii() {
            return Err(parse_error(s, s.unicode_len()));
        }
        let digits = s.as_bytes();
        proof {
            is_ascii_spec_bytes(s);
        }
        if digits.len() != 2 * MAC_LEN {
            return Err(parse_error(s, digits.len()));
        }
        let mut bytes: [u8; MAC_LEN] = [0u8; MAC_LEN];
        let mut i: usize = 0;
        while i < MAC_LEN
            invariant
                i <= MAC_LEN,
                s@.len() == 2 * MAC_LEN,
                digits@.len() == 2 * MAC_LEN,
                forall|j: int| 0 <= j < 2 * MAC_LEN ==> #[trigger] digits@[j] as char == s@[j],
                forall|j: int| 0 <= j < 2 * i ==> is_hex_digit(#[trigger] s@[j]),
                forall|j: int|
                    0 <= j < i ==> #[trigger] bytes@[j] == byte_of_digits(s@[2 * j], s@[2 * j + 1]),
            decreases MAC_LEN - i,
        {
            let hi = hex_digit_of_byte(digits[2 * i]);
            let lo = hex_digit_of_byte(digits[2 * i + 1]);
            match (hi, lo) {
                (Some(h), Some(l)) => {
                    bytes[i] = h * 16 + l;
                },
                _ => {
                    return Err(parse_error(s, digits.len()));
                },
            }
            i += 1;
        }
        Ok(EpdMac(bytes))
    }

    /// The address as sixteen upper-case hexadecimal digits, the first byte
    /// first.
    pub fn to_string(&self) -> (text: String)
        ensures
            text@ == upper_text(self@),
    {
        let mut text = String::new();
        let mut i: usize = 0;
        while i < MAC_LEN
            invariant
                i <= MAC_LEN,
                self@.len() == MAC_LEN,
                text@.len() == 2 * i,
                forall|j: int|
                    0 <= j < 2 * i ==> #[trigger] text@[j] == upper_hex_char(nibble(self@, j)),
            decreases MAC_LEN - i,
        {
            let b: u8 = self.0[i];
            text.append(upper_hex_str(b / 16));
            text.append(upper_hex_str(b % 16));
            i += 1;
        }
        text
    }

    /// The address as sixteen lower-case hexadecimal digits: the stem of the
    /// names of the files that hold the display's image.
    pub fn file_stem(&self) -> (text: String)
        ensures
            text@ == lower_text(self@),
    {
        let mut text = String::new();
        let mut i: usize = 0;
        while i < MAC_LEN
            invariant
                i <= MAC_LEN,
                self@.len() == MAC_LEN,
                text@.len() == 2 * i,
                forall|j: int|
                    0 <= j < 2 * i ==> #[trigger] text@[j] == lower_hex_char(nibble(self@, j)),
            decreases MAC_LEN - i,
        {
            let b: u8 = self.0[i];
            text.append(lower_hex_str(b / 16));
            text.append(lower_hex_str(b % 16));
            i += 1;
        }
        text
    }
}

impl core::str::FromStr for EpdMac {
    type Err = AppError;

    fn from_str(s: &str) -> (r: Result<EpdMac, AppError>)
        ensures
            r is Ok <==> is_mac_text(s@),
            r matches Ok(mac) ==> mac@ == mac_bytes(s@),
            r matches Err(e) ==> e is InvalidAddress && e.text() == parse_error_text(s@),
    {
        EpdMac::parse(s)
    }
}

/// The text of an address, in either case, is the text of an address, and
/// reading it gives the address back.
pub proof fn parse_of_text(bytes: Seq<u8>)
    requires
        bytes.len() == MAC_LEN,
    ensures
        is_mac_text(upper_text(bytes)),
        is_mac_text(lower_text(bytes)),
        mac_bytes(upper_text(bytes)) == bytes,
        mac_bytes(lower_text(bytes)) == bytes,
{
    assert forall|i: int| 0 <= i < 2 * MAC_LEN implies is_hex_digit(
        #[trigger] upper_text(bytes)[i],
    ) && is_hex_digit(lower_text(bytes)[i]) && hex_digit_value(upper_text(bytes)[i]) == nibble(
        bytes,
        i,
    ) && hex_digit_value(lower_text(bytes)[i]) == nibble(bytes, i) by {
        hex_char_of_value(nibble(bytes, i));
    }
}

/// Writing the address that a text reads as gives the text back, in upper
/// case by `upper_text` and in lower case by `lower_text`.
pub proof fn text_of_parsed(s: Seq<char>)
    requires
        is_mac_text(s),
    ensures
        upper_text(mac_bytes(s)) == uppercase(s),
        lower_text(mac_bytes(s)) == lowercase(s),
{
    let bytes = mac_bytes(s);
    assert forall|i: int| 0 <= i < 2 * MAC_LEN implies #[trigger] upper_text(bytes)[i]
        == ascii_upper(s[i]) && lower_text(bytes)[i] == ascii_lower(s[i]) by {
        let k = i / 2;
        hex_value_of_char(s[2 * k]);
        hex_value_of_char(s[2 * k + 1]);
    }
}

/// Reading a text and writing the address settles after one round: the
/// upper-case text that comes out is the text of the same address, and
/// reading and writing it again changes nothing.
pub proof fn parse_format_idempotent(s: Seq<char>)
    requires
        is_mac_text(s),
    ensures
        is_mac_text(upper_text(mac_bytes(s))),
        mac_bytes(upper_text(mac_bytes(s))) == mac_bytes(s),
        upper_text(mac_bytes(upper_text(mac_bytes(s)))) == upper_text(mac_bytes(s)),
        uppercase(uppercase(s)) == uppercase(s),
{
    parse_of_text(mac_bytes(s));
    text_of_parsed(s);
}

/// Two addresses with the same text, in either case, are the same address.
pub proof fn text_is_injective(a: Seq<u8>, b: Seq<u8>)
    requires
        a.len() == MAC_LEN,
        b.len() == MAC_LEN,
        upper_text(a) == upper_text(b) || lower_text(a) == lower_text(b),
    ensures
        a == b,
{
    parse_of_text(a);
    parse_of_text(b);
}

} // verus!
