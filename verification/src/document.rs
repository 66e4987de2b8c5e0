//! The document that is stored and rendered for a display: the drawing that
//! a client sent, inside a root element whose view box is the display.

use crate::hex::upper_hex_str;
use vstd::prelude::*;
use vstd::string::*;

verus! {

/// The character that writes the decimal digit `d`.
pub open spec fn digit_char(d: nat) -> char
    recommends
        d < 10,
{
    ('0' as nat + d) as u8 as char
}

/// `n` in decimal, without sign or leading zeros.
pub open spec fn decimal_text(n: nat) -> Seq<char>
    decreases n,
{
    if n < 10 {
        seq![digit_char(n)]
    } else {
        decimal_text(n / 10).push(digit_char(n % 10))
    }
}

/// The number that the decimal digits `s` write.
pub open spec fn decimal_value(s: Seq<char>) -> nat
    decreases s.len(),
{
    if s.len() == 0 {
        0
    } else {
        (10 * decimal_value(s.drop_last()) + (s.last() as nat - '0' as nat)) as nat
    }
}

/// The document for a display of `width` by `height` pixels around the
/// drawing `body`: an `svg` root element whose view box starts at the origin
/// and has the display's size, the drawing, and the end of the root element.
pub open spec fn svg_document(width: u32, height: u32, body: Seq<char>) -> Seq<char> {
    "<svg xmlns=\"http://www.w3.org/2000/svg\" viewBox=\"0 0 "@ + decimal_text(width as nat)
        + " "@ + decimal_text(height as nat) + "\">"@ + body + "</svg>"@
}

/// Appends `n` in decimal to `text`.
fn push_decimal(text: &mut String, n: u32)
    ensures
        final(text)@ == old(text)@ + decimal_text(n as nat),
    decreases n,
{
    if n >= 10 {
        push_decimal(text, n / 10);
    }
    let d: u8 = (n % 10) as u8;
    text.append(upper_hex_str(d));
}

/// The document for a display of `width` by `height` pixels around the
/// drawing `body`.
pub fn wrap_svg_body(width: u32, height: u32, body: &str) -> (document: String)
    ensures
        document@ == svg_document(width, height, body@),
{
    let mut document = "<svg xmlns=\"http://www.w3.org/2000/svg\" viewBox=\"0 0 ".to_owned();
    push_decimal(&mut document, width);
    document.append(" ");
    push_decimal(&mut document, height);
    document.append("\">");
    document.append(body);
    document.append("</svg>");
    document
}

/// A number in decimal is one digit or more, and reading the digits gives
/// the number back: the view box of a document states the display's size and
/// no other.
pub proof fn decimal_text_reads_back(n: nat)
    ensures
        decimal_text(n).len() >= 1,
        forall|i: int|
            0 <= i < decimal_text(n).len() ==> '0' <= #[trigger] decimal_text(n)[i] <= '9',
        decimal_value(decimal_text(n)) == n,
    decreases n,
{
    if n < 10 {
        let s = decimal_text(n);
        assert(decimal_value(s.drop_last()) == 0);
    } else {
        decimal_text_reads_back(n / 10);
        let s = decimal_text(n);
        assert(s.drop_last() =~= decimal_text(n / 10));
    }
}

} // verus!
