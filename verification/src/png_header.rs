//! The start of a PNG file: the signature, and the header chunk with the
//! size of the image.

use vstd::prelude::*;

verus! {

/// The bytes before the size in every PNG file: the eight bytes of the
/// signature, the length of the header chunk, which is 13, and its name,
/// `IHDR`.
pub open spec fn png_preamble() -> Seq<u8> {
    seq![137u8, 80, 78, 71, 13, 10, 26, 10, 0, 0, 0, 13, 73, 72, 68, 82]
}

/// The number that the four bytes of `bytes` from `at` on write, the most
/// significant byte first.
pub open spec fn be_u32(bytes: Seq<u8>, at: int) -> u32
    recommends
        0 <= at,
        at + 4 <= bytes.len(),
{
    (bytes[at] as int * 0x100_0000 + bytes[at + 1] as int * 0x1_0000 + bytes[at + 2] as int
        * 0x100 + bytes[at + 3] as int) as u32
}

/// The width and the height that `bytes` declares as a PNG file; `None`
/// where `bytes` does not start as a PNG file does.
pub open spec fn png_size(bytes: Seq<u8>) -> Option<(u32, u32)> {
    if bytes.len() >= 24 && bytes.subrange(0, 16) == png_preamble() {
        Some((be_u32(bytes, 16), be_u32(bytes, 20)))
    } else {
        None
    }
}

/// Reads four bytes of `bytes` from `at` on as a number, the most
/// significant byte first.
fn read_be_u32(bytes: &Vec<u8>, at: usize) -> (n: u32)
    requires
        at + 4 <= bytes.len(),
    ensures
        n == be_u32(bytes@, at as int),
{
    let b0: u32 = bytes[at] as u32;
    let b1: u32 = bytes[at + 1] as u32;
    let b2: u32 = bytes[at + 2] as u32;
    let b3: u32 = bytes[at + 3] as u32;
    b0 * 0x100_0000 + b1 * 0x1_0000 + b2 * 0x100 + b3
}

/// The width and the height that `bytes` declares as a PNG file; `None`
/// where `bytes` does not start as a PNG file does.
pub fn png_dimensions(bytes: &Vec<u8>) -> (size: Option<(u32, u32)>)
    ensures
        size == png_size(bytes@),
{
    let preamble: [u8; 16] = [137, 80, 78, 71, 13, 10, 26, 10, 0, 0, 0, 13, 73, 72, 68, 82];
    if bytes.len() < 24 {
        return None;
    }
    let mut i: usize = 0;
    while i < 16
        invariant
            i <= 16,
            bytes.len() >= 24,
            preamble@ == png_preamble(),
            forall|j: int| 0 <= j < i ==> bytes@[j] == #[trigger] preamble@[j],
        decreases 16 - i,
    {
        if bytes[i] != preamble[i] {
            return None;
        }
        i += 1;
    }
    assert(bytes@.subrange(0, 16) =~= png_preamble());
    Some((read_be_u32(bytes, 16), read_be_u32(bytes, 20)))
}

} // verus!
