use vstd::prelude::*;

use byteorder::{ByteOrder, LittleEndian};

verus! {

/// The `u32` held little-endian in `b[i..i + 4]`.
pub open spec fn le_u32(b: Seq<u8>, i: int) -> u32 {
    (b[i] + 256 * b[i + 1] + 65536 * b[i + 2] + 16777216 * b[i + 3]) as u32
}

/// The four bytes of `n`, low byte first.
pub open spec fn u32_le(n: u32) -> Seq<u8> {
    seq![
        (n % 256) as u8,
        (n / 256 % 256) as u8,
        (n / 65536 % 256) as u8,
        (n / 16777216) as u8,
    ]
}

/// Relies on byteorder's `LittleEndian::read_u32`: the first four bytes of the
/// slice, low byte first (it panics on fewer than four).
#[verifier::external_body]
pub(crate) fn read_u32_le(b: &[u8], at: usize) -> (r: u32)
    requires
        at + 4 <= b@.len(),
    ensures
        r == le_u32(b@, at as int),
{
    LittleEndian::read_u32(&b[at..])
}

/// Relies on byteorder's `LittleEndian::write_u32`: writes `n` low byte first
/// into the first four bytes of the buffer.
#[verifier::external_body]
pub(crate) fn write_u32_le(n: u32) -> (r: [u8; 4])
    ensures
        r@ == u32_le(n),
{
    let mut b = [0u8; 4];
    LittleEndian::write_u32(&mut b, n);
    b
}

} // verus!
