//! Big-endian 16-bit fields, the only multi-byte integers on the wire.

use byteorder::{BigEndian, ByteOrder};
use vstd::prelude::*;

verus! {

/// The value of a 16-bit field whose first byte on the wire is `hi` and whose
/// second is `lo`.
pub open spec fn be16(hi: u8, lo: u8) -> int {
    hi as int * 256 + lo as int
}

/// First wire byte of the 16-bit field that holds `value` (taken modulo 65536).
pub open spec fn high_byte(value: int) -> u8 {
    ((value / 256) % 256) as u8
}

/// Second wire byte of the 16-bit field that holds `value`.
pub open spec fn low_byte(value: int) -> u8 {
    (value % 256) as u8
}

/// The two wire bytes of a 16-bit field, most significant first.
pub fn split_u16(value: u16) -> (bytes: (u8, u8))
    ensures
        bytes.0 == high_byte(value as int),
        bytes.1 == low_byte(value as int),
        be16(bytes.0, bytes.1) == value,
{
    let hi: u8 = (value >> 8) as u8;
    let lo: u8 = (value & 0xff) as u8;
    assert(hi == (value / 256) % 256 && lo == value % 256) by (bit_vector)
        requires
            hi == (value >> 8) as u8,
            lo == (value & 0xff) as u8,
    ;
    (hi, lo)
}

/// Reads a 16-bit field with `byteorder::BigEndian::read_u16`.
///
/// Trusted: the call is taken to return the first byte of `buf` times 256 plus
/// the second, as `u16::from_be_bytes` on the first two bytes does. It panics
/// on a buffer of fewer than two bytes, which the precondition rules out.
#[verifier::external_body]
pub(crate) fn read_u16(buf: &[u8]) -> (value: u16)
    requires
        buf@.len() >= 2,
    ensures
        value as int == be16(buf@[0], buf@[1]),
{
    BigEndian::read_u16(buf)
}

/// The 16-bit field that starts at offset `at` of `bytes`.
pub fn field_at(bytes: &[u8], at: usize) -> (value: u16)
    requires
        at + 2 <= bytes.len(),
    ensures
        value as int == be16(bytes@[at as int], bytes@[at + 1]),
{
    read_u16(vstd::slice::slice_subrange(bytes, at, at + 2))
}

} // verus!
