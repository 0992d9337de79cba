//! Little-endian integers on the wire. The byte order itself is taken from
//! the `byteorder` crate; what it yields is stated here in arithmetic.

use byteorder::{ByteOrder, LittleEndian};
use vstd::prelude::*;

verus! {

/// The two bytes of `n`, least significant first.
pub open spec fn le_bytes_u16(n: u16) -> Seq<u8> {
    seq![(n % 0x100) as u8, (n / 0x100) as u8]
}

/// The four bytes of `n`, least significant first.
pub open spec fn le_bytes_u32(n: u32) -> Seq<u8> {
    seq![
        (n % 0x100) as u8,
        (n / 0x100 % 0x100) as u8,
        (n / 0x1_0000 % 0x100) as u8,
        (n / 0x100_0000) as u8,
    ]
}

/// The number whose four bytes, least significant first, are `bytes`.
pub open spec fn le_value_u32(bytes: Seq<u8>) -> u32
    recommends
        bytes.len() == 4,
{
    (bytes[0] + bytes[1] * 0x100 + bytes[2] * 0x1_0000 + bytes[3] * 0x100_0000) as u32
}

/// The two's complement reading of a 32-bit pattern.
pub open spec fn signed_of(bits: u32) -> i32 {
    if bits < 0x8000_0000 {
        bits as i32
    } else {
        (bits - 0x1_0000_0000) as i32
    }
}

/// The 32-bit pattern that stands for `n` in two's complement.
pub open spec fn bits_of(n: i32) -> u32 {
    if n >= 0 {
        n as u32
    } else {
        (n + 0x1_0000_0000) as u32
    }
}

/// `byteorder::LittleEndian::write_u16` on a two-byte buffer: afterwards the
/// buffer holds the low byte of `n`, then its high byte.
#[verifier::external_body]
pub(crate) fn write_u16(buf: &mut [u8; 2], n: u16)
    ensures
        final(buf)@ == le_bytes_u16(n),
{
    LittleEndian::write_u16(buf, n);
}

/// `byteorder::LittleEndian::read_u32` on a four-byte buffer: the bytes read
/// as one unsigned number, least significant byte first.
#[verifier::external_body]
pub(crate) fn read_u32(buf: &[u8; 4]) -> (n: u32)
    ensures
        n == le_value_u32(buf@),
{
    LittleEndian::read_u32(buf)
}

/// `byteorder::LittleEndian::write_u32` on a four-byte buffer: afterwards the
/// buffer holds the bytes of `n`, least significant first.
#[verifier::external_body]
pub(crate) fn write_u32(buf: &mut [u8; 4], n: u32)
    ensures
        final(buf)@ == le_bytes_u32(n),
{
    LittleEndian::write_u32(buf, n);
}

/// `byteorder::LittleEndian::read_i32` on a four-byte buffer: the bytes read
/// as one unsigned number, least significant byte first, and that number
/// taken in two's complement.
#[verifier::external_body]
pub(crate) fn read_i32(buf: &[u8; 4]) -> (n: i32)
    ensures
        n == signed_of(le_value_u32(buf@)),
{
    LittleEndian::read_i32(buf)
}

/// `byteorder::LittleEndian::write_i32` on a four-byte buffer: afterwards the
/// buffer holds the bytes of the two's complement pattern of `n`, least
/// significant first.
#[verifier::external_body]
pub(crate) fn write_i32(buf: &mut [u8; 4], n: i32)
    ensures
        final(buf)@ == le_bytes_u32(bits_of(n)),
{
    LittleEndian::write_i32(buf, n);
}

/// Reading back what was written gives the number that was written.
pub proof fn lemma_value_of_bytes(n: u32)
    ensures
        le_bytes_u32(n).len() == 4,
        le_value_u32(le_bytes_u32(n)) == n,
{
}

/// Writing what was read gives the bytes that were read.
pub proof fn lemma_bytes_of_value(bytes: Seq<u8>)
    requires
        bytes.len() == 4,
    ensures
        le_bytes_u32(le_value_u32(bytes)) == bytes,
{
}

/// The signed and the unsigned reading of a pattern determine each other.
pub proof fn lemma_signed_bits(n: i32, bits: u32)
    ensures
        signed_of(bits_of(n)) == n,
        bits_of(signed_of(bits)) == bits,
{
}

} // verus!
