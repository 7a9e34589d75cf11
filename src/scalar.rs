//! Little-endian scalars: reading them out of a byte buffer and appending them
//! to one. The byte shuffling itself is done by `byteorder`.
use byteorder::{ByteOrder, LittleEndian};
use vstd::bytes::*;
use vstd::prelude::*;

verus! {

/// Relies on `byteorder::LittleEndian::read_u16`: the two bytes at `pos`,
/// least significant first.
#[verifier::external_body]
pub(crate) fn read_u16_at(data: &[u8], pos: usize) -> (r: u16)
    requires
        pos + 2 <= data@.len(),
    ensures
        r == spec_u16_from_le_bytes(data@.subrange(pos as int, pos + 2)),
{
    LittleEndian::read_u16(&data[pos..pos + 2])
}

/// Relies on `byteorder::LittleEndian::read_u32`: the four bytes at `pos`,
/// least significant first.
#[verifier::external_body]
pub(crate) fn read_u32_at(data: &[u8], pos: usize) -> (r: u32)
    requires
        pos + 4 <= data@.len(),
    ensures
        r == spec_u32_from_le_bytes(data@.subrange(pos as int, pos + 4)),
{
    LittleEndian::read_u32(&data[pos..pos + 4])
}

/// Relies on `byteorder::LittleEndian::read_u64`: the eight bytes at `pos`,
/// least significant first.
#[verifier::external_body]
pub(crate) fn read_u64_at(data: &[u8], pos: usize) -> (r: u64)
    requires
        pos + 8 <= data@.len(),
    ensures
        r == spec_u64_from_le_bytes(data@.subrange(pos as int, pos + 8)),
{
    LittleEndian::read_u64(&data[pos..pos + 8])
}

/// Relies on `byteorder::LittleEndian::write_u16`: fills two bytes with `n`,
/// least significant first; they are then appended to `buf`.
#[verifier::external_body]
pub(crate) fn put_u16(buf: &mut Vec<u8>, n: u16)
    ensures
        final(buf)@ == old(buf)@ + spec_u16_to_le_bytes(n),
{
    let mut b = [0u8; 2];
    LittleEndian::write_u16(&mut b, n);
    buf.extend_from_slice(&b);
}

/// Relies on `byteorder::LittleEndian::write_u32`: fills four bytes with `n`,
/// least significant first; they are then appended to `buf`.
#[verifier::external_body]
pub(crate) fn put_u32(buf: &mut Vec<u8>, n: u32)
    ensures
        final(buf)@ == old(buf)@ + spec_u32_to_le_bytes(n),
{
    let mut b = [0u8; 4];
    LittleEndian::write_u32(&mut b, n);
    buf.extend_from_slice(&b);
}

/// Relies on `byteorder::LittleEndian::write_u64`: fills eight bytes with `n`,
/// least significant first; they are then appended to `buf`.
#[verifier::external_body]
pub(crate) fn put_u64(buf: &mut Vec<u8>, n: u64)
    ensures
        final(buf)@ == old(buf)@ + spec_u64_to_le_bytes(n),
{
    let mut b = [0u8; 8];
    LittleEndian::write_u64(&mut b, n);
    buf.extend_from_slice(&b);
}

/// Appends `n` zero bytes: the content of a reserved region.
pub fn put_zeros(buf: &mut Vec<u8>, n: usize)
    ensures
        final(buf)@ == old(buf)@ + zeros(n as nat),
{
    let ghost start = buf@;
    let mut i: usize = 0;
    while i < n
        invariant
            i <= n,
            buf@ == start + zeros(i as nat),
        decreases n - i,
    {
        buf.push(0u8);
        i = i + 1;
        assert(buf@ =~= start + zeros(i as nat));
    }
}

/// `n` zero bytes.
pub open spec fn zeros(n: nat) -> Seq<u8> {
    Seq::new(n, |_i: int| 0u8)
}

} // verus!
