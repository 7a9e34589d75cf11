//! The packet envelope: a declared size, the category and subtype that name
//! the packet type, and a flag byte. Two wire variants exist: the legacy one
//! and the current ("NGS") one.
use crate::field::DecodeError;
use crate::scalar::{put_u16, put_u32, read_u16_at, read_u32_at};
use vstd::bytes::*;
use vstd::prelude::*;

verus! {

/// The bytes of every header, in both variants.
pub const HEADER_SIZE: usize = 8;

/// Flag bits of the envelope. Bits that no field names are dropped on read.
#[derive(Debug, Clone, Copy, PartialEq, Eq, Structural)]
pub struct Flags {
    /// Variable-length fields carry obfuscated length prefixes.
    pub packed: bool,
    pub flag10: bool,
    pub full_movement: bool,
    pub object_related: bool,
}

/// No flag set.
pub open spec fn no_flags() -> Flags {
    Flags { packed: false, flag10: false, full_movement: false, object_related: false }
}

/// Only the `packed` flag set.
pub open spec fn packed_flags() -> Flags {
    Flags { packed: true, ..no_flags() }
}

impl Default for Flags {
    fn default() -> (r: Flags)
        ensures
            r == no_flags(),
    {
        Flags { packed: false, flag10: false, full_movement: false, object_related: false }
    }
}

impl Flags {
    /// Only the `packed` flag set: the flags of packets with obfuscated
    /// variable-length fields.
    pub fn packed() -> (r: Flags)
        ensures
            r == packed_flags(),
    {
        Flags { packed: true, flag10: false, full_movement: false, object_related: false }
    }
}

/// The flag byte for `f`.
pub open spec fn spec_flags_byte(f: Flags) -> u8 {
    ((if f.packed { 0x04int } else { 0 }) + (if f.flag10 { 0x10int } else { 0 }) + (if f.full_movement {
        0x20int
    } else {
        0
    }) + (if f.object_related { 0x40int } else { 0 })) as u8
}

/// The flags that the byte `b` sets.
pub open spec fn spec_flags_of(b: u8) -> Flags {
    Flags {
        packed: b & 0x04 != 0,
        flag10: b & 0x10 != 0,
        full_movement: b & 0x20 != 0,
        object_related: b & 0x40 != 0,
    }
}

impl Flags {
    /// The flag byte.
    pub fn to_byte(&self) -> (r: u8)
        ensures
            r == spec_flags_byte(*self),
    {
        let mut r: u8 = 0;
        if self.packed {
            r = r + 0x04;
        }
        if self.flag10 {
            r = r + 0x10;
        }
        if self.full_movement {
            r = r + 0x20;
        }
        if self.object_related {
            r = r + 0x40;
        }
        r
    }

    /// The flags that a flag byte sets.
    pub fn from_byte(b: u8) -> (r: Flags)
        ensures
            r == spec_flags_of(b),
    {
        Flags {
            packed: b & 0x04 != 0,
            flag10: b & 0x10 != 0,
            full_movement: b & 0x20 != 0,
            object_related: b & 0x40 != 0,
        }
    }
}

/// Reading back the byte of a set of flags gives the same flags.
pub proof fn lemma_flags_round_trip(f: Flags)
    ensures
        spec_flags_of(spec_flags_byte(f)) == f,
{
    let b = spec_flags_byte(f);
    let (p, a, m, o) = (f.packed, f.flag10, f.full_movement, f.object_related);
    assert(b == (if p { 4u8 } else { 0u8 }) | (if a { 0x10u8 } else { 0u8 }) | (if m { 0x20u8 } else {
        0u8
    }) | (if o { 0x40u8 } else { 0u8 })) by {
        assert(((if p { 4u8 } else { 0u8 }) | (if a { 0x10u8 } else { 0u8 }) | (if m { 0x20u8 } else {
            0u8
        }) | (if o { 0x40u8 } else { 0u8 })) == (if p { 4u8 } else { 0u8 }) + (if a { 0x10u8 } else {
            0u8
        }) + (if m { 0x20u8 } else { 0u8 }) + (if o { 0x40u8 } else { 0u8 })) by (bit_vector);
    }
    let x = b;
    assert((x == (if p { 4u8 } else { 0u8 }) | (if a { 0x10u8 } else { 0u8 }) | (if m { 0x20u8 } else {
        0u8
    }) | (if o { 0x40u8 } else { 0u8 })) ==> ((x & 0x04 != 0) == p && (x & 0x10 != 0) == a && (x
        & 0x20 != 0) == m && (x & 0x40 != 0) == o)) by (bit_vector);
}

/// Names a packet type and its wire variant.
#[derive(Debug, Clone, Copy, PartialEq, Eq, Structural)]
pub struct PacketHeader {
    pub category: u8,
    pub subtype: u8,
    pub flags: Flags,
}

/// The header bytes: the declared size of the whole packet, then, in the
/// legacy variant, category, subtype, flags and a zero byte; in the current
/// variant, flags, category and the subtype in two bytes.
pub open spec fn header_bytes(h: PacketHeader, is_ngs: bool, size: u32) -> Seq<u8> {
    spec_u32_to_le_bytes(size) + if is_ngs {
        seq![spec_flags_byte(h.flags), h.category] + spec_u16_to_le_bytes(h.subtype as u16)
    } else {
        seq![h.category, h.subtype, spec_flags_byte(h.flags), 0u8]
    }
}

/// The declared size of a packet whose body is `len` bytes long: the size of
/// the whole packet, kept to 32 bits.
pub open spec fn size_field(len: nat) -> u32 {
    ((len + HEADER_SIZE) % 0x1_0000_0000) as u32
}

/// A whole packet: the header, whose size counts itself, then the body.
pub open spec fn frame(h: PacketHeader, is_ngs: bool, body: Seq<u8>) -> Seq<u8> {
    header_bytes(h, is_ngs, size_field(body.len())) + body
}

/// The header at the start of `d` and the declared packet size; or why
/// there is none.
pub open spec fn decode_header(d: Seq<u8>, is_ngs: bool) -> Result<(PacketHeader, int), DecodeError> {
    if d.len() < HEADER_SIZE {
        Err(DecodeError::UnexpectedEndOfInput)
    } else {
        let size = spec_u32_from_le_bytes(d.subrange(0, 4)) as int;
        if size < HEADER_SIZE || size > d.len() {
            Err(DecodeError::InvalidLength)
        } else if is_ngs {
            let sub = spec_u16_from_le_bytes(d.subrange(6, 8));
            if sub > 0xFF {
                Err(DecodeError::MalformedScalar)
            } else {
                Ok((PacketHeader { category: d[5], subtype: sub as u8, flags: spec_flags_of(d[4]) }, size))
            }
        } else {
            Ok((PacketHeader { category: d[4], subtype: d[5], flags: spec_flags_of(d[6]) }, size))
        }
    }
}

impl PacketHeader {
    pub fn new(category: u8, subtype: u8, flags: Flags) -> (r: PacketHeader)
        ensures
            r == (PacketHeader { category, subtype, flags }),
    {
        PacketHeader { category, subtype, flags }
    }

    /// Appends the header with the declared size `size`.
    pub fn write(&self, buf: &mut Vec<u8>, is_ngs: bool, size: u32)
        ensures
            final(buf)@ == old(buf)@ + header_bytes(*self, is_ngs, size),
    {
        let ghost start = buf@;
        put_u32(buf, size);
        if is_ngs {
            buf.push(self.flags.to_byte());
            buf.push(self.category);
            put_u16(buf, self.subtype as u16);
        } else {
            buf.push(self.category);
            buf.push(self.subtype);
            buf.push(self.flags.to_byte());
            buf.push(0u8);
        }
        assert(buf@ =~= start + header_bytes(*self, is_ngs, size));
    }

    /// Reads the header at the start of `data`, exactly as `decode_header`
    /// says.
    pub fn read(data: &[u8], is_ngs: bool) -> (r: Result<(PacketHeader, usize), DecodeError>)
        ensures
            match r {
                Ok((h, size)) => decode_header(data@, is_ngs) == Ok::<(PacketHeader, int), DecodeError>(
                    (h, size as int),
                ),
                Err(e) => decode_header(data@, is_ngs) == Err::<(PacketHeader, int), DecodeError>(e),
            },
    {
        if data.len() < HEADER_SIZE {
            return Err(DecodeError::UnexpectedEndOfInput);
        }
        let size = read_u32_at(data, 0) as usize;
        if size < HEADER_SIZE || size > data.len() {
            return Err(DecodeError::InvalidLength);
        }
        if is_ngs {
            let sub = read_u16_at(data, 6);
            if sub > 0xFF {
                return Err(DecodeError::MalformedScalar);
            }
            Ok((PacketHeader::new(data[5], sub as u8, Flags::from_byte(data[4])), size))
        } else {
            Ok((PacketHeader::new(data[4], data[5], Flags::from_byte(data[6])), size))
        }
    }
}

/// Reading the header of a framed packet gives back the header and the size
/// of the whole packet, in both variants, as long as that size fits in the
/// 32-bit size field.
pub proof fn lemma_header_round_trip(h: PacketHeader, is_ngs: bool, body: Seq<u8>)
    requires
        body.len() + HEADER_SIZE <= u32::MAX,
    ensures
        decode_header(frame(h, is_ngs, body), is_ngs) == Ok::<(PacketHeader, int), DecodeError>(
            (h, body.len() + HEADER_SIZE),
        ),
{
    let d = frame(h, is_ngs, body);
    let size = (body.len() + HEADER_SIZE) as u32;
    lemma_auto_spec_u32_to_from_le_bytes();
    lemma_auto_spec_u16_to_from_le_bytes();
    lemma_flags_round_trip(h.flags);
    assert(d.subrange(0, 4) =~= spec_u32_to_le_bytes(size));
    if is_ngs {
        assert(d.subrange(6, 8) =~= spec_u16_to_le_bytes(h.subtype as u16));
    }
}

} // verus!
