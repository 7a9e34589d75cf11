//! Field descriptors, field values, and the codec of a single field.
use crate::obfuscation::{deobfuscate, obfuscate, spec_deobfuscate, spec_obfuscate};
use crate::scalar::{put_u16, put_u32, put_u64, put_zeros, read_u16_at, read_u32_at, read_u64_at, zeros};
use crate::text::{find_zero, fit, no_zero, put_fixed, until_zero};
use vstd::bytes::*;
use vstd::prelude::*;

verus! {

/// Why a packet could not be decoded.
#[derive(Debug, Clone, Copy, PartialEq, Eq, Structural)]
pub enum DecodeError {
    /// The buffer ended before a field did.
    UnexpectedEndOfInput,
    /// A length (an obfuscated length prefix, or a packet's declared size)
    /// points past the end of the buffer.
    InvalidLength,
    /// Wire bytes that the field's in-memory width cannot hold.
    MalformedScalar,
}

/// How one field sits on the wire.
#[derive(Debug, Clone, Copy, PartialEq, Eq, Structural)]
pub enum Field {
    U8,
    /// Two bytes, little-endian.
    U16,
    /// Four bytes, little-endian.
    U32,
    /// Eight bytes, little-endian.
    U64,
    /// Exactly this many raw bytes.
    Bytes(usize),
    /// Text in a slot of this many bytes, ended by a zero byte when shorter.
    Text(usize),
    /// A length prefix obfuscated with (key, mix), the bytes, and zeros up to
    /// the next multiple of four.
    Var(u32, u32),
    /// A reserved region of this many bytes: zeros on write, skipped on read.
    Skip(usize),
    /// Every byte up to the end of the packet.
    Rest,
}

/// The value of one field.
#[derive(Debug, Clone, PartialEq, Eq)]
pub enum Value {
    U8(u8),
    U16(u16),
    U32(u32),
    U64(u64),
    Bytes(Vec<u8>),
    /// The value of a reserved region.
    Empty,
}

/// What a `Value` holds.
pub enum Datum {
    U8(u8),
    U16(u16),
    U32(u32),
    U64(u64),
    Bytes(Seq<u8>),
    Empty,
}

impl View for Value {
    type V = Datum;

    open spec fn view(&self) -> Datum {
        match self {
            Value::U8(x) => Datum::U8(*x),
            Value::U16(x) => Datum::U16(*x),
            Value::U32(x) => Datum::U32(*x),
            Value::U64(x) => Datum::U64(*x),
            Value::Bytes(b) => Datum::Bytes(b@),
            Value::Empty => Datum::Empty,
        }
    }
}

/// The zero bytes that follow `len` bytes up to the next multiple of four.
pub open spec fn pad4(len: nat) -> nat {
    ((4 - len % 4) % 4) as nat
}

/// The value has the shape that the field writes.
pub open spec fn kind_matches(f: Field, v: Datum) -> bool {
    match (f, v) {
        (Field::U8, Datum::U8(_)) => true,
        (Field::U16, Datum::U16(_)) => true,
        (Field::U32, Datum::U32(_)) => true,
        (Field::U64, Datum::U64(_)) => true,
        (Field::Bytes(_), Datum::Bytes(_)) => true,
        (Field::Text(_), Datum::Bytes(_)) => true,
        (Field::Var(_, _), Datum::Bytes(_)) => true,
        (Field::Skip(_), Datum::Empty) => true,
        (Field::Rest, Datum::Bytes(_)) => true,
        _ => false,
    }
}

/// The value has the shape that decoding the field gives: the field's kind,
/// and exactly `n` bytes for a run of `n` raw bytes.
pub open spec fn shape_matches(f: Field, v: Datum) -> bool {
    &&& kind_matches(f, v)
    &&& match (f, v) {
        (Field::Bytes(n), Datum::Bytes(b)) => b.len() == n,
        _ => true,
    }
}

/// The value is read back unchanged after it is written: it has the shape
/// of the field and loses nothing in it. `last` says whether the field ends
/// the packet.
pub open spec fn conforms(f: Field, v: Datum, last: bool) -> bool {
    &&& kind_matches(f, v)
    &&& match (f, v) {
        (Field::Bytes(n), Datum::Bytes(b)) => b.len() == n,
        (Field::Text(n), Datum::Bytes(b)) => b.len() <= n && no_zero(b),
        (Field::Var(_, _), Datum::Bytes(b)) => b.len() <= u32::MAX,
        (Field::Rest, _) => last,
        _ => true,
    }
}

/// The bytes that the field writes for the value.
pub open spec fn encode_field(f: Field, v: Datum) -> Seq<u8> {
    match (f, v) {
        (Field::U8, Datum::U8(x)) => seq![x],
        (Field::U16, Datum::U16(x)) => spec_u16_to_le_bytes(x),
        (Field::U32, Datum::U32(x)) => spec_u32_to_le_bytes(x),
        (Field::U64, Datum::U64(x)) => spec_u64_to_le_bytes(x),
        (Field::Bytes(n), Datum::Bytes(b)) => fit(b, n as nat),
        (Field::Text(n), Datum::Bytes(b)) => fit(b, n as nat),
        (Field::Var(key, mix), Datum::Bytes(b)) => spec_u32_to_le_bytes(
            spec_obfuscate(b.len() as u32, key, mix),
        ) + b + zeros(pad4(b.len())),
        (Field::Skip(n), _) => zeros(n as nat),
        (Field::Rest, Datum::Bytes(b)) => b,
        _ => Seq::empty(),
    }
}

/// The value of the field that starts at `p` in `d`, and where the next
/// field starts; or why there is none.
pub open spec fn decode_field(f: Field, d: Seq<u8>, p: int) -> Result<(Datum, int), DecodeError> {
    let rem = d.len() - p;
    match f {
        Field::U8 => if rem >= 1 {
            Ok((Datum::U8(d[p]), p + 1))
        } else {
            Err(DecodeError::UnexpectedEndOfInput)
        },
        Field::U16 => if rem >= 2 {
            Ok((Datum::U16(spec_u16_from_le_bytes(d.subrange(p, p + 2))), p + 2))
        } else {
            Err(DecodeError::UnexpectedEndOfInput)
        },
        Field::U32 => if rem >= 4 {
            Ok((Datum::U32(spec_u32_from_le_bytes(d.subrange(p, p + 4))), p + 4))
        } else {
            Err(DecodeError::UnexpectedEndOfInput)
        },
        Field::U64 => if rem >= 8 {
            Ok((Datum::U64(spec_u64_from_le_bytes(d.subrange(p, p + 8))), p + 8))
        } else {
            Err(DecodeError::UnexpectedEndOfInput)
        },
        Field::Bytes(n) => if rem >= n {
            Ok((Datum::Bytes(d.subrange(p, p + n)), p + n))
        } else {
            Err(DecodeError::UnexpectedEndOfInput)
        },
        Field::Text(n) => if rem >= n {
            Ok((Datum::Bytes(until_zero(d.subrange(p, p + n))), p + n))
        } else {
            Err(DecodeError::UnexpectedEndOfInput)
        },
        Field::Var(key, mix) => if rem < 4 {
            Err(DecodeError::UnexpectedEndOfInput)
        } else {
            let len = spec_deobfuscate(spec_u32_from_le_bytes(d.subrange(p, p + 4)), key, mix) as int;
            if len > rem - 4 {
                Err(DecodeError::InvalidLength)
            } else if len + pad4(len as nat) > rem - 4 {
                Err(DecodeError::UnexpectedEndOfInput)
            } else {
                Ok((Datum::Bytes(d.subrange(p + 4, p + 4 + len)), p + 4 + len + pad4(len as nat)))
            }
        },
        Field::Skip(n) => if rem >= n {
            Ok((Datum::Empty, p + n))
        } else {
            Err(DecodeError::UnexpectedEndOfInput)
        },
        Field::Rest => Ok((Datum::Bytes(d.subrange(p, d.len() as int)), d.len() as int)),
    }
}

/// The bytes `data[from..to]`.
pub(crate) fn copy_range(data: &[u8], from: usize, to: usize) -> (r: Vec<u8>)
    requires
        from <= to <= data@.len(),
    ensures
        r@ == data@.subrange(from as int, to as int),
{
    let mut r: Vec<u8> = Vec::new();
    let mut i: usize = from;
    while i < to
        invariant
            from <= i <= to,
            to <= data@.len(),
            r@ == data@.subrange(from as int, i as int),
        decreases to - i,
    {
        r.push(data[i]);
        i = i + 1;
        assert(r@ =~= data@.subrange(from as int, i as int));
    }
    r
}

/// The integer that a four-byte value holds.
pub open spec fn word_of(d: Datum) -> u32 {
    match d {
        Datum::U32(x) => x,
        _ => 0,
    }
}

/// The integer that a two-byte value holds.
pub open spec fn half_of(d: Datum) -> u16 {
    match d {
        Datum::U16(x) => x,
        _ => 0,
    }
}

/// The bytes that a byte-run value holds.
pub open spec fn bytes_of(d: Datum) -> Seq<u8> {
    match d {
        Datum::Bytes(b) => b,
        _ => Seq::empty(),
    }
}

/// The integer that a one-byte value holds.
pub open spec fn byte_of(d: Datum) -> u8 {
    match d {
        Datum::U8(x) => x,
        _ => 0,
    }
}

/// The integer that an eight-byte value holds.
pub open spec fn long_of(d: Datum) -> u64 {
    match d {
        Datum::U64(x) => x,
        _ => 0,
    }
}

/// The integer of a four-byte value.
pub fn value_word(v: &Value) -> (r: u32)
    ensures
        r == word_of(v@),
{
    match v {
        Value::U32(x) => *x,
        _ => 0,
    }
}

/// The integer of a two-byte value.
pub fn value_half(v: &Value) -> (r: u16)
    ensures
        r == half_of(v@),
{
    match v {
        Value::U16(x) => *x,
        _ => 0,
    }
}

/// The bytes of a byte-run value.
pub fn value_bytes(v: &Value) -> (r: Vec<u8>)
    ensures
        r@ == bytes_of(v@),
{
    match v {
        Value::Bytes(b) => crate::field::copy_range(b.as_slice(), 0, b.len()),
        _ => Vec::new(),
    }
}

/// The integer of a one-byte value.
pub fn value_byte(v: &Value) -> (r: u8)
    ensures
        r == byte_of(v@),
{
    match v {
        Value::U8(x) => *x,
        _ => 0,
    }
}

/// The integer of an eight-byte value.
pub fn value_long(v: &Value) -> (r: u64)
    ensures
        r == long_of(v@),
{
    match v {
        Value::U64(x) => *x,
        _ => 0,
    }
}

/// A copy of `b`.
pub fn copy_bytes(b: &Vec<u8>) -> (r: Vec<u8>)
    ensures
        r@ == b@,
{
    let r = copy_range(b.as_slice(), 0, b.len());
    assert(r@ =~= b@);
    r
}

/// The bytes of an array.
pub fn array_bytes<const N: usize>(a: &[u8; N]) -> (r: Vec<u8>)
    ensures
        r@ == a@,
{
    let mut r: Vec<u8> = Vec::new();
    let mut i: usize = 0;
    while i < N
        invariant
            i <= N,
            a@.len() == N,
            r@ == a@.subrange(0, i as int),
        decreases N - i,
    {
        r.push(a[i]);
        i = i + 1;
        assert(r@ =~= a@.subrange(0, i as int));
    }
    assert(r@ =~= a@);
    r
}

/// An array holding the bytes `b`, which are exactly `N`.
pub fn bytes_array<const N: usize>(b: &Vec<u8>) -> (r: [u8; N])
    requires
        b@.len() == N,
    ensures
        r@ == b@,
{
    let mut r = [0u8; N];
    let mut i: usize = 0;
    while i < N
        invariant
            i <= N,
            b@.len() == N,
            r@.len() == N,
            forall|j: int| 0 <= j < i ==> #[trigger] r@[j] == b@[j],
        decreases N - i,
    {
        r[i] = b[i];
        i = i + 1;
    }
    assert(r@ =~= b@);
    r
}

/// Appends the bytes that `f` writes for `v`.
pub fn put_field(buf: &mut Vec<u8>, f: Field, v: &Value)
    requires
        kind_matches(f, v@),
    ensures
        final(buf)@ == old(buf)@ + encode_field(f, v@),
{
    let ghost start = buf@;
    match (f, v) {
        (Field::U8, Value::U8(x)) => {
            buf.push(*x);
            assert(buf@ =~= start + seq![*x]);
        },
        (Field::U16, Value::U16(x)) => put_u16(buf, *x),
        (Field::U32, Value::U32(x)) => put_u32(buf, *x),
        (Field::U64, Value::U64(x)) => put_u64(buf, *x),
        (Field::Bytes(n), Value::Bytes(b)) => put_fixed(buf, b.as_slice(), n),
        (Field::Text(n), Value::Bytes(b)) => put_fixed(buf, b.as_slice(), n),
        (Field::Var(key, mix), Value::Bytes(b)) => {
            let len = b.len();
            put_u32(buf, obfuscate(len as u32, key, mix));
            let ghost mid = buf@;
            put_fixed(buf, b.as_slice(), len);
            assert(fit(b@, len as nat) =~= b@);
            put_zeros(buf, (4 - len % 4) % 4);
            assert(buf@ =~= start + encode_field(f, v@));
        },
        (Field::Skip(n), _) => put_zeros(buf, n),
        (Field::Rest, Value::Bytes(b)) => {
            let len = b.len();
            put_fixed(buf, b.as_slice(), len);
            assert(fit(b@, len as nat) =~= b@);
        },
        _ => {},
    }
}

/// Reads the field `f` that starts at `pos`: its value and where the next
/// field starts, exactly as `decode_field` says.
pub fn take_field(data: &[u8], pos: usize, f: Field) -> (r: Result<(Value, usize), DecodeError>)
    requires
        pos <= data@.len(),
    ensures
        match r {
            Ok((v, q)) => decode_field(f, data@, pos as int) == Ok::<(Datum, int), DecodeError>((v@, q as int)),
            Err(e) => decode_field(f, data@, pos as int) == Err::<(Datum, int), DecodeError>(e),
        },
{
    let rem = data.len() - pos;
    match f {
        Field::U8 => {
            if rem >= 1 {
                Ok((Value::U8(data[pos]), pos + 1))
            } else {
                Err(DecodeError::UnexpectedEndOfInput)
            }
        },
        Field::U16 => {
            if rem >= 2 {
                Ok((Value::U16(read_u16_at(data, pos)), pos + 2))
            } else {
                Err(DecodeError::UnexpectedEndOfInput)
            }
        },
        Field::U32 => {
            if rem >= 4 {
                Ok((Value::U32(read_u32_at(data, pos)), pos + 4))
            } else {
                Err(DecodeError::UnexpectedEndOfInput)
            }
        },
        Field::U64 => {
            if rem >= 8 {
                Ok((Value::U64(read_u64_at(data, pos)), pos + 8))
            } else {
                Err(DecodeError::UnexpectedEndOfInput)
            }
        },
        Field::Bytes(n) => {
            if rem >= n {
                Ok((Value::Bytes(copy_range(data, pos, pos + n)), pos + n))
            } else {
                Err(DecodeError::UnexpectedEndOfInput)
            }
        },
        Field::Text(n) => {
            if rem >= n {
                let k = find_zero(data, pos, pos + n);
                let t = copy_range(data, pos, k);
                assert(t@ =~= until_zero(data@.subrange(pos as int, pos + n)));
                Ok((Value::Bytes(t), pos + n))
            } else {
                Err(DecodeError::UnexpectedEndOfInput)
            }
        },
        Field::Var(key, mix) => {
            if rem < 4 {
                Err(DecodeError::UnexpectedEndOfInput)
            } else {
                let len = deobfuscate(read_u32_at(data, pos), key, mix) as usize;
                if len > rem - 4 {
                    Err(DecodeError::InvalidLength)
                } else {
                    let pad = (4 - len % 4) % 4;
                    if pad > rem - 4 - len {
                        Err(DecodeError::UnexpectedEndOfInput)
                    } else {
                        let b = copy_range(data, pos + 4, pos + 4 + len);
                        Ok((Value::Bytes(b), pos + 4 + len + pad))
                    }
                }
            }
        },
        Field::Skip(n) => {
            if rem >= n {
                Ok((Value::Empty, pos + n))
            } else {
                Err(DecodeError::UnexpectedEndOfInput)
            }
        },
        Field::Rest => Ok((Value::Bytes(copy_range(data, pos, data.len())), data.len())),
    }
}

} // verus!
