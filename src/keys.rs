//! The encryption handshake: the client's key blob (0x11, 0x0B), stored
//! byte-reversed and zero-padded to a fixed width, and the server's reply
//! (0x11, 0x0C), carried verbatim to the end of the packet.
use crate::engine::{data_of, lemma_encode_single};
use crate::body::{entries_of, item_bytes, layouts_of, part_shape_matches, Entry, Item, Layout, Part};
use crate::field::{copy_bytes, copy_range, Datum, DecodeError, Field, Value};
use crate::header::{frame, no_flags, Flags, PacketHeader};
use crate::packet::{decode_frame, decode_values, encode_frame, lemma_frame_round_trip, SchemaPacket};
use crate::field::{bytes_of, value_bytes};
use crate::scalar::zeros;
use crate::text::fit;
use vstd::prelude::*;

verus! {

/// Bytes of the key blob on the wire.
pub const KEY_WIRE_SIZE: usize = 0x104;

/// Bytes at the end of the wire blob that are not part of the key.
pub const KEY_TRAILER: usize = 4;

/// `s` back to front.
pub open spec fn reversed(s: Seq<u8>) -> Seq<u8> {
    Seq::new(s.len(), |i: int| s[s.len() - 1 - i])
}

/// The index of the first non-zero byte of `s` at or after `i`, or `s.len()`.
pub open spec fn first_nonzero_from(s: Seq<u8>, i: int) -> int
    decreases s.len() - i,
{
    if i < 0 || i >= s.len() {
        s.len() as int
    } else if s[i] != 0 {
        i
    } else {
        first_nonzero_from(s, i + 1)
    }
}

/// `s` without its leading zero bytes.
pub open spec fn strip_leading_zeros(s: Seq<u8>) -> Seq<u8> {
    s.subrange(first_nonzero_from(s, 0), s.len() as int)
}

/// The key blob written for the key `key`: reversed, then cut or zero-padded
/// to the wire width.
pub open spec fn key_to_wire(key: Seq<u8>) -> Seq<u8> {
    fit(reversed(key), KEY_WIRE_SIZE as nat)
}

/// The key that the wire blob `w` holds: reversed, its first four bytes (the
/// wire trailer) dropped, then its leading zeros.
pub open spec fn key_of_wire(w: Seq<u8>) -> Seq<u8> {
    let t = reversed(w);
    strip_leading_zeros(if t.len() >= KEY_TRAILER { t.subrange(KEY_TRAILER as int, t.len() as int) } else { Seq::empty() })
}

/// The key request header: category 0x11, subtype 0x0B, no flags.
pub open spec fn key_request_header() -> PacketHeader {
    PacketHeader { category: 0x11, subtype: 0x0B, flags: no_flags() }
}

/// `s` back to front.
pub fn reverse_bytes(s: &[u8]) -> (r: Vec<u8>)
    ensures
        r@ == reversed(s@),
{
    let mut r: Vec<u8> = Vec::new();
    let n = s.len();
    let mut i: usize = 0;
    while i < n
        invariant
            i <= n,
            n == s@.len(),
            r@ == reversed(s@).subrange(0, i as int),
        decreases n - i,
    {
        r.push(s[n - 1 - i]);
        i = i + 1;
        assert(r@ =~= reversed(s@).subrange(0, i as int));
    }
    assert(reversed(s@).subrange(0, n as int) =~= reversed(s@));
    r
}

/// The bytes of `s` from `from` on, without the zero bytes that lead them.
fn strip_from(s: &[u8], from: usize) -> (r: Vec<u8>)
    requires
        from <= s@.len(),
    ensures
        r@ == strip_leading_zeros(s@.subrange(from as int, s@.len() as int)),
{
    let ghost t = s@.subrange(from as int, s@.len() as int);
    let mut i: usize = from;
    while i < s.len() && s[i] == 0
        invariant
            from <= i <= s@.len(),
            t == s@.subrange(from as int, s@.len() as int),
            first_nonzero_from(t, 0) == first_nonzero_from(t, i - from),
        decreases s@.len() - i,
    {
        i = i + 1;
    }
    let r = copy_range(s, i, s.len());
    assert(r@ =~= strip_leading_zeros(t));
    r
}

#[derive(Debug, Default, Clone, PartialEq)]
pub struct EncryptionRequestPacket {
    /// The key, most significant byte first.
    pub rsa_data: Vec<u8>,
}

impl EncryptionRequestPacket {
    /// The whole packet: header, then the key reversed and zero-padded (or
    /// cut) to the wire width.
    pub fn write(&self, is_ngs: bool) -> (r: Vec<u8>)
        ensures
            r@ == frame(key_request_header(), is_ngs, key_to_wire(self.rsa_data@)),
    {
        let mut schema: Vec<Field> = Vec::new();
        schema.push(Field::Bytes(KEY_WIRE_SIZE));
        let mut vals: Vec<Value> = Vec::new();
        vals.push(Value::Bytes(reverse_bytes(self.rsa_data.as_slice())));
        proof {
            assert(data_of(vals@) =~= seq![Datum::Bytes(reversed(self.rsa_data@))]);
            assert(schema@ =~= seq![Field::Bytes(KEY_WIRE_SIZE)]);
            lemma_encode_single(Field::Bytes(KEY_WIRE_SIZE), Datum::Bytes(reversed(self.rsa_data@)));
        }
        let h = PacketHeader::new(0x11, 0x0B, Flags::default());
        encode_frame(&h, is_ngs, &schema, &vals)
    }

    /// Reads the packet: every byte after the header up to the declared size
    /// is the wire blob, and the key is what `key_of_wire` makes of it.
    pub fn read(data: &[u8], is_ngs: bool) -> (r: Result<EncryptionRequestPacket, DecodeError>)
        ensures
            match r {
                Ok(p) => decode_values(seq![Field::Rest], data@, is_ngs) is Ok && p.rsa_data@ == key_of_wire(
                    bytes_of(decode_values(seq![Field::Rest], data@, is_ngs)->Ok_0[0]),
                ),
                Err(e) => decode_values(seq![Field::Rest], data@, is_ngs) == Err::<Seq<Datum>, DecodeError>(e),
            },
    {
        let mut schema: Vec<Field> = Vec::new();
        schema.push(Field::Rest);
        assert(schema@ =~= seq![Field::Rest]);
        match decode_frame(data, is_ngs, &schema) {
            Err(e) => Err(e),
            Ok(vals) => {
                let w = value_bytes(&vals[0]);
                let t = reverse_bytes(w.as_slice());
                let start: usize = if t.len() >= KEY_TRAILER { KEY_TRAILER } else { t.len() };
                let key = strip_from(t.as_slice(), start);
                proof {
                    if t@.len() < KEY_TRAILER {
                        assert(t@.subrange(start as int, t@.len() as int) =~= Seq::<u8>::empty());
                    }
                }
                Ok(EncryptionRequestPacket { rsa_data: key })
            },
        }
    }
}

proof fn lemma_first_nonzero_bounds(s: Seq<u8>, i: int)
    requires
        0 <= i <= s.len(),
    ensures
        i <= first_nonzero_from(s, i) <= s.len(),
    decreases s.len() - i,
{
    if i < s.len() && s[i] == 0 {
        lemma_first_nonzero_bounds(s, i + 1);
    }
}

/// Leading zeros in front of `s` are stripped with those of `s`.
proof fn lemma_strip_padded(k: nat, s: Seq<u8>, i: int)
    requires
        0 <= i <= k,
    ensures
        first_nonzero_from(zeros(k) + s, i) == first_nonzero_from(s, 0) + k,
    decreases k + s.len() - i,
{
    let t = zeros(k) + s;
    if i < k {
        assert(t[i] == 0);
        lemma_strip_padded(k, s, i + 1);
    } else {
        lemma_strip_tail(k, s, 0);
    }
}

proof fn lemma_strip_tail(k: nat, s: Seq<u8>, j: int)
    requires
        0 <= j <= s.len(),
    ensures
        first_nonzero_from(zeros(k) + s, j + k) == first_nonzero_from(s, j) + k,
    decreases s.len() - j,
{
    let t = zeros(k) + s;
    if j < s.len() {
        assert(t[j + k] == s[j]);
        lemma_strip_tail(k, s, j + 1);
    }
}

/// The key read back from the blob written for a key of at most 0x100 bytes
/// is that key without its leading zero bytes, which carry no value: the
/// same number, most significant byte first. A key with no leading zero
/// comes back unchanged.
pub proof fn lemma_key_round_trip(key: Seq<u8>)
    requires
        key.len() <= KEY_WIRE_SIZE - KEY_TRAILER,
    ensures
        key_of_wire(key_to_wire(key)) == strip_leading_zeros(key),
        key.len() == 0 || key[0] != 0 ==> key_of_wire(key_to_wire(key)) == key,
{
    let pad = (KEY_WIRE_SIZE - key.len()) as nat;
    let w = key_to_wire(key);
    assert(w =~= reversed(key) + zeros(pad));
    let t = reversed(w);
    assert(t =~= zeros(pad) + key);
    let k = (pad - KEY_TRAILER) as nat;
    let u = t.subrange(KEY_TRAILER as int, t.len() as int);
    assert(u =~= zeros(k) + key);
    lemma_strip_padded(k, key, 0);
    lemma_first_nonzero_bounds(key, 0);
    assert(strip_leading_zeros(u) =~= strip_leading_zeros(key));
    if key.len() == 0 || key[0] != 0 {
        assert(strip_leading_zeros(key) =~= key);
    }
}

/// Decoding the bytes written for a key request gives back the wire blob
/// that was written, in both wire variants.
pub proof fn lemma_key_request_round_trip(key: Seq<u8>, is_ngs: bool)
    ensures
        decode_values(
            seq![Field::Rest],
            frame(key_request_header(), is_ngs, key_to_wire(key)),
            is_ngs,
        ) == Ok::<Seq<Datum>, DecodeError>(seq![Datum::Bytes(key_to_wire(key))]),
{
    let schema = seq![Field::Rest];
    let vals = seq![Datum::Bytes(key_to_wire(key))];
    lemma_encode_single(Field::Rest, Datum::Bytes(key_to_wire(key)));
    crate::text::lemma_fixed_text(reversed(key), KEY_WIRE_SIZE as nat);
    lemma_frame_round_trip(key_request_header(), is_ngs, schema, vals);
}

/// The server's reply to the key request: opaque bytes up to the end of the
/// packet.
#[derive(Debug, Default, Clone, PartialEq)]
pub struct EncryptionResponsePacket {
    pub data: Vec<u8>,
}

impl SchemaPacket for EncryptionResponsePacket {
    open spec fn spec_schema() -> Seq<Layout> {
        seq![Layout::One(Field::Rest)]
    }

    open spec fn spec_header() -> PacketHeader {
        PacketHeader { category: 0x11, subtype: 0x0C, flags: no_flags() }
    }

    open spec fn model(&self) -> Seq<Entry> {
        seq![Entry::One(Datum::Bytes(self.data@))]
    }

    open spec fn wf(&self) -> bool {
        true
    }

    proof fn lemma_model(&self) {
    }

    fn header() -> (r: PacketHeader) {
        PacketHeader::new(0x11, 0x0C, Flags::default())
    }

    fn schema() -> (r: Vec<Part>) {
        let mut v: Vec<Part> = Vec::new();
        v.push(Part::One(Field::Rest));
        assert(layouts_of(v@) =~= Self::spec_schema());
        v
    }

    fn to_values(&self) -> (r: Vec<Item>) {
        let mut v: Vec<Item> = Vec::new();
        v.push(Item::One(Value::Bytes(copy_bytes(&self.data))));
        assert(entries_of(v@) =~= self.model());
        v
    }

    fn from_values(vals: &Vec<Item>) -> (r: Self) {
        let r = EncryptionResponsePacket { data: item_bytes(&vals[0]) };
        assert(part_shape_matches(Self::spec_schema()[0], entries_of(vals@)[0]));
        assert(r.model() =~= entries_of(vals@));
        r
    }
}

} // verus!
