//! Packets whose layout a schema describes: a typed struct, the list of its
//! field values in wire order, and the generic encode and decode built on
//! the engine.
use crate::engine::{
    conforms_all, data_of, decode_fields, decode_from, encode_all, encode_fields, kinds_match,
    lemma_decoded_shapes, lemma_round_trip, shapes_match,
};
use crate::field::{copy_range, shape_matches, Datum, DecodeError, Field, Value};
use vstd::arithmetic::div_mod::{lemma_add_mod_noop, lemma_small_mod};
use crate::body::{
    decode_parts, decode_parts_from, encode_body, encode_parts, entries_of, layouts_of,
    lemma_body_round_trip, lemma_decoded_part_shapes, part_shape_matches, parts_conform,
    parts_kinds, parts_shapes, Entry, Item, Layout, Part,
};
use crate::header::{decode_header, frame, lemma_header_round_trip, PacketHeader, HEADER_SIZE};
use vstd::prelude::*;

verus! {

/// A packet type whose body has a fixed layout of parts.
pub trait SchemaPacket: Sized {
    /// The parts of the body, in wire order.
    spec fn spec_schema() -> Seq<Layout>;

    /// The header written for this packet type.
    spec fn spec_header() -> PacketHeader;

    /// The entries of this packet, in wire order.
    spec fn model(&self) -> Seq<Entry>;

    /// Every field of this packet fits its slot: it is read back unchanged.
    spec fn wf(&self) -> bool;

    proof fn lemma_model(&self)
        ensures
            parts_kinds(Self::spec_schema(), self.model()),
            self.wf() ==> parts_conform(Self::spec_schema(), self.model()),
    ;

    fn header() -> (r: PacketHeader)
        ensures
            r == Self::spec_header(),
    ;

    fn schema() -> (r: Vec<Part>)
        ensures
            layouts_of(r@) == Self::spec_schema(),
    ;

    fn to_values(&self) -> (r: Vec<Item>)
        ensures
            entries_of(r@) == self.model(),
    ;

    fn from_values(vals: &Vec<Item>) -> (r: Self)
        requires
            parts_shapes(Self::spec_schema(), entries_of(vals@)),
        ensures
            r.model() == entries_of(vals@),
    ;
}

/// The bytes of the packet `p`.
pub open spec fn packet_bytes<P: SchemaPacket>(p: P, is_ngs: bool) -> Seq<u8> {
    frame(P::spec_header(), is_ngs, encode_body(P::spec_schema(), p.model()))
}

/// The entries that `d` holds for the layout: the parts read from the end of
/// the header up to the declared size; or why there are none.
pub open spec fn decode_entries(l: Seq<Layout>, d: Seq<u8>, is_ngs: bool) -> Result<
    Seq<Entry>,
    DecodeError,
> {
    match decode_header(d, is_ngs) {
        Err(e) => Err(e),
        Ok((_, size)) => match decode_parts_from(l, d.subrange(0, size), 0, HEADER_SIZE as int) {
            Err(e) => Err(e),
            Ok((vs, _)) => Ok(vs),
        },
    }
}

/// The body values that `d` holds for the schema: the fields read from the
/// end of the header up to the declared size; or why there are none.
pub open spec fn decode_values(schema: Seq<Field>, d: Seq<u8>, is_ngs: bool) -> Result<
    Seq<Datum>,
    DecodeError,
> {
    match decode_header(d, is_ngs) {
        Err(e) => Err(e),
        Ok((_, size)) => match decode_from(schema, d.subrange(0, size), 0, HEADER_SIZE as int) {
            Err(e) => Err(e),
            Ok((vs, _)) => Ok(vs),
        },
    }
}

/// A whole packet: the header `h`, then the fields of `schema` with the
/// values `vals`.
pub fn encode_frame(h: &PacketHeader, is_ngs: bool, schema: &Vec<Field>, vals: &Vec<Value>) -> (r: Vec<
    u8,
>)
    requires
        kinds_match(schema@, data_of(vals@)),
    ensures
        r@ == frame(*h, is_ngs, encode_all(schema@, data_of(vals@))),
{
    let mut body: Vec<u8> = Vec::new();
    encode_fields(&mut body, schema, vals);
    assert(body@ =~= encode_all(schema@, data_of(vals@)));
    let len = body.len() as u64;
    let size = (len % 0x1_0000_0000) as u32;
    proof {
        lemma_add_mod_noop(len as int, HEADER_SIZE as int, 0x1_0000_0000);
        lemma_small_mod(HEADER_SIZE as nat, 0x1_0000_0000);
    }
    let mut buf: Vec<u8> = Vec::new();
    h.write(&mut buf, is_ngs, size.wrapping_add(HEADER_SIZE as u32));
    buf.extend_from_slice(body.as_slice());
    assert(buf@ =~= frame(*h, is_ngs, body@));
    buf
}

/// The field values of `schema` in the packet at the start of `data`,
/// exactly as `decode_values` says.
pub fn decode_frame(data: &[u8], is_ngs: bool, schema: &Vec<Field>) -> (r: Result<
    Vec<Value>,
    DecodeError,
>)
    ensures
        match r {
            Ok(vals) => decode_values(schema@, data@, is_ngs) == Ok::<Seq<Datum>, DecodeError>(
                data_of(vals@),
            ) && shapes_match(schema@, data_of(vals@)),
            Err(e) => decode_values(schema@, data@, is_ngs) == Err::<Seq<Datum>, DecodeError>(e),
        },
{
    let (_, size) = match PacketHeader::read(data, is_ngs) {
        Ok(x) => x,
        Err(e) => {
            return Err(e);
        },
    };
    let framed = copy_range(data, 0, size);
    match decode_fields(framed.as_slice(), HEADER_SIZE, schema) {
        Err(e) => Err(e),
        Ok((vals, _)) => {
            proof {
                lemma_decoded_shapes(schema@, framed@, 0, HEADER_SIZE as int);
                assert forall|i: int| 0 <= i < schema@.len() implies shape_matches(
                    #[trigger] schema@[i],
                    data_of(vals@)[i],
                ) by {
                    assert(schema@[i] == schema@[0 + i]);
                }
            }
            Ok(vals)
        },
    }
}

/// The bytes of `p`: its type's header, with the size of the whole packet,
/// then its body.
pub fn encode_packet<P: SchemaPacket>(p: &P, is_ngs: bool) -> (r: Vec<u8>)
    ensures
        r@ == packet_bytes(*p, is_ngs),
{
    let parts = P::schema();
    let items = p.to_values();
    proof {
        p.lemma_model();
    }
    let mut body: Vec<u8> = Vec::new();
    encode_parts(&mut body, &parts, &items);
    assert(body@ =~= encode_body(P::spec_schema(), p.model()));
    frame_body(&P::header(), is_ngs, &body)
}

/// The header `h` with the size of the whole packet, then `body`.
pub fn frame_body(h: &PacketHeader, is_ngs: bool, body: &Vec<u8>) -> (r: Vec<u8>)
    ensures
        r@ == frame(*h, is_ngs, body@),
{
    let len = body.len() as u64;
    let size = (len % 0x1_0000_0000) as u32;
    proof {
        lemma_add_mod_noop(len as int, HEADER_SIZE as int, 0x1_0000_0000);
        lemma_small_mod(HEADER_SIZE as nat, 0x1_0000_0000);
    }
    let mut buf: Vec<u8> = Vec::new();
    h.write(&mut buf, is_ngs, size.wrapping_add(HEADER_SIZE as u32));
    buf.extend_from_slice(body.as_slice());
    assert(buf@ =~= frame(*h, is_ngs, body@));
    buf
}

/// Reads a packet of type `P` from `data`, exactly as `decode_entries` says.
pub fn decode_packet<P: SchemaPacket>(data: &[u8], is_ngs: bool) -> (r: Result<P, DecodeError>)
    ensures
        match r {
            Ok(p) => decode_entries(P::spec_schema(), data@, is_ngs) == Ok::<Seq<Entry>, DecodeError>(
                p.model(),
            ),
            Err(e) => decode_entries(P::spec_schema(), data@, is_ngs) == Err::<Seq<Entry>, DecodeError>(
                e,
            ),
        },
{
    let (_, size) = match PacketHeader::read(data, is_ngs) {
        Ok(x) => x,
        Err(e) => {
            return Err(e);
        },
    };
    let framed = copy_range(data, 0, size);
    let parts = P::schema();
    match decode_parts(framed.as_slice(), HEADER_SIZE, &parts) {
        Err(e) => Err(e),
        Ok((items, _)) => {
            proof {
                lemma_decoded_part_shapes(P::spec_schema(), framed@, 0, HEADER_SIZE as int);
                assert forall|i: int| 0 <= i < P::spec_schema().len() implies part_shape_matches(
                    #[trigger] P::spec_schema()[i],
                    entries_of(items@)[i],
                ) by {
                    assert(P::spec_schema()[i] == P::spec_schema()[0 + i]);
                }
            }
            Ok(P::from_values(&items))
        },
    }
}

/// Decoding a framed run of fields gives back every value that conforms to
/// the schema, in both wire variants, when the packet's size fits the 32-bit
/// size field.
pub proof fn lemma_frame_round_trip(h: PacketHeader, is_ngs: bool, schema: Seq<Field>, vals: Seq<Datum>)
    requires
        conforms_all(schema, vals),
        encode_all(schema, vals).len() + HEADER_SIZE <= u32::MAX,
    ensures
        decode_values(schema, frame(h, is_ngs, encode_all(schema, vals)), is_ngs) == Ok::<
            Seq<Datum>,
            DecodeError,
        >(vals),
{
    let body = encode_all(schema, vals);
    let d = frame(h, is_ngs, body);
    lemma_header_round_trip(h, is_ngs, body);
    let pre = crate::header::header_bytes(h, is_ngs, crate::header::size_field(body.len()));
    assert(d =~= pre + body);
    vstd::bytes::lemma_auto_spec_u32_to_from_le_bytes();
    vstd::bytes::lemma_auto_spec_u16_to_from_le_bytes();
    assert(pre.len() == HEADER_SIZE);
    assert(d.subrange(0, d.len() as int) =~= d);
    lemma_round_trip(schema, vals, pre);
}

/// Decoding an encoded packet gives back every entry, in both wire
/// variants, when each field fits its slot and the packet's size fits the
/// 32-bit size field.
pub proof fn lemma_packet_round_trip<P: SchemaPacket>(p: P, is_ngs: bool)
    requires
        p.wf(),
        encode_body(P::spec_schema(), p.model()).len() + HEADER_SIZE <= u32::MAX,
    ensures
        decode_entries(P::spec_schema(), packet_bytes(p, is_ngs), is_ngs) == Ok::<
            Seq<Entry>,
            DecodeError,
        >(p.model()),
{
    p.lemma_model();
    let body = encode_body(P::spec_schema(), p.model());
    let h = P::spec_header();
    let d = packet_bytes(p, is_ngs);
    lemma_header_round_trip(h, is_ngs, body);
    let pre = crate::header::header_bytes(h, is_ngs, crate::header::size_field(body.len()));
    assert(d =~= pre + body);
    vstd::bytes::lemma_auto_spec_u32_to_from_le_bytes();
    vstd::bytes::lemma_auto_spec_u16_to_from_le_bytes();
    assert(pre.len() == HEADER_SIZE);
    assert(d.subrange(0, d.len() as int) =~= d);
    lemma_body_round_trip(P::spec_schema(), p.model(), pre);
}

} // verus!
