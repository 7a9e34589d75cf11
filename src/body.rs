//! Packet bodies: a list of parts, each a single field or a list of
//! records. A list is an obfuscated element count, the records one after
//! another (each a run of fields with a fixed schema), and zeros up to the
//! next multiple of four bytes.
use crate::engine::{
    conforms_each, data_of, decode_fields, decode_from, encode_all, encode_fields, encode_from,
    kinds_match, lemma_decoded_shapes, lemma_round_trip_within, shapes_match,
};
use crate::field::{
    byte_of, bytes_of, conforms, decode_field, encode_field, half_of, kind_matches, long_of, pad4,
    put_field, shape_matches, take_field, value_byte, value_bytes, value_half, value_long,
    value_word, word_of, Datum, DecodeError, Field, Value,
};
use crate::obfuscation::{
    deobfuscate, lemma_deobfuscate_obfuscate, obfuscate, spec_deobfuscate, spec_obfuscate,
};
use crate::scalar::{put_u32, put_zeros, read_u32_at, zeros};
use vstd::bytes::*;
use vstd::prelude::*;

verus! {

/// How one part of a body sits on the wire.
#[derive(Debug, Clone, PartialEq, Eq)]
pub enum Part {
    One(Field),
    /// Records of the given schema, counted by a prefix obfuscated with
    /// (key, mix).
    List(u32, u32, Vec<Field>),
}

/// What a `Part` describes.
pub enum Layout {
    One(Field),
    List(u32, u32, Seq<Field>),
}

impl View for Part {
    type V = Layout;

    open spec fn view(&self) -> Layout {
        match self {
            Part::One(f) => Layout::One(*f),
            Part::List(k, m, rec) => Layout::List(*k, *m, rec@),
        }
    }
}

/// The value of one part.
#[derive(Debug, Clone, PartialEq, Eq)]
pub enum Item {
    One(Value),
    List(Vec<Vec<Value>>),
}

/// What an `Item` holds.
pub enum Entry {
    One(Datum),
    List(Seq<Seq<Datum>>),
}

/// What a list of records holds.
pub open spec fn records_of(es: Seq<Vec<Value>>) -> Seq<Seq<Datum>> {
    es.map_values(|e: Vec<Value>| data_of(e@))
}

impl View for Item {
    type V = Entry;

    open spec fn view(&self) -> Entry {
        match self {
            Item::One(v) => Entry::One(v@),
            Item::List(es) => Entry::List(records_of(es@)),
        }
    }
}

pub open spec fn layouts_of(parts: Seq<Part>) -> Seq<Layout> {
    parts.map_values(|p: Part| p@)
}

pub open spec fn entries_of(items: Seq<Item>) -> Seq<Entry> {
    items.map_values(|x: Item| x@)
}

/// A record schema that a list can hold: it starts with an integer field or
/// a run of raw bytes, so that every record takes at least one byte.
pub open spec fn record_ok(rec: Seq<Field>) -> bool {
    &&& rec.len() > 0
    &&& (rec[0] == Field::U8 || rec[0] == Field::U16 || rec[0] == Field::U32 || rec[0] == Field::U64
        || (rec[0] matches Field::Bytes(n) && n > 0))
}

/// Each record has the shapes of the record schema's fields.
pub open spec fn records_kinds(rec: Seq<Field>, es: Seq<Seq<Datum>>) -> bool {
    forall|k: int| 0 <= k < es.len() ==> kinds_match(rec, #[trigger] es[k])
}

pub open spec fn part_kind_matches(p: Layout, e: Entry) -> bool {
    match (p, e) {
        (Layout::One(f), Entry::One(v)) => kind_matches(f, v),
        (Layout::List(_, _, rec), Entry::List(es)) => records_kinds(rec, es),
        _ => false,
    }
}

pub open spec fn part_shape_matches(p: Layout, e: Entry) -> bool {
    match (p, e) {
        (Layout::One(f), Entry::One(v)) => shape_matches(f, v),
        (Layout::List(_, _, rec), Entry::List(es)) => records_shapes(rec, es),
        _ => false,
    }
}

/// The value is read back unchanged; `last` says whether the part ends the
/// body.
pub open spec fn part_conforms(p: Layout, e: Entry, last: bool) -> bool {
    match (p, e) {
        (Layout::One(f), Entry::One(v)) => conforms(f, v, last),
        (Layout::List(_, _, rec), Entry::List(es)) => {
            &&& record_ok(rec)
            &&& es.len() <= u32::MAX
            &&& forall|k: int| 0 <= k < es.len() ==> conforms_each(rec, #[trigger] es[k])
        },
        _ => false,
    }
}

/// The bytes of the records from the `k`-th on.
pub open spec fn list_bytes(rec: Seq<Field>, es: Seq<Seq<Datum>>, k: int) -> Seq<u8>
    decreases es.len() - k,
{
    if k < 0 || k >= es.len() {
        Seq::empty()
    } else {
        encode_all(rec, es[k]) + list_bytes(rec, es, k + 1)
    }
}

/// The bytes that the part writes for the entry.
pub open spec fn encode_part(p: Layout, e: Entry) -> Seq<u8> {
    match (p, e) {
        (Layout::One(f), Entry::One(v)) => encode_field(f, v),
        (Layout::List(key, mix, rec), Entry::List(es)) => {
            let b = list_bytes(rec, es, 0);
            spec_u32_to_le_bytes(spec_obfuscate(es.len() as u32, key, mix)) + b + zeros(pad4(b.len()))
        },
        _ => Seq::empty(),
    }
}

/// `n` records read from `p` on, and where the last one ends.
pub open spec fn decode_list(rec: Seq<Field>, d: Seq<u8>, p: int, n: nat) -> Result<
    (Seq<Seq<Datum>>, int),
    DecodeError,
>
    decreases n,
{
    if n == 0 {
        Ok((Seq::empty(), p))
    } else {
        match decode_from(rec, d, 0, p) {
            Err(e) => Err(e),
            Ok((v, q)) => match decode_list(rec, d, q, (n - 1) as nat) {
                Err(e) => Err(e),
                Ok((vs, r)) => Ok((seq![v] + vs, r)),
            },
        }
    }
}

/// The entry of the part that starts at `pos` in `d`, and where the next part
/// starts; or why there is none. A list whose count exceeds the bytes left
/// is refused at once.
pub open spec fn decode_part(p: Layout, d: Seq<u8>, pos: int) -> Result<(Entry, int), DecodeError> {
    match p {
        Layout::One(f) => match decode_field(f, d, pos) {
            Err(e) => Err(e),
            Ok((v, q)) => Ok((Entry::One(v), q)),
        },
        Layout::List(key, mix, rec) => {
            let rem = d.len() - pos;
            if rem < 4 {
                Err(DecodeError::UnexpectedEndOfInput)
            } else {
                let n = spec_deobfuscate(spec_u32_from_le_bytes(d.subrange(pos, pos + 4)), key, mix);
                if n > rem - 4 {
                    Err(DecodeError::InvalidLength)
                } else {
                    match decode_list(rec, d, pos + 4, n as nat) {
                        Err(e) => Err(e),
                        Ok((es, q)) => if q + pad4((q - pos - 4) as nat) > d.len() {
                            Err(DecodeError::UnexpectedEndOfInput)
                        } else {
                            Ok((Entry::List(es), q + pad4((q - pos - 4) as nat)))
                        },
                    }
                }
            }
        },
    }
}

pub open spec fn prefixed_list(acc: Seq<Seq<Datum>>, res: Result<(Seq<Seq<Datum>>, int), DecodeError>) -> Result<
    (Seq<Seq<Datum>>, int),
    DecodeError,
> {
    match res {
        Err(e) => Err(e),
        Ok((vs, r)) => Ok((acc + vs, r)),
    }
}

/// Records read from `p` on end at or after `p`, within the buffer.
proof fn lemma_decode_list_advances(rec: Seq<Field>, d: Seq<u8>, p: int, n: nat)
    requires
        0 <= p <= d.len(),
    ensures
        decode_list(rec, d, p, n) matches Ok((es, q)) ==> {
            &&& p <= q <= d.len()
            &&& es.len() == n
            &&& forall|k: int| 0 <= k < es.len() ==> shapes_match(rec, #[trigger] es[k])
        },
    decreases n,
{
    if n > 0 {
        lemma_decoded_shapes(rec, d, 0, p);
        if let Ok((v, q)) = decode_from(rec, d, 0, p) {
            lemma_decode_list_advances(rec, d, q, (n - 1) as nat);
            if let Ok((vs, r)) = decode_list(rec, d, q, (n - 1) as nat) {
                let all = seq![v] + vs;
                assert forall|k: int| 0 <= k < all.len() implies shapes_match(rec, #[trigger] all[k]) by {
                    if k == 0 {
                        assert forall|j: int| 0 <= j < rec.len() implies shape_matches(
                            #[trigger] rec[j],
                            v[j],
                        ) by {
                            assert(rec[j] == rec[0 + j]);
                        }
                    } else {
                        assert(all[k] == vs[k - 1]);
                    }
                }
            }
        }
    }
}

/// Appends the bytes that `p` writes for `e`.
pub fn put_part(buf: &mut Vec<u8>, p: &Part, e: &Item)
    requires
        part_kind_matches(p@, e@),
    ensures
        final(buf)@ == old(buf)@ + encode_part(p@, e@),
{
    match (p, e) {
        (Part::One(f), Item::One(v)) => put_field(buf, *f, v),
        (Part::List(key, mix, rec), Item::List(es)) => {
            let ghost start = buf@;
            let ghost recs = records_of(es@);
            assert(p@ == Layout::List(*key, *mix, rec@));
            assert(e@ == Entry::List(recs));
            assert(records_kinds(rec@, recs));
            let n = es.len();
            put_u32(buf, obfuscate(n as u32, *key, *mix));
            let ghost mid = buf@;
            let mid_len = buf.len();
            let mut k: usize = 0;
            while k < n
                invariant
                    k <= n,
                    n == es@.len(),
                    recs == records_of(es@),
                    mid_len == mid.len(),
                    records_kinds(rec@, recs),
                    buf@ + list_bytes(rec@, recs, k as int) == mid + list_bytes(rec@, recs, 0),
                    buf@.len() >= mid.len(),
                decreases n - k,
            {
                let ghost before = buf@;
                assert(recs[k as int] == data_of(es@[k as int]@));
                encode_fields(buf, rec, &es[k]);
                assert(before + list_bytes(rec@, recs, k as int) =~= buf@ + list_bytes(
                    rec@,
                    recs,
                    k + 1,
                ));
                k = k + 1;
            }
            assert(buf@ =~= mid + list_bytes(rec@, recs, 0));
            let written = buf.len() - mid_len;
            put_zeros(buf, (4 - written % 4) % 4);
            assert(buf@ =~= start + encode_part(p@, e@));
        },
        _ => {},
    }
}

/// Reads the part `p` that starts at `pos`, exactly as `decode_part` says.
pub fn take_part(data: &[u8], pos: usize, p: &Part) -> (r: Result<(Item, usize), DecodeError>)
    requires
        pos <= data@.len(),
    ensures
        match r {
            Ok((e, q)) => decode_part(p@, data@, pos as int) == Ok::<(Entry, int), DecodeError>((e@, q as int)),
            Err(err) => decode_part(p@, data@, pos as int) == Err::<(Entry, int), DecodeError>(err),
        },
{
    match p {
        Part::One(f) => match take_field(data, pos, *f) {
            Err(e) => Err(e),
            Ok((v, q)) => Ok((Item::One(v), q)),
        },
        Part::List(key, mix, rec) => {
            let rem = data.len() - pos;
            if rem < 4 {
                return Err(DecodeError::UnexpectedEndOfInput);
            }
            let n = deobfuscate(read_u32_at(data, pos), *key, *mix) as usize;
            if n > rem - 4 {
                return Err(DecodeError::InvalidLength);
            }
            let ghost start = pos + 4;
            let mut es: Vec<Vec<Value>> = Vec::new();
            let mut q: usize = pos + 4;
            let mut k: usize = 0;
            while k < n
                invariant
                    k <= n,
                    start <= q <= data@.len(),
                    start == pos + 4,
                    pos + 4 <= data@.len(),
                    p@ == Layout::List(*key, *mix, rec@),
                    n as int == spec_deobfuscate(
                        spec_u32_from_le_bytes(data@.subrange(pos as int, pos + 4)),
                        *key,
                        *mix,
                    ) as int,
                    n <= data@.len() - pos - 4,
                    decode_list(rec@, data@, start, n as nat) == prefixed_list(
                        records_of(es@),
                        decode_list(rec@, data@, q as int, (n - k) as nat),
                    ),
                decreases n - k,
            {
                match decode_fields(data, q, rec) {
                    Err(e) => {
                        assert(decode_list(rec@, data@, q as int, (n - k) as nat) == Err::<
                            (Seq<Seq<Datum>>, int),
                            DecodeError,
                        >(e));
                        assert(p@ == Layout::List(*key, *mix, rec@));
                        assert(decode_list(rec@, data@, start, n as nat) == Err::<
                            (Seq<Seq<Datum>>, int),
                            DecodeError,
                        >(e));
                        return Err(e);
                    },
                    Ok((v, q2)) => {
                        proof {
                            lemma_decoded_shapes(rec@, data@, 0, q as int);
                            let rest = decode_list(rec@, data@, q2 as int, (n - k - 1) as nat);
                            match rest {
                                Ok((vs, r)) => {
                                    assert(records_of(es@.push(v)) =~= records_of(es@).push(
                                        data_of(v@),
                                    ));
                                    assert(records_of(es@) + (seq![data_of(v@)] + vs)
                                        =~= records_of(es@).push(data_of(v@)) + vs);
                                },
                                Err(_) => {},
                            }
                        }
                        es.push(v);
                        q = q2;
                    },
                }
                k = k + 1;
            }
            assert(records_of(es@) + Seq::<Seq<Datum>>::empty() =~= records_of(es@));
            let used = q - (pos + 4);
            let pad = (4 - used % 4) % 4;
            if pad > data.len() - q {
                Err(DecodeError::UnexpectedEndOfInput)
            } else {
                Ok((Item::List(es), q + pad))
            }
        },
    }
}

/// The single value of an entry, or `Empty` for a list.
pub open spec fn datum_of(e: Entry) -> Datum {
    match e {
        Entry::One(d) => d,
        Entry::List(_) => Datum::Empty,
    }
}

/// The integer of a one-byte item.
pub fn item_byte(x: &Item) -> (r: u8)
    ensures
        r == byte_of(datum_of(x@)),
{
    match x {
        Item::One(v) => value_byte(v),
        _ => 0,
    }
}

/// The integer of a two-byte item.
pub fn item_half(x: &Item) -> (r: u16)
    ensures
        r == half_of(datum_of(x@)),
{
    match x {
        Item::One(v) => value_half(v),
        _ => 0,
    }
}

/// The integer of a four-byte item.
pub fn item_word(x: &Item) -> (r: u32)
    ensures
        r == word_of(datum_of(x@)),
{
    match x {
        Item::One(v) => value_word(v),
        _ => 0,
    }
}

/// The integer of an eight-byte item.
pub fn item_long(x: &Item) -> (r: u64)
    ensures
        r == long_of(datum_of(x@)),
{
    match x {
        Item::One(v) => value_long(v),
        _ => 0,
    }
}

/// The bytes of a byte-run item.
pub fn item_bytes(x: &Item) -> (r: Vec<u8>)
    ensures
        r@ == bytes_of(datum_of(x@)),
{
    match x {
        Item::One(v) => value_bytes(v),
        _ => Vec::new(),
    }
}

/// Where the entry is a list, each record has the shape that decoding the
/// record schema gives.
pub open spec fn item_records_req(rec: Seq<Field>, e: Entry) -> bool {
    match e {
        Entry::List(es) => records_shapes(rec, es),
        Entry::One(_) => true,
    }
}

/// Each record has the shape that decoding the record schema gives.
pub open spec fn records_shapes(rec: Seq<Field>, es: Seq<Seq<Datum>>) -> bool {
    forall|k: int| 0 <= k < es.len() ==> shapes_match(rec, #[trigger] es[k])
}

/// Each entry has the shape of its part.
pub open spec fn parts_kinds(layout: Seq<Layout>, es: Seq<Entry>) -> bool {
    &&& layout.len() == es.len()
    &&& forall|i: int| 0 <= i < layout.len() ==> part_kind_matches(#[trigger] layout[i], es[i])
}

/// Each entry has the shape that decoding its part gives.
pub open spec fn parts_shapes(layout: Seq<Layout>, es: Seq<Entry>) -> bool {
    &&& layout.len() == es.len()
    &&& forall|i: int| 0 <= i < layout.len() ==> part_shape_matches(#[trigger] layout[i], es[i])
}

/// Each entry is read back unchanged after the whole body is written.
pub open spec fn parts_conform(layout: Seq<Layout>, es: Seq<Entry>) -> bool {
    &&& layout.len() == es.len()
    &&& forall|i: int|
        0 <= i < layout.len() ==> part_conforms(#[trigger] layout[i], es[i], i == layout.len() - 1)
}

/// The bytes of the parts from the `i`-th on.
pub open spec fn encode_parts_from(layout: Seq<Layout>, es: Seq<Entry>, i: int) -> Seq<u8>
    decreases layout.len() - i,
{
    if i < 0 || i >= layout.len() {
        Seq::empty()
    } else {
        encode_part(layout[i], es[i]) + encode_parts_from(layout, es, i + 1)
    }
}

/// The bytes of a whole body.
pub open spec fn encode_body(layout: Seq<Layout>, es: Seq<Entry>) -> Seq<u8> {
    encode_parts_from(layout, es, 0)
}

/// The entries of the parts from the `i`-th on, read from `p`, and where the
/// last one ends; or the first error met.
pub open spec fn decode_parts_from(layout: Seq<Layout>, d: Seq<u8>, i: int, p: int) -> Result<
    (Seq<Entry>, int),
    DecodeError,
>
    decreases layout.len() - i,
{
    if i < 0 || i >= layout.len() {
        Ok((Seq::empty(), p))
    } else {
        match decode_part(layout[i], d, p) {
            Err(e) => Err(e),
            Ok((v, q)) => match decode_parts_from(layout, d, i + 1, q) {
                Err(e) => Err(e),
                Ok((vs, r)) => Ok((seq![v] + vs, r)),
            },
        }
    }
}

pub open spec fn prefixed_entries(acc: Seq<Entry>, res: Result<(Seq<Entry>, int), DecodeError>) -> Result<
    (Seq<Entry>, int),
    DecodeError,
> {
    match res {
        Err(e) => Err(e),
        Ok((vs, r)) => Ok((acc + vs, r)),
    }
}

/// Appends a body: the parts with the items.
pub fn encode_parts(buf: &mut Vec<u8>, parts: &Vec<Part>, items: &Vec<Item>)
    requires
        parts_kinds(layouts_of(parts@), entries_of(items@)),
    ensures
        final(buf)@ == old(buf)@ + encode_body(layouts_of(parts@), entries_of(items@)),
{
    let ghost start = buf@;
    let ghost l = layouts_of(parts@);
    let ghost es = entries_of(items@);
    let mut i: usize = 0;
    while i < parts.len()
        invariant
            i <= parts@.len(),
            l == layouts_of(parts@),
            es == entries_of(items@),
            parts_kinds(l, es),
            buf@ + encode_parts_from(l, es, i as int) == start + encode_body(l, es),
        decreases parts@.len() - i,
    {
        let ghost before = buf@;
        assert(part_kind_matches(l[i as int], es[i as int]));
        put_part(buf, &parts[i], &items[i]);
        assert(before + encode_parts_from(l, es, i as int) =~= buf@ + encode_parts_from(l, es, i + 1));
        i = i + 1;
    }
    assert(buf@ =~= start + encode_body(l, es));
}

/// Reads the parts from `pos` on, exactly as `decode_parts_from` says.
pub fn decode_parts(data: &[u8], pos: usize, parts: &Vec<Part>) -> (r: Result<(Vec<Item>, usize), DecodeError>)
    requires
        pos <= data@.len(),
    ensures
        match r {
            Ok((items, q)) => decode_parts_from(layouts_of(parts@), data@, 0, pos as int) == Ok::<
                (Seq<Entry>, int),
                DecodeError,
            >((entries_of(items@), q as int)),
            Err(e) => decode_parts_from(layouts_of(parts@), data@, 0, pos as int) == Err::<
                (Seq<Entry>, int),
                DecodeError,
            >(e),
        },
{
    let ghost l = layouts_of(parts@);
    let mut items: Vec<Item> = Vec::new();
    let mut p: usize = pos;
    let mut i: usize = 0;
    while i < parts.len()
        invariant
            i <= parts@.len(),
            p <= data@.len(),
            l == layouts_of(parts@),
            decode_parts_from(l, data@, 0, pos as int) == prefixed_entries(
                entries_of(items@),
                decode_parts_from(l, data@, i as int, p as int),
            ),
        decreases parts@.len() - i,
    {
        match take_part(data, p, &parts[i]) {
            Err(e) => {
                return Err(e);
            },
            Ok((v, q)) => {
                proof {
                    lemma_decode_part_advances(l[i as int], data@, p as int);
                    let rest = decode_parts_from(l, data@, i + 1, q as int);
                    match rest {
                        Ok((vs, r)) => {
                            assert(entries_of(items@.push(v)) =~= entries_of(items@).push(v@));
                            assert(entries_of(items@) + (seq![v@] + vs) =~= entries_of(items@).push(v@)
                                + vs);
                        },
                        Err(_) => {},
                    }
                }
                items.push(v);
                p = q;
            },
        }
        i = i + 1;
    }
    assert(entries_of(items@) + Seq::<Entry>::empty() =~= entries_of(items@));
    Ok((items, p))
}

/// A part read from `p` ends at or after `p`, within the buffer, and has
/// the shape of the part.
pub proof fn lemma_decode_part_advances(l: Layout, d: Seq<u8>, p: int)
    requires
        0 <= p <= d.len(),
    ensures
        decode_part(l, d, p) matches Ok((e, q)) ==> p <= q <= d.len() && part_shape_matches(l, e),
{
    match l {
        Layout::One(f) => {
            lemma_decoded_shapes(seq![f], d, 0, p);
            crate::engine::lemma_decode_field_advances(f, d, p);
            if let Ok((v, q)) = decode_field(f, d, p) {
                assert(decode_from(seq![f], d, 1, q) == Ok::<(Seq<Datum>, int), DecodeError>((Seq::empty(), q)));
                assert(decode_from(seq![f], d, 0, p) == Ok::<(Seq<Datum>, int), DecodeError>((seq![v] + Seq::<Datum>::empty(), q)));
                assert((seq![v] + Seq::<Datum>::empty())[0] == v);
                assert(seq![f][0int] == f);
            }
        },
        Layout::List(key, mix, rec) => {
            if d.len() - p >= 4 {
                let n = spec_deobfuscate(spec_u32_from_le_bytes(d.subrange(p, p + 4)), key, mix);
                lemma_decode_list_advances(rec, d, p + 4, n as nat);
            }
        },
    }
}

/// Every entry list that decodes has the shapes of the layout's parts.
pub proof fn lemma_decoded_part_shapes(l: Seq<Layout>, d: Seq<u8>, i: int, p: int)
    requires
        0 <= i <= l.len(),
        0 <= p <= d.len(),
    ensures
        decode_parts_from(l, d, i, p) matches Ok((vs, q)) ==> {
            &&& vs.len() == l.len() - i
            &&& p <= q <= d.len()
            &&& forall|j: int| 0 <= j < vs.len() ==> part_shape_matches(l[i + j], #[trigger] vs[j])
        },
    decreases l.len() - i,
{
    if i < l.len() {
        lemma_decode_part_advances(l[i], d, p);
        if let Ok((v, q)) = decode_part(l[i], d, p) {
            lemma_decoded_part_shapes(l, d, i + 1, q);
            if let Ok((vs, r)) = decode_parts_from(l, d, i + 1, q) {
                let all = seq![v] + vs;
                assert forall|j: int| 0 <= j < all.len() implies part_shape_matches(
                    l[i + j],
                    #[trigger] all[j],
                ) by {
                    if j > 0 {
                        assert(all[j] == vs[j - 1]);
                        assert(l[i + j] == l[(i + 1) + (j - 1)]);
                    }
                }
            }
        }
    }
}

/// A record with an integer first field takes at least one byte.
proof fn lemma_record_nonempty(rec: Seq<Field>, v: Seq<Datum>)
    requires
        record_ok(rec),
        kinds_match(rec, v),
    ensures
        encode_all(rec, v).len() >= 1,
{
    lemma_auto_spec_u16_to_from_le_bytes();
    lemma_auto_spec_u32_to_from_le_bytes();
    lemma_auto_spec_u64_to_from_le_bytes();
    assert(kind_matches(rec[0], v[0]));
    assert(encode_all(rec, v) == encode_field(rec[0], v[0]) + encode_from(rec, v, 1));
    if let (Field::Bytes(n), Datum::Bytes(b)) = (rec[0], v[0]) {
        crate::text::lemma_fixed_text(b, n as nat);
    }
}

/// The records from the `k`-th on take at least one byte each.
proof fn lemma_list_bytes_len(rec: Seq<Field>, es: Seq<Seq<Datum>>, k: int)
    requires
        record_ok(rec),
        0 <= k <= es.len(),
        forall|j: int| 0 <= j < es.len() ==> conforms_each(rec, #[trigger] es[j]),
    ensures
        list_bytes(rec, es, k).len() >= es.len() - k,
    decreases es.len() - k,
{
    if k < es.len() {
        crate::engine::lemma_conforms_each(rec, es[k]);
        lemma_record_nonempty(rec, es[k]);
        lemma_list_bytes_len(rec, es, k + 1);
    }
}

/// Records read back from their own bytes, with any bytes before and after,
/// are the records written.
proof fn lemma_list_round_trip(rec: Seq<Field>, es: Seq<Seq<Datum>>, k: int, pre: Seq<u8>, post: Seq<u8>)
    requires
        0 <= k <= es.len(),
        forall|j: int| 0 <= j < es.len() ==> conforms_each(rec, #[trigger] es[j]),
    ensures
        decode_list(rec, pre + list_bytes(rec, es, k) + post, pre.len() as int, (es.len() - k) as nat)
            == Ok::<(Seq<Seq<Datum>>, int), DecodeError>(
            (es.subrange(k, es.len() as int), (pre + list_bytes(rec, es, k)).len() as int),
        ),
    decreases es.len() - k,
{
    let d = pre + list_bytes(rec, es, k) + post;
    if k < es.len() {
        let e = encode_all(rec, es[k]);
        let rest = list_bytes(rec, es, k + 1);
        assert(d =~= pre + encode_from(rec, es[k], 0) + (rest + post));
        lemma_round_trip_within(rec, es[k], 0, pre, rest + post);
        assert(es[k].subrange(0, es[k].len() as int) =~= es[k]);
        let pre2 = pre + e;
        assert(d =~= pre2 + rest + post);
        lemma_list_round_trip(rec, es, k + 1, pre2, post);
        assert(seq![es[k]] + es.subrange(k + 1, es.len() as int) =~= es.subrange(k, es.len() as int));
    } else {
        assert(es.subrange(k, es.len() as int) =~= Seq::<Seq<Datum>>::empty());
    }
}

/// Reading a part back from its own encoding gives the entry, and ends where
/// the encoding ends.
pub proof fn lemma_part_round_trip(l: Layout, e: Entry, last: bool, d: Seq<u8>, p: int)
    requires
        part_conforms(l, e, last),
        0 <= p,
        p + encode_part(l, e).len() <= d.len(),
        d.subrange(p, p + encode_part(l, e).len()) == encode_part(l, e),
        l == Layout::One(Field::Rest) ==> d.len() == p + encode_part(l, e).len(),
    ensures
        decode_part(l, d, p) == Ok::<(Entry, int), DecodeError>((e, p + encode_part(l, e).len())),
{
    let enc = encode_part(l, e);
    match (l, e) {
        (Layout::One(f), Entry::One(v)) => {
            crate::engine::lemma_field_round_trip(f, v, last, d, p);
        },
        (Layout::List(key, mix, rec), Entry::List(es)) => {
            lemma_auto_spec_u32_to_from_le_bytes();
            let n = es.len();
            let b = list_bytes(rec, es, 0);
            lemma_deobfuscate_obfuscate(n as u32, key, mix);
            let w = spec_u32_to_le_bytes(spec_obfuscate(n as u32, key, mix));
            assert(d.subrange(p, p + 4) =~= enc.subrange(0, 4));
            assert(enc.subrange(0, 4) =~= w);
            lemma_list_bytes_len(rec, es, 0);
            let pre = d.subrange(0, p + 4);
            let post = d.subrange(p + 4 + b.len(), d.len() as int);
            assert(d.subrange(p + 4, p + 4 + b.len()) =~= enc.subrange(4, 4 + b.len() as int));
            assert(enc.subrange(4, 4 + b.len() as int) =~= b);
            assert(d =~= pre + b + post);
            lemma_list_round_trip(rec, es, 0, pre, post);
            assert(es.subrange(0, es.len() as int) =~= es);
        },
        _ => {},
    }
}

/// Reading the parts from the `i`-th on back from their own encoding, after
/// any bytes `pre`, gives the entries and ends at the end of the data.
pub proof fn lemma_parts_round_trip_from(l: Seq<Layout>, es: Seq<Entry>, i: int, pre: Seq<u8>)
    requires
        parts_conform(l, es),
        0 <= i <= l.len(),
    ensures
        decode_parts_from(l, pre + encode_parts_from(l, es, i), i, pre.len() as int) == Ok::<
            (Seq<Entry>, int),
            DecodeError,
        >((es.subrange(i, es.len() as int), (pre + encode_parts_from(l, es, i)).len() as int)),
    decreases l.len() - i,
{
    let d = pre + encode_parts_from(l, es, i);
    if i < l.len() {
        let e = encode_part(l[i], es[i]);
        let rest = encode_parts_from(l, es, i + 1);
        let pre2 = pre + e;
        assert(d =~= pre2 + rest);
        assert(part_conforms(l[i], es[i], i == l.len() - 1));
        assert(d.subrange(pre.len() as int, (pre.len() + e.len()) as int) =~= e);
        if l[i] == Layout::One(Field::Rest) {
            assert(rest.len() == 0) by {
                assert(i + 1 == l.len());
            }
        }
        lemma_part_round_trip(l[i], es[i], i == l.len() - 1, d, pre.len() as int);
        lemma_parts_round_trip_from(l, es, i + 1, pre2);
        assert(seq![es[i]] + es.subrange(i + 1, es.len() as int) =~= es.subrange(i, es.len() as int));
    } else {
        assert(es.subrange(i, es.len() as int) =~= Seq::<Entry>::empty());
    }
}

/// Decoding a body that was encoded gives back every entry that conforms to
/// the layout, lists of records included, and consumes exactly the encoded
/// bytes.
pub proof fn lemma_body_round_trip(l: Seq<Layout>, es: Seq<Entry>, pre: Seq<u8>)
    requires
        parts_conform(l, es),
    ensures
        decode_parts_from(l, pre + encode_body(l, es), 0, pre.len() as int) == Ok::<
            (Seq<Entry>, int),
            DecodeError,
        >((es, (pre + encode_body(l, es)).len() as int)),
{
    lemma_parts_round_trip_from(l, es, 0, pre);
    assert(es.subrange(0, es.len() as int) =~= es);
}

} // verus!
