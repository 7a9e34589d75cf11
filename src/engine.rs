//! The generic packet engine: a schema is an ordered list of field
//! descriptors, and a packet body is the fields' encodings one after another.
use crate::field::{
    conforms, decode_field, encode_field, kind_matches, put_field, shape_matches, take_field, Datum,
    DecodeError, Field, Value,
};
use crate::obfuscation::{lemma_deobfuscate_obfuscate, spec_obfuscate};
use crate::text::lemma_fixed_text;
use vstd::bytes::*;
use vstd::prelude::*;

verus! {

/// What a list of values holds.
pub open spec fn data_of(vals: Seq<Value>) -> Seq<Datum> {
    vals.map_values(|v: Value| v@)
}

/// Each value has the shape of its field.
pub open spec fn kinds_match(schema: Seq<Field>, vals: Seq<Datum>) -> bool {
    &&& schema.len() == vals.len()
    &&& forall|i: int| 0 <= i < schema.len() ==> kind_matches(#[trigger] schema[i], vals[i])
}

/// Each value has the shape that decoding its field gives.
pub open spec fn shapes_match(schema: Seq<Field>, vals: Seq<Datum>) -> bool {
    &&& schema.len() == vals.len()
    &&& forall|i: int| 0 <= i < schema.len() ==> shape_matches(#[trigger] schema[i], vals[i])
}

/// Each value is read back unchanged after the whole list is written.
pub open spec fn conforms_all(schema: Seq<Field>, vals: Seq<Datum>) -> bool {
    &&& schema.len() == vals.len()
    &&& forall|i: int|
        0 <= i < schema.len() ==> conforms(#[trigger] schema[i], vals[i], i == schema.len() - 1)
}

/// Each value is read back unchanged wherever its field stands; no field
/// reads up to the end of the packet.
pub open spec fn conforms_each(schema: Seq<Field>, vals: Seq<Datum>) -> bool {
    &&& schema.len() == vals.len()
    &&& forall|i: int| 0 <= i < schema.len() ==> conforms(#[trigger] schema[i], vals[i], false)
}

/// Two runs of fields whose values conform make one.
pub proof fn lemma_conforms_concat(s1: Seq<Field>, v1: Seq<Datum>, s2: Seq<Field>, v2: Seq<Datum>)
    requires
        conforms_each(s1, v1),
        conforms_each(s2, v2),
    ensures
        conforms_each(s1 + s2, v1 + v2),
{
    assert forall|i: int| 0 <= i < (s1 + s2).len() implies conforms(
        #[trigger] (s1 + s2)[i],
        (v1 + v2)[i],
        false,
    ) by {
        if i >= s1.len() {
            assert(s2[i - s1.len()] == (s1 + s2)[i]);
        }
    }
}

/// Two runs of values with the shapes of their fields make one.
pub proof fn lemma_kinds_concat(s1: Seq<Field>, v1: Seq<Datum>, s2: Seq<Field>, v2: Seq<Datum>)
    requires
        kinds_match(s1, v1),
        kinds_match(s2, v2),
    ensures
        kinds_match(s1 + s2, v1 + v2),
{
    assert forall|i: int| 0 <= i < (s1 + s2).len() implies kind_matches(
        #[trigger] (s1 + s2)[i],
        (v1 + v2)[i],
    ) by {
        if i >= s1.len() {
            assert(s2[i - s1.len()] == (s1 + s2)[i]);
        }
    }
}

/// Values that conform wherever their fields stand conform in place, and
/// have their fields' shapes.
pub proof fn lemma_conforms_each(schema: Seq<Field>, vals: Seq<Datum>)
    requires
        conforms_each(schema, vals),
    ensures
        conforms_all(schema, vals),
        kinds_match(schema, vals),
{
    assert forall|i: int| 0 <= i < schema.len() implies conforms(
        #[trigger] schema[i],
        vals[i],
        i == schema.len() - 1,
    ) by {
        assert(conforms(schema[i], vals[i], false));
    }
}

/// The bytes of the fields from the `i`-th on.
pub open spec fn encode_from(schema: Seq<Field>, vals: Seq<Datum>, i: int) -> Seq<u8>
    decreases schema.len() - i,
{
    if i < 0 || i >= schema.len() {
        Seq::empty()
    } else {
        encode_field(schema[i], vals[i]) + encode_from(schema, vals, i + 1)
    }
}

/// The bytes of all the fields.
pub open spec fn encode_all(schema: Seq<Field>, vals: Seq<Datum>) -> Seq<u8> {
    encode_from(schema, vals, 0)
}

/// A schema of one field writes that field's bytes.
pub proof fn lemma_encode_single(f: Field, v: Datum)
    ensures
        encode_all(seq![f], seq![v]) == encode_field(f, v),
{
    assert(encode_from(seq![f], seq![v], 1) == Seq::<u8>::empty());
    assert(encode_all(seq![f], seq![v]) =~= encode_field(f, v));
}

/// The values of the fields from the `i`-th on, read from `p` in `d`, and
/// where the last one ends; or the first error met.
pub open spec fn decode_from(schema: Seq<Field>, d: Seq<u8>, i: int, p: int) -> Result<
    (Seq<Datum>, int),
    DecodeError,
>
    decreases schema.len() - i,
{
    if i < 0 || i >= schema.len() {
        Ok((Seq::empty(), p))
    } else {
        match decode_field(schema[i], d, p) {
            Err(e) => Err(e),
            Ok((v, q)) => match decode_from(schema, d, i + 1, q) {
                Err(e) => Err(e),
                Ok((vs, r)) => Ok((seq![v] + vs, r)),
            },
        }
    }
}

/// `res` with the values `acc` put in front.
pub open spec fn prefixed(acc: Seq<Datum>, res: Result<(Seq<Datum>, int), DecodeError>) -> Result<
    (Seq<Datum>, int),
    DecodeError,
> {
    match res {
        Err(e) => Err(e),
        Ok((vs, r)) => Ok((acc + vs, r)),
    }
}

/// Appends the fields of `schema` with the values `vals`.
pub fn encode_fields(buf: &mut Vec<u8>, schema: &Vec<Field>, vals: &Vec<Value>)
    requires
        kinds_match(schema@, data_of(vals@)),
    ensures
        final(buf)@ == old(buf)@ + encode_all(schema@, data_of(vals@)),
{
    let ghost start = buf@;
    let ghost d = data_of(vals@);
    let mut i: usize = 0;
    while i < schema.len()
        invariant
            i <= schema@.len(),
            kinds_match(schema@, d),
            d == data_of(vals@),
            buf@ + encode_from(schema@, d, i as int) == start + encode_all(schema@, d),
        decreases schema@.len() - i,
    {
        let ghost before = buf@;
        assert(d[i as int] == vals@[i as int]@);
        assert(kind_matches(schema@[i as int], d[i as int]));
        put_field(buf, schema[i], &vals[i]);
        assert(before + encode_from(schema@, d, i as int) =~= buf@ + encode_from(
            schema@,
            d,
            i + 1,
        ));
        i = i + 1;
    }
    assert(buf@ =~= start + encode_all(schema@, d));
}

/// Reads the fields of `schema` from `pos` on, exactly as `decode_from` says.
pub fn decode_fields(data: &[u8], pos: usize, schema: &Vec<Field>) -> (r: Result<
    (Vec<Value>, usize),
    DecodeError,
>)
    requires
        pos <= data@.len(),
    ensures
        match r {
            Ok((vals, q)) => decode_from(schema@, data@, 0, pos as int) == Ok::<
                (Seq<Datum>, int),
                DecodeError,
            >((data_of(vals@), q as int)),
            Err(e) => decode_from(schema@, data@, 0, pos as int) == Err::<
                (Seq<Datum>, int),
                DecodeError,
            >(e),
        },
{
    let mut vals: Vec<Value> = Vec::new();
    let mut p: usize = pos;
    let mut i: usize = 0;
    while i < schema.len()
        invariant
            i <= schema@.len(),
            p <= data@.len(),
            decode_from(schema@, data@, 0, pos as int) == prefixed(
                data_of(vals@),
                decode_from(schema@, data@, i as int, p as int),
            ),
        decreases schema@.len() - i,
    {
        match take_field(data, p, schema[i]) {
            Err(e) => {
                return Err(e);
            },
            Ok((v, q)) => {
                proof {
                    lemma_decode_field_advances(schema@[i as int], data@, p as int);
                    let rest = decode_from(schema@, data@, i + 1, q as int);
                    match rest {
                        Ok((vs, r)) => {
                            assert(data_of(vals@.push(v)) =~= data_of(vals@).push(v@));
                            assert(data_of(vals@) + (seq![v@] + vs) =~= data_of(vals@).push(v@)
                                + vs);
                        },
                        Err(_) => {},
                    }
                }
                vals.push(v);
                p = q;
            },
        }
        i = i + 1;
    }
    assert(data_of(vals@) + Seq::<Datum>::empty() =~= data_of(vals@));
    Ok((vals, p))
}

/// A field read from `p` ends at or after `p`, and within the buffer.
pub proof fn lemma_decode_field_advances(f: Field, d: Seq<u8>, p: int)
    requires
        0 <= p <= d.len(),
    ensures
        decode_field(f, d, p) matches Ok((_, q)) ==> p <= q <= d.len(),
{
}

/// Reading a field back from its own encoding gives the value, and ends
/// where the encoding ends.
pub proof fn lemma_field_round_trip(f: Field, v: Datum, last: bool, d: Seq<u8>, p: int)
    requires
        conforms(f, v, last),
        0 <= p,
        p + encode_field(f, v).len() <= d.len(),
        d.subrange(p, p + encode_field(f, v).len()) == encode_field(f, v),
        f == Field::Rest ==> d.len() == p + encode_field(f, v).len(),
    ensures
        decode_field(f, d, p) == Ok::<(Datum, int), DecodeError>((v, p + encode_field(f, v).len())),
{
    let e = encode_field(f, v);
    lemma_auto_spec_u16_to_from_le_bytes();
    lemma_auto_spec_u32_to_from_le_bytes();
    lemma_auto_spec_u64_to_from_le_bytes();
    match (f, v) {
        (Field::U8, Datum::U8(x)) => {
            assert(d[p] == e[0]);
        },
        (Field::Bytes(n), Datum::Bytes(b)) => {
            lemma_fixed_text(b, n as nat);
            assert(b =~= b.subrange(0, n as int));
        },
        (Field::Text(n), Datum::Bytes(b)) => {
            lemma_fixed_text(b, n as nat);
        },
        (Field::Var(key, mix), Datum::Bytes(b)) => {
            let len = b.len();
            lemma_deobfuscate_obfuscate(len as u32, key, mix);
            let w = spec_u32_to_le_bytes(spec_obfuscate(len as u32, key, mix));
            assert(d.subrange(p, p + 4) =~= e.subrange(0, 4));
            assert(e.subrange(0, 4) =~= w);
            assert(d.subrange(p + 4, p + 4 + len) =~= e.subrange(4, 4 + len as int));
            assert(e.subrange(4, 4 + len as int) =~= b);
        },
        (Field::Rest, Datum::Bytes(b)) => {
            assert(d.subrange(p, d.len() as int) == e);
        },
        _ => {},
    }
}

/// Reading the fields from the `i`-th on back from their own encoding, placed
/// after any bytes `pre`, gives the values and ends at the end of the data.
pub proof fn lemma_round_trip_from(schema: Seq<Field>, vals: Seq<Datum>, i: int, pre: Seq<u8>)
    requires
        conforms_all(schema, vals),
        0 <= i <= schema.len(),
    ensures
        decode_from(schema, pre + encode_from(schema, vals, i), i, pre.len() as int) == Ok::<
            (Seq<Datum>, int),
            DecodeError,
        >((vals.subrange(i, vals.len() as int), (pre + encode_from(schema, vals, i)).len() as int)),
    decreases schema.len() - i,
{
    let d = pre + encode_from(schema, vals, i);
    if i < schema.len() {
        let f = schema[i];
        let e = encode_field(f, vals[i]);
        let rest = encode_from(schema, vals, i + 1);
        let pre2 = pre + e;
        assert(d =~= pre2 + rest);
        assert(conforms(f, vals[i], i == schema.len() - 1));
        assert(d.subrange(pre.len() as int, (pre.len() + e.len()) as int) =~= e);
        if f == Field::Rest {
            assert(rest.len() == 0) by {
                assert(i + 1 == schema.len());
            }
        }
        lemma_field_round_trip(f, vals[i], i == schema.len() - 1, d, pre.len() as int);
        lemma_round_trip_from(schema, vals, i + 1, pre2);
        assert(seq![vals[i]] + vals.subrange(i + 1, vals.len() as int) =~= vals.subrange(
            i,
            vals.len() as int,
        ));
    } else {
        assert(vals.subrange(i, vals.len() as int) =~= Seq::<Datum>::empty());
    }
}

/// Every list of values that decodes has the shapes of the schema's fields.
pub proof fn lemma_decoded_shapes(schema: Seq<Field>, d: Seq<u8>, i: int, p: int)
    requires
        0 <= i <= schema.len(),
        0 <= p <= d.len(),
    ensures
        decode_from(schema, d, i, p) matches Ok((vs, q)) ==> {
            &&& vs.len() == schema.len() - i
            &&& p <= q <= d.len()
            &&& forall|j: int| 0 <= j < vs.len() ==> shape_matches(schema[i + j], #[trigger] vs[j])
        },
    decreases schema.len() - i,
{
    if i < schema.len() {
        lemma_decode_field_advances(schema[i], d, p);
        if let Ok((v, q)) = decode_field(schema[i], d, p) {
            lemma_decoded_shapes(schema, d, i + 1, q);
            if let Ok((vs, r)) = decode_from(schema, d, i + 1, q) {
                let all = seq![v] + vs;
                assert forall|j: int| 0 <= j < all.len() implies shape_matches(
                    schema[i + j],
                    #[trigger] all[j],
                ) by {
                    if j > 0 {
                        assert(all[j] == vs[j - 1]);
                        assert(schema[i + j] == schema[(i + 1) + (j - 1)]);
                    }
                }
            }
        }
    }
}

/// Where no field reads to the end of the packet, bytes after the fields do
/// not disturb reading them back either.
pub proof fn lemma_round_trip_within(
    schema: Seq<Field>,
    vals: Seq<Datum>,
    i: int,
    pre: Seq<u8>,
    post: Seq<u8>,
)
    requires
        conforms_each(schema, vals),
        0 <= i <= schema.len(),
    ensures
        decode_from(schema, pre + encode_from(schema, vals, i) + post, i, pre.len() as int) == Ok::<
            (Seq<Datum>, int),
            DecodeError,
        >((vals.subrange(i, vals.len() as int), (pre + encode_from(schema, vals, i)).len() as int)),
    decreases schema.len() - i,
{
    let d = pre + encode_from(schema, vals, i) + post;
    if i < schema.len() {
        let f = schema[i];
        let e = encode_field(f, vals[i]);
        let rest = encode_from(schema, vals, i + 1);
        let pre2 = pre + e;
        assert(d =~= pre2 + rest + post);
        assert(conforms(f, vals[i], false));
        assert(d.subrange(pre.len() as int, (pre.len() + e.len()) as int) =~= e);
        lemma_field_round_trip(f, vals[i], false, d, pre.len() as int);
        lemma_round_trip_within(schema, vals, i + 1, pre2, post);
        assert(seq![vals[i]] + vals.subrange(i + 1, vals.len() as int) =~= vals.subrange(
            i,
            vals.len() as int,
        ));
    } else {
        assert(vals.subrange(i, vals.len() as int) =~= Seq::<Datum>::empty());
    }
}

/// The most bytes that the field writes; unbounded fields count as
/// `u32::MAX`.
pub open spec fn field_bound(f: Field) -> nat {
    match f {
        Field::U8 => 1,
        Field::U16 => 2,
        Field::U32 => 4,
        Field::U64 => 8,
        Field::Bytes(n) => n as nat,
        Field::Text(n) => n as nat,
        Field::Skip(n) => n as nat,
        Field::Var(_, _) => u32::MAX as nat,
        Field::Rest => u32::MAX as nat,
    }
}

/// The fields from the `i`-th on write at most `m` bytes each when none of
/// them may write more.
pub proof fn lemma_encode_bound(schema: Seq<Field>, vals: Seq<Datum>, i: int, m: nat)
    requires
        kinds_match(schema, vals),
        0 <= i <= schema.len(),
        forall|j: int| 0 <= j < schema.len() ==> field_bound(#[trigger] schema[j]) <= m,
        m < u32::MAX,
    ensures
        encode_from(schema, vals, i).len() <= (schema.len() - i) * m,
    decreases schema.len() - i,
{
    if i < schema.len() {
        lemma_encode_bound(schema, vals, i + 1, m);
        lemma_auto_spec_u16_to_from_le_bytes();
        lemma_auto_spec_u32_to_from_le_bytes();
        lemma_auto_spec_u64_to_from_le_bytes();
        assert(kind_matches(schema[i], vals[i]));
        assert(field_bound(schema[i]) <= m);
        if let (Field::Bytes(n), Datum::Bytes(b)) = (schema[i], vals[i]) {
            lemma_fixed_text(b, n as nat);
        }
        if let (Field::Text(n), Datum::Bytes(b)) = (schema[i], vals[i]) {
            lemma_fixed_text(b, n as nat);
        }
        assert(encode_field(schema[i], vals[i]).len() <= m);
        assert((schema.len() - i) * m == m + (schema.len() - (i + 1)) * m) by (nonlinear_arith);
    }
}

/// Decoding what the engine encoded gives back every field value that
/// conforms to the schema, and consumes exactly the encoded bytes; bytes
/// placed before the fields do not disturb this.
pub proof fn lemma_round_trip(schema: Seq<Field>, vals: Seq<Datum>, pre: Seq<u8>)
    requires
        conforms_all(schema, vals),
    ensures
        decode_from(schema, pre + encode_all(schema, vals), 0, pre.len() as int) == Ok::<
            (Seq<Datum>, int),
            DecodeError,
        >((vals, (pre + encode_all(schema, vals)).len() as int)),
{
    lemma_round_trip_from(schema, vals, 0, pre);
    assert(vals.subrange(0, vals.len() as int) =~= vals);
}

} // verus!
