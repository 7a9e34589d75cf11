//! Records: fixed runs of fields that lists of a packet body repeat, and
//! that can also be encoded and decoded on their own.
use crate::body::{item_records_req, records_shapes, record_ok, records_kinds, records_of, Entry, Item};
use crate::engine::{
    conforms_each, data_of, decode_fields, decode_from, encode_all, encode_fields, kinds_match,
    lemma_decoded_shapes, shapes_match,
};
use crate::field::{shape_matches, DecodeError, Datum, Field, Value};
use vstd::prelude::*;

verus! {

/// A type whose values are written as the fields of a fixed schema.
pub trait Record: Sized {
    /// The fields, in wire order.
    spec fn spec_schema() -> Seq<Field>;

    /// The field values of this record, in wire order.
    spec fn model(&self) -> Seq<Datum>;

    /// Every field fits its slot: it is read back unchanged.
    spec fn wf(&self) -> bool;

    proof fn lemma_model(&self)
        ensures
            kinds_match(Self::spec_schema(), self.model()),
            self.wf() ==> conforms_each(Self::spec_schema(), self.model()),
    ;

    proof fn lemma_schema()
        ensures
            record_ok(Self::spec_schema()),
    ;

    fn schema() -> (r: Vec<Field>)
        ensures
            r@ == Self::spec_schema(),
    ;

    fn to_values(&self) -> (r: Vec<Value>)
        ensures
            data_of(r@) == self.model(),
    ;

    fn from_values(vals: &Vec<Value>) -> (r: Self)
        requires
            shapes_match(Self::spec_schema(), data_of(vals@)),
        ensures
            r.model() == data_of(vals@),
    ;
}

/// The field values of each record.
pub open spec fn models_of<R: Record>(rs: Seq<R>) -> Seq<Seq<Datum>> {
    rs.map_values(|r: R| r.model())
}

/// Every record fits its slots.
pub open spec fn all_wf<R: Record>(rs: Seq<R>) -> bool {
    forall|k: int| 0 <= k < rs.len() ==> (#[trigger] rs[k]).wf()
}

/// What a list of records needs to be read back unchanged.
pub proof fn lemma_records<R: Record>(rs: Seq<R>)
    ensures
        record_ok(R::spec_schema()),
        records_kinds(R::spec_schema(), models_of(rs)),
        all_wf(rs) ==> forall|k: int|
            0 <= k < rs.len() ==> conforms_each(R::spec_schema(), #[trigger] models_of(rs)[k]),
{
    R::lemma_schema();
    assert forall|k: int| 0 <= k < rs.len() implies kinds_match(
        R::spec_schema(),
        #[trigger] models_of(rs)[k],
    ) && (rs[k].wf() ==> conforms_each(R::spec_schema(), models_of(rs)[k])) by {
        rs[k].lemma_model();
    }
}

/// The values of each record.
pub fn records_to_values<R: Record>(rs: &Vec<R>) -> (r: Vec<Vec<Value>>)
    ensures
        records_of(r@) == models_of(rs@),
{
    let mut r: Vec<Vec<Value>> = Vec::new();
    let mut k: usize = 0;
    while k < rs.len()
        invariant
            k <= rs@.len(),
            records_of(r@) == models_of(rs@).subrange(0, k as int),
        decreases rs@.len() - k,
    {
        let x = rs[k].to_values();
        proof {
            assert(records_of(r@.push(x)) =~= records_of(r@).push(data_of(x@)));
        }
        r.push(x);
        k = k + 1;
        assert(records_of(r@) =~= models_of(rs@).subrange(0, k as int));
    }
    assert(models_of(rs@).subrange(0, k as int) =~= models_of(rs@));
    r
}

/// The records that lists of values describe.
pub fn records_from_values<R: Record>(es: &Vec<Vec<Value>>) -> (r: Vec<R>)
    requires
        records_shapes(R::spec_schema(), records_of(es@)),
    ensures
        models_of(r@) == records_of(es@),
{
    let mut r: Vec<R> = Vec::new();
    let mut k: usize = 0;
    while k < es.len()
        invariant
            k <= es@.len(),
            records_shapes(R::spec_schema(), records_of(es@)),
            models_of(r@) == records_of(es@).subrange(0, k as int),
        decreases es@.len() - k,
    {
        assert(records_of(es@)[k as int] == data_of(es@[k as int]@));
        let x = R::from_values(&es[k]);
        proof {
            assert(models_of(r@.push(x)) =~= models_of(r@).push(x.model()));
        }
        r.push(x);
        k = k + 1;
        assert(models_of(r@) =~= records_of(es@).subrange(0, k as int));
    }
    assert(records_of(es@).subrange(0, k as int) =~= records_of(es@));
    r
}

/// The records of a list item.
pub fn item_records<R: Record>(x: &Item) -> (r: Vec<R>)
    requires
        item_records_req(R::spec_schema(), x@),
    ensures
        x@ matches Entry::List(es) ==> models_of(r@) == es,
{
    match x {
        Item::List(es) => {
            assert(x@ == Entry::List(records_of(es@)));
            records_from_values(es)
        },
        _ => Vec::new(),
    }
}

/// The bytes of a record on its own.
pub fn encode_record<R: Record>(r: &R) -> (b: Vec<u8>)
    ensures
        b@ == encode_all(R::spec_schema(), r.model()),
{
    let schema = R::schema();
    let vals = r.to_values();
    proof {
        r.lemma_model();
    }
    let mut b: Vec<u8> = Vec::new();
    encode_fields(&mut b, &schema, &vals);
    assert(b@ =~= encode_all(R::spec_schema(), r.model()));
    b
}

/// Reads a record from the start of `data`, exactly as `decode_from` says;
/// bytes after it are left alone.
pub fn decode_record<R: Record>(data: &[u8]) -> (r: Result<R, DecodeError>)
    ensures
        match r {
            Ok(x) => decode_from(R::spec_schema(), data@, 0, 0) matches Ok((vs, _)) && vs == x.model(),
            Err(e) => decode_from(R::spec_schema(), data@, 0, 0) == Err::<(Seq<Datum>, int), DecodeError>(e),
        },
{
    let schema = R::schema();
    match decode_fields(data, 0, &schema) {
        Err(e) => Err(e),
        Ok((vals, _)) => {
            proof {
                lemma_decoded_shapes(schema@, data@, 0, 0);
                assert forall|i: int| 0 <= i < schema@.len() implies shape_matches(
                    #[trigger] schema@[i],
                    data_of(vals@)[i],
                ) by {
                    assert(schema@[i] == schema@[0 + i]);
                }
            }
            Ok(R::from_values(&vals))
        },
    }
}

} // verus!
