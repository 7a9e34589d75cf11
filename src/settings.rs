//! Settings packets: the client's settings text, saved and loaded.
use crate::body::{entries_of, item_bytes, layouts_of, part_shape_matches, Entry, Item, Layout, Part};
use crate::field::{copy_bytes, Datum, Field, Value};
use crate::header::{packed_flags, Flags, PacketHeader};
use crate::packet::SchemaPacket;
use vstd::prelude::*;

verus! {

/// The settings that the client saves (0x2B, 0x01).
#[derive(Default, Debug, Clone, PartialEq)]
pub struct SaveSettingsPacket {
    pub settings: Vec<u8>,
}

impl SchemaPacket for SaveSettingsPacket {
    open spec fn spec_schema() -> Seq<Layout> {
        seq![Layout::One(Field::Var(0xcef1, 0xb5))]
    }

    open spec fn spec_header() -> PacketHeader {
        PacketHeader { category: 0x2b, subtype: 0x1, flags: packed_flags() }
    }

    open spec fn model(&self) -> Seq<Entry> {
        seq![Entry::One(Datum::Bytes(self.settings@))]
    }

    open spec fn wf(&self) -> bool {
        self.settings@.len() <= u32::MAX
    }

    proof fn lemma_model(&self) {
    }

    fn header() -> (r: PacketHeader) {
        PacketHeader::new(0x2b, 0x1, Flags::packed())
    }

    fn schema() -> (r: Vec<Part>) {
        let mut v: Vec<Part> = Vec::new();
        v.push(Part::One(Field::Var(0xcef1, 0xb5)));
        assert(layouts_of(v@) =~= Self::spec_schema());
        v
    }

    fn to_values(&self) -> (r: Vec<Item>) {
        let mut v: Vec<Item> = Vec::new();
        v.push(Item::One(Value::Bytes(copy_bytes(&self.settings))));
        assert(entries_of(v@) =~= self.model());
        v
    }

    fn from_values(vals: &Vec<Item>) -> (r: Self) {
        proof {
            let d = entries_of(vals@);
            assert(part_shape_matches(Self::spec_schema()[0], d[0]));
        }
        let r = SaveSettingsPacket {
            settings: item_bytes(&vals[0]),
        };
        assert(r.model() =~= entries_of(vals@));
        r
    }
}

/// The settings that the server hands back (0x2B, 0x02).
#[derive(Default, Debug, Clone, PartialEq)]
pub struct LoadSettingsPacket {
    pub settings: Vec<u8>,
}

impl SchemaPacket for LoadSettingsPacket {
    open spec fn spec_schema() -> Seq<Layout> {
        seq![Layout::One(Field::Var(0x54af, 0x100))]
    }

    open spec fn spec_header() -> PacketHeader {
        PacketHeader { category: 0x2b, subtype: 0x2, flags: packed_flags() }
    }

    open spec fn model(&self) -> Seq<Entry> {
        seq![Entry::One(Datum::Bytes(self.settings@))]
    }

    open spec fn wf(&self) -> bool {
        self.settings@.len() <= u32::MAX
    }

    proof fn lemma_model(&self) {
    }

    fn header() -> (r: PacketHeader) {
        PacketHeader::new(0x2b, 0x2, Flags::packed())
    }

    fn schema() -> (r: Vec<Part>) {
        let mut v: Vec<Part> = Vec::new();
        v.push(Part::One(Field::Var(0x54af, 0x100)));
        assert(layouts_of(v@) =~= Self::spec_schema());
        v
    }

    fn to_values(&self) -> (r: Vec<Item>) {
        let mut v: Vec<Item> = Vec::new();
        v.push(Item::One(Value::Bytes(copy_bytes(&self.settings))));
        assert(entries_of(v@) =~= self.model());
        v
    }

    fn from_values(vals: &Vec<Item>) -> (r: Self) {
        proof {
            let d = entries_of(vals@);
            assert(part_shape_matches(Self::spec_schema()[0], d[0]));
        }
        let r = LoadSettingsPacket {
            settings: item_bytes(&vals[0]),
        };
        assert(r.model() =~= entries_of(vals@));
        r
    }
}

} // verus!
