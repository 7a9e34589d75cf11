//! Mail packets (category 0x1A) and the records that their lists hold.
use crate::body::{
    entries_of, item_bytes, item_half, item_word, layouts_of, part_shape_matches, Entry,
    Item, Layout, Part,
};
use crate::engine::data_of;
use crate::field::{
    array_bytes, bytes_array, copy_bytes, shape_matches, value_bytes, value_word, Datum, Field, Value,
};
use crate::header::{no_flags, packed_flags, Flags, PacketHeader};
use crate::packet::SchemaPacket;
use crate::record::{all_wf, item_records, lemma_records, models_of, records_to_values, Record};
use crate::text::no_zero;
use vstd::prelude::*;

verus! {

/// Names one mail.
#[derive(Default, Debug, Clone, PartialEq)]
pub struct MailId {
    pub mail_id: u32,
    pub unk1: u32,
    pub unk2: u32,
}

impl Record for MailId {
    open spec fn spec_schema() -> Seq<Field> {
        seq![Field::U32, Field::U32, Field::U32]
    }

    open spec fn model(&self) -> Seq<Datum> {
        seq![Datum::U32(self.mail_id), Datum::U32(self.unk1), Datum::U32(self.unk2)]
    }

    open spec fn wf(&self) -> bool {
        true
    }

    proof fn lemma_model(&self) {
    }

    proof fn lemma_schema() {
    }

    fn schema() -> (r: Vec<Field>) {
        let mut v: Vec<Field> = Vec::new();
        v.push(Field::U32);
        v.push(Field::U32);
        v.push(Field::U32);
        assert(v@ =~= Self::spec_schema());
        v
    }

    fn to_values(&self) -> (r: Vec<Value>) {
        let mut v: Vec<Value> = Vec::new();
        v.push(Value::U32(self.mail_id));
        v.push(Value::U32(self.unk1));
        v.push(Value::U32(self.unk2));
        assert(data_of(v@) =~= self.model());
        v
    }

    fn from_values(vals: &Vec<Value>) -> (r: Self) {
        proof {
            let d = data_of(vals@);
            assert(shape_matches(Self::spec_schema()[0], d[0]));
            assert(shape_matches(Self::spec_schema()[1], d[1]));
            assert(shape_matches(Self::spec_schema()[2], d[2]));
        }
        let r = MailId {
            mail_id: value_word(&vals[0]),
            unk1: value_word(&vals[1]),
            unk2: value_word(&vals[2]),
        };
        assert(r.model() =~= data_of(vals@));
        r
    }
}

/// The header of one mail.
#[derive(Default, Debug, Clone, PartialEq)]
pub struct MailHeader {
    pub mail_id: u32,
    pub unk2: u32,
    pub user_id: u32,
    pub unk3: [u8; 0x14],
    pub unk4: u32,
    pub unk5: u32,
    /// Seconds since the Unix epoch.
    pub receive_time: u32,
    pub unk6: u32,
    pub sender: Vec<u8>,
    pub subject: Vec<u8>,
}

impl Record for MailHeader {
    open spec fn spec_schema() -> Seq<Field> {
        seq![Field::U32, Field::U32, Field::U32, Field::Bytes(0x14), Field::U32, Field::U32, Field::U32, Field::U32, Field::Text(0x22), Field::Text(0x2a)]
    }

    open spec fn model(&self) -> Seq<Datum> {
        seq![Datum::U32(self.mail_id), Datum::U32(self.unk2), Datum::U32(self.user_id), Datum::Bytes(self.unk3@), Datum::U32(self.unk4), Datum::U32(self.unk5), Datum::U32(self.receive_time), Datum::U32(self.unk6), Datum::Bytes(self.sender@), Datum::Bytes(self.subject@)]
    }

    open spec fn wf(&self) -> bool {
        self.sender@.len() <= 0x22 && no_zero(self.sender@)
        && self.subject@.len() <= 0x2a && no_zero(self.subject@)
    }

    proof fn lemma_model(&self) {
    }

    proof fn lemma_schema() {
    }

    fn schema() -> (r: Vec<Field>) {
        let mut v: Vec<Field> = Vec::new();
        v.push(Field::U32);
        v.push(Field::U32);
        v.push(Field::U32);
        v.push(Field::Bytes(0x14));
        v.push(Field::U32);
        v.push(Field::U32);
        v.push(Field::U32);
        v.push(Field::U32);
        v.push(Field::Text(0x22));
        v.push(Field::Text(0x2a));
        assert(v@ =~= Self::spec_schema());
        v
    }

    fn to_values(&self) -> (r: Vec<Value>) {
        let mut v: Vec<Value> = Vec::new();
        v.push(Value::U32(self.mail_id));
        v.push(Value::U32(self.unk2));
        v.push(Value::U32(self.user_id));
        v.push(Value::Bytes(array_bytes(&self.unk3)));
        v.push(Value::U32(self.unk4));
        v.push(Value::U32(self.unk5));
        v.push(Value::U32(self.receive_time));
        v.push(Value::U32(self.unk6));
        v.push(Value::Bytes(copy_bytes(&self.sender)));
        v.push(Value::Bytes(copy_bytes(&self.subject)));
        assert(data_of(v@) =~= self.model());
        v
    }

    fn from_values(vals: &Vec<Value>) -> (r: Self) {
        proof {
            let d = data_of(vals@);
            assert(shape_matches(Self::spec_schema()[0], d[0]));
            assert(shape_matches(Self::spec_schema()[1], d[1]));
            assert(shape_matches(Self::spec_schema()[2], d[2]));
            assert(shape_matches(Self::spec_schema()[3], d[3]));
            assert(shape_matches(Self::spec_schema()[4], d[4]));
            assert(shape_matches(Self::spec_schema()[5], d[5]));
            assert(shape_matches(Self::spec_schema()[6], d[6]));
            assert(shape_matches(Self::spec_schema()[7], d[7]));
            assert(shape_matches(Self::spec_schema()[8], d[8]));
            assert(shape_matches(Self::spec_schema()[9], d[9]));
        }
        let r = MailHeader {
            mail_id: value_word(&vals[0]),
            unk2: value_word(&vals[1]),
            user_id: value_word(&vals[2]),
            unk3: bytes_array::<0x14>(&value_bytes(&vals[3])),
            unk4: value_word(&vals[4]),
            unk5: value_word(&vals[5]),
            receive_time: value_word(&vals[6]),
            unk6: value_word(&vals[7]),
            sender: value_bytes(&vals[8]),
            subject: value_bytes(&vals[9]),
        };
        assert(r.model() =~= data_of(vals@));
        r
    }
}

/// The mail list (0x1A, 0x01).
#[derive(Default, Debug, Clone, PartialEq)]
pub struct MailListPacket {
    pub unk1: u16,
    pub unk2: u16,
    pub unk3: u16,
    pub unk4: u16,
    pub unk5: [u8; 4],
    pub unk6: u32,
    pub name: Vec<u8>,
    pub nickname: Vec<u8>,
    pub headers: Vec<MailHeader>,
}

impl SchemaPacket for MailListPacket {
    open spec fn spec_schema() -> Seq<Layout> {
        seq![Layout::One(Field::U16), Layout::One(Field::U16), Layout::One(Field::U16), Layout::One(Field::U16), Layout::One(Field::Bytes(4)), Layout::One(Field::U32), Layout::One(Field::Var(0x36a1, 0xbf)), Layout::One(Field::Var(0x36a1, 0xbf)), Layout::List(0x36a1, 0xbf, MailHeader::spec_schema())]
    }

    open spec fn spec_header() -> PacketHeader {
        PacketHeader { category: 0x1a, subtype: 0x1, flags: packed_flags() }
    }

    open spec fn model(&self) -> Seq<Entry> {
        seq![Entry::One(Datum::U16(self.unk1)), Entry::One(Datum::U16(self.unk2)), Entry::One(Datum::U16(self.unk3)), Entry::One(Datum::U16(self.unk4)), Entry::One(Datum::Bytes(self.unk5@)), Entry::One(Datum::U32(self.unk6)), Entry::One(Datum::Bytes(self.name@)), Entry::One(Datum::Bytes(self.nickname@)), Entry::List(models_of(self.headers@))]
    }

    open spec fn wf(&self) -> bool {
        self.name@.len() <= u32::MAX
        && self.nickname@.len() <= u32::MAX
        && self.headers@.len() <= u32::MAX && all_wf(self.headers@)
    }

    proof fn lemma_model(&self) {
        lemma_records::<MailHeader>(self.headers@);
    }

    fn header() -> (r: PacketHeader) {
        PacketHeader::new(0x1a, 0x1, Flags::packed())
    }

    fn schema() -> (r: Vec<Part>) {
        let mut v: Vec<Part> = Vec::new();
        v.push(Part::One(Field::U16));
        v.push(Part::One(Field::U16));
        v.push(Part::One(Field::U16));
        v.push(Part::One(Field::U16));
        v.push(Part::One(Field::Bytes(4)));
        v.push(Part::One(Field::U32));
        v.push(Part::One(Field::Var(0x36a1, 0xbf)));
        v.push(Part::One(Field::Var(0x36a1, 0xbf)));
        v.push(Part::List(0x36a1, 0xbf, MailHeader::schema()));
        assert(layouts_of(v@) =~= Self::spec_schema());
        v
    }

    fn to_values(&self) -> (r: Vec<Item>) {
        let mut v: Vec<Item> = Vec::new();
        v.push(Item::One(Value::U16(self.unk1)));
        v.push(Item::One(Value::U16(self.unk2)));
        v.push(Item::One(Value::U16(self.unk3)));
        v.push(Item::One(Value::U16(self.unk4)));
        v.push(Item::One(Value::Bytes(array_bytes(&self.unk5))));
        v.push(Item::One(Value::U32(self.unk6)));
        v.push(Item::One(Value::Bytes(copy_bytes(&self.name))));
        v.push(Item::One(Value::Bytes(copy_bytes(&self.nickname))));
        v.push(Item::List(records_to_values(&self.headers)));
        assert(entries_of(v@) =~= self.model());
        v
    }

    fn from_values(vals: &Vec<Item>) -> (r: Self) {
        proof {
            let d = entries_of(vals@);
            assert(part_shape_matches(Self::spec_schema()[0], d[0]));
            assert(part_shape_matches(Self::spec_schema()[1], d[1]));
            assert(part_shape_matches(Self::spec_schema()[2], d[2]));
            assert(part_shape_matches(Self::spec_schema()[3], d[3]));
            assert(part_shape_matches(Self::spec_schema()[4], d[4]));
            assert(part_shape_matches(Self::spec_schema()[5], d[5]));
            assert(part_shape_matches(Self::spec_schema()[6], d[6]));
            assert(part_shape_matches(Self::spec_schema()[7], d[7]));
            assert(part_shape_matches(Self::spec_schema()[8], d[8]));
        }
        let r = MailListPacket {
            unk1: item_half(&vals[0]),
            unk2: item_half(&vals[1]),
            unk3: item_half(&vals[2]),
            unk4: item_half(&vals[3]),
            unk5: bytes_array::<4>(&item_bytes(&vals[4])),
            unk6: item_word(&vals[5]),
            name: item_bytes(&vals[6]),
            nickname: item_bytes(&vals[7]),
            headers: item_records::<MailHeader>(&vals[8]),
        };
        assert(r.model() =~= entries_of(vals@));
        r
    }
}

/// Asks to delete mails (0x1A, 0x02).
#[derive(Default, Debug, Clone, PartialEq)]
pub struct DeleteMailRequestPacket {
    pub ids: Vec<MailId>,
}

impl SchemaPacket for DeleteMailRequestPacket {
    open spec fn spec_schema() -> Seq<Layout> {
        seq![Layout::List(0xbc5f, 0xb, MailId::spec_schema())]
    }

    open spec fn spec_header() -> PacketHeader {
        PacketHeader { category: 0x1a, subtype: 0x2, flags: packed_flags() }
    }

    open spec fn model(&self) -> Seq<Entry> {
        seq![Entry::List(models_of(self.ids@))]
    }

    open spec fn wf(&self) -> bool {
        self.ids@.len() <= u32::MAX && all_wf(self.ids@)
    }

    proof fn lemma_model(&self) {
        lemma_records::<MailId>(self.ids@);
    }

    fn header() -> (r: PacketHeader) {
        PacketHeader::new(0x1a, 0x2, Flags::packed())
    }

    fn schema() -> (r: Vec<Part>) {
        let mut v: Vec<Part> = Vec::new();
        v.push(Part::List(0xbc5f, 0xb, MailId::schema()));
        assert(layouts_of(v@) =~= Self::spec_schema());
        v
    }

    fn to_values(&self) -> (r: Vec<Item>) {
        let mut v: Vec<Item> = Vec::new();
        v.push(Item::List(records_to_values(&self.ids)));
        assert(entries_of(v@) =~= self.model());
        v
    }

    fn from_values(vals: &Vec<Item>) -> (r: Self) {
        proof {
            let d = entries_of(vals@);
            assert(part_shape_matches(Self::spec_schema()[0], d[0]));
        }
        let r = DeleteMailRequestPacket {
            ids: item_records::<MailId>(&vals[0]),
        };
        assert(r.model() =~= entries_of(vals@));
        r
    }
}

/// The mails that were deleted (0x1A, 0x03).
#[derive(Default, Debug, Clone, PartialEq)]
pub struct DeletedMailPacket {
    pub ids: Vec<MailId>,
    pub unk: u32,
}

impl SchemaPacket for DeletedMailPacket {
    open spec fn spec_schema() -> Seq<Layout> {
        seq![Layout::List(0x421c, 0x56, MailId::spec_schema()), Layout::One(Field::U32)]
    }

    open spec fn spec_header() -> PacketHeader {
        PacketHeader { category: 0x1a, subtype: 0x3, flags: packed_flags() }
    }

    open spec fn model(&self) -> Seq<Entry> {
        seq![Entry::List(models_of(self.ids@)), Entry::One(Datum::U32(self.unk))]
    }

    open spec fn wf(&self) -> bool {
        self.ids@.len() <= u32::MAX && all_wf(self.ids@)
    }

    proof fn lemma_model(&self) {
        lemma_records::<MailId>(self.ids@);
    }

    fn header() -> (r: PacketHeader) {
        PacketHeader::new(0x1a, 0x3, Flags::packed())
    }

    fn schema() -> (r: Vec<Part>) {
        let mut v: Vec<Part> = Vec::new();
        v.push(Part::List(0x421c, 0x56, MailId::schema()));
        v.push(Part::One(Field::U32));
        assert(layouts_of(v@) =~= Self::spec_schema());
        v
    }

    fn to_values(&self) -> (r: Vec<Item>) {
        let mut v: Vec<Item> = Vec::new();
        v.push(Item::List(records_to_values(&self.ids)));
        v.push(Item::One(Value::U32(self.unk)));
        assert(entries_of(v@) =~= self.model());
        v
    }

    fn from_values(vals: &Vec<Item>) -> (r: Self) {
        proof {
            let d = entries_of(vals@);
            assert(part_shape_matches(Self::spec_schema()[0], d[0]));
            assert(part_shape_matches(Self::spec_schema()[1], d[1]));
        }
        let r = DeletedMailPacket {
            ids: item_records::<MailId>(&vals[0]),
            unk: item_word(&vals[1]),
        };
        assert(r.model() =~= entries_of(vals@));
        r
    }
}

/// Asks for the mail list (0x1A, 0x00).
#[derive(Default, Debug, Clone, PartialEq)]
pub struct MailListRequestPacket {
    pub unk1: u32,
    pub unk2: u32,
    pub unk3: u32,
}

impl SchemaPacket for MailListRequestPacket {
    open spec fn spec_schema() -> Seq<Layout> {
        seq![Layout::One(Field::U32), Layout::One(Field::U32), Layout::One(Field::U32)]
    }

    open spec fn spec_header() -> PacketHeader {
        PacketHeader { category: 0x1a, subtype: 0x0, flags: no_flags() }
    }

    open spec fn model(&self) -> Seq<Entry> {
        seq![Entry::One(Datum::U32(self.unk1)), Entry::One(Datum::U32(self.unk2)), Entry::One(Datum::U32(self.unk3))]
    }

    open spec fn wf(&self) -> bool {
        true
    }

    proof fn lemma_model(&self) {
    }

    fn header() -> (r: PacketHeader) {
        PacketHeader::new(0x1a, 0x0, Flags::default())
    }

    fn schema() -> (r: Vec<Part>) {
        let mut v: Vec<Part> = Vec::new();
        v.push(Part::One(Field::U32));
        v.push(Part::One(Field::U32));
        v.push(Part::One(Field::U32));
        assert(layouts_of(v@) =~= Self::spec_schema());
        v
    }

    fn to_values(&self) -> (r: Vec<Item>) {
        let mut v: Vec<Item> = Vec::new();
        v.push(Item::One(Value::U32(self.unk1)));
        v.push(Item::One(Value::U32(self.unk2)));
        v.push(Item::One(Value::U32(self.unk3)));
        assert(entries_of(v@) =~= self.model());
        v
    }

    fn from_values(vals: &Vec<Item>) -> (r: Self) {
        proof {
            let d = entries_of(vals@);
            assert(part_shape_matches(Self::spec_schema()[0], d[0]));
            assert(part_shape_matches(Self::spec_schema()[1], d[1]));
            assert(part_shape_matches(Self::spec_schema()[2], d[2]));
        }
        let r = MailListRequestPacket {
            unk1: item_word(&vals[0]),
            unk2: item_word(&vals[1]),
            unk3: item_word(&vals[2]),
        };
        assert(r.model() =~= entries_of(vals@));
        r
    }
}

/// Asks for the body of one mail (0x1A, 0x06).
#[derive(Default, Debug, Clone, PartialEq)]
pub struct MailBodyRequestPacket {
    pub id: MailId,
}

impl SchemaPacket for MailBodyRequestPacket {
    open spec fn spec_schema() -> Seq<Layout> {
        seq![Layout::One(Field::U32), Layout::One(Field::U32), Layout::One(Field::U32)]
    }

    open spec fn spec_header() -> PacketHeader {
        PacketHeader { category: 0x1a, subtype: 0x6, flags: no_flags() }
    }

    open spec fn model(&self) -> Seq<Entry> {
        seq![Entry::One(Datum::U32(self.id.mail_id)), Entry::One(Datum::U32(self.id.unk1)), Entry::One(Datum::U32(self.id.unk2))]
    }

    open spec fn wf(&self) -> bool {
        true
    }

    proof fn lemma_model(&self) {
    }

    fn header() -> (r: PacketHeader) {
        PacketHeader::new(0x1a, 0x6, Flags::default())
    }

    fn schema() -> (r: Vec<Part>) {
        let mut v: Vec<Part> = Vec::new();
        v.push(Part::One(Field::U32));
        v.push(Part::One(Field::U32));
        v.push(Part::One(Field::U32));
        assert(layouts_of(v@) =~= Self::spec_schema());
        v
    }

    fn to_values(&self) -> (r: Vec<Item>) {
        let mut v: Vec<Item> = Vec::new();
        v.push(Item::One(Value::U32(self.id.mail_id)));
        v.push(Item::One(Value::U32(self.id.unk1)));
        v.push(Item::One(Value::U32(self.id.unk2)));
        assert(entries_of(v@) =~= self.model());
        v
    }

    fn from_values(vals: &Vec<Item>) -> (r: Self) {
        proof {
            let d = entries_of(vals@);
            assert(part_shape_matches(Self::spec_schema()[0], d[0]));
            assert(part_shape_matches(Self::spec_schema()[1], d[1]));
            assert(part_shape_matches(Self::spec_schema()[2], d[2]));
        }
        let r = MailBodyRequestPacket {
            id: MailId { mail_id: item_word(&vals[0]), unk1: item_word(&vals[1]), unk2: item_word(&vals[2]) },
        };
        assert(r.model() =~= entries_of(vals@));
        r
    }
}

/// The body of one mail (0x1A, 0x07).
#[derive(Default, Debug, Clone, PartialEq)]
pub struct MailBodyPacket {
    pub id: MailId,
    pub message: Vec<u8>,
    pub unk3: u32,
}

impl SchemaPacket for MailBodyPacket {
    open spec fn spec_schema() -> Seq<Layout> {
        seq![Layout::One(Field::U32), Layout::One(Field::U32), Layout::One(Field::U32), Layout::One(Field::Var(0x5913, 0x82)), Layout::One(Field::U32)]
    }

    open spec fn spec_header() -> PacketHeader {
        PacketHeader { category: 0x1a, subtype: 0x7, flags: packed_flags() }
    }

    open spec fn model(&self) -> Seq<Entry> {
        seq![Entry::One(Datum::U32(self.id.mail_id)), Entry::One(Datum::U32(self.id.unk1)), Entry::One(Datum::U32(self.id.unk2)), Entry::One(Datum::Bytes(self.message@)), Entry::One(Datum::U32(self.unk3))]
    }

    open spec fn wf(&self) -> bool {
        self.message@.len() <= u32::MAX
    }

    proof fn lemma_model(&self) {
    }

    fn header() -> (r: PacketHeader) {
        PacketHeader::new(0x1a, 0x7, Flags::packed())
    }

    fn schema() -> (r: Vec<Part>) {
        let mut v: Vec<Part> = Vec::new();
        v.push(Part::One(Field::U32));
        v.push(Part::One(Field::U32));
        v.push(Part::One(Field::U32));
        v.push(Part::One(Field::Var(0x5913, 0x82)));
        v.push(Part::One(Field::U32));
        assert(layouts_of(v@) =~= Self::spec_schema());
        v
    }

    fn to_values(&self) -> (r: Vec<Item>) {
        let mut v: Vec<Item> = Vec::new();
        v.push(Item::One(Value::U32(self.id.mail_id)));
        v.push(Item::One(Value::U32(self.id.unk1)));
        v.push(Item::One(Value::U32(self.id.unk2)));
        v.push(Item::One(Value::Bytes(copy_bytes(&self.message))));
        v.push(Item::One(Value::U32(self.unk3)));
        assert(entries_of(v@) =~= self.model());
        v
    }

    fn from_values(vals: &Vec<Item>) -> (r: Self) {
        proof {
            let d = entries_of(vals@);
            assert(part_shape_matches(Self::spec_schema()[0], d[0]));
            assert(part_shape_matches(Self::spec_schema()[1], d[1]));
            assert(part_shape_matches(Self::spec_schema()[2], d[2]));
            assert(part_shape_matches(Self::spec_schema()[3], d[3]));
            assert(part_shape_matches(Self::spec_schema()[4], d[4]));
        }
        let r = MailBodyPacket {
            id: MailId { mail_id: item_word(&vals[0]), unk1: item_word(&vals[1]), unk2: item_word(&vals[2]) },
            message: item_bytes(&vals[3]),
            unk3: item_word(&vals[4]),
        };
        assert(r.model() =~= entries_of(vals@));
        r
    }
}

} // verus!
