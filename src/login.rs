//! Login packets (category 0x11) whose layout is a fixed list of parts, and
//! the records that their lists hold.
use crate::body::{
    entries_of, item_byte, item_bytes, item_half, item_long, item_word, layouts_of,
    part_shape_matches, Entry, Item, Layout, Part,
};
use crate::character::{Character, CHARACTER_SIZE};
use crate::engine::data_of;
use crate::enums::{LoginResult, ShipStatus};
use crate::field::{
    array_bytes, bytes_array, copy_bytes, shape_matches, value_byte, value_bytes, value_half,
    value_word, Datum, Field, Value,
};
use crate::header::{no_flags, packed_flags, Flags, PacketHeader};
use crate::packet::SchemaPacket;
use crate::record::{all_wf, item_records, lemma_records, models_of, records_to_values, Record};
use crate::scalar::zeros;
use crate::text::no_zero;
use crate::time::PsoTime;
use vstd::prelude::*;

verus! {

/// A network interface of the client machine.
#[derive(Default, Debug, Clone, PartialEq)]
pub struct NetInterface {
    pub state: u32,
    pub mac: Vec<u8>,
}

impl Record for NetInterface {
    open spec fn spec_schema() -> Seq<Field> {
        seq![Field::U32, Field::Text(0x18)]
    }

    open spec fn model(&self) -> Seq<Datum> {
        seq![Datum::U32(self.state), Datum::Bytes(self.mac@)]
    }

    open spec fn wf(&self) -> bool {
        self.mac@.len() <= 0x18 && no_zero(self.mac@)
    }

    proof fn lemma_model(&self) {
    }

    proof fn lemma_schema() {
    }

    fn schema() -> (r: Vec<Field>) {
        let mut v: Vec<Field> = Vec::new();
        v.push(Field::U32);
        v.push(Field::Text(0x18));
        assert(v@ =~= Self::spec_schema());
        v
    }

    fn to_values(&self) -> (r: Vec<Value>) {
        let mut v: Vec<Value> = Vec::new();
        v.push(Value::U32(self.state));
        v.push(Value::Bytes(copy_bytes(&self.mac)));
        assert(data_of(v@) =~= self.model());
        v
    }

    fn from_values(vals: &Vec<Value>) -> (r: Self) {
        proof {
            let d = data_of(vals@);
            assert(shape_matches(Self::spec_schema()[0], d[0]));
            assert(shape_matches(Self::spec_schema()[1], d[1]));
        }
        let r = NetInterface {
            state: value_word(&vals[0]),
            mac: value_bytes(&vals[1]),
        };
        assert(r.model() =~= data_of(vals@));
        r
    }
}

/// One ship of the ship list.
#[derive(Debug, Clone, PartialEq)]
pub struct ShipEntry {
    pub id: u32,
    pub name: Vec<u8>,
    /// The ship's IPv4 address, most significant octet first.
    pub ip: [u8; 4],
    pub status: ShipStatus,
    pub order: u16,
}

impl Record for ShipEntry {
    open spec fn spec_schema() -> Seq<Field> {
        seq![Field::U32, Field::Text(0x10), Field::Bytes(4), Field::Skip(4), Field::U16, Field::Skip(4), Field::U16]
    }

    open spec fn model(&self) -> Seq<Datum> {
        seq![Datum::U32(self.id), Datum::Bytes(self.name@), Datum::Bytes(self.ip@), Datum::Empty, Datum::U16(self.status.spec_to_raw()), Datum::Empty, Datum::U16(self.order)]
    }

    open spec fn wf(&self) -> bool {
        self.name@.len() <= 0x10 && no_zero(self.name@)
    }

    proof fn lemma_model(&self) {
    }

    proof fn lemma_schema() {
    }

    fn schema() -> (r: Vec<Field>) {
        let mut v: Vec<Field> = Vec::new();
        v.push(Field::U32);
        v.push(Field::Text(0x10));
        v.push(Field::Bytes(4));
        v.push(Field::Skip(4));
        v.push(Field::U16);
        v.push(Field::Skip(4));
        v.push(Field::U16);
        assert(v@ =~= Self::spec_schema());
        v
    }

    fn to_values(&self) -> (r: Vec<Value>) {
        let mut v: Vec<Value> = Vec::new();
        v.push(Value::U32(self.id));
        v.push(Value::Bytes(copy_bytes(&self.name)));
        v.push(Value::Bytes(array_bytes(&self.ip)));
        v.push(Value::Empty);
        v.push(Value::U16(self.status.to_raw()));
        v.push(Value::Empty);
        v.push(Value::U16(self.order));
        assert(data_of(v@) =~= self.model());
        v
    }

    fn from_values(vals: &Vec<Value>) -> (r: Self) {
        proof {
            let d = data_of(vals@);
            assert(shape_matches(Self::spec_schema()[0], d[0]));
            assert(shape_matches(Self::spec_schema()[1], d[1]));
            assert(shape_matches(Self::spec_schema()[2], d[2]));
            assert(shape_matches(Self::spec_schema()[3], d[3]));
            assert(shape_matches(Self::spec_schema()[4], d[4]));
            assert(shape_matches(Self::spec_schema()[5], d[5]));
            assert(shape_matches(Self::spec_schema()[6], d[6]));
        }
        let r = ShipEntry {
            id: value_word(&vals[0]),
            name: value_bytes(&vals[1]),
            ip: bytes_array::<4>(&value_bytes(&vals[2])),
            status: ShipStatus::from_raw(value_half(&vals[4])),
            order: value_half(&vals[6]),
        };
        assert(r.model() =~= data_of(vals@));
        r
    }
}

impl Default for ShipEntry {
    fn default() -> (r: ShipEntry)
        ensures
            r.id == 0,
            r.name@.len() == 0,
            r.ip@ == zeros(4),
            r.status == ShipStatus::Unknown,
            r.order == 0,
    {
        let r = ShipEntry { id: 0, name: Vec::new(), ip: [0u8; 4], status: ShipStatus::Unknown, order: 0 };
        assert(r.ip@ =~= zeros(4));
        r
    }
}

/// One past login of the account.
#[derive(Debug, Clone, PartialEq)]
pub struct LoginAttempt {
    /// The address the login came from, most significant octet first.
    pub ip: [u8; 4],
    pub status: LoginResult,
    /// Seconds since the Unix epoch.
    pub timestamp: u32,
    pub unk: u32,
}

impl Record for LoginAttempt {
    open spec fn spec_schema() -> Seq<Field> {
        seq![Field::Bytes(4), Field::U32, Field::U32, Field::U32]
    }

    open spec fn model(&self) -> Seq<Datum> {
        seq![Datum::Bytes(self.ip@), Datum::U32(self.status.spec_to_raw()), Datum::U32(self.timestamp), Datum::U32(self.unk)]
    }

    open spec fn wf(&self) -> bool {
        true
    }

    proof fn lemma_model(&self) {
    }

    proof fn lemma_schema() {
    }

    fn schema() -> (r: Vec<Field>) {
        let mut v: Vec<Field> = Vec::new();
        v.push(Field::Bytes(4));
        v.push(Field::U32);
        v.push(Field::U32);
        v.push(Field::U32);
        assert(v@ =~= Self::spec_schema());
        v
    }

    fn to_values(&self) -> (r: Vec<Value>) {
        let mut v: Vec<Value> = Vec::new();
        v.push(Value::Bytes(array_bytes(&self.ip)));
        v.push(Value::U32(self.status.to_raw()));
        v.push(Value::U32(self.timestamp));
        v.push(Value::U32(self.unk));
        assert(data_of(v@) =~= self.model());
        v
    }

    fn from_values(vals: &Vec<Value>) -> (r: Self) {
        proof {
            let d = data_of(vals@);
            assert(shape_matches(Self::spec_schema()[0], d[0]));
            assert(shape_matches(Self::spec_schema()[1], d[1]));
            assert(shape_matches(Self::spec_schema()[2], d[2]));
            assert(shape_matches(Self::spec_schema()[3], d[3]));
        }
        let r = LoginAttempt {
            ip: bytes_array::<4>(&value_bytes(&vals[0])),
            status: LoginResult::from_raw(value_word(&vals[1])),
            timestamp: value_word(&vals[2]),
            unk: value_word(&vals[3]),
        };
        assert(r.model() =~= data_of(vals@));
        r
    }
}

impl Default for LoginAttempt {
    fn default() -> (r: LoginAttempt)
        ensures
            r.ip@ == zeros(4),
            r.status == LoginResult::Successful,
            r.timestamp == 0,
            r.unk == 9,
    {
        let r = LoginAttempt { ip: [0u8; 4], status: LoginResult::Successful, timestamp: 0, unk: 9 };
        assert(r.ip@ =~= zeros(4));
        r
    }
}

/// One block of the block list.
#[derive(Debug, Clone, PartialEq)]
pub struct BlockInfo {
    pub unk1: u32,
    pub unk2: u8,
    pub unk3: u8,
    pub unk4: u8,
    pub unk5: u8,
    pub unk6: u32,
    pub unk7: u32,
    pub unk8: u16,
    pub unk9: u16,
    pub blockname: Vec<u8>,
    /// The block server's IPv4 address, most significant octet first.
    pub ip: [u8; 4],
    pub port: u16,
    pub unk10: u16,
    pub unk11: u16,
    pub unk12: [u8; 0xa],
}

impl Record for BlockInfo {
    open spec fn spec_schema() -> Seq<Field> {
        seq![Field::U32, Field::U8, Field::U8, Field::U8, Field::U8, Field::U32, Field::U32, Field::U16, Field::U16, Field::Text(0x20), Field::Bytes(4), Field::U16, Field::U16, Field::U16, Field::Bytes(0xa)]
    }

    open spec fn model(&self) -> Seq<Datum> {
        seq![Datum::U32(self.unk1), Datum::U8(self.unk2), Datum::U8(self.unk3), Datum::U8(self.unk4), Datum::U8(self.unk5), Datum::U32(self.unk6), Datum::U32(self.unk7), Datum::U16(self.unk8), Datum::U16(self.unk9), Datum::Bytes(self.blockname@), Datum::Bytes(self.ip@), Datum::U16(self.port), Datum::U16(self.unk10), Datum::U16(self.unk11), Datum::Bytes(self.unk12@)]
    }

    open spec fn wf(&self) -> bool {
        self.blockname@.len() <= 0x20 && no_zero(self.blockname@)
    }

    proof fn lemma_model(&self) {
    }

    proof fn lemma_schema() {
    }

    fn schema() -> (r: Vec<Field>) {
        let mut v: Vec<Field> = Vec::new();
        v.push(Field::U32);
        v.push(Field::U8);
        v.push(Field::U8);
        v.push(Field::U8);
        v.push(Field::U8);
        v.push(Field::U32);
        v.push(Field::U32);
        v.push(Field::U16);
        v.push(Field::U16);
        v.push(Field::Text(0x20));
        v.push(Field::Bytes(4));
        v.push(Field::U16);
        v.push(Field::U16);
        v.push(Field::U16);
        v.push(Field::Bytes(0xa));
        assert(v@ =~= Self::spec_schema());
        v
    }

    fn to_values(&self) -> (r: Vec<Value>) {
        let mut v: Vec<Value> = Vec::new();
        v.push(Value::U32(self.unk1));
        v.push(Value::U8(self.unk2));
        v.push(Value::U8(self.unk3));
        v.push(Value::U8(self.unk4));
        v.push(Value::U8(self.unk5));
        v.push(Value::U32(self.unk6));
        v.push(Value::U32(self.unk7));
        v.push(Value::U16(self.unk8));
        v.push(Value::U16(self.unk9));
        v.push(Value::Bytes(copy_bytes(&self.blockname)));
        v.push(Value::Bytes(array_bytes(&self.ip)));
        v.push(Value::U16(self.port));
        v.push(Value::U16(self.unk10));
        v.push(Value::U16(self.unk11));
        v.push(Value::Bytes(array_bytes(&self.unk12)));
        assert(data_of(v@) =~= self.model());
        v
    }

    fn from_values(vals: &Vec<Value>) -> (r: Self) {
        proof {
            let d = data_of(vals@);
            assert(shape_matches(Self::spec_schema()[0], d[0]));
            assert(shape_matches(Self::spec_schema()[1], d[1]));
            assert(shape_matches(Self::spec_schema()[2], d[2]));
            assert(shape_matches(Self::spec_schema()[3], d[3]));
            assert(shape_matches(Self::spec_schema()[4], d[4]));
            assert(shape_matches(Self::spec_schema()[5], d[5]));
            assert(shape_matches(Self::spec_schema()[6], d[6]));
            assert(shape_matches(Self::spec_schema()[7], d[7]));
            assert(shape_matches(Self::spec_schema()[8], d[8]));
            assert(shape_matches(Self::spec_schema()[9], d[9]));
            assert(shape_matches(Self::spec_schema()[10], d[10]));
            assert(shape_matches(Self::spec_schema()[11], d[11]));
            assert(shape_matches(Self::spec_schema()[12], d[12]));
            assert(shape_matches(Self::spec_schema()[13], d[13]));
            assert(shape_matches(Self::spec_schema()[14], d[14]));
        }
        let r = BlockInfo {
            unk1: value_word(&vals[0]),
            unk2: value_byte(&vals[1]),
            unk3: value_byte(&vals[2]),
            unk4: value_byte(&vals[3]),
            unk5: value_byte(&vals[4]),
            unk6: value_word(&vals[5]),
            unk7: value_word(&vals[6]),
            unk8: value_half(&vals[7]),
            unk9: value_half(&vals[8]),
            blockname: value_bytes(&vals[9]),
            ip: bytes_array::<4>(&value_bytes(&vals[10])),
            port: value_half(&vals[11]),
            unk10: value_half(&vals[12]),
            unk11: value_half(&vals[13]),
            unk12: bytes_array::<0xa>(&value_bytes(&vals[14])),
        };
        assert(r.model() =~= data_of(vals@));
        r
    }
}

impl Default for BlockInfo {
    /// All zero: no block name, the unspecified address, port 0.
    fn default() -> (r: BlockInfo)
        ensures
            r.unk1 == 0 && r.unk2 == 0 && r.unk3 == 0 && r.unk4 == 0 && r.unk5 == 0,
            r.unk6 == 0 && r.unk7 == 0 && r.unk8 == 0 && r.unk9 == 0,
            r.blockname@.len() == 0,
            r.ip@ == zeros(4),
            r.port == 0 && r.unk10 == 0 && r.unk11 == 0,
            r.unk12@ == zeros(10),
    {
        let r = BlockInfo {
            unk1: 0,
            unk2: 0,
            unk3: 0,
            unk4: 0,
            unk5: 0,
            unk6: 0,
            unk7: 0,
            unk8: 0,
            unk9: 0,
            blockname: Vec::new(),
            ip: [0u8; 4],
            port: 0,
            unk10: 0,
            unk11: 0,
            unk12: [0u8; 10],
        };
        assert(r.ip@ =~= zeros(4));
        assert(r.unk12@ =~= zeros(10));
        r
    }
}

#[derive(Default, Debug, Clone, PartialEq)]
pub struct SalonThing1 {
    pub unk1: u32,
    pub unk2: u32,
    pub unk3: u32,
    pub unk4: u32,
}

impl Record for SalonThing1 {
    open spec fn spec_schema() -> Seq<Field> {
        seq![Field::U32, Field::U32, Field::U32, Field::U32]
    }

    open spec fn model(&self) -> Seq<Datum> {
        seq![Datum::U32(self.unk1), Datum::U32(self.unk2), Datum::U32(self.unk3), Datum::U32(self.unk4)]
    }

    open spec fn wf(&self) -> bool {
        true
    }

    proof fn lemma_model(&self) {
    }

    proof fn lemma_schema() {
    }

    fn schema() -> (r: Vec<Field>) {
        let mut v: Vec<Field> = Vec::new();
        v.push(Field::U32);
        v.push(Field::U32);
        v.push(Field::U32);
        v.push(Field::U32);
        assert(v@ =~= Self::spec_schema());
        v
    }

    fn to_values(&self) -> (r: Vec<Value>) {
        let mut v: Vec<Value> = Vec::new();
        v.push(Value::U32(self.unk1));
        v.push(Value::U32(self.unk2));
        v.push(Value::U32(self.unk3));
        v.push(Value::U32(self.unk4));
        assert(data_of(v@) =~= self.model());
        v
    }

    fn from_values(vals: &Vec<Value>) -> (r: Self) {
        proof {
            let d = data_of(vals@);
            assert(shape_matches(Self::spec_schema()[0], d[0]));
            assert(shape_matches(Self::spec_schema()[1], d[1]));
            assert(shape_matches(Self::spec_schema()[2], d[2]));
            assert(shape_matches(Self::spec_schema()[3], d[3]));
        }
        let r = SalonThing1 {
            unk1: value_word(&vals[0]),
            unk2: value_word(&vals[1]),
            unk3: value_word(&vals[2]),
            unk4: value_word(&vals[3]),
        };
        assert(r.model() =~= data_of(vals@));
        r
    }
}

#[derive(Default, Debug, Clone, PartialEq)]
pub struct SalonThing2 {
    pub unk1: u32,
    pub unk2: u32,
    pub unk3: u32,
    pub unk4: u32,
    pub unk5: u32,
    pub unk6: u32,
    pub unk7: u32,
    pub unk8: u32,
    pub unk9: u32,
    pub unk10: u32,
    pub unk11: u32,
    pub unk12: u32,
    pub unk13: u32,
    pub unk14: u32,
}

impl Record for SalonThing2 {
    open spec fn spec_schema() -> Seq<Field> {
        seq![Field::U32, Field::U32, Field::U32, Field::U32, Field::U32, Field::U32, Field::U32, Field::U32, Field::U32, Field::U32, Field::U32, Field::U32, Field::U32, Field::U32]
    }

    open spec fn model(&self) -> Seq<Datum> {
        seq![Datum::U32(self.unk1), Datum::U32(self.unk2), Datum::U32(self.unk3), Datum::U32(self.unk4), Datum::U32(self.unk5), Datum::U32(self.unk6), Datum::U32(self.unk7), Datum::U32(self.unk8), Datum::U32(self.unk9), Datum::U32(self.unk10), Datum::U32(self.unk11), Datum::U32(self.unk12), Datum::U32(self.unk13), Datum::U32(self.unk14)]
    }

    open spec fn wf(&self) -> bool {
        true
    }

    proof fn lemma_model(&self) {
    }

    proof fn lemma_schema() {
    }

    fn schema() -> (r: Vec<Field>) {
        let mut v: Vec<Field> = Vec::new();
        v.push(Field::U32);
        v.push(Field::U32);
        v.push(Field::U32);
        v.push(Field::U32);
        v.push(Field::U32);
        v.push(Field::U32);
        v.push(Field::U32);
        v.push(Field::U32);
        v.push(Field::U32);
        v.push(Field::U32);
        v.push(Field::U32);
        v.push(Field::U32);
        v.push(Field::U32);
        v.push(Field::U32);
        assert(v@ =~= Self::spec_schema());
        v
    }

    fn to_values(&self) -> (r: Vec<Value>) {
        let mut v: Vec<Value> = Vec::new();
        v.push(Value::U32(self.unk1));
        v.push(Value::U32(self.unk2));
        v.push(Value::U32(self.unk3));
        v.push(Value::U32(self.unk4));
        v.push(Value::U32(self.unk5));
        v.push(Value::U32(self.unk6));
        v.push(Value::U32(self.unk7));
        v.push(Value::U32(self.unk8));
        v.push(Value::U32(self.unk9));
        v.push(Value::U32(self.unk10));
        v.push(Value::U32(self.unk11));
        v.push(Value::U32(self.unk12));
        v.push(Value::U32(self.unk13));
        v.push(Value::U32(self.unk14));
        assert(data_of(v@) =~= self.model());
        v
    }

    fn from_values(vals: &Vec<Value>) -> (r: Self) {
        proof {
            let d = data_of(vals@);
            assert(shape_matches(Self::spec_schema()[0], d[0]));
            assert(shape_matches(Self::spec_schema()[1], d[1]));
            assert(shape_matches(Self::spec_schema()[2], d[2]));
            assert(shape_matches(Self::spec_schema()[3], d[3]));
            assert(shape_matches(Self::spec_schema()[4], d[4]));
            assert(shape_matches(Self::spec_schema()[5], d[5]));
            assert(shape_matches(Self::spec_schema()[6], d[6]));
            assert(shape_matches(Self::spec_schema()[7], d[7]));
            assert(shape_matches(Self::spec_schema()[8], d[8]));
            assert(shape_matches(Self::spec_schema()[9], d[9]));
            assert(shape_matches(Self::spec_schema()[10], d[10]));
            assert(shape_matches(Self::spec_schema()[11], d[11]));
            assert(shape_matches(Self::spec_schema()[12], d[12]));
            assert(shape_matches(Self::spec_schema()[13], d[13]));
        }
        let r = SalonThing2 {
            unk1: value_word(&vals[0]),
            unk2: value_word(&vals[1]),
            unk3: value_word(&vals[2]),
            unk4: value_word(&vals[3]),
            unk5: value_word(&vals[4]),
            unk6: value_word(&vals[5]),
            unk7: value_word(&vals[6]),
            unk8: value_word(&vals[7]),
            unk9: value_word(&vals[8]),
            unk10: value_word(&vals[9]),
            unk11: value_word(&vals[10]),
            unk12: value_word(&vals[11]),
            unk13: value_word(&vals[12]),
            unk14: value_word(&vals[13]),
        };
        assert(r.model() =~= data_of(vals@));
        r
    }
}

/// The login of a SEGA ID account (0x11, 0x00).
#[derive(Debug, Clone, PartialEq)]
pub struct SegaIDLoginPacket {
    pub unk1: u32,
    pub unk2: u32,
    pub unk3: u32,
    pub ver_id: [u8; 0x20],
    pub interfaces: Vec<NetInterface>,
    pub unk4: [u8; 0x90],
    pub unk5: [u8; 0x10],
    pub text_lang: u32,
    /// 0 for Japanese, 1 for English.
    pub voice_lang: u32,
    pub text_lang2: u32,
    pub lang_lang: u32,
    pub language: Vec<u8>,
    pub unk6: u32,
    pub unk7: u32,
    pub magic1: u32,
    pub unk8: [u8; 0x20],
    pub unk9: [u8; 0x44],
    pub username: Vec<u8>,
    pub password: Vec<u8>,
    pub unk10: u32,
    pub unk11: Vec<u8>,
}

impl SchemaPacket for SegaIDLoginPacket {
    open spec fn spec_schema() -> Seq<Layout> {
        seq![Layout::One(Field::U32), Layout::One(Field::U32), Layout::One(Field::U32), Layout::One(Field::Bytes(0x20)), Layout::List(0x5e6, 0x6b, NetInterface::spec_schema()), Layout::One(Field::Skip(0x14)), Layout::One(Field::Bytes(0x90)), Layout::One(Field::Skip(0x10)), Layout::One(Field::Bytes(0x10)), Layout::One(Field::Skip(0x10)), Layout::One(Field::U32), Layout::One(Field::U32), Layout::One(Field::U32), Layout::One(Field::U32), Layout::One(Field::Skip(8)), Layout::One(Field::Text(0x10)), Layout::One(Field::U32), Layout::One(Field::U32), Layout::One(Field::U32), Layout::One(Field::Bytes(0x20)), Layout::One(Field::Bytes(0x44)), Layout::One(Field::Skip(0x104)), Layout::One(Field::Text(0x40)), Layout::One(Field::Skip(0x20)), Layout::One(Field::Text(0x40)), Layout::One(Field::Skip(4)), Layout::One(Field::U32), Layout::One(Field::Var(0x5e6, 0x6b)), Layout::One(Field::Skip(4))]
    }

    open spec fn spec_header() -> PacketHeader {
        PacketHeader { category: 0x11, subtype: 0x0, flags: packed_flags() }
    }

    open spec fn model(&self) -> Seq<Entry> {
        seq![Entry::One(Datum::U32(self.unk1)), Entry::One(Datum::U32(self.unk2)), Entry::One(Datum::U32(self.unk3)), Entry::One(Datum::Bytes(self.ver_id@)), Entry::List(models_of(self.interfaces@)), Entry::One(Datum::Empty), Entry::One(Datum::Bytes(self.unk4@)), Entry::One(Datum::Empty), Entry::One(Datum::Bytes(self.unk5@)), Entry::One(Datum::Empty), Entry::One(Datum::U32(self.text_lang)), Entry::One(Datum::U32(self.voice_lang)), Entry::One(Datum::U32(self.text_lang2)), Entry::One(Datum::U32(self.lang_lang)), Entry::One(Datum::Empty), Entry::One(Datum::Bytes(self.language@)), Entry::One(Datum::U32(self.unk6)), Entry::One(Datum::U32(self.unk7)), Entry::One(Datum::U32(self.magic1)), Entry::One(Datum::Bytes(self.unk8@)), Entry::One(Datum::Bytes(self.unk9@)), Entry::One(Datum::Empty), Entry::One(Datum::Bytes(self.username@)), Entry::One(Datum::Empty), Entry::One(Datum::Bytes(self.password@)), Entry::One(Datum::Empty), Entry::One(Datum::U32(self.unk10)), Entry::One(Datum::Bytes(self.unk11@)), Entry::One(Datum::Empty)]
    }

    open spec fn wf(&self) -> bool {
        self.interfaces@.len() <= u32::MAX && all_wf(self.interfaces@)
        && self.language@.len() <= 0x10 && no_zero(self.language@)
        && self.username@.len() <= 0x40 && no_zero(self.username@)
        && self.password@.len() <= 0x40 && no_zero(self.password@)
        && self.unk11@.len() <= u32::MAX
    }

    proof fn lemma_model(&self) {
        lemma_records::<NetInterface>(self.interfaces@);
    }

    fn header() -> (r: PacketHeader) {
        PacketHeader::new(0x11, 0x0, Flags::packed())
    }

    fn schema() -> (r: Vec<Part>) {
        let mut v: Vec<Part> = Vec::new();
        v.push(Part::One(Field::U32));
        v.push(Part::One(Field::U32));
        v.push(Part::One(Field::U32));
        v.push(Part::One(Field::Bytes(0x20)));
        v.push(Part::List(0x5e6, 0x6b, NetInterface::schema()));
        v.push(Part::One(Field::Skip(0x14)));
        v.push(Part::One(Field::Bytes(0x90)));
        v.push(Part::One(Field::Skip(0x10)));
        v.push(Part::One(Field::Bytes(0x10)));
        v.push(Part::One(Field::Skip(0x10)));
        v.push(Part::One(Field::U32));
        v.push(Part::One(Field::U32));
        v.push(Part::One(Field::U32));
        v.push(Part::One(Field::U32));
        v.push(Part::One(Field::Skip(8)));
        v.push(Part::One(Field::Text(0x10)));
        v.push(Part::One(Field::U32));
        v.push(Part::One(Field::U32));
        v.push(Part::One(Field::U32));
        v.push(Part::One(Field::Bytes(0x20)));
        v.push(Part::One(Field::Bytes(0x44)));
        v.push(Part::One(Field::Skip(0x104)));
        v.push(Part::One(Field::Text(0x40)));
        v.push(Part::One(Field::Skip(0x20)));
        v.push(Part::One(Field::Text(0x40)));
        v.push(Part::One(Field::Skip(4)));
        v.push(Part::One(Field::U32));
        v.push(Part::One(Field::Var(0x5e6, 0x6b)));
        v.push(Part::One(Field::Skip(4)));
        assert(layouts_of(v@) =~= Self::spec_schema());
        v
    }

    fn to_values(&self) -> (r: Vec<Item>) {
        let mut v: Vec<Item> = Vec::new();
        v.push(Item::One(Value::U32(self.unk1)));
        v.push(Item::One(Value::U32(self.unk2)));
        v.push(Item::One(Value::U32(self.unk3)));
        v.push(Item::One(Value::Bytes(array_bytes(&self.ver_id))));
        v.push(Item::List(records_to_values(&self.interfaces)));
        v.push(Item::One(Value::Empty));
        v.push(Item::One(Value::Bytes(array_bytes(&self.unk4))));
        v.push(Item::One(Value::Empty));
        v.push(Item::One(Value::Bytes(array_bytes(&self.unk5))));
        v.push(Item::One(Value::Empty));
        v.push(Item::One(Value::U32(self.text_lang)));
        v.push(Item::One(Value::U32(self.voice_lang)));
        v.push(Item::One(Value::U32(self.text_lang2)));
        v.push(Item::One(Value::U32(self.lang_lang)));
        v.push(Item::One(Value::Empty));
        v.push(Item::One(Value::Bytes(copy_bytes(&self.language))));
        v.push(Item::One(Value::U32(self.unk6)));
        v.push(Item::One(Value::U32(self.unk7)));
        v.push(Item::One(Value::U32(self.magic1)));
        v.push(Item::One(Value::Bytes(array_bytes(&self.unk8))));
        v.push(Item::One(Value::Bytes(array_bytes(&self.unk9))));
        v.push(Item::One(Value::Empty));
        v.push(Item::One(Value::Bytes(copy_bytes(&self.username))));
        v.push(Item::One(Value::Empty));
        v.push(Item::One(Value::Bytes(copy_bytes(&self.password))));
        v.push(Item::One(Value::Empty));
        v.push(Item::One(Value::U32(self.unk10)));
        v.push(Item::One(Value::Bytes(copy_bytes(&self.unk11))));
        v.push(Item::One(Value::Empty));
        assert(entries_of(v@) =~= self.model());
        v
    }

    fn from_values(vals: &Vec<Item>) -> (r: Self) {
        proof {
            let d = entries_of(vals@);
            assert(part_shape_matches(Self::spec_schema()[0], d[0]));
            assert(part_shape_matches(Self::spec_schema()[1], d[1]));
            assert(part_shape_matches(Self::spec_schema()[2], d[2]));
            assert(part_shape_matches(Self::spec_schema()[3], d[3]));
            assert(part_shape_matches(Self::spec_schema()[4], d[4]));
            assert(part_shape_matches(Self::spec_schema()[5], d[5]));
            assert(part_shape_matches(Self::spec_schema()[6], d[6]));
            assert(part_shape_matches(Self::spec_schema()[7], d[7]));
            assert(part_shape_matches(Self::spec_schema()[8], d[8]));
            assert(part_shape_matches(Self::spec_schema()[9], d[9]));
            assert(part_shape_matches(Self::spec_schema()[10], d[10]));
            assert(part_shape_matches(Self::spec_schema()[11], d[11]));
            assert(part_shape_matches(Self::spec_schema()[12], d[12]));
            assert(part_shape_matches(Self::spec_schema()[13], d[13]));
            assert(part_shape_matches(Self::spec_schema()[14], d[14]));
            assert(part_shape_matches(Self::spec_schema()[15], d[15]));
            assert(part_shape_matches(Self::spec_schema()[16], d[16]));
            assert(part_shape_matches(Self::spec_schema()[17], d[17]));
            assert(part_shape_matches(Self::spec_schema()[18], d[18]));
            assert(part_shape_matches(Self::spec_schema()[19], d[19]));
            assert(part_shape_matches(Self::spec_schema()[20], d[20]));
            assert(part_shape_matches(Self::spec_schema()[21], d[21]));
            assert(part_shape_matches(Self::spec_schema()[22], d[22]));
            assert(part_shape_matches(Self::spec_schema()[23], d[23]));
            assert(part_shape_matches(Self::spec_schema()[24], d[24]));
            assert(part_shape_matches(Self::spec_schema()[25], d[25]));
            assert(part_shape_matches(Self::spec_schema()[26], d[26]));
            assert(part_shape_matches(Self::spec_schema()[27], d[27]));
            assert(part_shape_matches(Self::spec_schema()[28], d[28]));
        }
        let r = SegaIDLoginPacket {
            unk1: item_word(&vals[0]),
            unk2: item_word(&vals[1]),
            unk3: item_word(&vals[2]),
            ver_id: bytes_array::<0x20>(&item_bytes(&vals[3])),
            interfaces: item_records::<NetInterface>(&vals[4]),
            unk4: bytes_array::<0x90>(&item_bytes(&vals[6])),
            unk5: bytes_array::<0x10>(&item_bytes(&vals[8])),
            text_lang: item_word(&vals[10]),
            voice_lang: item_word(&vals[11]),
            text_lang2: item_word(&vals[12]),
            lang_lang: item_word(&vals[13]),
            language: item_bytes(&vals[15]),
            unk6: item_word(&vals[16]),
            unk7: item_word(&vals[17]),
            magic1: item_word(&vals[18]),
            unk8: bytes_array::<0x20>(&item_bytes(&vals[19])),
            unk9: bytes_array::<0x44>(&item_bytes(&vals[20])),
            username: item_bytes(&vals[22]),
            password: item_bytes(&vals[24]),
            unk10: item_word(&vals[26]),
            unk11: item_bytes(&vals[27]),
        };
        assert(r.model() =~= entries_of(vals@));
        r
    }
}

impl Default for SegaIDLoginPacket {
    /// The values that the client sends when nothing else is known.
    fn default() -> (r: SegaIDLoginPacket)
        ensures
            r.unk1 == 0 && r.unk2 == 9 && r.unk3 == 0,
            r.ver_id@ == zeros(0x20),
            r.interfaces@.len() == 0,
            r.unk4@ == zeros(0x90),
            r.unk5@ == zeros(0x10),
            r.text_lang == 0 && r.voice_lang == 0 && r.text_lang2 == 0 && r.lang_lang == 0,
            r.language@.len() == 0,
            r.unk6 == 7 && r.unk7 == 7 && r.magic1 == 0x0419,
            r.unk8@ == zeros(0x20),
            r.unk9@ == zeros(0x44),
            r.username@.len() == 0 && r.password@.len() == 0,
            r.unk10 == 512,
            r.unk11@.len() == 0,
    {
        let r = SegaIDLoginPacket {
            unk1: 0,
            unk2: 9,
            unk3: 0,
            ver_id: [0u8; 0x20],
            interfaces: Vec::new(),
            unk4: [0u8; 0x90],
            unk5: [0u8; 0x10],
            text_lang: 0,
            voice_lang: 0,
            text_lang2: 0,
            lang_lang: 0,
            language: Vec::new(),
            unk6: 7,
            unk7: 7,
            magic1: 0x0419,
            unk8: [0u8; 0x20],
            unk9: [0u8; 0x44],
            username: Vec::new(),
            password: Vec::new(),
            unk10: 512,
            unk11: Vec::new(),
        };
        assert(r.ver_id@ =~= zeros(0x20));
        assert(r.unk4@ =~= zeros(0x90));
        assert(r.unk5@ =~= zeros(0x10));
        assert(r.unk8@ =~= zeros(0x20));
        assert(r.unk9@ =~= zeros(0x44));
        r
    }
}

/// The login of a Vita client (0x11, 0x63).
#[derive(Debug, Clone, PartialEq)]
pub struct VitaLoginPacket {
    pub unk1: u8,
    pub unk2: u8,
    pub unk3: u16,
    pub unk4: u32,
    pub unk5: u32,
    pub ver_id: [u8; 0x20],
    pub interfaces: Vec<NetInterface>,
    pub unk6: [u8; 0x10],
    pub unk7: [u8; 0x90],
    pub unk8: [u8; 0x10],
    pub flag1: u32,
    pub flag2: u32,
    pub flag3: u32,
    pub flag4: u32,
    pub flag5: u32,
    pub flag6: u32,
    pub language: Vec<u8>,
    pub unk9: u32,
    pub unk10: u32,
    pub magic1: u32,
    pub unk11: [u8; 0x20],
    pub unk12: [u8; 0x44],
    pub username: Vec<u8>,
    pub password: Vec<u8>,
    pub unk13: u8,
    pub unk14: u8,
    pub unk15: u16,
    pub unk16: Vec<u8>,
    pub unk17: Vec<u8>,
    pub unk18: [u8; 0x10],
}

impl SchemaPacket for VitaLoginPacket {
    open spec fn spec_schema() -> Seq<Layout> {
        seq![Layout::One(Field::U8), Layout::One(Field::U8), Layout::One(Field::U16), Layout::One(Field::U32), Layout::One(Field::U32), Layout::One(Field::Bytes(0x20)), Layout::List(0xbe3f, 0x77, NetInterface::spec_schema()), Layout::One(Field::Bytes(0x10)), Layout::One(Field::Skip(4)), Layout::One(Field::Bytes(0x90)), Layout::One(Field::Skip(0x10)), Layout::One(Field::Bytes(0x10)), Layout::One(Field::Skip(0x10)), Layout::One(Field::U32), Layout::One(Field::U32), Layout::One(Field::U32), Layout::One(Field::U32), Layout::One(Field::U32), Layout::One(Field::U32), Layout::One(Field::Text(0x10)), Layout::One(Field::U32), Layout::One(Field::U32), Layout::One(Field::U32), Layout::One(Field::Bytes(0x20)), Layout::One(Field::Bytes(0x44)), Layout::One(Field::Skip(0xfc)), Layout::One(Field::Text(0x40)), Layout::One(Field::Skip(0x20)), Layout::One(Field::Text(0x40)), Layout::One(Field::Skip(4)), Layout::One(Field::U8), Layout::One(Field::U8), Layout::One(Field::U16), Layout::One(Field::Var(0xbe3f, 0x77)), Layout::One(Field::Var(0xbe3f, 0x77)), Layout::One(Field::Bytes(0x10))]
    }

    open spec fn spec_header() -> PacketHeader {
        PacketHeader { category: 0x11, subtype: 0x63, flags: packed_flags() }
    }

    open spec fn model(&self) -> Seq<Entry> {
        seq![Entry::One(Datum::U8(self.unk1)), Entry::One(Datum::U8(self.unk2)), Entry::One(Datum::U16(self.unk3)), Entry::One(Datum::U32(self.unk4)), Entry::One(Datum::U32(self.unk5)), Entry::One(Datum::Bytes(self.ver_id@)), Entry::List(models_of(self.interfaces@)), Entry::One(Datum::Bytes(self.unk6@)), Entry::One(Datum::Empty), Entry::One(Datum::Bytes(self.unk7@)), Entry::One(Datum::Empty), Entry::One(Datum::Bytes(self.unk8@)), Entry::One(Datum::Empty), Entry::One(Datum::U32(self.flag1)), Entry::One(Datum::U32(self.flag2)), Entry::One(Datum::U32(self.flag3)), Entry::One(Datum::U32(self.flag4)), Entry::One(Datum::U32(self.flag5)), Entry::One(Datum::U32(self.flag6)), Entry::One(Datum::Bytes(self.language@)), Entry::One(Datum::U32(self.unk9)), Entry::One(Datum::U32(self.unk10)), Entry::One(Datum::U32(self.magic1)), Entry::One(Datum::Bytes(self.unk11@)), Entry::One(Datum::Bytes(self.unk12@)), Entry::One(Datum::Empty), Entry::One(Datum::Bytes(self.username@)), Entry::One(Datum::Empty), Entry::One(Datum::Bytes(self.password@)), Entry::One(Datum::Empty), Entry::One(Datum::U8(self.unk13)), Entry::One(Datum::U8(self.unk14)), Entry::One(Datum::U16(self.unk15)), Entry::One(Datum::Bytes(self.unk16@)), Entry::One(Datum::Bytes(self.unk17@)), Entry::One(Datum::Bytes(self.unk18@))]
    }

    open spec fn wf(&self) -> bool {
        self.interfaces@.len() <= u32::MAX && all_wf(self.interfaces@)
        && self.language@.len() <= 0x10 && no_zero(self.language@)
        && self.username@.len() <= 0x40 && no_zero(self.username@)
        && self.password@.len() <= 0x40 && no_zero(self.password@)
        && self.unk16@.len() <= u32::MAX
        && self.unk17@.len() <= u32::MAX
    }

    proof fn lemma_model(&self) {
        lemma_records::<NetInterface>(self.interfaces@);
    }

    fn header() -> (r: PacketHeader) {
        PacketHeader::new(0x11, 0x63, Flags::packed())
    }

    fn schema() -> (r: Vec<Part>) {
        let mut v: Vec<Part> = Vec::new();
        v.push(Part::One(Field::U8));
        v.push(Part::One(Field::U8));
        v.push(Part::One(Field::U16));
        v.push(Part::One(Field::U32));
        v.push(Part::One(Field::U32));
        v.push(Part::One(Field::Bytes(0x20)));
        v.push(Part::List(0xbe3f, 0x77, NetInterface::schema()));
        v.push(Part::One(Field::Bytes(0x10)));
        v.push(Part::One(Field::Skip(4)));
        v.push(Part::One(Field::Bytes(0x90)));
        v.push(Part::One(Field::Skip(0x10)));
        v.push(Part::One(Field::Bytes(0x10)));
        v.push(Part::One(Field::Skip(0x10)));
        v.push(Part::One(Field::U32));
        v.push(Part::One(Field::U32));
        v.push(Part::One(Field::U32));
        v.push(Part::One(Field::U32));
        v.push(Part::One(Field::U32));
        v.push(Part::One(Field::U32));
        v.push(Part::One(Field::Text(0x10)));
        v.push(Part::One(Field::U32));
        v.push(Part::One(Field::U32));
        v.push(Part::One(Field::U32));
        v.push(Part::One(Field::Bytes(0x20)));
        v.push(Part::One(Field::Bytes(0x44)));
        v.push(Part::One(Field::Skip(0xfc)));
        v.push(Part::One(Field::Text(0x40)));
        v.push(Part::One(Field::Skip(0x20)));
        v.push(Part::One(Field::Text(0x40)));
        v.push(Part::One(Field::Skip(4)));
        v.push(Part::One(Field::U8));
        v.push(Part::One(Field::U8));
        v.push(Part::One(Field::U16));
        v.push(Part::One(Field::Var(0xbe3f, 0x77)));
        v.push(Part::One(Field::Var(0xbe3f, 0x77)));
        v.push(Part::One(Field::Bytes(0x10)));
        assert(layouts_of(v@) =~= Self::spec_schema());
        v
    }

    fn to_values(&self) -> (r: Vec<Item>) {
        let mut v: Vec<Item> = Vec::new();
        v.push(Item::One(Value::U8(self.unk1)));
        v.push(Item::One(Value::U8(self.unk2)));
        v.push(Item::One(Value::U16(self.unk3)));
        v.push(Item::One(Value::U32(self.unk4)));
        v.push(Item::One(Value::U32(self.unk5)));
        v.push(Item::One(Value::Bytes(array_bytes(&self.ver_id))));
        v.push(Item::List(records_to_values(&self.interfaces)));
        v.push(Item::One(Value::Bytes(array_bytes(&self.unk6))));
        v.push(Item::One(Value::Empty));
        v.push(Item::One(Value::Bytes(array_bytes(&self.unk7))));
        v.push(Item::One(Value::Empty));
        v.push(Item::One(Value::Bytes(array_bytes(&self.unk8))));
        v.push(Item::One(Value::Empty));
        v.push(Item::One(Value::U32(self.flag1)));
        v.push(Item::One(Value::U32(self.flag2)));
        v.push(Item::One(Value::U32(self.flag3)));
        v.push(Item::One(Value::U32(self.flag4)));
        v.push(Item::One(Value::U32(self.flag5)));
        v.push(Item::One(Value::U32(self.flag6)));
        v.push(Item::One(Value::Bytes(copy_bytes(&self.language))));
        v.push(Item::One(Value::U32(self.unk9)));
        v.push(Item::One(Value::U32(self.unk10)));
        v.push(Item::One(Value::U32(self.magic1)));
        v.push(Item::One(Value::Bytes(array_bytes(&self.unk11))));
        v.push(Item::One(Value::Bytes(array_bytes(&self.unk12))));
        v.push(Item::One(Value::Empty));
        v.push(Item::One(Value::Bytes(copy_bytes(&self.username))));
        v.push(Item::One(Value::Empty));
        v.push(Item::One(Value::Bytes(copy_bytes(&self.password))));
        v.push(Item::One(Value::Empty));
        v.push(Item::One(Value::U8(self.unk13)));
        v.push(Item::One(Value::U8(self.unk14)));
        v.push(Item::One(Value::U16(self.unk15)));
        v.push(Item::One(Value::Bytes(copy_bytes(&self.unk16))));
        v.push(Item::One(Value::Bytes(copy_bytes(&self.unk17))));
        v.push(Item::One(Value::Bytes(array_bytes(&self.unk18))));
        assert(entries_of(v@) =~= self.model());
        v
    }

    fn from_values(vals: &Vec<Item>) -> (r: Self) {
        proof {
            let d = entries_of(vals@);
            assert(part_shape_matches(Self::spec_schema()[0], d[0]));
            assert(part_shape_matches(Self::spec_schema()[1], d[1]));
            assert(part_shape_matches(Self::spec_schema()[2], d[2]));
            assert(part_shape_matches(Self::spec_schema()[3], d[3]));
            assert(part_shape_matches(Self::spec_schema()[4], d[4]));
            assert(part_shape_matches(Self::spec_schema()[5], d[5]));
            assert(part_shape_matches(Self::spec_schema()[6], d[6]));
            assert(part_shape_matches(Self::spec_schema()[7], d[7]));
            assert(part_shape_matches(Self::spec_schema()[8], d[8]));
            assert(part_shape_matches(Self::spec_schema()[9], d[9]));
            assert(part_shape_matches(Self::spec_schema()[10], d[10]));
            assert(part_shape_matches(Self::spec_schema()[11], d[11]));
            assert(part_shape_matches(Self::spec_schema()[12], d[12]));
            assert(part_shape_matches(Self::spec_schema()[13], d[13]));
            assert(part_shape_matches(Self::spec_schema()[14], d[14]));
            assert(part_shape_matches(Self::spec_schema()[15], d[15]));
            assert(part_shape_matches(Self::spec_schema()[16], d[16]));
            assert(part_shape_matches(Self::spec_schema()[17], d[17]));
            assert(part_shape_matches(Self::spec_schema()[18], d[18]));
            assert(part_shape_matches(Self::spec_schema()[19], d[19]));
            assert(part_shape_matches(Self::spec_schema()[20], d[20]));
            assert(part_shape_matches(Self::spec_schema()[21], d[21]));
            assert(part_shape_matches(Self::spec_schema()[22], d[22]));
            assert(part_shape_matches(Self::spec_schema()[23], d[23]));
            assert(part_shape_matches(Self::spec_schema()[24], d[24]));
            assert(part_shape_matches(Self::spec_schema()[25], d[25]));
            assert(part_shape_matches(Self::spec_schema()[26], d[26]));
            assert(part_shape_matches(Self::spec_schema()[27], d[27]));
            assert(part_shape_matches(Self::spec_schema()[28], d[28]));
            assert(part_shape_matches(Self::spec_schema()[29], d[29]));
            assert(part_shape_matches(Self::spec_schema()[30], d[30]));
            assert(part_shape_matches(Self::spec_schema()[31], d[31]));
            assert(part_shape_matches(Self::spec_schema()[32], d[32]));
            assert(part_shape_matches(Self::spec_schema()[33], d[33]));
            assert(part_shape_matches(Self::spec_schema()[34], d[34]));
            assert(part_shape_matches(Self::spec_schema()[35], d[35]));
        }
        let r = VitaLoginPacket {
            unk1: item_byte(&vals[0]),
            unk2: item_byte(&vals[1]),
            unk3: item_half(&vals[2]),
            unk4: item_word(&vals[3]),
            unk5: item_word(&vals[4]),
            ver_id: bytes_array::<0x20>(&item_bytes(&vals[5])),
            interfaces: item_records::<NetInterface>(&vals[6]),
            unk6: bytes_array::<0x10>(&item_bytes(&vals[7])),
            unk7: bytes_array::<0x90>(&item_bytes(&vals[9])),
            unk8: bytes_array::<0x10>(&item_bytes(&vals[11])),
            flag1: item_word(&vals[13]),
            flag2: item_word(&vals[14]),
            flag3: item_word(&vals[15]),
            flag4: item_word(&vals[16]),
            flag5: item_word(&vals[17]),
            flag6: item_word(&vals[18]),
            language: item_bytes(&vals[19]),
            unk9: item_word(&vals[20]),
            unk10: item_word(&vals[21]),
            magic1: item_word(&vals[22]),
            unk11: bytes_array::<0x20>(&item_bytes(&vals[23])),
            unk12: bytes_array::<0x44>(&item_bytes(&vals[24])),
            username: item_bytes(&vals[26]),
            password: item_bytes(&vals[28]),
            unk13: item_byte(&vals[30]),
            unk14: item_byte(&vals[31]),
            unk15: item_half(&vals[32]),
            unk16: item_bytes(&vals[33]),
            unk17: item_bytes(&vals[34]),
            unk18: bytes_array::<0x10>(&item_bytes(&vals[35])),
        };
        assert(r.model() =~= entries_of(vals@));
        r
    }
}

impl Default for VitaLoginPacket {
    /// The values that the client sends when nothing else is known.
    fn default() -> (r: VitaLoginPacket)
        ensures
            r.unk1 == 0 && r.unk2 == 0 && r.unk3 == 0 && r.unk4 == 9 && r.unk5 == 0,
            r.ver_id@ == zeros(0x20),
            r.interfaces@.len() == 0,
            r.unk6@ == zeros(0x10),
            r.unk7@ == zeros(0x90),
            r.unk8@ == zeros(0x10),
            r.flag1 == 0 && r.flag2 == 0 && r.flag3 == 0 && r.flag4 == 0 && r.flag5 == 0 && r.flag6 == 0,
            r.language@.len() == 0,
            r.unk9 == 0 && r.unk10 == 0 && r.magic1 == 0,
            r.unk11@ == zeros(0x20),
            r.unk12@ == zeros(0x44),
            r.username@.len() == 0 && r.password@.len() == 0,
            r.unk13 == 0 && r.unk14 == 2 && r.unk15 == 0,
            r.unk16@.len() == 0 && r.unk17@.len() == 0,
            r.unk18@ == zeros(0x10),
    {
        let r = VitaLoginPacket {
            unk1: 0,
            unk2: 0,
            unk3: 0,
            unk4: 9,
            unk5: 0,
            ver_id: [0u8; 0x20],
            interfaces: Vec::new(),
            unk6: [0u8; 0x10],
            unk7: [0u8; 0x90],
            unk8: [0u8; 0x10],
            flag1: 0,
            flag2: 0,
            flag3: 0,
            flag4: 0,
            flag5: 0,
            flag6: 0,
            language: Vec::new(),
            unk9: 0,
            unk10: 0,
            magic1: 0,
            unk11: [0u8; 0x20],
            unk12: [0u8; 0x44],
            username: Vec::new(),
            password: Vec::new(),
            unk13: 0,
            unk14: 2,
            unk15: 0,
            unk16: Vec::new(),
            unk17: Vec::new(),
            unk18: [0u8; 0x10],
        };
        assert(r.ver_id@ =~= zeros(0x20));
        assert(r.unk6@ =~= zeros(0x10));
        assert(r.unk7@ =~= zeros(0x90));
        assert(r.unk8@ =~= zeros(0x10));
        assert(r.unk11@ =~= zeros(0x20));
        assert(r.unk12@ =~= zeros(0x44));
        assert(r.unk18@ =~= zeros(0x10));
        r
    }
}

/// The ships to choose from (0x11, 0x3D).
#[derive(Debug, Clone, PartialEq)]
pub struct ShipListPacket {
    pub ships: Vec<ShipEntry>,
    /// Seconds since the Unix epoch.
    pub timestamp: u32,
}

impl SchemaPacket for ShipListPacket {
    open spec fn spec_schema() -> Seq<Layout> {
        seq![Layout::List(0xe418, 0x51, ShipEntry::spec_schema()), Layout::One(Field::U32)]
    }

    open spec fn spec_header() -> PacketHeader {
        PacketHeader { category: 0x11, subtype: 0x3d, flags: packed_flags() }
    }

    open spec fn model(&self) -> Seq<Entry> {
        seq![Entry::List(models_of(self.ships@)), Entry::One(Datum::U32(self.timestamp))]
    }

    open spec fn wf(&self) -> bool {
        self.ships@.len() <= u32::MAX && all_wf(self.ships@)
    }

    proof fn lemma_model(&self) {
        lemma_records::<ShipEntry>(self.ships@);
    }

    fn header() -> (r: PacketHeader) {
        PacketHeader::new(0x11, 0x3d, Flags::packed())
    }

    fn schema() -> (r: Vec<Part>) {
        let mut v: Vec<Part> = Vec::new();
        v.push(Part::List(0xe418, 0x51, ShipEntry::schema()));
        v.push(Part::One(Field::U32));
        assert(layouts_of(v@) =~= Self::spec_schema());
        v
    }

    fn to_values(&self) -> (r: Vec<Item>) {
        let mut v: Vec<Item> = Vec::new();
        v.push(Item::List(records_to_values(&self.ships)));
        v.push(Item::One(Value::U32(self.timestamp)));
        assert(entries_of(v@) =~= self.model());
        v
    }

    fn from_values(vals: &Vec<Item>) -> (r: Self) {
        proof {
            let d = entries_of(vals@);
            assert(part_shape_matches(Self::spec_schema()[0], d[0]));
            assert(part_shape_matches(Self::spec_schema()[1], d[1]));
        }
        let r = ShipListPacket {
            ships: item_records::<ShipEntry>(&vals[0]),
            timestamp: item_word(&vals[1]),
        };
        assert(r.model() =~= entries_of(vals@));
        r
    }
}

/// The salon state (0x11, 0x67).
#[derive(Default, Debug, Clone, PartialEq)]
pub struct SalonResponse {
    pub reedit_time: u32,
    pub unk2: u32,
    pub unk3: u32,
    pub unk4: u32,
    pub unk5: Vec<SalonThing1>,
    pub unk6: Vec<SalonThing2>,
    pub unk7: u32,
}

impl SchemaPacket for SalonResponse {
    open spec fn spec_schema() -> Seq<Layout> {
        seq![Layout::One(Field::U32), Layout::One(Field::U32), Layout::One(Field::U32), Layout::One(Field::U32), Layout::List(0xd536, 0xa4, SalonThing1::spec_schema()), Layout::List(0xd536, 0xa4, SalonThing2::spec_schema()), Layout::One(Field::U32)]
    }

    open spec fn spec_header() -> PacketHeader {
        PacketHeader { category: 0x11, subtype: 0x67, flags: packed_flags() }
    }

    open spec fn model(&self) -> Seq<Entry> {
        seq![Entry::One(Datum::U32(self.reedit_time)), Entry::One(Datum::U32(self.unk2)), Entry::One(Datum::U32(self.unk3)), Entry::One(Datum::U32(self.unk4)), Entry::List(models_of(self.unk5@)), Entry::List(models_of(self.unk6@)), Entry::One(Datum::U32(self.unk7))]
    }

    open spec fn wf(&self) -> bool {
        self.unk5@.len() <= u32::MAX && all_wf(self.unk5@)
        && self.unk6@.len() <= u32::MAX && all_wf(self.unk6@)
    }

    proof fn lemma_model(&self) {
        lemma_records::<SalonThing1>(self.unk5@);
        lemma_records::<SalonThing2>(self.unk6@);
    }

    fn header() -> (r: PacketHeader) {
        PacketHeader::new(0x11, 0x67, Flags::packed())
    }

    fn schema() -> (r: Vec<Part>) {
        let mut v: Vec<Part> = Vec::new();
        v.push(Part::One(Field::U32));
        v.push(Part::One(Field::U32));
        v.push(Part::One(Field::U32));
        v.push(Part::One(Field::U32));
        v.push(Part::List(0xd536, 0xa4, SalonThing1::schema()));
        v.push(Part::List(0xd536, 0xa4, SalonThing2::schema()));
        v.push(Part::One(Field::U32));
        assert(layouts_of(v@) =~= Self::spec_schema());
        v
    }

    fn to_values(&self) -> (r: Vec<Item>) {
        let mut v: Vec<Item> = Vec::new();
        v.push(Item::One(Value::U32(self.reedit_time)));
        v.push(Item::One(Value::U32(self.unk2)));
        v.push(Item::One(Value::U32(self.unk3)));
        v.push(Item::One(Value::U32(self.unk4)));
        v.push(Item::List(records_to_values(&self.unk5)));
        v.push(Item::List(records_to_values(&self.unk6)));
        v.push(Item::One(Value::U32(self.unk7)));
        assert(entries_of(v@) =~= self.model());
        v
    }

    fn from_values(vals: &Vec<Item>) -> (r: Self) {
        proof {
            let d = entries_of(vals@);
            assert(part_shape_matches(Self::spec_schema()[0], d[0]));
            assert(part_shape_matches(Self::spec_schema()[1], d[1]));
            assert(part_shape_matches(Self::spec_schema()[2], d[2]));
            assert(part_shape_matches(Self::spec_schema()[3], d[3]));
            assert(part_shape_matches(Self::spec_schema()[4], d[4]));
            assert(part_shape_matches(Self::spec_schema()[5], d[5]));
            assert(part_shape_matches(Self::spec_schema()[6], d[6]));
        }
        let r = SalonResponse {
            reedit_time: item_word(&vals[0]),
            unk2: item_word(&vals[1]),
            unk3: item_word(&vals[2]),
            unk4: item_word(&vals[3]),
            unk5: item_records::<SalonThing1>(&vals[4]),
            unk6: item_records::<SalonThing2>(&vals[5]),
            unk7: item_word(&vals[6]),
        };
        assert(r.model() =~= entries_of(vals@));
        r
    }
}

/// The recent logins of the account (0x11, 0x87).
#[derive(Default, Debug, Clone, PartialEq)]
pub struct LoginHistoryPacket {
    pub attempts: Vec<LoginAttempt>,
}

impl SchemaPacket for LoginHistoryPacket {
    open spec fn spec_schema() -> Seq<Layout> {
        seq![Layout::List(0x8ceb, 8, LoginAttempt::spec_schema())]
    }

    open spec fn spec_header() -> PacketHeader {
        PacketHeader { category: 0x11, subtype: 0x87, flags: packed_flags() }
    }

    open spec fn model(&self) -> Seq<Entry> {
        seq![Entry::List(models_of(self.attempts@))]
    }

    open spec fn wf(&self) -> bool {
        self.attempts@.len() <= u32::MAX && all_wf(self.attempts@)
    }

    proof fn lemma_model(&self) {
        lemma_records::<LoginAttempt>(self.attempts@);
    }

    fn header() -> (r: PacketHeader) {
        PacketHeader::new(0x11, 0x87, Flags::packed())
    }

    fn schema() -> (r: Vec<Part>) {
        let mut v: Vec<Part> = Vec::new();
        v.push(Part::List(0x8ceb, 8, LoginAttempt::schema()));
        assert(layouts_of(v@) =~= Self::spec_schema());
        v
    }

    fn to_values(&self) -> (r: Vec<Item>) {
        let mut v: Vec<Item> = Vec::new();
        v.push(Item::List(records_to_values(&self.attempts)));
        assert(entries_of(v@) =~= self.model());
        v
    }

    fn from_values(vals: &Vec<Item>) -> (r: Self) {
        proof {
            let d = entries_of(vals@);
            assert(part_shape_matches(Self::spec_schema()[0], d[0]));
        }
        let r = LoginHistoryPacket {
            attempts: item_records::<LoginAttempt>(&vals[0]),
        };
        assert(r.model() =~= entries_of(vals@));
        r
    }
}

/// The character chosen to play with (0x11, 0x04).
#[derive(Debug, Clone, PartialEq)]
pub struct StartGamePacket {
    pub char_id: u32,
    pub unk1: u32,
    pub unk2: u32,
}

impl SchemaPacket for StartGamePacket {
    open spec fn spec_schema() -> Seq<Layout> {
        seq![Layout::One(Field::U32), Layout::One(Field::U32), Layout::One(Field::U32)]
    }

    open spec fn spec_header() -> PacketHeader {
        PacketHeader { category: 0x11, subtype: 0x4, flags: no_flags() }
    }

    open spec fn model(&self) -> Seq<Entry> {
        seq![Entry::One(Datum::U32(self.char_id)), Entry::One(Datum::U32(self.unk1)), Entry::One(Datum::U32(self.unk2))]
    }

    open spec fn wf(&self) -> bool {
        true
    }

    proof fn lemma_model(&self) {
    }

    fn header() -> (r: PacketHeader) {
        PacketHeader::new(0x11, 0x4, Flags::default())
    }

    fn schema() -> (r: Vec<Part>) {
        let mut v: Vec<Part> = Vec::new();
        v.push(Part::One(Field::U32));
        v.push(Part::One(Field::U32));
        v.push(Part::One(Field::U32));
        assert(layouts_of(v@) =~= Self::spec_schema());
        v
    }

    fn to_values(&self) -> (r: Vec<Item>) {
        let mut v: Vec<Item> = Vec::new();
        v.push(Item::One(Value::U32(self.char_id)));
        v.push(Item::One(Value::U32(self.unk1)));
        v.push(Item::One(Value::U32(self.unk2)));
        assert(entries_of(v@) =~= self.model());
        v
    }

    fn from_values(vals: &Vec<Item>) -> (r: Self) {
        proof {
            let d = entries_of(vals@);
            assert(part_shape_matches(Self::spec_schema()[0], d[0]));
            assert(part_shape_matches(Self::spec_schema()[1], d[1]));
            assert(part_shape_matches(Self::spec_schema()[2], d[2]));
        }
        let r = StartGamePacket {
            char_id: item_word(&vals[0]),
            unk1: item_word(&vals[1]),
            unk2: item_word(&vals[2]),
        };
        assert(r.model() =~= entries_of(vals@));
        r
    }
}

/// A character to create (0x11, 0x05).
#[derive(Default, Debug, Clone, PartialEq)]
pub struct CharacterCreatePacket {
    pub character: Character,
    /// Selects the global client's character layout; not carried on the wire.
    pub is_global: bool,
}

impl SchemaPacket for CharacterCreatePacket {
    open spec fn spec_schema() -> Seq<Layout> {
        seq![Layout::One(Field::Bytes(CHARACTER_SIZE))]
    }

    open spec fn spec_header() -> PacketHeader {
        PacketHeader { category: 0x11, subtype: 0x5, flags: no_flags() }
    }

    open spec fn model(&self) -> Seq<Entry> {
        seq![Entry::One(Datum::Bytes(self.character@))]
    }

    open spec fn wf(&self) -> bool {
        self.character.wf()
    }

    proof fn lemma_model(&self) {
    }

    fn header() -> (r: PacketHeader) {
        PacketHeader::new(0x11, 0x5, Flags::default())
    }

    fn schema() -> (r: Vec<Part>) {
        let mut v: Vec<Part> = Vec::new();
        v.push(Part::One(Field::Bytes(CHARACTER_SIZE)));
        assert(layouts_of(v@) =~= Self::spec_schema());
        v
    }

    fn to_values(&self) -> (r: Vec<Item>) {
        let mut v: Vec<Item> = Vec::new();
        v.push(Item::One(Value::Bytes(copy_bytes(&self.character.data))));
        assert(entries_of(v@) =~= self.model());
        v
    }

    fn from_values(vals: &Vec<Item>) -> (r: Self) {
        proof {
            let d = entries_of(vals@);
            assert(part_shape_matches(Self::spec_schema()[0], d[0]));
        }
        let r = CharacterCreatePacket {
            character: Character { data: item_bytes(&vals[0]) },
            is_global: false,
        };
        assert(r.model() =~= entries_of(vals@));
        r
    }
}

/// A ping from the client (0x11, 0x0D).
#[derive(Debug, Clone, PartialEq)]
pub struct ClientPingPacket {
    pub time: PsoTime,
}

impl SchemaPacket for ClientPingPacket {
    open spec fn spec_schema() -> Seq<Layout> {
        seq![Layout::One(Field::U64)]
    }

    open spec fn spec_header() -> PacketHeader {
        PacketHeader { category: 0x11, subtype: 0xd, flags: no_flags() }
    }

    open spec fn model(&self) -> Seq<Entry> {
        seq![Entry::One(Datum::U64(self.time.millis))]
    }

    open spec fn wf(&self) -> bool {
        true
    }

    proof fn lemma_model(&self) {
    }

    fn header() -> (r: PacketHeader) {
        PacketHeader::new(0x11, 0xd, Flags::default())
    }

    fn schema() -> (r: Vec<Part>) {
        let mut v: Vec<Part> = Vec::new();
        v.push(Part::One(Field::U64));
        assert(layouts_of(v@) =~= Self::spec_schema());
        v
    }

    fn to_values(&self) -> (r: Vec<Item>) {
        let mut v: Vec<Item> = Vec::new();
        v.push(Item::One(Value::U64(self.time.millis)));
        assert(entries_of(v@) =~= self.model());
        v
    }

    fn from_values(vals: &Vec<Item>) -> (r: Self) {
        proof {
            let d = entries_of(vals@);
            assert(part_shape_matches(Self::spec_schema()[0], d[0]));
        }
        let r = ClientPingPacket {
            time: PsoTime { millis: item_long(&vals[0]) },
        };
        assert(r.model() =~= entries_of(vals@));
        r
    }
}

impl ClientPingPacket {
    pub fn new(time: PsoTime) -> (r: ClientPingPacket)
        ensures
            r.time == time,
    {
        ClientPingPacket { time }
    }
}

/// The reply to a ping (0x11, 0x0E).
#[derive(Debug, Clone, PartialEq)]
pub struct ClientPongPacket {
    pub client_time: PsoTime,
    pub server_time: PsoTime,
    pub unk1: u32,
}

impl SchemaPacket for ClientPongPacket {
    open spec fn spec_schema() -> Seq<Layout> {
        seq![Layout::One(Field::U64), Layout::One(Field::U64), Layout::One(Field::U32)]
    }

    open spec fn spec_header() -> PacketHeader {
        PacketHeader { category: 0x11, subtype: 0xe, flags: no_flags() }
    }

    open spec fn model(&self) -> Seq<Entry> {
        seq![Entry::One(Datum::U64(self.client_time.millis)), Entry::One(Datum::U64(self.server_time.millis)), Entry::One(Datum::U32(self.unk1))]
    }

    open spec fn wf(&self) -> bool {
        true
    }

    proof fn lemma_model(&self) {
    }

    fn header() -> (r: PacketHeader) {
        PacketHeader::new(0x11, 0xe, Flags::default())
    }

    fn schema() -> (r: Vec<Part>) {
        let mut v: Vec<Part> = Vec::new();
        v.push(Part::One(Field::U64));
        v.push(Part::One(Field::U64));
        v.push(Part::One(Field::U32));
        assert(layouts_of(v@) =~= Self::spec_schema());
        v
    }

    fn to_values(&self) -> (r: Vec<Item>) {
        let mut v: Vec<Item> = Vec::new();
        v.push(Item::One(Value::U64(self.client_time.millis)));
        v.push(Item::One(Value::U64(self.server_time.millis)));
        v.push(Item::One(Value::U32(self.unk1)));
        assert(entries_of(v@) =~= self.model());
        v
    }

    fn from_values(vals: &Vec<Item>) -> (r: Self) {
        proof {
            let d = entries_of(vals@);
            assert(part_shape_matches(Self::spec_schema()[0], d[0]));
            assert(part_shape_matches(Self::spec_schema()[1], d[1]));
            assert(part_shape_matches(Self::spec_schema()[2], d[2]));
        }
        let r = ClientPongPacket {
            client_time: PsoTime { millis: item_long(&vals[0]) },
            server_time: PsoTime { millis: item_long(&vals[1]) },
            unk1: item_word(&vals[2]),
        };
        assert(r.model() =~= entries_of(vals@));
        r
    }
}

impl ClientPongPacket {
    /// A reply to a ping sent at `client_time`, answered at `server_time`.
    pub fn new(client_time: PsoTime, server_time: PsoTime) -> (r: ClientPongPacket)
        ensures
            r.client_time == client_time,
            r.server_time == server_time,
            r.unk1 == 0,
    {
        ClientPongPacket { client_time, server_time, unk1: 0 }
    }
}

/// Asks the player for a nickname (0x11, 0x1E).
#[derive(Default, Debug, Clone, PartialEq)]
pub struct NicknameRequestPacket {
    pub error: u16,
}

impl SchemaPacket for NicknameRequestPacket {
    open spec fn spec_schema() -> Seq<Layout> {
        seq![Layout::One(Field::U16), Layout::One(Field::Skip(0x42))]
    }

    open spec fn spec_header() -> PacketHeader {
        PacketHeader { category: 0x11, subtype: 0x1e, flags: no_flags() }
    }

    open spec fn model(&self) -> Seq<Entry> {
        seq![Entry::One(Datum::U16(self.error)), Entry::One(Datum::Empty)]
    }

    open spec fn wf(&self) -> bool {
        true
    }

    proof fn lemma_model(&self) {
    }

    fn header() -> (r: PacketHeader) {
        PacketHeader::new(0x11, 0x1e, Flags::default())
    }

    fn schema() -> (r: Vec<Part>) {
        let mut v: Vec<Part> = Vec::new();
        v.push(Part::One(Field::U16));
        v.push(Part::One(Field::Skip(0x42)));
        assert(layouts_of(v@) =~= Self::spec_schema());
        v
    }

    fn to_values(&self) -> (r: Vec<Item>) {
        let mut v: Vec<Item> = Vec::new();
        v.push(Item::One(Value::U16(self.error)));
        v.push(Item::One(Value::Empty));
        assert(entries_of(v@) =~= self.model());
        v
    }

    fn from_values(vals: &Vec<Item>) -> (r: Self) {
        proof {
            let d = entries_of(vals@);
            assert(part_shape_matches(Self::spec_schema()[0], d[0]));
            assert(part_shape_matches(Self::spec_schema()[1], d[1]));
        }
        let r = NicknameRequestPacket {
            error: item_half(&vals[0]),
        };
        assert(r.model() =~= entries_of(vals@));
        r
    }
}

/// The nickname that the player chose (0x11, 0x1D).
#[derive(Default, Debug, Clone, PartialEq)]
pub struct NicknameResponsePacket {
    pub nickname: Vec<u8>,
}

impl SchemaPacket for NicknameResponsePacket {
    open spec fn spec_schema() -> Seq<Layout> {
        seq![Layout::One(Field::Text(0x10)), Layout::One(Field::Skip(0x20))]
    }

    open spec fn spec_header() -> PacketHeader {
        PacketHeader { category: 0x11, subtype: 0x1d, flags: no_flags() }
    }

    open spec fn model(&self) -> Seq<Entry> {
        seq![Entry::One(Datum::Bytes(self.nickname@)), Entry::One(Datum::Empty)]
    }

    open spec fn wf(&self) -> bool {
        self.nickname@.len() <= 0x10 && no_zero(self.nickname@)
    }

    proof fn lemma_model(&self) {
    }

    fn header() -> (r: PacketHeader) {
        PacketHeader::new(0x11, 0x1d, Flags::default())
    }

    fn schema() -> (r: Vec<Part>) {
        let mut v: Vec<Part> = Vec::new();
        v.push(Part::One(Field::Text(0x10)));
        v.push(Part::One(Field::Skip(0x20)));
        assert(layouts_of(v@) =~= Self::spec_schema());
        v
    }

    fn to_values(&self) -> (r: Vec<Item>) {
        let mut v: Vec<Item> = Vec::new();
        v.push(Item::One(Value::Bytes(copy_bytes(&self.nickname))));
        v.push(Item::One(Value::Empty));
        assert(entries_of(v@) =~= self.model());
        v
    }

    fn from_values(vals: &Vec<Item>) -> (r: Self) {
        proof {
            let d = entries_of(vals@);
            assert(part_shape_matches(Self::spec_schema()[0], d[0]));
            assert(part_shape_matches(Self::spec_schema()[1], d[1]));
        }
        let r = NicknameResponsePacket {
            nickname: item_bytes(&vals[0]),
        };
        assert(r.model() =~= entries_of(vals@));
        r
    }
}

/// Sends the client to a block server (0x11, 0x2C).
#[derive(Debug, Clone, PartialEq)]
pub struct BlockBalancePacket {
    pub unk1: [u8; 0x20],
    pub blockname: Vec<u8>,
    /// The block server's IPv4 address, most significant octet first.
    pub ip: [u8; 4],
    pub port: u16,
    pub unk2: [u8; 0x11a],
}

impl SchemaPacket for BlockBalancePacket {
    open spec fn spec_schema() -> Seq<Layout> {
        seq![Layout::One(Field::Bytes(0x20)), Layout::One(Field::Text(0x20)), Layout::One(Field::Bytes(4)), Layout::One(Field::U16), Layout::One(Field::Bytes(0x11a))]
    }

    open spec fn spec_header() -> PacketHeader {
        PacketHeader { category: 0x11, subtype: 0x2c, flags: no_flags() }
    }

    open spec fn model(&self) -> Seq<Entry> {
        seq![Entry::One(Datum::Bytes(self.unk1@)), Entry::One(Datum::Bytes(self.blockname@)), Entry::One(Datum::Bytes(self.ip@)), Entry::One(Datum::U16(self.port)), Entry::One(Datum::Bytes(self.unk2@))]
    }

    open spec fn wf(&self) -> bool {
        self.blockname@.len() <= 0x20 && no_zero(self.blockname@)
    }

    proof fn lemma_model(&self) {
    }

    fn header() -> (r: PacketHeader) {
        PacketHeader::new(0x11, 0x2c, Flags::default())
    }

    fn schema() -> (r: Vec<Part>) {
        let mut v: Vec<Part> = Vec::new();
        v.push(Part::One(Field::Bytes(0x20)));
        v.push(Part::One(Field::Text(0x20)));
        v.push(Part::One(Field::Bytes(4)));
        v.push(Part::One(Field::U16));
        v.push(Part::One(Field::Bytes(0x11a)));
        assert(layouts_of(v@) =~= Self::spec_schema());
        v
    }

    fn to_values(&self) -> (r: Vec<Item>) {
        let mut v: Vec<Item> = Vec::new();
        v.push(Item::One(Value::Bytes(array_bytes(&self.unk1))));
        v.push(Item::One(Value::Bytes(copy_bytes(&self.blockname))));
        v.push(Item::One(Value::Bytes(array_bytes(&self.ip))));
        v.push(Item::One(Value::U16(self.port)));
        v.push(Item::One(Value::Bytes(array_bytes(&self.unk2))));
        assert(entries_of(v@) =~= self.model());
        v
    }

    fn from_values(vals: &Vec<Item>) -> (r: Self) {
        proof {
            let d = entries_of(vals@);
            assert(part_shape_matches(Self::spec_schema()[0], d[0]));
            assert(part_shape_matches(Self::spec_schema()[1], d[1]));
            assert(part_shape_matches(Self::spec_schema()[2], d[2]));
            assert(part_shape_matches(Self::spec_schema()[3], d[3]));
            assert(part_shape_matches(Self::spec_schema()[4], d[4]));
        }
        let r = BlockBalancePacket {
            unk1: bytes_array::<0x20>(&item_bytes(&vals[0])),
            blockname: item_bytes(&vals[1]),
            ip: bytes_array::<4>(&item_bytes(&vals[2])),
            port: item_half(&vals[3]),
            unk2: bytes_array::<0x11a>(&item_bytes(&vals[4])),
        };
        assert(r.model() =~= entries_of(vals@));
        r
    }
}

impl Default for BlockBalancePacket {
    /// All zero: no block name, the unspecified address, port 0.
    fn default() -> (r: BlockBalancePacket)
        ensures
            r.unk1@ == zeros(0x20),
            r.blockname@.len() == 0,
            r.ip@ == zeros(4),
            r.port == 0,
            r.unk2@ == zeros(0x11A),
    {
        let r = BlockBalancePacket {
            unk1: [0u8; 0x20],
            blockname: Vec::new(),
            ip: [0u8; 4],
            port: 0,
            unk2: [0u8; 0x11A],
        };
        assert(r.unk1@ =~= zeros(0x20));
        assert(r.ip@ =~= zeros(4));
        assert(r.unk2@ =~= zeros(0x11A));
        r
    }
}

/// The client machine's description (0x11, 0x2D).
#[derive(Default, Debug, Clone, PartialEq)]
pub struct SystemInformationPacket {
    pub cpu_info: Vec<u8>,
    pub video_info: Vec<u8>,
    pub vram: u64,
    pub total_ram: u64,
    pub unk1: u32,
    pub unk2: u32,
    pub windows_version: Vec<u8>,
    pub window_size: Vec<u8>,
    pub unk3: Vec<u8>,
    pub unk4: Vec<u8>,
    pub video_driver: Vec<u8>,
    pub total_disk_space: u64,
    pub free_disk_space: u64,
}

impl SchemaPacket for SystemInformationPacket {
    open spec fn spec_schema() -> Seq<Layout> {
        seq![Layout::One(Field::Var(0x883d, 0x9f)), Layout::One(Field::Var(0x883d, 0x9f)), Layout::One(Field::U64), Layout::One(Field::U64), Layout::One(Field::U32), Layout::One(Field::U32), Layout::One(Field::Var(0x883d, 0x9f)), Layout::One(Field::Var(0x883d, 0x9f)), Layout::One(Field::Var(0x883d, 0x9f)), Layout::One(Field::Var(0x883d, 0x9f)), Layout::One(Field::Var(0x883d, 0x9f)), Layout::One(Field::U64), Layout::One(Field::U64)]
    }

    open spec fn spec_header() -> PacketHeader {
        PacketHeader { category: 0x11, subtype: 0x2d, flags: packed_flags() }
    }

    open spec fn model(&self) -> Seq<Entry> {
        seq![Entry::One(Datum::Bytes(self.cpu_info@)), Entry::One(Datum::Bytes(self.video_info@)), Entry::One(Datum::U64(self.vram)), Entry::One(Datum::U64(self.total_ram)), Entry::One(Datum::U32(self.unk1)), Entry::One(Datum::U32(self.unk2)), Entry::One(Datum::Bytes(self.windows_version@)), Entry::One(Datum::Bytes(self.window_size@)), Entry::One(Datum::Bytes(self.unk3@)), Entry::One(Datum::Bytes(self.unk4@)), Entry::One(Datum::Bytes(self.video_driver@)), Entry::One(Datum::U64(self.total_disk_space)), Entry::One(Datum::U64(self.free_disk_space))]
    }

    open spec fn wf(&self) -> bool {
        self.cpu_info@.len() <= u32::MAX
        && self.video_info@.len() <= u32::MAX
        && self.windows_version@.len() <= u32::MAX
        && self.window_size@.len() <= u32::MAX
        && self.unk3@.len() <= u32::MAX
        && self.unk4@.len() <= u32::MAX
        && self.video_driver@.len() <= u32::MAX
    }

    proof fn lemma_model(&self) {
    }

    fn header() -> (r: PacketHeader) {
        PacketHeader::new(0x11, 0x2d, Flags::packed())
    }

    fn schema() -> (r: Vec<Part>) {
        let mut v: Vec<Part> = Vec::new();
        v.push(Part::One(Field::Var(0x883d, 0x9f)));
        v.push(Part::One(Field::Var(0x883d, 0x9f)));
        v.push(Part::One(Field::U64));
        v.push(Part::One(Field::U64));
        v.push(Part::One(Field::U32));
        v.push(Part::One(Field::U32));
        v.push(Part::One(Field::Var(0x883d, 0x9f)));
        v.push(Part::One(Field::Var(0x883d, 0x9f)));
        v.push(Part::One(Field::Var(0x883d, 0x9f)));
        v.push(Part::One(Field::Var(0x883d, 0x9f)));
        v.push(Part::One(Field::Var(0x883d, 0x9f)));
        v.push(Part::One(Field::U64));
        v.push(Part::One(Field::U64));
        assert(layouts_of(v@) =~= Self::spec_schema());
        v
    }

    fn to_values(&self) -> (r: Vec<Item>) {
        let mut v: Vec<Item> = Vec::new();
        v.push(Item::One(Value::Bytes(copy_bytes(&self.cpu_info))));
        v.push(Item::One(Value::Bytes(copy_bytes(&self.video_info))));
        v.push(Item::One(Value::U64(self.vram)));
        v.push(Item::One(Value::U64(self.total_ram)));
        v.push(Item::One(Value::U32(self.unk1)));
        v.push(Item::One(Value::U32(self.unk2)));
        v.push(Item::One(Value::Bytes(copy_bytes(&self.windows_version))));
        v.push(Item::One(Value::Bytes(copy_bytes(&self.window_size))));
        v.push(Item::One(Value::Bytes(copy_bytes(&self.unk3))));
        v.push(Item::One(Value::Bytes(copy_bytes(&self.unk4))));
        v.push(Item::One(Value::Bytes(copy_bytes(&self.video_driver))));
        v.push(Item::One(Value::U64(self.total_disk_space)));
        v.push(Item::One(Value::U64(self.free_disk_space)));
        assert(entries_of(v@) =~= self.model());
        v
    }

    fn from_values(vals: &Vec<Item>) -> (r: Self) {
        proof {
            let d = entries_of(vals@);
            assert(part_shape_matches(Self::spec_schema()[0], d[0]));
            assert(part_shape_matches(Self::spec_schema()[1], d[1]));
            assert(part_shape_matches(Self::spec_schema()[2], d[2]));
            assert(part_shape_matches(Self::spec_schema()[3], d[3]));
            assert(part_shape_matches(Self::spec_schema()[4], d[4]));
            assert(part_shape_matches(Self::spec_schema()[5], d[5]));
            assert(part_shape_matches(Self::spec_schema()[6], d[6]));
            assert(part_shape_matches(Self::spec_schema()[7], d[7]));
            assert(part_shape_matches(Self::spec_schema()[8], d[8]));
            assert(part_shape_matches(Self::spec_schema()[9], d[9]));
            assert(part_shape_matches(Self::spec_schema()[10], d[10]));
            assert(part_shape_matches(Self::spec_schema()[11], d[11]));
            assert(part_shape_matches(Self::spec_schema()[12], d[12]));
        }
        let r = SystemInformationPacket {
            cpu_info: item_bytes(&vals[0]),
            video_info: item_bytes(&vals[1]),
            vram: item_long(&vals[2]),
            total_ram: item_long(&vals[3]),
            unk1: item_word(&vals[4]),
            unk2: item_word(&vals[5]),
            windows_version: item_bytes(&vals[6]),
            window_size: item_bytes(&vals[7]),
            unk3: item_bytes(&vals[8]),
            unk4: item_bytes(&vals[9]),
            video_driver: item_bytes(&vals[10]),
            total_disk_space: item_long(&vals[11]),
            free_disk_space: item_long(&vals[12]),
        };
        assert(r.model() =~= entries_of(vals@));
        r
    }
}

/// First answer to a character creation (0x11, 0x42).
#[derive(Default, Debug, Clone, PartialEq)]
pub struct CreateCharacter1ResponsePacket {
    pub status: u32,
    pub unk2: u32,
    pub used_smth: u32,
    pub req_ac: u32,
}

impl SchemaPacket for CreateCharacter1ResponsePacket {
    open spec fn spec_schema() -> Seq<Layout> {
        seq![Layout::One(Field::U32), Layout::One(Field::U32), Layout::One(Field::U32), Layout::One(Field::U32)]
    }

    open spec fn spec_header() -> PacketHeader {
        PacketHeader { category: 0x11, subtype: 0x42, flags: no_flags() }
    }

    open spec fn model(&self) -> Seq<Entry> {
        seq![Entry::One(Datum::U32(self.status)), Entry::One(Datum::U32(self.unk2)), Entry::One(Datum::U32(self.used_smth)), Entry::One(Datum::U32(self.req_ac))]
    }

    open spec fn wf(&self) -> bool {
        true
    }

    proof fn lemma_model(&self) {
    }

    fn header() -> (r: PacketHeader) {
        PacketHeader::new(0x11, 0x42, Flags::default())
    }

    fn schema() -> (r: Vec<Part>) {
        let mut v: Vec<Part> = Vec::new();
        v.push(Part::One(Field::U32));
        v.push(Part::One(Field::U32));
        v.push(Part::One(Field::U32));
        v.push(Part::One(Field::U32));
        assert(layouts_of(v@) =~= Self::spec_schema());
        v
    }

    fn to_values(&self) -> (r: Vec<Item>) {
        let mut v: Vec<Item> = Vec::new();
        v.push(Item::One(Value::U32(self.status)));
        v.push(Item::One(Value::U32(self.unk2)));
        v.push(Item::One(Value::U32(self.used_smth)));
        v.push(Item::One(Value::U32(self.req_ac)));
        assert(entries_of(v@) =~= self.model());
        v
    }

    fn from_values(vals: &Vec<Item>) -> (r: Self) {
        proof {
            let d = entries_of(vals@);
            assert(part_shape_matches(Self::spec_schema()[0], d[0]));
            assert(part_shape_matches(Self::spec_schema()[1], d[1]));
            assert(part_shape_matches(Self::spec_schema()[2], d[2]));
            assert(part_shape_matches(Self::spec_schema()[3], d[3]));
        }
        let r = CreateCharacter1ResponsePacket {
            status: item_word(&vals[0]),
            unk2: item_word(&vals[1]),
            used_smth: item_word(&vals[2]),
            req_ac: item_word(&vals[3]),
        };
        assert(r.model() =~= entries_of(vals@));
        r
    }
}

/// Second answer to a character creation (0x11, 0x55).
#[derive(Default, Debug, Clone, PartialEq)]
pub struct CreateCharacter2ResponsePacket {
    pub unk: u32,
}

impl SchemaPacket for CreateCharacter2ResponsePacket {
    open spec fn spec_schema() -> Seq<Layout> {
        seq![Layout::One(Field::U32)]
    }

    open spec fn spec_header() -> PacketHeader {
        PacketHeader { category: 0x11, subtype: 0x55, flags: no_flags() }
    }

    open spec fn model(&self) -> Seq<Entry> {
        seq![Entry::One(Datum::U32(self.unk))]
    }

    open spec fn wf(&self) -> bool {
        true
    }

    proof fn lemma_model(&self) {
    }

    fn header() -> (r: PacketHeader) {
        PacketHeader::new(0x11, 0x55, Flags::default())
    }

    fn schema() -> (r: Vec<Part>) {
        let mut v: Vec<Part> = Vec::new();
        v.push(Part::One(Field::U32));
        assert(layouts_of(v@) =~= Self::spec_schema());
        v
    }

    fn to_values(&self) -> (r: Vec<Item>) {
        let mut v: Vec<Item> = Vec::new();
        v.push(Item::One(Value::U32(self.unk)));
        assert(entries_of(v@) =~= self.model());
        v
    }

    fn from_values(vals: &Vec<Item>) -> (r: Self) {
        proof {
            let d = entries_of(vals@);
            assert(part_shape_matches(Self::spec_schema()[0], d[0]));
        }
        let r = CreateCharacter2ResponsePacket {
            unk: item_word(&vals[0]),
        };
        assert(r.model() =~= entries_of(vals@));
        r
    }
}

/// Counts of pending notifications (0x11, 0x71).
#[derive(Default, Debug, Clone, PartialEq)]
pub struct NotificationStatusPacket {
    pub new_mail: u32,
    pub unk1: u32,
    pub campaigns: u32,
    pub unk3: u32,
}

impl SchemaPacket for NotificationStatusPacket {
    open spec fn spec_schema() -> Seq<Layout> {
        seq![Layout::One(Field::U32), Layout::One(Field::U32), Layout::One(Field::U32), Layout::One(Field::U32)]
    }

    open spec fn spec_header() -> PacketHeader {
        PacketHeader { category: 0x11, subtype: 0x71, flags: no_flags() }
    }

    open spec fn model(&self) -> Seq<Entry> {
        seq![Entry::One(Datum::U32(self.new_mail)), Entry::One(Datum::U32(self.unk1)), Entry::One(Datum::U32(self.campaigns)), Entry::One(Datum::U32(self.unk3))]
    }

    open spec fn wf(&self) -> bool {
        true
    }

    proof fn lemma_model(&self) {
    }

    fn header() -> (r: PacketHeader) {
        PacketHeader::new(0x11, 0x71, Flags::default())
    }

    fn schema() -> (r: Vec<Part>) {
        let mut v: Vec<Part> = Vec::new();
        v.push(Part::One(Field::U32));
        v.push(Part::One(Field::U32));
        v.push(Part::One(Field::U32));
        v.push(Part::One(Field::U32));
        assert(layouts_of(v@) =~= Self::spec_schema());
        v
    }

    fn to_values(&self) -> (r: Vec<Item>) {
        let mut v: Vec<Item> = Vec::new();
        v.push(Item::One(Value::U32(self.new_mail)));
        v.push(Item::One(Value::U32(self.unk1)));
        v.push(Item::One(Value::U32(self.campaigns)));
        v.push(Item::One(Value::U32(self.unk3)));
        assert(entries_of(v@) =~= self.model());
        v
    }

    fn from_values(vals: &Vec<Item>) -> (r: Self) {
        proof {
            let d = entries_of(vals@);
            assert(part_shape_matches(Self::spec_schema()[0], d[0]));
            assert(part_shape_matches(Self::spec_schema()[1], d[1]));
            assert(part_shape_matches(Self::spec_schema()[2], d[2]));
            assert(part_shape_matches(Self::spec_schema()[3], d[3]));
        }
        let r = NotificationStatusPacket {
            new_mail: item_word(&vals[0]),
            unk1: item_word(&vals[1]),
            campaigns: item_word(&vals[2]),
            unk3: item_word(&vals[3]),
        };
        assert(r.model() =~= entries_of(vals@));
        r
    }
}

/// A rejected nickname (0x11, 0xEA).
#[derive(Debug, Clone, PartialEq)]
pub struct NicknameErrorPacket {
    pub unk1: u32,
    pub nickname: Vec<u8>,
}

impl SchemaPacket for NicknameErrorPacket {
    open spec fn spec_schema() -> Seq<Layout> {
        seq![Layout::One(Field::U32), Layout::One(Field::Var(0x4544, 0x14))]
    }

    open spec fn spec_header() -> PacketHeader {
        PacketHeader { category: 0x11, subtype: 0xea, flags: packed_flags() }
    }

    open spec fn model(&self) -> Seq<Entry> {
        seq![Entry::One(Datum::U32(self.unk1)), Entry::One(Datum::Bytes(self.nickname@))]
    }

    open spec fn wf(&self) -> bool {
        self.nickname@.len() <= u32::MAX
    }

    proof fn lemma_model(&self) {
    }

    fn header() -> (r: PacketHeader) {
        PacketHeader::new(0x11, 0xea, Flags::packed())
    }

    fn schema() -> (r: Vec<Part>) {
        let mut v: Vec<Part> = Vec::new();
        v.push(Part::One(Field::U32));
        v.push(Part::One(Field::Var(0x4544, 0x14)));
        assert(layouts_of(v@) =~= Self::spec_schema());
        v
    }

    fn to_values(&self) -> (r: Vec<Item>) {
        let mut v: Vec<Item> = Vec::new();
        v.push(Item::One(Value::U32(self.unk1)));
        v.push(Item::One(Value::Bytes(copy_bytes(&self.nickname))));
        assert(entries_of(v@) =~= self.model());
        v
    }

    fn from_values(vals: &Vec<Item>) -> (r: Self) {
        proof {
            let d = entries_of(vals@);
            assert(part_shape_matches(Self::spec_schema()[0], d[0]));
            assert(part_shape_matches(Self::spec_schema()[1], d[1]));
        }
        let r = NicknameErrorPacket {
            unk1: item_word(&vals[0]),
            nickname: item_bytes(&vals[1]),
        };
        assert(r.model() =~= entries_of(vals@));
        r
    }
}

impl Default for NicknameErrorPacket {
    fn default() -> (r: NicknameErrorPacket)
        ensures
            r.unk1 == 2,
            r.nickname@.len() == 0,
    {
        NicknameErrorPacket { unk1: 2, nickname: Vec::new() }
    }
}

/// The banner list text (0x11, 0xED).
#[derive(Debug, Clone, PartialEq)]
pub struct BannerListPacket {
    pub banners: Vec<u8>,
}

impl SchemaPacket for BannerListPacket {
    open spec fn spec_schema() -> Seq<Layout> {
        seq![Layout::One(Field::Var(0xd67d, 0xf5))]
    }

    open spec fn spec_header() -> PacketHeader {
        PacketHeader { category: 0x11, subtype: 0xed, flags: packed_flags() }
    }

    open spec fn model(&self) -> Seq<Entry> {
        seq![Entry::One(Datum::Bytes(self.banners@))]
    }

    open spec fn wf(&self) -> bool {
        self.banners@.len() <= u32::MAX
    }

    proof fn lemma_model(&self) {
    }

    fn header() -> (r: PacketHeader) {
        PacketHeader::new(0x11, 0xed, Flags::packed())
    }

    fn schema() -> (r: Vec<Part>) {
        let mut v: Vec<Part> = Vec::new();
        v.push(Part::One(Field::Var(0xd67d, 0xf5)));
        assert(layouts_of(v@) =~= Self::spec_schema());
        v
    }

    fn to_values(&self) -> (r: Vec<Item>) {
        let mut v: Vec<Item> = Vec::new();
        v.push(Item::One(Value::Bytes(copy_bytes(&self.banners))));
        assert(entries_of(v@) =~= self.model());
        v
    }

    fn from_values(vals: &Vec<Item>) -> (r: Self) {
        proof {
            let d = entries_of(vals@);
            assert(part_shape_matches(Self::spec_schema()[0], d[0]));
        }
        let r = BannerListPacket {
            banners: item_bytes(&vals[0]),
        };
        assert(r.model() =~= entries_of(vals@));
        r
    }
}

/// Asks for the code sent by mail (0x11, 0xEE).
#[derive(Default, Debug, Clone, PartialEq)]
pub struct EmailCodeRequestPacket {
    pub unk1: u32,
    pub message: Vec<u8>,
}

impl SchemaPacket for EmailCodeRequestPacket {
    open spec fn spec_schema() -> Seq<Layout> {
        seq![Layout::One(Field::U32), Layout::One(Field::Var(0x5c3b, 0x40))]
    }

    open spec fn spec_header() -> PacketHeader {
        PacketHeader { category: 0x11, subtype: 0xee, flags: packed_flags() }
    }

    open spec fn model(&self) -> Seq<Entry> {
        seq![Entry::One(Datum::U32(self.unk1)), Entry::One(Datum::Bytes(self.message@))]
    }

    open spec fn wf(&self) -> bool {
        self.message@.len() <= u32::MAX
    }

    proof fn lemma_model(&self) {
    }

    fn header() -> (r: PacketHeader) {
        PacketHeader::new(0x11, 0xee, Flags::packed())
    }

    fn schema() -> (r: Vec<Part>) {
        let mut v: Vec<Part> = Vec::new();
        v.push(Part::One(Field::U32));
        v.push(Part::One(Field::Var(0x5c3b, 0x40)));
        assert(layouts_of(v@) =~= Self::spec_schema());
        v
    }

    fn to_values(&self) -> (r: Vec<Item>) {
        let mut v: Vec<Item> = Vec::new();
        v.push(Item::One(Value::U32(self.unk1)));
        v.push(Item::One(Value::Bytes(copy_bytes(&self.message))));
        assert(entries_of(v@) =~= self.model());
        v
    }

    fn from_values(vals: &Vec<Item>) -> (r: Self) {
        proof {
            let d = entries_of(vals@);
            assert(part_shape_matches(Self::spec_schema()[0], d[0]));
            assert(part_shape_matches(Self::spec_schema()[1], d[1]));
        }
        let r = EmailCodeRequestPacket {
            unk1: item_word(&vals[0]),
            message: item_bytes(&vals[1]),
        };
        assert(r.model() =~= entries_of(vals@));
        r
    }
}

/// Sent during login; its meaning is not known (0x11, 0xFF).
#[derive(Debug, Clone, PartialEq)]
pub struct Unk11FFPacket {
    pub unk1: u8,
    pub unk2: u8,
    pub unk3: u8,
    pub unk4: u8,
    pub unk5: Vec<u8>,
    pub unk6: [u8; 0xc],
    pub unk7: [u8; 0x40],
    pub unk8: [u8; 0x20],
}

impl SchemaPacket for Unk11FFPacket {
    open spec fn spec_schema() -> Seq<Layout> {
        seq![Layout::One(Field::U8), Layout::One(Field::U8), Layout::One(Field::U8), Layout::One(Field::U8), Layout::One(Field::Var(0x3dd3, 0x3d)), Layout::One(Field::Bytes(0xc)), Layout::One(Field::Bytes(0x40)), Layout::One(Field::Bytes(0x20))]
    }

    open spec fn spec_header() -> PacketHeader {
        PacketHeader { category: 0x11, subtype: 0xff, flags: packed_flags() }
    }

    open spec fn model(&self) -> Seq<Entry> {
        seq![Entry::One(Datum::U8(self.unk1)), Entry::One(Datum::U8(self.unk2)), Entry::One(Datum::U8(self.unk3)), Entry::One(Datum::U8(self.unk4)), Entry::One(Datum::Bytes(self.unk5@)), Entry::One(Datum::Bytes(self.unk6@)), Entry::One(Datum::Bytes(self.unk7@)), Entry::One(Datum::Bytes(self.unk8@))]
    }

    open spec fn wf(&self) -> bool {
        self.unk5@.len() <= u32::MAX
    }

    proof fn lemma_model(&self) {
    }

    fn header() -> (r: PacketHeader) {
        PacketHeader::new(0x11, 0xff, Flags::packed())
    }

    fn schema() -> (r: Vec<Part>) {
        let mut v: Vec<Part> = Vec::new();
        v.push(Part::One(Field::U8));
        v.push(Part::One(Field::U8));
        v.push(Part::One(Field::U8));
        v.push(Part::One(Field::U8));
        v.push(Part::One(Field::Var(0x3dd3, 0x3d)));
        v.push(Part::One(Field::Bytes(0xc)));
        v.push(Part::One(Field::Bytes(0x40)));
        v.push(Part::One(Field::Bytes(0x20)));
        assert(layouts_of(v@) =~= Self::spec_schema());
        v
    }

    fn to_values(&self) -> (r: Vec<Item>) {
        let mut v: Vec<Item> = Vec::new();
        v.push(Item::One(Value::U8(self.unk1)));
        v.push(Item::One(Value::U8(self.unk2)));
        v.push(Item::One(Value::U8(self.unk3)));
        v.push(Item::One(Value::U8(self.unk4)));
        v.push(Item::One(Value::Bytes(copy_bytes(&self.unk5))));
        v.push(Item::One(Value::Bytes(array_bytes(&self.unk6))));
        v.push(Item::One(Value::Bytes(array_bytes(&self.unk7))));
        v.push(Item::One(Value::Bytes(array_bytes(&self.unk8))));
        assert(entries_of(v@) =~= self.model());
        v
    }

    fn from_values(vals: &Vec<Item>) -> (r: Self) {
        proof {
            let d = entries_of(vals@);
            assert(part_shape_matches(Self::spec_schema()[0], d[0]));
            assert(part_shape_matches(Self::spec_schema()[1], d[1]));
            assert(part_shape_matches(Self::spec_schema()[2], d[2]));
            assert(part_shape_matches(Self::spec_schema()[3], d[3]));
            assert(part_shape_matches(Self::spec_schema()[4], d[4]));
            assert(part_shape_matches(Self::spec_schema()[5], d[5]));
            assert(part_shape_matches(Self::spec_schema()[6], d[6]));
            assert(part_shape_matches(Self::spec_schema()[7], d[7]));
        }
        let r = Unk11FFPacket {
            unk1: item_byte(&vals[0]),
            unk2: item_byte(&vals[1]),
            unk3: item_byte(&vals[2]),
            unk4: item_byte(&vals[3]),
            unk5: item_bytes(&vals[4]),
            unk6: bytes_array::<0xc>(&item_bytes(&vals[5])),
            unk7: bytes_array::<0x40>(&item_bytes(&vals[6])),
            unk8: bytes_array::<0x20>(&item_bytes(&vals[7])),
        };
        assert(r.model() =~= entries_of(vals@));
        r
    }
}

impl Default for Unk11FFPacket {
    /// All zero, the arrays included.
    fn default() -> (r: Unk11FFPacket)
        ensures
            r.unk1 == 0 && r.unk2 == 0 && r.unk3 == 0 && r.unk4 == 0,
            r.unk5@.len() == 0,
            r.unk6@ == zeros(0xC),
            r.unk7@ == zeros(0x40),
            r.unk8@ == zeros(0x20),
    {
        let r = Unk11FFPacket {
            unk1: 0,
            unk2: 0,
            unk3: 0,
            unk4: 0,
            unk5: Vec::new(),
            unk6: [0u8; 0xC],
            unk7: [0u8; 0x40],
            unk8: [0u8; 0x20],
        };
        assert(r.unk6@ =~= zeros(0xC));
        assert(r.unk7@ =~= zeros(0x40));
        assert(r.unk8@ =~= zeros(0x20));
        r
    }
}

} // verus!
