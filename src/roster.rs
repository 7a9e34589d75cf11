//! The character roster (0x11, 0x03) and character creation (0x11, 0x05).
//!
//! The roster always carries 30 character slots, each after four reserved
//! bytes; a count field says how many of them are live. Writing fills every
//! slot by repeating the live characters, or the default character when
//! there are none; reading keeps only the first `count` slots.
use crate::character::{cycle_fill, cycled, Character, CHARACTER_SIZE};
use crate::engine::{
    conforms_all, data_of, encode_all, field_bound, kinds_match, lemma_conforms_concat,
    lemma_conforms_each, lemma_encode_bound, lemma_kinds_concat,
};
use crate::field::{conforms, kind_matches};
use crate::field::{
    bytes_of, half_of, value_bytes, value_half, value_word, word_of, Datum, DecodeError, Field, Value,
};
use crate::header::{frame, no_flags, Flags, PacketHeader, HEADER_SIZE};
use crate::packet::{decode_frame, decode_values, encode_frame};
use crate::scalar::zeros;
use vstd::prelude::*;

verus! {

/// Character slots on the wire.
pub const ROSTER_SLOTS: usize = 30;

/// Reserved bytes between the last slot and the play times.
pub const ROSTER_GAP: usize = 0x41A4;

#[derive(Debug, Default, Clone, PartialEq)]
pub struct CharacterListPacket {
    /// Selects the global client's character layout; not carried on the wire.
    pub is_global: bool,
    /// The live characters.
    pub characters: Vec<Character>,
    pub play_times: [u32; 30],
    pub deletion_flags: [(u32, u32); 30],
    pub transfer_flags: [(u32, u32); 30],
    pub account_accessory: u16,
    pub login_survey: u32,
    pub ad: u32,
}

/// What a roster holds.
pub struct RosterView {
    pub is_global: bool,
    pub characters: Seq<Seq<u8>>,
    pub play_times: Seq<u32>,
    pub deletion_flags: Seq<(u32, u32)>,
    pub transfer_flags: Seq<(u32, u32)>,
    pub account_accessory: u16,
    pub login_survey: u32,
    pub ad: u32,
}

impl View for CharacterListPacket {
    type V = RosterView;

    open spec fn view(&self) -> RosterView {
        RosterView {
            is_global: self.is_global,
            characters: self.characters@.map_values(|c: Character| c@),
            play_times: self.play_times@,
            deletion_flags: self.deletion_flags@,
            transfer_flags: self.transfer_flags@,
            account_accessory: self.account_accessory,
            login_survey: self.login_survey,
            ad: self.ad,
        }
    }
}

/// The roster's fields in wire order: the count, four reserved bytes, the
/// slots, the gap, the play times, 32 reserved bytes, the deletion and the
/// transfer flag pairs, the accessory word, six reserved bytes, the survey
/// and ad words, and eight reserved bytes.
pub open spec fn roster_schema() -> Seq<Field> {
    seq![Field::U32, Field::Skip(4)] + Seq::new(
        60,
        |i: int|
            if i % 2 == 0 {
                Field::Skip(4)
            } else {
                Field::Bytes(CHARACTER_SIZE)
            },
    ) + seq![Field::Skip(ROSTER_GAP)] + Seq::new(30, |_i: int| Field::U32) + seq![Field::Skip(32)]
        + Seq::new(60, |_i: int| Field::U32) + Seq::new(60, |_i: int| Field::U32) + seq![
        Field::U16,
        Field::Skip(6),
        Field::U32,
        Field::U32,
        Field::Skip(8),
    ]
}

/// Word `i` of a run of flag pairs laid out one pair after another.
pub open spec fn pair_word(s: Seq<(u32, u32)>, i: int) -> u32 {
    if i % 2 == 0 {
        s[i / 2].0
    } else {
        s[i / 2].1
    }
}

/// Value `j` of the slot run: reserved bytes before each slot, then the
/// slot's character.
pub open spec fn slot_datum(chars: Seq<Seq<u8>>, j: int) -> Datum {
    if j % 2 == 0 {
        Datum::Empty
    } else {
        Datum::Bytes(cycled(chars, zeros(CHARACTER_SIZE as nat), j / 2))
    }
}

/// The count written for `n` live characters.
pub open spec fn roster_count(n: nat) -> u32 {
    if n > ROSTER_SLOTS {
        ROSTER_SLOTS as u32
    } else {
        n as u32
    }
}

/// The field values written for a roster.
pub open spec fn roster_values(r: RosterView) -> Seq<Datum> {
    seq![Datum::U32(roster_count(r.characters.len())), Datum::Empty] + Seq::new(
        60,
        |j: int| slot_datum(r.characters, j),
    ) + seq![Datum::Empty] + Seq::new(30, |i: int| Datum::U32(r.play_times[i])) + seq![Datum::Empty]
        + Seq::new(60, |i: int| Datum::U32(pair_word(r.deletion_flags, i))) + Seq::new(
        60,
        |i: int| Datum::U32(pair_word(r.transfer_flags, i)),
    ) + seq![
        Datum::U16(r.account_accessory),
        Datum::Empty,
        Datum::U32(r.login_survey),
        Datum::U32(r.ad),
        Datum::Empty,
    ]
}

/// Where the `i`-th slot's character stands among the field values.
pub open spec fn slot_index(i: int) -> int {
    3 + 2 * i
}

/// The roster that decoded field values describe: the count, kept to 30,
/// says how many slots are live; the other slots are read and dropped.
pub open spec fn roster_of(vs: Seq<Datum>) -> RosterView {
    let count = roster_count(word_of(vs[0]) as nat);
    RosterView {
        is_global: false,
        characters: Seq::new(count as nat, |i: int| bytes_of(vs[slot_index(i)])),
        play_times: Seq::new(30, |k: int| word_of(vs[63 + k])),
        deletion_flags: Seq::new(30, |k: int| (word_of(vs[94 + 2 * k]), word_of(vs[95 + 2 * k]))),
        transfer_flags: Seq::new(30, |k: int| (word_of(vs[154 + 2 * k]), word_of(vs[155 + 2 * k]))),
        account_accessory: half_of(vs[214]),
        login_survey: word_of(vs[216]),
        ad: word_of(vs[217]),
    }
}

/// The roster header: category 0x11, subtype 0x03, no flags.
pub open spec fn roster_header() -> PacketHeader {
    PacketHeader {
        category: 0x11,
        subtype: 0x03,
        flags: no_flags(),
    }
}

/// Appends `n` copies of `f`.
fn push_fields(v: &mut Vec<Field>, f: Field, n: usize)
    ensures
        final(v)@ == old(v)@ + Seq::new(n as nat, |_i: int| f),
{
    let ghost start = v@;
    let mut i: usize = 0;
    while i < n
        invariant
            i <= n,
            v@ == start + Seq::new(i as nat, |_i: int| f),
        decreases n - i,
    {
        v.push(f);
        i = i + 1;
        assert(v@ =~= start + Seq::new(i as nat, |_i: int| f));
    }
}

/// The roster's schema.
pub fn roster_fields() -> (r: Vec<Field>)
    ensures
        r@ == roster_schema(),
{
    let mut v: Vec<Field> = Vec::new();
    v.push(Field::U32);
    v.push(Field::Skip(4));
    let ghost start = v@;
    let mut i: usize = 0;
    while i < ROSTER_SLOTS
        invariant
            i <= ROSTER_SLOTS,
            v@ == start + Seq::new(
                2 * i as nat,
                |j: int|
                    if j % 2 == 0 {
                        Field::Skip(4)
                    } else {
                        Field::Bytes(CHARACTER_SIZE)
                    },
            ),
        decreases ROSTER_SLOTS - i,
    {
        v.push(Field::Skip(4));
        v.push(Field::Bytes(CHARACTER_SIZE));
        i = i + 1;
        assert(v@ =~= start + Seq::new(
            2 * i as nat,
            |j: int|
                if j % 2 == 0 {
                    Field::Skip(4)
                } else {
                    Field::Bytes(CHARACTER_SIZE)
                },
        ));
    }
    v.push(Field::Skip(ROSTER_GAP));
    push_fields(&mut v, Field::U32, 30);
    v.push(Field::Skip(32));
    push_fields(&mut v, Field::U32, 60);
    push_fields(&mut v, Field::U32, 60);
    v.push(Field::U16);
    v.push(Field::Skip(6));
    v.push(Field::U32);
    v.push(Field::U32);
    v.push(Field::Skip(8));
    assert(v@ =~= roster_schema());
    v
}

proof fn lemma_halves(i: int)
    ensures
        (2 * i) % 2 == 0,
        (2 * i + 1) % 2 == 1,
        (2 * i) / 2 == i,
        (2 * i + 1) / 2 == i,
{
    assert((2 * i) % 2 == 0 && (2 * i + 1) % 2 == 1 && (2 * i) / 2 == i && (2 * i + 1) / 2 == i)
        by (nonlinear_arith);
}

proof fn lemma_data_of_push(s: Seq<Value>, x: Value)
    ensures
        data_of(s.push(x)) == data_of(s).push(x@),
{
    assert(data_of(s.push(x)) =~= data_of(s).push(x@));
}

/// Appends the words of 30 flag pairs, one pair after another.
fn push_pairs(v: &mut Vec<Value>, s: &[(u32, u32); 30])
    ensures
        data_of(final(v)@) == data_of(old(v)@) + Seq::new(60, |i: int| Datum::U32(pair_word(s@, i))),
{
    let ghost start = data_of(v@);
    let mut k: usize = 0;
    while k < 30
        invariant
            k <= 30,
            data_of(v@) == start + Seq::new(2 * k as nat, |i: int| Datum::U32(pair_word(s@, i))),
        decreases 30 - k,
    {
        let (a, b) = s[k];
        proof {
            lemma_data_of_push(v@, Value::U32(a));
            lemma_data_of_push(v@.push(Value::U32(a)), Value::U32(b));
            lemma_halves(k as int);
            assert(pair_word(s@, 2 * k as int) == a);
            assert(pair_word(s@, 2 * k + 1) == b);
        }
        v.push(Value::U32(a));
        v.push(Value::U32(b));
        k = k + 1;
        assert(data_of(v@) =~= start + Seq::new(2 * k as nat, |i: int| Datum::U32(pair_word(s@, i))));
    }
}

/// Reads 30 flag pairs from the words at `base` on.
fn take_pairs(vals: &Vec<Value>, base: usize) -> (r: [(u32, u32); 30])
    requires
        base + 60 <= vals@.len(),
    ensures
        r@ == Seq::new(
            30,
            |k: int| (word_of(vals@[base + 2 * k]@), word_of(vals@[base + 2 * k + 1]@)),
        ),
{
    let mut r = [(0u32, 0u32); 30];
    let len = vals.len();
    let mut k: usize = 0;
    while k < 30
        invariant
            k <= 30,
            len == vals@.len(),
            base + 60 <= vals@.len(),
            r@.len() == 30,
            forall|j: int|
                0 <= j < k ==> #[trigger] r@[j] == (
                    word_of(vals@[base + 2 * j]@),
                    word_of(vals@[base + 2 * j + 1]@),
                ),
        decreases 30 - k,
    {
        let a = value_word(&vals[base + 2 * k]);
        let b = value_word(&vals[base + 2 * k + 1]);
        r[k] = (a, b);
        k = k + 1;
    }
    assert(r@ =~= Seq::new(
        30,
        |k: int| (word_of(vals@[base + 2 * k]@), word_of(vals@[base + 2 * k + 1]@)),
    ));
    r
}

impl CharacterListPacket {
    /// The field values written for this roster, slots filled by repeating
    /// the live characters.
    pub fn to_values(&self) -> (r: Vec<Value>)
        ensures
            data_of(r@) == roster_values(self@),
    {
        let mut v: Vec<Value> = Vec::new();
        let n = self.characters.len();
        let count: u32 = if n > ROSTER_SLOTS { ROSTER_SLOTS as u32 } else { n as u32 };
        v.push(Value::U32(count));
        v.push(Value::Empty);
        let slots = cycle_fill(&self.characters, ROSTER_SLOTS);
        let ghost views = self.characters@.map_values(|c: Character| c@);
        let ghost start = data_of(v@);
        let mut i: usize = 0;
        while i < ROSTER_SLOTS
            invariant
                i <= ROSTER_SLOTS,
                slots@.len() == ROSTER_SLOTS,
                views == self.characters@.map_values(|c: Character| c@),
                forall|j: int|
                    0 <= j < ROSTER_SLOTS ==> (#[trigger] slots@[j])@ == cycled(
                        views,
                        zeros(CHARACTER_SIZE as nat),
                        j,
                    ),
                data_of(v@) == start + Seq::new(2 * i as nat, |j: int| slot_datum(views, j)),
            decreases ROSTER_SLOTS - i,
        {
            let b = &slots[i].data;
            let c = Value::Bytes(crate::field::copy_range(b.as_slice(), 0, b.len()));
            proof {
                assert(b@.subrange(0, b@.len() as int) =~= b@);
                assert(slots@[i as int]@ == cycled(views, zeros(CHARACTER_SIZE as nat), i as int));
                lemma_data_of_push(v@, Value::Empty);
                lemma_data_of_push(v@.push(Value::Empty), c);
                lemma_halves(i as int);
                assert(slot_datum(views, 2 * i as int) == Datum::Empty);
                assert(slot_datum(views, 2 * i + 1) == c@);
            }
            v.push(Value::Empty);
            v.push(c);
            i = i + 1;
            assert(data_of(v@) =~= start + Seq::new(2 * i as nat, |j: int| slot_datum(views, j)));
        }
        proof {
            lemma_data_of_push(v@, Value::Empty);
        }
        v.push(Value::Empty);
        let ghost mid = data_of(v@);
        let mut k: usize = 0;
        while k < 30
            invariant
                k <= 30,
                data_of(v@) == mid + Seq::new(k as nat, |j: int| Datum::U32(self.play_times@[j])),
            decreases 30 - k,
        {
            proof {
                lemma_data_of_push(v@, Value::U32(self.play_times@[k as int]));
            }
            v.push(Value::U32(self.play_times[k]));
            k = k + 1;
            assert(data_of(v@) =~= mid + Seq::new(k as nat, |j: int| Datum::U32(self.play_times@[j])));
        }
        proof {
            lemma_data_of_push(v@, Value::Empty);
        }
        v.push(Value::Empty);
        push_pairs(&mut v, &self.deletion_flags);
        push_pairs(&mut v, &self.transfer_flags);
        let ghost before_tail = data_of(v@);
        v.push(Value::U16(self.account_accessory));
        v.push(Value::Empty);
        v.push(Value::U32(self.login_survey));
        v.push(Value::U32(self.ad));
        v.push(Value::Empty);
        assert(data_of(v@) =~= before_tail + seq![
            Datum::U16(self.account_accessory),
            Datum::Empty,
            Datum::U32(self.login_survey),
            Datum::U32(self.ad),
            Datum::Empty,
        ]);
        assert(start =~= seq![Datum::U32(roster_count(views.len())), Datum::Empty]);
        assert(data_of(v@) =~= roster_values(self@));
        v
    }

    /// The roster that decoded field values describe.
    pub fn from_values(vals: &Vec<Value>) -> (r: CharacterListPacket)
        requires
            vals@.len() == roster_schema().len(),
        ensures
            r@ == roster_of(data_of(vals@)),
    {
        let ghost d = data_of(vals@);
        let raw = value_word(&vals[0]);
        let count: usize = if raw > ROSTER_SLOTS as u32 { ROSTER_SLOTS } else { raw as usize };
        let mut characters: Vec<Character> = Vec::new();
        let mut i: usize = 0;
        while i < count
            invariant
                i <= count <= ROSTER_SLOTS,
                vals@.len() == roster_schema().len(),
                d == data_of(vals@),
                characters@.len() == i,
                forall|j: int|
                    0 <= j < i ==> (#[trigger] characters@[j])@ == bytes_of(d[slot_index(j)]),
            decreases count - i,
        {
            characters.push(Character { data: value_bytes(&vals[3 + 2 * i]) });
            i = i + 1;
        }
        let mut play_times = [0u32; 30];
        let mut k: usize = 0;
        while k < 30
            invariant
                k <= 30,
                vals@.len() == roster_schema().len(),
                d == data_of(vals@),
                play_times@.len() == 30,
                forall|j: int| 0 <= j < k ==> #[trigger] play_times@[j] == word_of(d[63 + j]),
            decreases 30 - k,
        {
            play_times[k] = value_word(&vals[63 + k]);
            k = k + 1;
        }
        let deletion_flags = take_pairs(vals, 94);
        let transfer_flags = take_pairs(vals, 154);
        let r = CharacterListPacket {
            is_global: false,
            characters,
            play_times,
            deletion_flags,
            transfer_flags,
            account_accessory: value_half(&vals[214]),
            login_survey: value_word(&vals[216]),
            ad: value_word(&vals[217]),
        };
        assert(r@.characters =~= roster_of(d).characters);
        assert(r@.play_times =~= roster_of(d).play_times);
        assert(r@.deletion_flags =~= roster_of(d).deletion_flags);
        assert(r@.transfer_flags =~= roster_of(d).transfer_flags);
        r
    }
}

/// The roster's arrays hold 30 entries each.
pub open spec fn roster_arrays_full(r: RosterView) -> bool {
    &&& r.play_times.len() == 30
    &&& r.deletion_flags.len() == 30
    &&& r.transfer_flags.len() == 30
}

/// At most 30 live characters, each exactly one record long.
pub open spec fn roster_wf(r: RosterView) -> bool {
    &&& roster_arrays_full(r)
    &&& r.characters.len() <= ROSTER_SLOTS
    &&& forall|i: int| 0 <= i < r.characters.len() ==> (#[trigger] r.characters[i]).len() == CHARACTER_SIZE
}

/// The roster's values have the shapes of its fields; with well-formed
/// characters they also conform.
pub proof fn lemma_roster_values_shape(r: RosterView)
    requires
        roster_arrays_full(r),
    ensures
        kinds_match(roster_schema(), roster_values(r)),
        (forall|i: int| 0 <= i < r.characters.len() ==> (#[trigger] r.characters[i]).len() == CHARACTER_SIZE)
            ==> conforms_all(roster_schema(), roster_values(r)),
{
    let sa = seq![Field::U32, Field::Skip(4)];
    let va = seq![Datum::U32(roster_count(r.characters.len())), Datum::Empty];
    let sb = Seq::new(60, |i: int| if i % 2 == 0 { Field::Skip(4) } else { Field::Bytes(CHARACTER_SIZE) });
    let vb = Seq::new(60, |j: int| slot_datum(r.characters, j));
    let sc = seq![Field::Skip(ROSTER_GAP)];
    let vc = seq![Datum::Empty];
    let sd = Seq::new(30, |_i: int| Field::U32);
    let vd = Seq::new(30, |i: int| Datum::U32(r.play_times[i]));
    let se = seq![Field::Skip(32)];
    let ve = seq![Datum::Empty];
    let sf = Seq::new(60, |_i: int| Field::U32);
    let vf = Seq::new(60, |i: int| Datum::U32(pair_word(r.deletion_flags, i)));
    let vg = Seq::new(60, |i: int| Datum::U32(pair_word(r.transfer_flags, i)));
    let sh = seq![Field::U16, Field::Skip(6), Field::U32, Field::U32, Field::Skip(8)];
    let vh = seq![
        Datum::U16(r.account_accessory),
        Datum::Empty,
        Datum::U32(r.login_survey),
        Datum::U32(r.ad),
        Datum::Empty,
    ];
    assert(roster_schema() == sa + sb + sc + sd + se + sf + sf + sh);
    assert(roster_values(r) == va + vb + vc + vd + ve + vf + vg + vh);
    assert forall|j: int| 0 <= j < 60 implies kind_matches(#[trigger] sb[j], vb[j]) by {
        lemma_halves(j / 2);
    }
    lemma_kinds_concat(sa, va, sb, vb);
    lemma_kinds_concat(sa + sb, va + vb, sc, vc);
    lemma_kinds_concat(sa + sb + sc, va + vb + vc, sd, vd);
    lemma_kinds_concat(sa + sb + sc + sd, va + vb + vc + vd, se, ve);
    lemma_kinds_concat(sa + sb + sc + sd + se, va + vb + vc + vd + ve, sf, vf);
    lemma_kinds_concat(sa + sb + sc + sd + se + sf, va + vb + vc + vd + ve + vf, sf, vg);
    lemma_kinds_concat(sa + sb + sc + sd + se + sf + sf, va + vb + vc + vd + ve + vf + vg, sh, vh);
    if forall|i: int| 0 <= i < r.characters.len() ==> (#[trigger] r.characters[i]).len() == CHARACTER_SIZE {
        assert forall|j: int| 0 <= j < 60 implies conforms(#[trigger] sb[j], vb[j], false) by {
            lemma_halves(j / 2);
            if j % 2 == 1 && r.characters.len() > 0 {
                let k = (j / 2) % (r.characters.len() as int);
                assert(0 <= k < r.characters.len()) by {
                    vstd::arithmetic::div_mod::lemma_mod_pos_bound(j / 2, r.characters.len() as int);
                }
                assert(r.characters[k].len() == CHARACTER_SIZE);
            }
        }
        lemma_conforms_concat(sa, va, sb, vb);
        lemma_conforms_concat(sa + sb, va + vb, sc, vc);
        lemma_conforms_concat(sa + sb + sc, va + vb + vc, sd, vd);
        lemma_conforms_concat(sa + sb + sc + sd, va + vb + vc + vd, se, ve);
        lemma_conforms_concat(sa + sb + sc + sd + se, va + vb + vc + vd + ve, sf, vf);
        lemma_conforms_concat(sa + sb + sc + sd + se + sf, va + vb + vc + vd + ve + vf, sf, vg);
        lemma_conforms_concat(
            sa + sb + sc + sd + se + sf + sf,
            va + vb + vc + vd + ve + vf + vg,
            sh,
            vh,
        );
        lemma_conforms_each(roster_schema(), roster_values(r));
    }
}

impl CharacterListPacket {
    /// The whole roster packet: header, then the roster's fields with every
    /// slot filled.
    pub fn write(&self, is_ngs: bool) -> (r: Vec<u8>)
        ensures
            r@ == frame(roster_header(), is_ngs, encode_all(roster_schema(), roster_values(self@))),
    {
        let vals = self.to_values();
        let schema = roster_fields();
        proof {
            lemma_roster_values_shape(self@);
        }
        let h = PacketHeader::new(0x11, 0x03, Flags::default());
        encode_frame(&h, is_ngs, &schema, &vals)
    }

    /// Reads a roster packet: the roster that its fields describe, or why
    /// they cannot be read.
    pub fn read(data: &[u8], is_ngs: bool) -> (r: Result<CharacterListPacket, DecodeError>)
        ensures
            match r {
                Ok(p) => decode_values(roster_schema(), data@, is_ngs) is Ok && p@ == roster_of(
                    decode_values(roster_schema(), data@, is_ngs)->Ok_0,
                ),
                Err(e) => decode_values(roster_schema(), data@, is_ngs) == Err::<Seq<Datum>, DecodeError>(e),
            },
    {
        let schema = roster_fields();
        match decode_frame(data, is_ngs, &schema) {
            Err(e) => Err(e),
            Ok(vals) => Ok(CharacterListPacket::from_values(&vals)),
        }
    }
}

/// Writing a roster fills all 30 slots: slot `j` holds the live character
/// `j` modulo their number, or the default character when there is none,
/// and the count field holds the number of live characters, kept to 30.
pub proof fn lemma_roster_fill(r: RosterView, j: int)
    requires
        0 <= j < ROSTER_SLOTS,
    ensures
        roster_values(r)[0] == Datum::U32(roster_count(r.characters.len())),
        roster_values(r)[slot_index(j)] == Datum::Bytes(
            if r.characters.len() == 0 {
                zeros(CHARACTER_SIZE as nat)
            } else {
                r.characters[j % r.characters.len() as int]
            },
        ),
{
    lemma_halves(j);
    assert(roster_values(r)[slot_index(j)] == slot_datum(r.characters, 2 * j + 1));
}

/// A roster read back from its own bytes has the same live characters (not
/// the 30 slots that were written), play times, flags and trailing words, in
/// both wire variants; only the client-layout selector, which the wire does
/// not carry, reads back as false.
pub proof fn lemma_roster_round_trip(r: RosterView, is_ngs: bool)
    requires
        roster_wf(r),
    ensures
        decode_values(
            roster_schema(),
            frame(roster_header(), is_ngs, encode_all(roster_schema(), roster_values(r))),
            is_ngs,
        ) == Ok::<Seq<Datum>, DecodeError>(roster_values(r)),
        roster_of(roster_values(r)) == (RosterView { is_global: false, ..r }),
{
    lemma_roster_values_shape(r);
    assert forall|j: int| 0 <= j < roster_schema().len() implies field_bound(#[trigger] roster_schema()[j])
        <= ROSTER_GAP by {
        if 2 <= j < 62 {
            lemma_halves((j - 2) / 2);
        }
    }
    lemma_encode_bound(roster_schema(), roster_values(r), 0, ROSTER_GAP as nat);
    assert(encode_all(roster_schema(), roster_values(r)).len() + HEADER_SIZE <= u32::MAX);
    crate::packet::lemma_frame_round_trip(roster_header(), is_ngs, roster_schema(), roster_values(r));
    let vs = roster_values(r);
    let back = roster_of(vs);
    assert(vs[0] == Datum::U32(roster_count(r.characters.len())));
    assert(back.characters =~= r.characters) by {
        assert forall|i: int| 0 <= i < r.characters.len() implies back.characters[i] == r.characters[i] by {
            lemma_halves(i);
            assert(vs[slot_index(i)] == slot_datum(r.characters, 2 * i + 1));
            vstd::arithmetic::div_mod::lemma_small_mod(i as nat, r.characters.len());
        }
    }
    assert(back.play_times =~= r.play_times);
    assert(back.deletion_flags =~= r.deletion_flags) by {
        assert forall|k: int| 0 <= k < 30 implies back.deletion_flags[k] == r.deletion_flags[k] by {
            lemma_halves(k);
            assert(vs[94 + 2 * k] == Datum::U32(pair_word(r.deletion_flags, 2 * k)));
            assert(vs[95 + 2 * k] == Datum::U32(pair_word(r.deletion_flags, 2 * k + 1)));
        }
    }
    assert(back.transfer_flags =~= r.transfer_flags) by {
        assert forall|k: int| 0 <= k < 30 implies back.transfer_flags[k] == r.transfer_flags[k] by {
            lemma_halves(k);
            assert(vs[154 + 2 * k] == Datum::U32(pair_word(r.transfer_flags, 2 * k)));
            assert(vs[155 + 2 * k] == Datum::U32(pair_word(r.transfer_flags, 2 * k + 1)));
        }
    }
}

} // verus!
