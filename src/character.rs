//! The character record that rosters and character creation carry. Its
//! content belongs to the entity model; this codec treats it as a block of
//! `CHARACTER_SIZE` bytes.
use crate::field::copy_range;
use crate::scalar::zeros;
use vstd::arithmetic::div_mod::{lemma_add_mod_noop, lemma_mod_pos_bound, lemma_mod_self_0, lemma_small_mod};
use vstd::prelude::*;

verus! {

/// Bytes of one character record on the wire.
pub const CHARACTER_SIZE: usize = 0x2E8;

#[derive(Debug, Clone, PartialEq, Eq)]
pub struct Character {
    /// The record's wire bytes.
    pub data: Vec<u8>,
}

impl View for Character {
    type V = Seq<u8>;

    open spec fn view(&self) -> Seq<u8> {
        self.data@
    }
}

impl Character {
    /// The record has exactly the wire size, so it is written unchanged.
    pub open spec fn wf(&self) -> bool {
        self.data@.len() == CHARACTER_SIZE
    }

    /// A character with the same bytes.
    pub fn copy(&self) -> (r: Character)
        ensures
            r@ == self@,
    {
        Character { data: copy_range(self.data.as_slice(), 0, self.data.len()) }
    }
}

impl Default for Character {
    /// An all-zero record.
    fn default() -> (r: Character)
        ensures
            r@ == zeros(CHARACTER_SIZE as nat),
    {
        let data = vec![0u8; CHARACTER_SIZE];
        assert(data@ =~= zeros(CHARACTER_SIZE as nat));
        Character { data }
    }
}

/// The `j`-th of `n` slots filled from `entries` by repeating them from the
/// start, or from `fallback` when there are none.
pub open spec fn cycled(entries: Seq<Seq<u8>>, fallback: Seq<u8>, j: int) -> Seq<u8> {
    if entries.len() == 0 {
        fallback
    } else {
        entries[j % entries.len() as int]
    }
}

/// Exactly `n` characters: `entries` repeated from the start as often as
/// needed, or the default character repeated when `entries` is empty.
pub fn cycle_fill(entries: &Vec<Character>, n: usize) -> (r: Vec<Character>)
    ensures
        r@.len() == n,
        forall|j: int|
            0 <= j < n ==> (#[trigger] r@[j])@ == cycled(
                entries@.map_values(|c: Character| c@),
                zeros(CHARACTER_SIZE as nat),
                j,
            ),
{
    let ghost views = entries@.map_values(|c: Character| c@);
    let mut r: Vec<Character> = Vec::new();
    let mut j: usize = 0;
    let mut k: usize = 0;
    while j < n
        invariant
            j <= n,
            r@.len() == j,
            views == entries@.map_values(|c: Character| c@),
            entries@.len() > 0 ==> k < entries@.len() && k as int == (j as int) % (entries@.len() as int),
            forall|i: int|
                0 <= i < j ==> (#[trigger] r@[i])@ == cycled(views, zeros(CHARACTER_SIZE as nat), i),
        decreases n - j,
    {
        if entries.len() == 0 {
            r.push(Character::default());
        } else {
            r.push(entries[k].copy());
            k = if k + 1 == entries.len() { 0 } else { k + 1 };
            proof {
                let m = entries@.len() as int;
                let jj = j as int;
                lemma_mod_step(jj, m);
            }
        }
        j = j + 1;
    }
    r
}

proof fn lemma_mod_step(j: int, m: int)
    requires
        m > 0,
        j >= 0,
    ensures
        (j + 1) % m == if (j % m) + 1 == m { 0 } else { (j % m) + 1 },
{
    lemma_mod_pos_bound(j, m);
    lemma_add_mod_noop(j, 1, m);
    if m == 1 {
        lemma_mod_self_0(1);
        lemma_mod_self_0(m);
    } else {
        lemma_small_mod(1, m as nat);
        if (j % m) + 1 == m {
            lemma_mod_self_0(m);
        } else {
            lemma_small_mod(((j % m) + 1) as nat, m as nat);
        }
    }
}

} // verus!
