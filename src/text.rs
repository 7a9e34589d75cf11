//! Fixed-width slots: a value written into exactly `n` bytes, truncated when
//! longer and zero-padded when shorter; text read back up to its first zero.
use crate::scalar::{put_zeros, zeros};
use vstd::prelude::*;

verus! {

/// The `n` bytes that a slot of width `n` holds for the value `b`.
pub open spec fn fit(b: Seq<u8>, n: nat) -> Seq<u8> {
    if b.len() >= n {
        b.subrange(0, n as int)
    } else {
        b + zeros((n - b.len()) as nat)
    }
}

/// The index of the first zero byte of `s` at or after `i`, or `s.len()`.
pub open spec fn first_zero_from(s: Seq<u8>, i: int) -> int
    decreases s.len() - i,
{
    if i < 0 || i >= s.len() {
        s.len() as int
    } else if s[i] == 0 {
        i
    } else {
        first_zero_from(s, i + 1)
    }
}

/// The text that a slot holds: its bytes up to the first zero byte.
pub open spec fn until_zero(s: Seq<u8>) -> Seq<u8> {
    s.subrange(0, first_zero_from(s, 0))
}

/// No byte of `b` is zero.
pub open spec fn no_zero(b: Seq<u8>) -> bool {
    forall|i: int| 0 <= i < b.len() ==> b[i] != 0
}

/// Appends the slot of width `n` for `b`.
pub fn put_fixed(buf: &mut Vec<u8>, b: &[u8], n: usize)
    ensures
        final(buf)@ == old(buf)@ + fit(b@, n as nat),
{
    let ghost start = buf@;
    let mut i: usize = 0;
    let m: usize = if b.len() < n { b.len() } else { n };
    while i < m
        invariant
            m <= n,
            m <= b@.len(),
            m == n || m == b@.len(),
            i <= m,
            buf@ == start + b@.subrange(0, i as int),
        decreases m - i,
    {
        buf.push(b[i]);
        i = i + 1;
        assert(buf@ =~= start + b@.subrange(0, i as int));
    }
    put_zeros(buf, n - m);
    assert(buf@ =~= start + fit(b@, n as nat));
}

/// The slot of width `n` for `text`.
pub fn encode_fixed_text(text: &[u8], n: usize) -> (r: Vec<u8>)
    ensures
        r@ == fit(text@, n as nat),
{
    let mut r: Vec<u8> = Vec::new();
    put_fixed(&mut r, text, n);
    assert(r@ =~= fit(text@, n as nat));
    r
}

/// Returns `first_zero_from(s, from)` for the bytes `s[from..end]`, searching
/// no further than `end`.
pub(crate) fn find_zero(s: &[u8], from: usize, end: usize) -> (r: usize)
    requires
        from <= end <= s@.len(),
    ensures
        from <= r <= end,
        r as int == first_zero_from(s@.subrange(from as int, end as int), 0) + from,
{
    let ghost t = s@.subrange(from as int, end as int);
    let mut i: usize = from;
    while i < end && s[i] != 0
        invariant
            from <= i <= end,
            end <= s@.len(),
            t == s@.subrange(from as int, end as int),
            first_zero_from(t, 0) == first_zero_from(t, i - from),
        decreases end - i,
    {
        i = i + 1;
    }
    i
}

/// The text that `slot` holds: its bytes up to the first zero byte, or all
/// of them where none is zero.
pub fn decode_fixed_text(slot: &[u8]) -> (r: Vec<u8>)
    ensures
        r@ == until_zero(slot@),
{
    let k = find_zero(slot, 0, slot.len());
    assert(slot@.subrange(0, slot@.len() as int) == slot@);
    let mut r: Vec<u8> = Vec::new();
    let mut i: usize = 0;
    while i < k
        invariant
            i <= k,
            k <= slot@.len(),
            r@ == slot@.subrange(0, i as int),
        decreases k - i,
    {
        r.push(slot[i]);
        i = i + 1;
        assert(r@ =~= slot@.subrange(0, i as int));
    }
    r
}

pub proof fn lemma_first_zero_bounds(s: Seq<u8>, i: int)
    requires
        0 <= i <= s.len(),
    ensures
        i <= first_zero_from(s, i) <= s.len(),
        first_zero_from(s, i) < s.len() ==> s[first_zero_from(s, i)] == 0,
        forall|j: int| i <= j < first_zero_from(s, i) ==> s[j] != 0,
    decreases s.len() - i,
{
    if i < s.len() && s[i] != 0 {
        lemma_first_zero_bounds(s, i + 1);
    }
}

/// Where `b[i..]` holds no zero and is followed by zeros only (or by
/// nothing), the first zero at or after `i` is at `b.len()`.
proof fn lemma_first_zero_padded(b: Seq<u8>, k: nat, i: int)
    requires
        0 <= i <= b.len(),
        no_zero(b),
    ensures
        first_zero_from(b + zeros(k), i) == b.len(),
    decreases b.len() - i,
{
    let s = b + zeros(k);
    if i < b.len() {
        assert(s[i] == b[i]);
        lemma_first_zero_padded(b, k, i + 1);
    } else if k > 0 {
        assert(s[i] == 0);
    }
}

/// A fixed slot is exactly `n` bytes long; a longer value is cut to its
/// first `n` bytes, a shorter one is followed by zeros up to `n`; the text
/// read back from a slot ends at its first zero byte or after `n` bytes,
/// whichever comes first, and a value that fits and holds no zero is read
/// back unchanged.
pub proof fn lemma_fixed_text(b: Seq<u8>, n: nat)
    ensures
        fit(b, n).len() == n,
        b.len() >= n ==> fit(b, n) == b.subrange(0, n as int),
        b.len() < n ==> fit(b, n) == b + zeros((n - b.len()) as nat),
        until_zero(fit(b, n)).len() <= n,
        no_zero(until_zero(fit(b, n))),
        until_zero(fit(b, n)).len() < n ==> fit(b, n)[until_zero(fit(b, n)).len() as int] == 0,
        b.len() <= n && no_zero(b) ==> until_zero(fit(b, n)) == b,
{
    let s = fit(b, n);
    lemma_first_zero_bounds(s, 0);
    if b.len() <= n && no_zero(b) {
        lemma_first_zero_padded(b, (n - b.len()) as nat, 0);
        assert(s =~= b + zeros((n - b.len()) as nat));
        assert(until_zero(s) =~= b);
    }
}

} // verus!
