//! The length-obfuscation transform of variable-length fields: the true
//! length is offset by `mix` and xored with `key`, both wrapping in 32 bits.
use vstd::prelude::*;

verus! {

/// The wire form of the length `len`.
pub open spec fn spec_obfuscate(len: u32, key: u32, mix: u32) -> u32 {
    (((len as int + mix as int) % 0x1_0000_0000) as u32) ^ key
}

/// The length that the wire form `wire` stands for.
pub open spec fn spec_deobfuscate(wire: u32, key: u32, mix: u32) -> u32 {
    (((wire ^ key) as int - mix as int + 0x1_0000_0000) % 0x1_0000_0000) as u32
}

/// Turns a true length into its wire form.
pub fn obfuscate(len: u32, key: u32, mix: u32) -> (r: u32)
    ensures
        r == spec_obfuscate(len, key, mix),
{
    len.wrapping_add(mix) ^ key
}

/// Turns a wire form back into the true length.
pub fn deobfuscate(wire: u32, key: u32, mix: u32) -> (r: u32)
    ensures
        r == spec_deobfuscate(wire, key, mix),
{
    (wire ^ key).wrapping_sub(mix)
}

/// Deobfuscating an obfuscated length gives the length back, for every
/// length and every pair of constants.
pub proof fn lemma_deobfuscate_obfuscate(len: u32, key: u32, mix: u32)
    ensures
        spec_deobfuscate(spec_obfuscate(len, key, mix), key, mix) == len,
{
    let s = ((len as int + mix as int) % 0x1_0000_0000) as u32;
    assert((s ^ key) ^ key == s) by (bit_vector);
}

/// Obfuscating a deobfuscated wire form gives the wire form back: the
/// transform is a bijection on 32-bit values.
pub proof fn lemma_obfuscate_deobfuscate(wire: u32, key: u32, mix: u32)
    ensures
        spec_obfuscate(spec_deobfuscate(wire, key, mix), key, mix) == wire,
{
    assert((wire ^ key) ^ key == wire) by (bit_vector);
}

} // verus!
