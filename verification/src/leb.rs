//! LEB128 and little-endian byte encodings, as the WebAssembly binary format defines them.

use vstd::prelude::*;

verus! {

/// Minimal unsigned LEB128 encoding of `v`.
pub open spec fn uleb(v: nat) -> Seq<u8>
    decreases v,
{
    if v < 128 {
        seq![v as u8]
    } else {
        seq![(v % 128 + 128) as u8] + uleb(v / 128)
    }
}

/// Minimal signed LEB128 encoding of `v`.
pub open spec fn sleb(v: int) -> Seq<u8>
    decreases (if v < 0 { -v } else { v }),
{
    let low = v % 128;
    let rest = (v - low) / 128;
    if (rest == 0 && low < 64) || (rest == -1 && low >= 64) {
        seq![low as u8]
    } else {
        seq![(low + 128) as u8] + sleb(rest)
    }
}

/// Concatenation of the unsigned LEB128 encodings of every element.
pub open spec fn uleb_all(s: Seq<u32>) -> Seq<u8>
    decreases s.len(),
{
    if s.len() == 0 {
        Seq::empty()
    } else {
        uleb(s[0] as nat) + uleb_all(s.drop_first())
    }
}

/// The 8 bytes of `bits`, least significant first.
pub open spec fn le_bytes64(bits: u64) -> Seq<u8> {
    Seq::new(8, |i: int| ((bits as int / vstd::arithmetic::power2::pow2((8 * i) as nat) as int) % 256) as u8)
}

} // verus!
