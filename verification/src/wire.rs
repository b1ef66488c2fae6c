//! Little-endian integer encodings used by every XAP frame.
use vstd::prelude::*;

verus! {

/// The value of the little-endian `u16` stored at `s[at..at + 2]`.
pub open spec fn spec_u16_le(s: Seq<u8>, at: int) -> u16 {
    (s[at] as int + 0x100 * s[at + 1] as int) as u16
}

/// The value of the little-endian `u32` stored at `s[at..at + 4]`.
pub open spec fn spec_u32_le(s: Seq<u8>, at: int) -> u32 {
    (s[at] as int + 0x100 * s[at + 1] as int + 0x1_0000 * s[at + 2] as int + 0x100_0000
        * s[at + 3] as int) as u32
}

/// The value of the little-endian `u64` stored at `s[at..at + 8]`.
pub open spec fn spec_u64_le(s: Seq<u8>, at: int) -> u64 {
    (spec_u32_le(s, at) as int + 0x1_0000_0000 * spec_u32_le(s, at + 4) as int) as u64
}

/// The two bytes of `v` in little-endian order.
pub open spec fn spec_u16_le_bytes(v: u16) -> Seq<u8> {
    seq![(v % 0x100) as u8, (v / 0x100) as u8]
}

/// The four bytes of `v` in little-endian order.
pub open spec fn spec_u32_le_bytes(v: u32) -> Seq<u8> {
    seq![
        (v % 0x100) as u8,
        ((v / 0x100) % 0x100) as u8,
        ((v / 0x1_0000) % 0x100) as u8,
        (v / 0x100_0000) as u8,
    ]
}

pub fn read_u16_le(s: &[u8], at: usize) -> (r: u16)
    requires
        at + 2 <= s@.len(),
    ensures
        r == spec_u16_le(s@, at as int),
{
    s[at] as u16 + 0x100 * (s[at + 1] as u16)
}

pub fn read_u32_le(s: &[u8], at: usize) -> (r: u32)
    requires
        at + 4 <= s@.len(),
    ensures
        r == spec_u32_le(s@, at as int),
{
    s[at] as u32 + 0x100 * (s[at + 1] as u32) + 0x1_0000 * (s[at + 2] as u32) + 0x100_0000 * (
    s[at + 3] as u32)
}

pub fn read_u64_le(s: &[u8], at: usize) -> (r: u64)
    requires
        at + 8 <= s@.len(),
    ensures
        r == spec_u64_le(s@, at as int),
{
    let n = s.len();
    assert(at + 4 <= n);
    let lo = read_u32_le(s, at);
    let hi = read_u32_le(s, at + 4);
    lo as u64 + 0x1_0000_0000 * (hi as u64)
}

pub fn push_u16_le(out: &mut Vec<u8>, v: u16)
    ensures
        final(out)@ == old(out)@ + spec_u16_le_bytes(v),
{
    out.push((v % 0x100) as u8);
    out.push((v / 0x100) as u8);
    assert(final(out)@ =~= old(out)@ + spec_u16_le_bytes(v));
}

pub fn push_u32_le(out: &mut Vec<u8>, v: u32)
    ensures
        final(out)@ == old(out)@ + spec_u32_le_bytes(v),
{
    out.push((v % 0x100) as u8);
    out.push(((v / 0x100) % 0x100) as u8);
    out.push(((v / 0x1_0000) % 0x100) as u8);
    out.push((v / 0x100_0000) as u8);
    assert(final(out)@ =~= old(out)@ + spec_u32_le_bytes(v));
}

/// Reading back what was written gives the value that was written.
pub proof fn lemma_u16_le_roundtrip(v: u16)
    ensures
        spec_u16_le(spec_u16_le_bytes(v), 0) == v,
{
}

/// Reading back what was written gives the value that was written.
pub proof fn lemma_u32_le_roundtrip(v: u32)
    ensures
        spec_u32_le(spec_u32_le_bytes(v), 0) == v,
{
}

} // verus!
