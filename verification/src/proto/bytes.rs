//! Integers in network byte order.
use vstd::prelude::*;

verus! {

/// The two bytes of a 16-bit number, most significant first.
pub open spec fn be16(v: u16) -> Seq<u8> {
    seq![(v / 256) as u8, (v % 256) as u8]
}

/// The four bytes of a 32-bit number, most significant first.
pub open spec fn be32(v: u32) -> Seq<u8> {
    seq![
        (v / 0x100_0000) as u8,
        (v / 0x1_0000 % 256) as u8,
        (v / 0x100 % 256) as u8,
        (v % 256) as u8,
    ]
}

/// The eight bytes of a 64-bit number, most significant first.
pub open spec fn be64(v: u64) -> Seq<u8> {
    be32((v / 0x1_0000_0000) as u32) + be32((v % 0x1_0000_0000) as u32)
}

/// The number that two bytes spell, most significant first.
pub open spec fn from_be16(a: u8, b: u8) -> u16 {
    (a * 256 + b) as u16
}

/// The number that four bytes spell, most significant first.
pub open spec fn from_be32(a: u8, b: u8, c: u8, d: u8) -> u32 {
    (a * 0x100_0000 + b * 0x1_0000 + c * 0x100 + d) as u32
}

/// Writes a 16-bit number at a position.
pub fn put16(out: &mut [u8], at: usize, v: u16)
    requires
        at + 2 <= old(out)@.len(),
    ensures
        final(out)@ == old(out)@.take(at as int) + be16(v) + old(out)@.skip(at + 2),
{
    out[at] = (v / 256) as u8;
    out[at + 1] = (v % 256) as u8;
    assert(out@ =~= old(out)@.take(at as int) + be16(v) + old(out)@.skip(at + 2));
}

/// Writes a 32-bit number at a position.
pub fn put32(out: &mut [u8], at: usize, v: u32)
    requires
        at + 4 <= old(out)@.len(),
    ensures
        final(out)@ == old(out)@.take(at as int) + be32(v) + old(out)@.skip(at + 4),
{
    out[at] = (v / 0x100_0000) as u8;
    out[at + 1] = (v / 0x1_0000 % 256) as u8;
    out[at + 2] = (v / 0x100 % 256) as u8;
    out[at + 3] = (v % 256) as u8;
    assert(out@ =~= old(out)@.take(at as int) + be32(v) + old(out)@.skip(at + 4));
}

/// Reads a 16-bit number at a position.
pub fn get16(buf: &[u8], at: usize) -> (r: u16)
    requires
        at + 2 <= buf@.len(),
    ensures
        r == from_be16(buf@[at as int], buf@[at + 1]),
{
    buf[at] as u16 * 256 + buf[at + 1] as u16
}

/// Reads a 32-bit number at a position.
pub fn get32(buf: &[u8], at: usize) -> (r: u32)
    requires
        at + 4 <= buf@.len(),
    ensures
        r == from_be32(buf@[at as int], buf@[at + 1], buf@[at + 2], buf@[at + 3]),
{
    buf[at] as u32 * 0x100_0000 + buf[at + 1] as u32 * 0x1_0000 + buf[at + 2] as u32 * 0x100
        + buf[at + 3] as u32
}

/// Reading a 16-bit number back gives what was written.
pub proof fn be16_reads_back(v: u16)
    ensures
        from_be16(be16(v)[0], be16(v)[1]) == v,
{
}

/// Reading a 32-bit number back gives what was written.
pub proof fn be32_reads_back(v: u32)
    ensures
        from_be32(be32(v)[0], be32(v)[1], be32(v)[2], be32(v)[3]) == v,
{
}

/// Two numbers with the same eight bytes are the same number.
pub proof fn be64_is_injective(a: u64, b: u64)
    requires
        be64(a) == be64(b),
    ensures
        a == b,
{
    let (ah, al) = ((a / 0x1_0000_0000) as u32, (a % 0x1_0000_0000) as u32);
    let (bh, bl) = ((b / 0x1_0000_0000) as u32, (b % 0x1_0000_0000) as u32);
    assert(be64(a).take(4) == be32(ah));
    assert(be64(b).take(4) == be32(bh));
    assert(be64(a).skip(4) == be32(al));
    assert(be64(b).skip(4) == be32(bl));
    be32_reads_back(ah);
    be32_reads_back(bh);
    be32_reads_back(al);
    be32_reads_back(bl);
}

} // verus!
