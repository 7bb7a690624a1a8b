//! Big-endian encoding of the integer fields that PTP messages are built from.
use vstd::prelude::*;

verus! {

/// Why bytes could not be turned into a message, or a message into bytes.
#[derive(Clone, Copy, Debug, PartialEq, Eq, Structural)]
pub enum WireFormatError {
    /// Fewer bytes than the value needs.
    BufferTooShort,
    /// An enumerated field holds a value with no meaning. The fields decoded
    /// here keep every code (clock accuracy and time source are plain codes,
    /// reserved values included), so decoding never reports this.
    InvalidEnumValue,
    /// A message type that is not defined, or that this core does not carry.
    UnknownMessage,
}

pub open spec fn be16(x: u16) -> Seq<u8> {
    seq![(x >> 8u16) as u8, x as u8]
}

pub open spec fn be32(x: u32) -> Seq<u8> {
    seq![(x >> 24u32) as u8, (x >> 16u32) as u8, (x >> 8u32) as u8, x as u8]
}

pub open spec fn be64(x: u64) -> Seq<u8> {
    be32((x >> 32u64) as u32) + be32(x as u32)
}

pub open spec fn read16(s: Seq<u8>) -> u16 {
    (((s[0] as u16) << 8u16) | (s[1] as u16)) as u16
}

pub open spec fn read32(s: Seq<u8>) -> u32 {
    (((s[0] as u32) << 24u32) | ((s[1] as u32) << 16u32) | ((s[2] as u32) << 8u32) | (
    s[3] as u32)) as u32
}

pub open spec fn read64(s: Seq<u8>) -> u64 {
    (((read32(s.subrange(0, 4)) as u64) << 32u64) | (read32(s.subrange(4, 8)) as u64)) as u64
}

pub proof fn lemma_be16(x: u16)
    ensures
        read16(be16(x)) == x,
{
    let b0 = (x >> 8u16) as u8;
    let b1 = x as u8;
    assert((((b0 as u16) << 8u16) | (b1 as u16)) == x) by (bit_vector)
        requires
            b0 == (x >> 8u16) as u8,
            b1 == x as u8,
    ;
}

pub proof fn lemma_read16(s: Seq<u8>)
    requires
        s.len() == 2,
    ensures
        be16(read16(s)) == s,
{
    let b0 = s[0];
    let b1 = s[1];
    let x = (((b0 as u16) << 8u16) | (b1 as u16)) as u16;
    assert((x >> 8u16) as u8 == b0 && x as u8 == b1) by (bit_vector)
        requires
            x == (((b0 as u16) << 8u16) | (b1 as u16)) as u16,
    ;
    assert(be16(read16(s)) =~= s);
}

pub proof fn lemma_be32(x: u32)
    ensures
        read32(be32(x)) == x,
{
    let b0 = (x >> 24u32) as u8;
    let b1 = (x >> 16u32) as u8;
    let b2 = (x >> 8u32) as u8;
    let b3 = x as u8;
    assert((((b0 as u32) << 24u32) | ((b1 as u32) << 16u32) | ((b2 as u32) << 8u32) | (b3 as u32))
        == x) by (bit_vector)
        requires
            b0 == (x >> 24u32) as u8,
            b1 == (x >> 16u32) as u8,
            b2 == (x >> 8u32) as u8,
            b3 == x as u8,
    ;
}

pub proof fn lemma_read32(s: Seq<u8>)
    requires
        s.len() == 4,
    ensures
        be32(read32(s)) == s,
{
    let b0 = s[0];
    let b1 = s[1];
    let b2 = s[2];
    let b3 = s[3];
    let x = (((b0 as u32) << 24u32) | ((b1 as u32) << 16u32) | ((b2 as u32) << 8u32) | (
    b3 as u32)) as u32;
    assert((x >> 24u32) as u8 == b0 && (x >> 16u32) as u8 == b1 && (x >> 8u32) as u8 == b2
        && x as u8 == b3) by (bit_vector)
        requires
            x == (((b0 as u32) << 24u32) | ((b1 as u32) << 16u32) | ((b2 as u32) << 8u32) | (
            b3 as u32)) as u32,
    ;
    assert(be32(read32(s)) =~= s);
}

pub proof fn lemma_be64(x: u64)
    ensures
        read64(be64(x)) == x,
{
    let hi = (x >> 32u64) as u32;
    let lo = x as u32;
    lemma_be32(hi);
    lemma_be32(lo);
    assert(be64(x).subrange(0, 4) =~= be32(hi));
    assert(be64(x).subrange(4, 8) =~= be32(lo));
    assert((((hi as u64) << 32u64) | (lo as u64)) == x) by (bit_vector)
        requires
            hi == (x >> 32u64) as u32,
            lo == x as u32,
    ;
}

pub proof fn lemma_read64(s: Seq<u8>)
    requires
        s.len() == 8,
    ensures
        be64(read64(s)) == s,
{
    let hi = read32(s.subrange(0, 4));
    let lo = read32(s.subrange(4, 8));
    lemma_read32(s.subrange(0, 4));
    lemma_read32(s.subrange(4, 8));
    let x = (((hi as u64) << 32u64) | (lo as u64)) as u64;
    assert((x >> 32u64) as u32 == hi && x as u32 == lo) by (bit_vector)
        requires
            x == (((hi as u64) << 32u64) | (lo as u64)) as u64,
    ;
    assert(be64(read64(s)) =~= s);
}

pub fn push16(v: &mut Vec<u8>, x: u16)
    ensures
        final(v)@ == old(v)@ + be16(x),
{
    v.push((x >> 8u16) as u8);
    v.push(x as u8);
    assert(final(v)@ =~= old(v)@ + be16(x));
}

pub fn push32(v: &mut Vec<u8>, x: u32)
    ensures
        final(v)@ == old(v)@ + be32(x),
{
    v.push((x >> 24u32) as u8);
    v.push((x >> 16u32) as u8);
    v.push((x >> 8u32) as u8);
    v.push(x as u8);
    assert(final(v)@ =~= old(v)@ + be32(x));
}

pub fn push64(v: &mut Vec<u8>, x: u64)
    ensures
        final(v)@ == old(v)@ + be64(x),
{
    push32(v, (x >> 32u64) as u32);
    push32(v, x as u32);
    assert(final(v)@ =~= old(v)@ + be64(x));
}

pub fn get16(b: &[u8], at: usize) -> (r: u16)
    requires
        at + 2 <= b@.len(),
    ensures
        r == read16(b@.subrange(at as int, at + 2)),
{
    (((b[at] as u16) << 8u16) | (b[at + 1] as u16)) as u16
}

pub fn get32(b: &[u8], at: usize) -> (r: u32)
    requires
        at + 4 <= b@.len(),
    ensures
        r == read32(b@.subrange(at as int, at + 4)),
{
    (((b[at] as u32) << 24u32) | ((b[at + 1] as u32) << 16u32) | ((b[at + 2] as u32) << 8u32) | (
    b[at + 3] as u32)) as u32
}

pub fn get64(b: &[u8], at: usize) -> (r: u64)
    requires
        at + 8 <= b@.len(),
    ensures
        r == read64(b@.subrange(at as int, at + 8)),
{
    let _len = b.len();
    let hi = get32(b, at);
    let lo = get32(b, at + 4);
    assert(b@.subrange(at as int, at + 8).subrange(0, 4) =~= b@.subrange(at as int, at + 4));
    assert(b@.subrange(at as int, at + 8).subrange(4, 8) =~= b@.subrange(at + 4, at + 8));
    (((hi as u64) << 32u64) | (lo as u64)) as u64
}

/// Copies `bytes` to the front of `buf`, which must be long enough.
pub fn copy_to_front(buf: &mut [u8], bytes: &Vec<u8>)
    requires
        bytes@.len() <= old(buf)@.len(),
    ensures
        final(buf)@.len() == old(buf)@.len(),
        final(buf)@.subrange(0, bytes@.len() as int) == bytes@,
        final(buf)@.subrange(bytes@.len() as int, old(buf)@.len() as int) == old(
            buf,
        )@.subrange(bytes@.len() as int, old(buf)@.len() as int),
{
    let n = bytes.len();
    let mut i: usize = 0;
    while i < n
        invariant
            n == bytes@.len(),
            n <= buf@.len(),
            i <= n,
            buf@.len() == old(buf)@.len(),
            forall|j: int| 0 <= j < i ==> buf@[j] == bytes@[j],
            forall|j: int| i <= j < buf@.len() ==> buf@[j] == old(buf)@[j],
        decreases n - i,
    {
        buf[i] = bytes[i];
        i = i + 1;
    }
    assert(buf@.subrange(0, n as int) =~= bytes@);
    assert(buf@.subrange(n as int, buf@.len() as int) =~= old(buf)@.subrange(
        n as int,
        old(buf)@.len() as int,
    ));
}

} // verus!
