//! Records shared by several PTP messages and datasets.
use vstd::prelude::*;
use crate::codec::{
    WireFormatError, be16, be32, read16, read32, lemma_be16, lemma_be32, lemma_read16, lemma_read32,
    push16, push32, get16, get32, copy_to_front, read64, lemma_read64,
};

verus! {

/// The largest number of seconds a PTP timestamp can carry (48 bits).
pub const MAX_TIMESTAMP_SECONDS: u64 = 0xffff_ffff_ffff;

/// A point in PTP time: 48-bit seconds and 32-bit nanoseconds.
#[derive(Clone, Copy, Debug, PartialEq, Eq, Structural)]
pub struct Timestamp {
    pub seconds: u64,
    pub nanos: u32,
}

impl Timestamp {
    pub open spec fn wf(self) -> bool {
        self.seconds <= MAX_TIMESTAMP_SECONDS
    }

    /// The nanoseconds since the epoch that this timestamp stands for.
    pub open spec fn total_nanos(self) -> int {
        self.seconds * 1_000_000_000 + self.nanos
    }

    pub open spec fn spec_bytes(self) -> Seq<u8> {
        be16((self.seconds >> 32u64) as u16) + be32(self.seconds as u32) + be32(self.nanos)
    }

    /// The timestamp held by the first ten bytes of `s`.
    pub open spec fn spec_parse(s: Seq<u8>) -> Timestamp {
        Timestamp {
            seconds: (((read16(s.subrange(0, 2)) as u64) << 32u64) | (read32(s.subrange(2, 6))
                as u64)) as u64,
            nanos: read32(s.subrange(6, 10)),
        }
    }

    pub fn wire_size(&self) -> (r: usize)
        ensures
            r == 10,
    {
        10
    }

    pub fn to_bytes(&self) -> (r: Vec<u8>)
        ensures
            r@ == self.spec_bytes(),
            r@.len() == 10,
    {
        let mut v: Vec<u8> = Vec::new();
        self.append_to(&mut v);
        assert(v@ =~= self.spec_bytes());
        v
    }

    pub fn append_to(&self, v: &mut Vec<u8>)
        ensures
            final(v)@ == old(v)@ + self.spec_bytes(),
    {
        push16(v, (self.seconds >> 32u64) as u16);
        push32(v, self.seconds as u32);
        push32(v, self.nanos);
        assert(final(v)@ =~= old(v)@ + self.spec_bytes());
    }

    /// Writes the ten bytes of the timestamp to the front of `buffer`; a shorter
    /// buffer is left as it was.
    pub fn serialize(&self, buffer: &mut [u8]) -> (r: Result<(), WireFormatError>)
        ensures
            old(buffer)@.len() < 10 ==> r == Err::<(), _>(WireFormatError::BufferTooShort)
                && final(buffer)@ == old(buffer)@,
            old(buffer)@.len() >= 10 ==> r is Ok && final(buffer)@ == self.spec_bytes()
                + old(buffer)@.subrange(10, old(buffer)@.len() as int),
    {
        if buffer.len() < 10 {
            return Err(WireFormatError::BufferTooShort);
        }
        let bytes = self.to_bytes();
        copy_to_front(buffer, &bytes);
        assert(final(buffer)@ =~= self.spec_bytes() + old(buffer)@.subrange(
            10,
            old(buffer)@.len() as int,
        ));
        Ok(())
    }

    pub fn read_at(buffer: &[u8], at: usize) -> (r: Timestamp)
        requires
            at + 10 <= buffer@.len(),
        ensures
            r == Timestamp::spec_parse(buffer@.subrange(at as int, at + 10)),
    {
        let _len = buffer.len();
        let hi = get16(buffer, at);
        let mid = get32(buffer, at + 2);
        let nanos = get32(buffer, at + 6);
        let ghost s = buffer@.subrange(at as int, at + 10);
        assert(s.subrange(0, 2) =~= buffer@.subrange(at as int, at + 2));
        assert(s.subrange(2, 6) =~= buffer@.subrange(at + 2, at + 6));
        assert(s.subrange(6, 10) =~= buffer@.subrange(at + 6, at + 10));
        Timestamp { seconds: (((hi as u64) << 32u64) | (mid as u64)) as u64, nanos }
    }

    /// Reads a timestamp from the first ten bytes of `buffer`.
    pub fn deserialize(buffer: &[u8]) -> (r: Result<Timestamp, WireFormatError>)
        ensures
            buffer@.len() < 10 <==> r == Err::<Timestamp, _>(WireFormatError::BufferTooShort),
            buffer@.len() >= 10 ==> r == Ok::<Timestamp, WireFormatError>(
                Timestamp::spec_parse(buffer@),
            ),
    {
        if buffer.len() < 10 {
            return Err(WireFormatError::BufferTooShort);
        }
        let t = Timestamp::read_at(buffer, 0);
        assert(buffer@.subrange(0, 10).subrange(0, 2) =~= buffer@.subrange(0, 2));
        assert(buffer@.subrange(0, 10).subrange(2, 6) =~= buffer@.subrange(2, 6));
        assert(buffer@.subrange(0, 10).subrange(6, 10) =~= buffer@.subrange(6, 10));
        Ok(t)
    }
}

/// Decoding the encoding of a timestamp gives the timestamp back.
pub proof fn lemma_timestamp_round_trip(t: Timestamp)
    requires
        t.wf(),
    ensures
        Timestamp::spec_parse(t.spec_bytes()) == t,
{
    let s = t.spec_bytes();
    let hi = (t.seconds >> 32u64) as u16;
    let mid = t.seconds as u32;
    lemma_be16(hi);
    lemma_be32(mid);
    lemma_be32(t.nanos);
    assert(s.subrange(0, 2) =~= be16(hi));
    assert(s.subrange(2, 6) =~= be32(mid));
    assert(s.subrange(6, 10) =~= be32(t.nanos));
    let secs = t.seconds;
    assert((((hi as u64) << 32u64) | (mid as u64)) == secs) by (bit_vector)
        requires
            secs <= 0xffff_ffff_ffffu64,
            hi == (secs >> 32u64) as u16,
            mid == secs as u32,
    ;
}

/// Encoding a decoded timestamp gives its ten bytes back, and it is well formed.
pub proof fn lemma_timestamp_bytes_round_trip(s: Seq<u8>)
    requires
        s.len() == 10,
    ensures
        Timestamp::spec_parse(s).wf(),
        Timestamp::spec_parse(s).spec_bytes() == s,
{
    let hi = read16(s.subrange(0, 2));
    let mid = read32(s.subrange(2, 6));
    lemma_read16(s.subrange(0, 2));
    lemma_read32(s.subrange(2, 6));
    lemma_read32(s.subrange(6, 10));
    let secs = (((hi as u64) << 32u64) | (mid as u64)) as u64;
    assert(secs <= 0xffff_ffff_ffffu64 && (secs >> 32u64) as u16 == hi && secs as u32 == mid)
        by (bit_vector)
        requires
            secs == (((hi as u64) << 32u64) | (mid as u64)) as u64,
    ;
    assert(Timestamp::spec_parse(s).spec_bytes() =~= s);
}

/// The 8-byte identity of a clock. Identities are ordered byte by byte, which is
/// the order of the big-endian integer they spell.
#[derive(Clone, Copy, Debug, Eq)]
pub struct ClockIdentity(pub [u8; 8]);

/// Two identities are equal when their bytes are.
pub proof fn lemma_clock_identity_key_injective(a: ClockIdentity, b: ClockIdentity)
    ensures
        a.key() == b.key() <==> a.0@ == b.0@,
{
    lemma_read64(a.0@);
    lemma_read64(b.0@);
}

impl PartialEq for ClockIdentity {
    fn eq(&self, other: &ClockIdentity) -> (r: bool)
        ensures
            r == (self.0@ == other.0@),
    {
        proof {
            lemma_clock_identity_key_injective(*self, *other);
        }
        self.key_value() == other.key_value()
    }
}

impl vstd::std_specs::cmp::PartialEqSpecImpl for ClockIdentity {
    open spec fn obeys_eq_spec() -> bool {
        true
    }

    open spec fn eq_spec(&self, other: &ClockIdentity) -> bool {
        self.0@ == other.0@
    }
}

impl ClockIdentity {
    /// The big-endian integer spelled by the identity's bytes.
    pub open spec fn key(self) -> u64 {
        read64(self.0@)
    }

    pub open spec fn spec_parse(s: Seq<u8>) -> ClockIdentity {
        ClockIdentity(
            [s[0], s[1], s[2], s[3], s[4], s[5], s[6], s[7]],
        )
    }

    pub fn key_value(&self) -> (r: u64)
        ensures
            r == self.key(),
    {
        let b = &self.0;
        assert(b@.subrange(0, 8) =~= b@);
        crate::codec::get64(b.as_slice(), 0)
    }

    pub fn append_to(&self, v: &mut Vec<u8>)
        ensures
            final(v)@ == old(v)@ + self.0@,
    {
        let mut i: usize = 0;
        while i < 8
            invariant
                i <= 8,
                v@ == old(v)@ + self.0@.subrange(0, i as int),
            decreases 8 - i,
        {
            v.push(self.0[i]);
            i = i + 1;
            assert(v@ =~= old(v)@ + self.0@.subrange(0, i as int));
        }
        assert(self.0@.subrange(0, 8) =~= self.0@);
    }

    pub fn read_at(buffer: &[u8], at: usize) -> (r: ClockIdentity)
        requires
            at + 8 <= buffer@.len(),
        ensures
            r.0@ == buffer@.subrange(at as int, at + 8),
            r == ClockIdentity::spec_parse(buffer@.subrange(at as int, at + 8)),
    {
        let _len = buffer.len();
        let r = ClockIdentity(
            [
                buffer[at],
                buffer[at + 1],
                buffer[at + 2],
                buffer[at + 3],
                buffer[at + 4],
                buffer[at + 5],
                buffer[at + 6],
                buffer[at + 7],
            ],
        );
        assert(r.0@ =~= buffer@.subrange(at as int, at + 8));
        assert(r.0@ =~= ClockIdentity::spec_parse(buffer@.subrange(at as int, at + 8)).0@);
        r
    }
}

/// A port: the clock it belongs to, and its number on that clock (at least 1).
#[derive(Clone, Copy, Debug, Eq)]
pub struct PortIdentity {
    pub clock_identity: ClockIdentity,
    pub port_number: u16,
}

impl PortIdentity {
    /// Equality of the two identities, field by field.
    pub open spec fn same(self, other: PortIdentity) -> bool {
        self.clock_identity.0@ == other.clock_identity.0@ && self.port_number == other.port_number
    }
}

impl PartialEq for PortIdentity {
    fn eq(&self, other: &PortIdentity) -> (r: bool)
        ensures
            r == self.same(*other),
    {
        self.clock_identity == other.clock_identity && self.port_number == other.port_number
    }
}

impl vstd::std_specs::cmp::PartialEqSpecImpl for PortIdentity {
    open spec fn obeys_eq_spec() -> bool {
        true
    }

    open spec fn eq_spec(&self, other: &PortIdentity) -> bool {
        self.same(*other)
    }
}

impl PortIdentity {
    pub open spec fn spec_bytes(self) -> Seq<u8> {
        self.clock_identity.0@ + be16(self.port_number)
    }

    pub open spec fn spec_parse(s: Seq<u8>) -> PortIdentity {
        PortIdentity {
            clock_identity: ClockIdentity::spec_parse(s.subrange(0, 8)),
            port_number: read16(s.subrange(8, 10)),
        }
    }

    pub fn append_to(&self, v: &mut Vec<u8>)
        ensures
            final(v)@ == old(v)@ + self.spec_bytes(),
    {
        self.clock_identity.append_to(v);
        push16(v, self.port_number);
        assert(final(v)@ =~= old(v)@ + self.spec_bytes());
    }

    pub fn read_at(buffer: &[u8], at: usize) -> (r: PortIdentity)
        requires
            at + 10 <= buffer@.len(),
        ensures
            r.spec_bytes() == buffer@.subrange(at as int, at + 10),
            r == PortIdentity::spec_parse(buffer@.subrange(at as int, at + 10)),
    {
        let _len = buffer.len();
        let clock_identity = ClockIdentity::read_at(buffer, at);
        let port_number = get16(buffer, at + 8);
        proof {
            lemma_read16(buffer@.subrange(at + 8, at + 10));
        }
        let r = PortIdentity { clock_identity, port_number };
        let ghost sub = buffer@.subrange(at as int, at + 10);
        assert(sub.subrange(0, 8) =~= buffer@.subrange(at as int, at + 8));
        assert(sub.subrange(8, 10) =~= buffer@.subrange(at + 8, at + 10));
        assert(r.spec_bytes() =~= buffer@.subrange(at as int, at + 10));
        r
    }
}

/// The quality a clock claims for itself, as announced on the wire.
#[derive(Clone, Copy, Debug, PartialEq, Eq, Structural)]
pub struct ClockQuality {
    pub clock_class: u8,
    /// The accuracy code of the IEEE table (0x20 to 0x31 are defined, the rest reserved).
    pub clock_accuracy: u8,
    pub offset_scaled_log_variance: u16,
}

impl ClockQuality {
    pub open spec fn spec_bytes(self) -> Seq<u8> {
        seq![self.clock_class, self.clock_accuracy] + be16(self.offset_scaled_log_variance)
    }

    pub open spec fn spec_parse(s: Seq<u8>) -> ClockQuality {
        ClockQuality {
            clock_class: s[0],
            clock_accuracy: s[1],
            offset_scaled_log_variance: read16(s.subrange(2, 4)),
        }
    }

    pub fn append_to(&self, v: &mut Vec<u8>)
        ensures
            final(v)@ == old(v)@ + self.spec_bytes(),
    {
        v.push(self.clock_class);
        v.push(self.clock_accuracy);
        push16(v, self.offset_scaled_log_variance);
        assert(final(v)@ =~= old(v)@ + self.spec_bytes());
    }

    pub fn read_at(buffer: &[u8], at: usize) -> (r: ClockQuality)
        requires
            at + 4 <= buffer@.len(),
        ensures
            r.spec_bytes() == buffer@.subrange(at as int, at + 4),
            r == ClockQuality::spec_parse(buffer@.subrange(at as int, at + 4)),
    {
        let _len = buffer.len();
        let v = get16(buffer, at + 2);
        proof {
            lemma_read16(buffer@.subrange(at + 2, at + 4));
        }
        let ghost sub = buffer@.subrange(at as int, at + 4);
        assert(sub.subrange(2, 4) =~= buffer@.subrange(at + 2, at + 4));
        let r = ClockQuality {
            clock_class: buffer[at],
            clock_accuracy: buffer[at + 1],
            offset_scaled_log_variance: v,
        };
        assert(r.spec_bytes() =~= buffer@.subrange(at as int, at + 4));
        r
    }
}

} // verus!
