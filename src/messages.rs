//! PTP messages: the common header and the bodies that the port logic uses.
use vstd::prelude::*;
use crate::codec::{
    WireFormatError, be16, be32, be64, read16, read32, read64, lemma_be16, lemma_be32, lemma_be64,
    lemma_read16, lemma_read32, lemma_read64, push16, push32, push64, get16, get32, get64,
    copy_to_front,
};
use crate::common::{
    Timestamp, PortIdentity, ClockIdentity, ClockQuality, lemma_timestamp_round_trip,
    lemma_timestamp_bytes_round_trip,
};

verus! {

pub const HEADER_SIZE: usize = 34;

/// The kinds of PTP message, as named by the low nibble of a header's first byte.
#[derive(Clone, Copy, Debug, PartialEq, Eq, Structural)]
pub enum MessageType {
    Sync,
    DelayReq,
    PDelayReq,
    PDelayResp,
    FollowUp,
    DelayResp,
    PDelayRespFollowUp,
    Announce,
    Signaling,
    Management,
}

impl MessageType {
    pub open spec fn spec_nibble(self) -> u8 {
        match self {
            MessageType::Sync => 0x0,
            MessageType::DelayReq => 0x1,
            MessageType::PDelayReq => 0x2,
            MessageType::PDelayResp => 0x3,
            MessageType::FollowUp => 0x8,
            MessageType::DelayResp => 0x9,
            MessageType::PDelayRespFollowUp => 0xa,
            MessageType::Announce => 0xb,
            MessageType::Signaling => 0xc,
            MessageType::Management => 0xd,
        }
    }

    pub open spec fn spec_from_nibble(n: u8) -> Option<MessageType> {
        if n == 0x0 {
            Some(MessageType::Sync)
        } else if n == 0x1 {
            Some(MessageType::DelayReq)
        } else if n == 0x2 {
            Some(MessageType::PDelayReq)
        } else if n == 0x3 {
            Some(MessageType::PDelayResp)
        } else if n == 0x8 {
            Some(MessageType::FollowUp)
        } else if n == 0x9 {
            Some(MessageType::DelayResp)
        } else if n == 0xa {
            Some(MessageType::PDelayRespFollowUp)
        } else if n == 0xb {
            Some(MessageType::Announce)
        } else if n == 0xc {
            Some(MessageType::Signaling)
        } else if n == 0xd {
            Some(MessageType::Management)
        } else {
            None
        }
    }

    pub fn to_nibble(&self) -> (r: u8)
        ensures
            r == self.spec_nibble(),
    {
        match self {
            MessageType::Sync => 0x0,
            MessageType::DelayReq => 0x1,
            MessageType::PDelayReq => 0x2,
            MessageType::PDelayResp => 0x3,
            MessageType::FollowUp => 0x8,
            MessageType::DelayResp => 0x9,
            MessageType::PDelayRespFollowUp => 0xa,
            MessageType::Announce => 0xb,
            MessageType::Signaling => 0xc,
            MessageType::Management => 0xd,
        }
    }

    pub fn from_nibble(n: u8) -> (r: Option<MessageType>)
        ensures
            r == MessageType::spec_from_nibble(n),
    {
        if n == 0x0 {
            Some(MessageType::Sync)
        } else if n == 0x1 {
            Some(MessageType::DelayReq)
        } else if n == 0x2 {
            Some(MessageType::PDelayReq)
        } else if n == 0x3 {
            Some(MessageType::PDelayResp)
        } else if n == 0x8 {
            Some(MessageType::FollowUp)
        } else if n == 0x9 {
            Some(MessageType::DelayResp)
        } else if n == 0xa {
            Some(MessageType::PDelayRespFollowUp)
        } else if n == 0xb {
            Some(MessageType::Announce)
        } else if n == 0xc {
            Some(MessageType::Signaling)
        } else if n == 0xd {
            Some(MessageType::Management)
        } else {
            None
        }
    }

    /// The size of the body that follows the header, for the kinds this core carries.
    pub open spec fn spec_body_size(self) -> Option<nat> {
        match self {
            MessageType::Sync | MessageType::DelayReq | MessageType::FollowUp => Some(10),
            MessageType::DelayResp => Some(20),
            MessageType::Announce => Some(30),
            _ => None,
        }
    }
}

/// The 34-byte header that starts every PTP message.
#[derive(Clone, Copy, Debug, PartialEq, Eq)]
pub struct Header {
    /// 12 bits: the high nibble of byte 0 and all of byte 5.
    pub sdo_id: u16,
    pub message_type: MessageType,
    /// 4 bits.
    pub minor_version: u8,
    /// 4 bits.
    pub version: u8,
    pub message_length: u16,
    pub domain_number: u8,
    pub flags: u16,
    /// Scaled nanoseconds: nanoseconds times 2^16.
    pub correction_field: i64,
    pub message_type_specific: u32,
    pub source_port_identity: PortIdentity,
    pub sequence_id: u16,
    pub control_field: u8,
    pub log_message_interval: i8,
}

impl Header {
    pub open spec fn wf(self) -> bool {
        self.sdo_id < 0x1000 && self.minor_version < 0x10 && self.version < 0x10
    }

    pub open spec fn byte0(self) -> u8 {
        ((((self.sdo_id >> 8u16) as u8) << 4u8) | self.message_type.spec_nibble()) as u8
    }

    pub open spec fn byte1(self) -> u8 {
        ((self.minor_version << 4u8) | self.version) as u8
    }

    pub open spec fn spec_bytes(self) -> Seq<u8> {
        seq![self.byte0(), self.byte1()] + be16(self.message_length) + seq![
            self.domain_number,
            self.sdo_id as u8,
        ] + be16(self.flags) + be64(#[verifier::truncate] (self.correction_field as u64)) + be32(
            self.message_type_specific,
        ) + self.source_port_identity.spec_bytes() + be16(self.sequence_id) + seq![
            self.control_field,
            #[verifier::truncate] (self.log_message_interval as u8),
        ]
    }

    /// The header held by the first 34 bytes of `s`, if its message type is one of the standard's.
    pub open spec fn spec_parse(s: Seq<u8>) -> Option<Header> {
        match MessageType::spec_from_nibble(s[0] & 0x0fu8) {
            Some(message_type) => Some(
                Header {
                    sdo_id: ((((s[0] >> 4u8) as u16) << 8u16) | (s[5] as u16)) as u16,
                    message_type,
                    minor_version: s[1] >> 4u8,
                    version: s[1] & 0x0fu8,
                    message_length: read16(s.subrange(2, 4)),
                    domain_number: s[4],
                    flags: read16(s.subrange(6, 8)),
                    correction_field: #[verifier::truncate] (read64(s.subrange(8, 16)) as i64),
                    message_type_specific: read32(s.subrange(16, 20)),
                    source_port_identity: PortIdentity::spec_parse(s.subrange(20, 30)),
                    sequence_id: read16(s.subrange(30, 32)),
                    control_field: s[32],
                    log_message_interval: #[verifier::truncate] (s[33] as i8),
                },
            ),
            None => None,
        }
    }

    pub fn append_to(&self, v: &mut Vec<u8>)
        requires
            self.wf(),
        ensures
            final(v)@ == old(v)@ + self.spec_bytes(),
    {
        let major = (self.sdo_id >> 8u16) as u8;
        let nibble = self.message_type.to_nibble();
        v.push(((major << 4u8) | nibble) as u8);
        v.push(((self.minor_version << 4u8) | self.version) as u8);
        push16(v, self.message_length);
        v.push(self.domain_number);
        v.push(self.sdo_id as u8);
        push16(v, self.flags);
        push64(v, self.correction_field as u64);
        push32(v, self.message_type_specific);
        self.source_port_identity.append_to(v);
        push16(v, self.sequence_id);
        v.push(self.control_field);
        v.push(self.log_message_interval as u8);
        assert(final(v)@ =~= old(v)@ + self.spec_bytes());
    }

    /// Reads a header from the first 34 bytes of `buffer`.
    pub fn read(buffer: &[u8]) -> (r: Result<Header, WireFormatError>)
        requires
            buffer@.len() >= HEADER_SIZE,
        ensures
            Header::spec_parse(buffer@) is None ==> r == Err::<Header, _>(
                WireFormatError::UnknownMessage,
            ),
            Header::spec_parse(buffer@) is Some ==> r == Ok::<Header, WireFormatError>(
                Header::spec_parse(buffer@).unwrap(),
            ),
    {
        let b0 = buffer[0];
        let b1 = buffer[1];
        let message_type = match MessageType::from_nibble(b0 & 0x0fu8) {
            Some(t) => t,
            None => return Err(WireFormatError::UnknownMessage),
        };
        let message_length = get16(buffer, 2);
        let flags = get16(buffer, 6);
        let correction = get64(buffer, 8);
        let message_type_specific = get32(buffer, 16);
        let source_port_identity = PortIdentity::read_at(buffer, 20);
        let sequence_id = get16(buffer, 30);
        let h = Header {
            sdo_id: ((((b0 >> 4u8) as u16) << 8u16) | (buffer[5] as u16)) as u16,
            message_type,
            minor_version: b1 >> 4u8,
            version: b1 & 0x0fu8,
            message_length,
            domain_number: buffer[4],
            flags,
            correction_field: correction as i64,
            message_type_specific,
            source_port_identity,
            sequence_id,
            control_field: buffer[32],
            log_message_interval: buffer[33] as i8,
        };
        proof {
            let p = PortIdentity::spec_parse(buffer@.subrange(20, 30));
            lemma_port_identity_parse(buffer@.subrange(20, 30));
            assert(source_port_identity.spec_bytes() == p.spec_bytes());
            lemma_port_identity_bytes_injective(source_port_identity, p);
        }
        Ok(h)
    }
}

/// Decoding the encoding of a well-formed header gives it back.
pub proof fn lemma_header_round_trip(h: Header)
    requires
        h.wf(),
    ensures
        Header::spec_parse(h.spec_bytes()) == Some(h),
{
    let s = h.spec_bytes();
    let sdo = h.sdo_id;
    let nib = h.message_type.spec_nibble();
    let mv = h.minor_version;
    let ver = h.version;
    let b0 = h.byte0();
    let b1 = h.byte1();
    assert(b0 & 0x0fu8 == nib && ((((b0 >> 4u8) as u16) << 8u16) | ((sdo as u8) as u16)) == sdo)
        by (bit_vector)
        requires
            sdo < 0x1000u16,
            nib < 0x10u8,
            b0 == ((((sdo >> 8u16) as u8) << 4u8) | nib) as u8,
    ;
    assert(b1 >> 4u8 == mv && b1 & 0x0fu8 == ver) by (bit_vector)
        requires
            mv < 0x10u8,
            ver < 0x10u8,
            b1 == ((mv << 4u8) | ver) as u8,
    ;
    lemma_be16(h.message_length);
    lemma_be16(h.flags);
    let c = h.correction_field;
    let cu = #[verifier::truncate] (c as u64);
    assert(#[verifier::truncate] (cu as i64) == c) by (bit_vector)
        requires
            cu == #[verifier::truncate] (c as u64),
    ;
    let l = h.log_message_interval;
    assert(#[verifier::truncate] ((#[verifier::truncate] (l as u8)) as i8) == l) by (bit_vector);
    lemma_nibble(h.message_type);
    lemma_be64(cu);
    lemma_be32(h.message_type_specific);
    lemma_be16(h.sequence_id);
    assert(s.subrange(2, 4) =~= be16(h.message_length));
    assert(s.subrange(6, 8) =~= be16(h.flags));
    assert(s.subrange(8, 16) =~= be64(cu));
    assert(s.subrange(16, 20) =~= be32(h.message_type_specific));
    assert(s.subrange(20, 30) =~= h.source_port_identity.spec_bytes());
    assert(s.subrange(30, 32) =~= be16(h.sequence_id));
    lemma_port_identity_parse(s.subrange(20, 30));
    lemma_port_identity_bytes_injective(
        PortIdentity::spec_parse(s.subrange(20, 30)),
        h.source_port_identity,
    );
    let p = Header::spec_parse(s).unwrap();
    assert(p.source_port_identity == h.source_port_identity);
    assert(p == h);
}

/// Encoding a decoded header gives its 34 bytes back.
pub proof fn lemma_header_bytes_round_trip(s: Seq<u8>)
    requires
        s.len() == HEADER_SIZE,
        Header::spec_parse(s) is Some,
    ensures
        Header::spec_parse(s).unwrap().wf(),
        Header::spec_parse(s).unwrap().spec_bytes() == s,
{
    let h = Header::spec_parse(s).unwrap();
    let b0 = s[0];
    let b1 = s[1];
    let b5 = s[5];
    let nib = h.message_type.spec_nibble();
    let sdo = h.sdo_id;
    lemma_from_nibble(b0 & 0x0fu8);
    assert(nib == b0 & 0x0fu8);
    let b33 = s[33];
    assert(#[verifier::truncate] ((#[verifier::truncate] (b33 as i8)) as u8) == b33) by (bit_vector);
    let cu = read64(s.subrange(8, 16));
    assert(#[verifier::truncate] ((#[verifier::truncate] (cu as i64)) as u64) == cu) by (bit_vector);
    assert(sdo < 0x1000u16 && ((((sdo >> 8u16) as u8) << 4u8) | nib) as u8 == b0 && sdo as u8 == b5)
        by (bit_vector)
        requires
            nib == b0 & 0x0fu8,
            sdo == ((((b0 >> 4u8) as u16) << 8u16) | (b5 as u16)) as u16,
    ;
    let mv = h.minor_version;
    let ver = h.version;
    assert(mv < 0x10u8 && ver < 0x10u8 && ((mv << 4u8) | ver) as u8 == b1) by (bit_vector)
        requires
            mv == b1 >> 4u8,
            ver == b1 & 0x0fu8,
    ;
    lemma_read16(s.subrange(2, 4));
    lemma_read16(s.subrange(6, 8));
    lemma_read64(s.subrange(8, 16));
    lemma_read32(s.subrange(16, 20));
    lemma_port_identity_parse(s.subrange(20, 30));
    lemma_read16(s.subrange(30, 32));
    assert(h.spec_bytes() =~= s);
}

pub proof fn lemma_nibble(t: MessageType)
    ensures
        MessageType::spec_from_nibble(t.spec_nibble()) == Some(t),
        t.spec_nibble() < 0x10,
{
}

pub proof fn lemma_from_nibble(n: u8)
    ensures
        MessageType::spec_from_nibble(n) is Some ==> MessageType::spec_from_nibble(
            n,
        ).unwrap().spec_nibble() == n,
{
}

pub proof fn lemma_port_identity_parse(s: Seq<u8>)
    requires
        s.len() == 10,
    ensures
        PortIdentity::spec_parse(s).spec_bytes() == s,
{
    let p = PortIdentity::spec_parse(s);
    lemma_read16(s.subrange(8, 10));
    assert(p.clock_identity.0@ =~= s.subrange(0, 8));
    assert(p.spec_bytes() =~= s);
}

pub proof fn lemma_port_identity_bytes_injective(a: PortIdentity, b: PortIdentity)
    requires
        a.spec_bytes() == b.spec_bytes(),
    ensures
        a == b,
{
    assert(a.clock_identity.0@ =~= a.spec_bytes().subrange(0, 8));
    assert(b.clock_identity.0@ =~= b.spec_bytes().subrange(0, 8));
    assert(be16(a.port_number) =~= a.spec_bytes().subrange(8, 10));
    assert(be16(b.port_number) =~= b.spec_bytes().subrange(8, 10));
    lemma_be16(a.port_number);
    lemma_be16(b.port_number);
    assert(a.clock_identity.0 == b.clock_identity.0);
}

/// The body of a Sync or a DelayReq: the time at which it left.
#[derive(Clone, Copy, Debug, PartialEq, Eq, Structural)]
pub struct SyncMessage {
    pub origin_timestamp: Timestamp,
}

#[derive(Clone, Copy, Debug, PartialEq, Eq, Structural)]
pub struct DelayReqMessage {
    pub origin_timestamp: Timestamp,
}

/// The body of a FollowUp: the precise time at which the matching Sync left.
#[derive(Clone, Copy, Debug, PartialEq, Eq, Structural)]
pub struct FollowUpMessage {
    pub precise_origin_timestamp: Timestamp,
}

impl FollowUpMessage {
    pub fn precise_origin_timestamp(&self) -> (r: Timestamp)
        ensures
            r == self.precise_origin_timestamp,
    {
        self.precise_origin_timestamp
    }

    pub fn wire_size(&self) -> (r: usize)
        ensures
            r == 10,
    {
        10
    }

    /// Writes the ten bytes of the body to the front of `buffer`; a shorter
    /// buffer is left as it was.
    pub fn serialize(&self, buffer: &mut [u8]) -> (r: Result<(), WireFormatError>)
        ensures
            old(buffer)@.len() < 10 ==> r == Err::<(), _>(WireFormatError::BufferTooShort)
                && final(buffer)@ == old(buffer)@,
            old(buffer)@.len() >= 10 ==> r is Ok && final(buffer)@
                == self.precise_origin_timestamp.spec_bytes() + old(buffer)@.subrange(
                10,
                old(buffer)@.len() as int,
            ),
    {
        self.precise_origin_timestamp.serialize(buffer)
    }

    pub fn deserialize(buffer: &[u8]) -> (r: Result<FollowUpMessage, WireFormatError>)
        ensures
            buffer@.len() < 10 <==> r == Err::<FollowUpMessage, _>(
                WireFormatError::BufferTooShort,
            ),
            buffer@.len() >= 10 ==> r == Ok::<FollowUpMessage, WireFormatError>(
                FollowUpMessage { precise_origin_timestamp: Timestamp::spec_parse(buffer@) },
            ),
    {
        match Timestamp::deserialize(buffer) {
            Ok(t) => Ok(FollowUpMessage { precise_origin_timestamp: t }),
            Err(e) => Err(e),
        }
    }
}

/// The body of a DelayResp: when the master received the request, and from which port.
#[derive(Clone, Copy, Debug, PartialEq, Eq)]
pub struct DelayRespMessage {
    pub receive_timestamp: Timestamp,
    pub requesting_port_identity: PortIdentity,
}

/// The body of an Announce: the grandmaster that the sender follows, and its quality.
#[derive(Clone, Copy, Debug, PartialEq, Eq)]
pub struct AnnounceMessage {
    pub origin_timestamp: Timestamp,
    pub current_utc_offset: i16,
    pub grandmaster_priority_1: u8,
    pub grandmaster_clock_quality: ClockQuality,
    pub grandmaster_priority_2: u8,
    pub grandmaster_identity: ClockIdentity,
    pub steps_removed: u16,
    pub time_source: u8,
}

impl AnnounceMessage {
    /// The thirty body bytes; the reserved byte is written as zero.
    pub open spec fn spec_bytes(self) -> Seq<u8> {
        self.origin_timestamp.spec_bytes() + be16(
            #[verifier::truncate] (self.current_utc_offset as u16),
        ) + seq![0u8, self.grandmaster_priority_1] + self.grandmaster_clock_quality.spec_bytes()
            + seq![self.grandmaster_priority_2] + self.grandmaster_identity.0@ + be16(
            self.steps_removed,
        ) + seq![self.time_source]
    }

    pub open spec fn spec_parse(s: Seq<u8>) -> AnnounceMessage {
        AnnounceMessage {
            origin_timestamp: Timestamp::spec_parse(s.subrange(0, 10)),
            current_utc_offset: #[verifier::truncate] (read16(s.subrange(10, 12)) as i16),
            grandmaster_priority_1: s[13],
            grandmaster_clock_quality: ClockQuality::spec_parse(s.subrange(14, 18)),
            grandmaster_priority_2: s[18],
            grandmaster_identity: ClockIdentity::spec_parse(s.subrange(19, 27)),
            steps_removed: read16(s.subrange(27, 29)),
            time_source: s[29],
        }
    }
}

/// What follows the header, for each kind of message this core carries.
#[derive(Clone, Copy, Debug, PartialEq, Eq)]
pub enum MessageBody {
    Sync(SyncMessage),
    DelayReq(DelayReqMessage),
    FollowUp(FollowUpMessage),
    DelayResp(DelayRespMessage),
    Announce(AnnounceMessage),
}

impl MessageBody {
    pub open spec fn message_type(self) -> MessageType {
        match self {
            MessageBody::Sync(_) => MessageType::Sync,
            MessageBody::DelayReq(_) => MessageType::DelayReq,
            MessageBody::FollowUp(_) => MessageType::FollowUp,
            MessageBody::DelayResp(_) => MessageType::DelayResp,
            MessageBody::Announce(_) => MessageType::Announce,
        }
    }

    pub open spec fn wf(self) -> bool {
        match self {
            MessageBody::Sync(m) => m.origin_timestamp.wf(),
            MessageBody::DelayReq(m) => m.origin_timestamp.wf(),
            MessageBody::FollowUp(m) => m.precise_origin_timestamp.wf(),
            MessageBody::DelayResp(m) => m.receive_timestamp.wf(),
            MessageBody::Announce(m) => m.origin_timestamp.wf(),
        }
    }

    pub open spec fn spec_bytes(self) -> Seq<u8> {
        match self {
            MessageBody::Sync(m) => m.origin_timestamp.spec_bytes(),
            MessageBody::DelayReq(m) => m.origin_timestamp.spec_bytes(),
            MessageBody::FollowUp(m) => m.precise_origin_timestamp.spec_bytes(),
            MessageBody::DelayResp(m) => m.receive_timestamp.spec_bytes()
                + m.requesting_port_identity.spec_bytes(),
            MessageBody::Announce(m) => m.spec_bytes(),
        }
    }

    /// The body of kind `t` held by `s`, which is as long as that kind's body.
    pub open spec fn spec_parse(t: MessageType, s: Seq<u8>) -> MessageBody {
        match t {
            MessageType::DelayReq => MessageBody::DelayReq(
                DelayReqMessage { origin_timestamp: Timestamp::spec_parse(s) },
            ),
            MessageType::FollowUp => MessageBody::FollowUp(
                FollowUpMessage { precise_origin_timestamp: Timestamp::spec_parse(s) },
            ),
            MessageType::DelayResp => MessageBody::DelayResp(
                DelayRespMessage {
                    receive_timestamp: Timestamp::spec_parse(s.subrange(0, 10)),
                    requesting_port_identity: PortIdentity::spec_parse(s.subrange(10, 20)),
                },
            ),
            MessageType::Announce => MessageBody::Announce(AnnounceMessage::spec_parse(s)),
            _ => MessageBody::Sync(SyncMessage { origin_timestamp: Timestamp::spec_parse(s) }),
        }
    }

    pub fn append_to(&self, v: &mut Vec<u8>)
        ensures
            final(v)@ == old(v)@ + self.spec_bytes(),
    {
        match self {
            MessageBody::Sync(m) => m.origin_timestamp.append_to(v),
            MessageBody::DelayReq(m) => m.origin_timestamp.append_to(v),
            MessageBody::FollowUp(m) => m.precise_origin_timestamp.append_to(v),
            MessageBody::DelayResp(m) => {
                m.receive_timestamp.append_to(v);
                m.requesting_port_identity.append_to(v);
                assert(final(v)@ =~= old(v)@ + self.spec_bytes());
            },
            MessageBody::Announce(m) => {
                m.origin_timestamp.append_to(v);
                push16(v, m.current_utc_offset as u16);
                v.push(0u8);
                v.push(m.grandmaster_priority_1);
                m.grandmaster_clock_quality.append_to(v);
                v.push(m.grandmaster_priority_2);
                m.grandmaster_identity.append_to(v);
                push16(v, m.steps_removed);
                v.push(m.time_source);
                assert(final(v)@ =~= old(v)@ + self.spec_bytes());
            },
        }
    }

    pub fn read_at(t: MessageType, buffer: &[u8], at: usize) -> (r: MessageBody)
        requires
            t.spec_body_size() is Some,
            at + t.spec_body_size().unwrap() <= buffer@.len(),
        ensures
            r == MessageBody::spec_parse(
                t,
                buffer@.subrange(at as int, at + t.spec_body_size().unwrap()),
            ),
    {
        let _len = buffer.len();
        let ghost s = buffer@.subrange(at as int, at + t.spec_body_size().unwrap());
        match t {
            MessageType::DelayReq => MessageBody::DelayReq(
                DelayReqMessage { origin_timestamp: Timestamp::read_at(buffer, at) },
            ),
            MessageType::FollowUp => MessageBody::FollowUp(
                FollowUpMessage { precise_origin_timestamp: Timestamp::read_at(buffer, at) },
            ),
            MessageType::DelayResp => {
                let receive_timestamp = Timestamp::read_at(buffer, at);
                let requesting_port_identity = PortIdentity::read_at(buffer, at + 10);
                assert(s.subrange(0, 10) =~= buffer@.subrange(at as int, at + 10));
                assert(s.subrange(10, 20) =~= buffer@.subrange(at + 10, at + 20));
                MessageBody::DelayResp(DelayRespMessage { receive_timestamp, requesting_port_identity })
            },
            MessageType::Announce => {
                let origin_timestamp = Timestamp::read_at(buffer, at);
                let utc = get16(buffer, at + 10);
                let grandmaster_clock_quality = ClockQuality::read_at(buffer, at + 14);
                let grandmaster_identity = ClockIdentity::read_at(buffer, at + 19);
                let steps_removed = get16(buffer, at + 27);
                assert(s.subrange(0, 10) =~= buffer@.subrange(at as int, at + 10));
                assert(s.subrange(10, 12) =~= buffer@.subrange(at + 10, at + 12));
                assert(s.subrange(14, 18) =~= buffer@.subrange(at + 14, at + 18));
                assert(s.subrange(19, 27) =~= buffer@.subrange(at + 19, at + 27));
                assert(s.subrange(27, 29) =~= buffer@.subrange(at + 27, at + 29));
                MessageBody::Announce(
                    AnnounceMessage {
                        origin_timestamp,
                        current_utc_offset: utc as i16,
                        grandmaster_priority_1: buffer[at + 13],
                        grandmaster_clock_quality,
                        grandmaster_priority_2: buffer[at + 18],
                        grandmaster_identity,
                        steps_removed,
                        time_source: buffer[at + 29],
                    },
                )
            },
            _ => MessageBody::Sync(SyncMessage { origin_timestamp: Timestamp::read_at(buffer, at) }),
        }
    }
}

/// A whole PTP message: header and body.
#[derive(Clone, Copy, Debug, PartialEq, Eq)]
pub struct Message {
    pub header: Header,
    pub body: MessageBody,
}

impl Message {
    pub open spec fn wf(self) -> bool {
        self.header.wf() && self.body.wf() && self.header.message_type == self.body.message_type()
    }

    pub open spec fn spec_bytes(self) -> Seq<u8> {
        self.header.spec_bytes() + self.body.spec_bytes()
    }

    /// The message that `s` starts with, or why there is none. Bytes beyond the
    /// body (a suffix) are not read.
    pub open spec fn spec_parse(s: Seq<u8>) -> Result<Message, WireFormatError> {
        if s.len() < HEADER_SIZE {
            Err(WireFormatError::BufferTooShort)
        } else {
            match Header::spec_parse(s) {
                None => Err(WireFormatError::UnknownMessage),
                Some(header) => match header.message_type.spec_body_size() {
                    None => Err(WireFormatError::UnknownMessage),
                    Some(n) => if s.len() < HEADER_SIZE + n {
                        Err(WireFormatError::BufferTooShort)
                    } else {
                        Ok(
                            Message {
                                header,
                                body: MessageBody::spec_parse(
                                    header.message_type,
                                    s.subrange(HEADER_SIZE as int, HEADER_SIZE + n),
                                ),
                            },
                        )
                    },
                },
            }
        }
    }

    pub fn wire_size(&self) -> (r: usize)
        requires
            self.wf(),
        ensures
            r == self.spec_bytes().len(),
    {
        proof {
            lemma_body_size(self.body);
        }
        match self.body {
            MessageBody::Sync(_) | MessageBody::DelayReq(_) | MessageBody::FollowUp(_) => 44,
            MessageBody::DelayResp(_) => 54,
            MessageBody::Announce(_) => 64,
        }
    }

    pub fn serialize_vec(&self) -> (r: Vec<u8>)
        requires
            self.wf(),
        ensures
            r@ == self.spec_bytes(),
    {
        let mut v: Vec<u8> = Vec::new();
        self.header.append_to(&mut v);
        self.body.append_to(&mut v);
        assert(v@ =~= self.spec_bytes());
        v
    }

    /// Writes the message to the front of `buffer`; a buffer shorter than the
    /// message is left as it was.
    pub fn serialize(&self, buffer: &mut [u8]) -> (r: Result<(), WireFormatError>)
        requires
            self.wf(),
        ensures
            old(buffer)@.len() < self.spec_bytes().len() ==> r == Err::<(), _>(
                WireFormatError::BufferTooShort,
            ) && final(buffer)@ == old(buffer)@,
            old(buffer)@.len() >= self.spec_bytes().len() ==> r is Ok && final(buffer)@
                == self.spec_bytes() + old(buffer)@.subrange(
                self.spec_bytes().len() as int,
                old(buffer)@.len() as int,
            ),
    {
        if buffer.len() < self.wire_size() {
            return Err(WireFormatError::BufferTooShort);
        }
        let bytes = self.serialize_vec();
        copy_to_front(buffer, &bytes);
        assert(final(buffer)@ =~= self.spec_bytes() + old(buffer)@.subrange(
            self.spec_bytes().len() as int,
            old(buffer)@.len() as int,
        ));
        Ok(())
    }

    pub fn deserialize(buffer: &[u8]) -> (r: Result<Message, WireFormatError>)
        ensures
            r == Message::spec_parse(buffer@),
    {
        if buffer.len() < HEADER_SIZE {
            return Err(WireFormatError::BufferTooShort);
        }
        let header = match Header::read(buffer) {
            Ok(h) => h,
            Err(e) => return Err(e),
        };
        let n: usize = match header.message_type {
            MessageType::Sync | MessageType::DelayReq | MessageType::FollowUp => 10,
            MessageType::DelayResp => 20,
            MessageType::Announce => 30,
            _ => return Err(WireFormatError::UnknownMessage),
        };
        if buffer.len() < HEADER_SIZE + n {
            return Err(WireFormatError::BufferTooShort);
        }
        let body = MessageBody::read_at(header.message_type, buffer, HEADER_SIZE);
        Ok(Message { header, body })
    }
}

pub proof fn lemma_body_size(b: MessageBody)
    ensures
        b.message_type().spec_body_size() == Some(b.spec_bytes().len()),
{
}

/// Decoding the encoding of a well-formed message gives the message back.
pub proof fn lemma_message_round_trip(m: Message)
    requires
        m.wf(),
    ensures
        Message::spec_parse(m.spec_bytes()) == Ok::<Message, WireFormatError>(m),
{
    let s = m.spec_bytes();
    lemma_body_size(m.body);
    assert(s.subrange(0, HEADER_SIZE as int) =~= m.header.spec_bytes());
    lemma_header_round_trip(m.header);
    lemma_header_prefix(s, m.header.spec_bytes());
    assert(s.subrange(HEADER_SIZE as int, s.len() as int) =~= m.body.spec_bytes());
    lemma_body_round_trip(m.body);
}

/// The header is read from the first 34 bytes alone.
pub proof fn lemma_header_prefix(s: Seq<u8>, h: Seq<u8>)
    requires
        h.len() == HEADER_SIZE,
        s.len() >= HEADER_SIZE,
        s.subrange(0, HEADER_SIZE as int) == h,
    ensures
        Header::spec_parse(s) == Header::spec_parse(h),
{
    assert(s.subrange(2, 4) =~= h.subrange(2, 4));
    assert(s.subrange(6, 8) =~= h.subrange(6, 8));
    assert(s.subrange(8, 16) =~= h.subrange(8, 16));
    assert(s.subrange(16, 20) =~= h.subrange(16, 20));
    assert(s.subrange(20, 30) =~= h.subrange(20, 30));
    assert(s.subrange(30, 32) =~= h.subrange(30, 32));
    assert(s[0] == h[0] && s[1] == h[1] && s[4] == h[4] && s[5] == h[5] && s[32] == h[32] && s[33]
        == h[33]);
}

pub proof fn lemma_body_round_trip(b: MessageBody)
    requires
        b.wf(),
    ensures
        MessageBody::spec_parse(b.message_type(), b.spec_bytes()) == b,
{
    match b {
        MessageBody::Sync(m) => lemma_timestamp_round_trip(m.origin_timestamp),
        MessageBody::DelayReq(m) => lemma_timestamp_round_trip(m.origin_timestamp),
        MessageBody::FollowUp(m) => lemma_timestamp_round_trip(m.precise_origin_timestamp),
        MessageBody::DelayResp(m) => {
            let s = b.spec_bytes();
            lemma_timestamp_round_trip(m.receive_timestamp);
            assert(s.subrange(0, 10) =~= m.receive_timestamp.spec_bytes());
            assert(s.subrange(10, 20) =~= m.requesting_port_identity.spec_bytes());
            lemma_port_identity_parse(s.subrange(10, 20));
            lemma_port_identity_bytes_injective(
                PortIdentity::spec_parse(s.subrange(10, 20)),
                m.requesting_port_identity,
            );
        },
        MessageBody::Announce(m) => {
            let s = b.spec_bytes();
            lemma_timestamp_round_trip(m.origin_timestamp);
            let u = m.current_utc_offset;
            let uu = #[verifier::truncate] (u as u16);
            assert(#[verifier::truncate] (uu as i16) == u) by (bit_vector)
                requires
                    uu == #[verifier::truncate] (u as u16),
            ;
            lemma_be16(uu);
            lemma_be16(m.steps_removed);
            lemma_be16(m.grandmaster_clock_quality.offset_scaled_log_variance);
            assert(s.subrange(0, 10) =~= m.origin_timestamp.spec_bytes());
            assert(s.subrange(10, 12) =~= be16(uu));
            let q = s.subrange(14, 18);
            assert(q =~= m.grandmaster_clock_quality.spec_bytes());
            assert(q.subrange(2, 4) =~= be16(m.grandmaster_clock_quality.offset_scaled_log_variance));
            assert(s.subrange(19, 27) =~= m.grandmaster_identity.0@);
            assert(ClockIdentity::spec_parse(s.subrange(19, 27)).0@ =~= m.grandmaster_identity.0@);
            assert(s.subrange(27, 29) =~= be16(m.steps_removed));
            let p = AnnounceMessage::spec_parse(s);
            assert(p.origin_timestamp == m.origin_timestamp);
            assert(p.current_utc_offset == m.current_utc_offset);
            assert(p.grandmaster_priority_1 == m.grandmaster_priority_1);
            assert(q[0] == m.grandmaster_clock_quality.clock_class);
            assert(q[1] == m.grandmaster_clock_quality.clock_accuracy);
            assert(p.grandmaster_clock_quality == m.grandmaster_clock_quality);
            assert(p.grandmaster_priority_2 == m.grandmaster_priority_2);
            assert(p.grandmaster_identity.0 == m.grandmaster_identity.0);
            assert(p.steps_removed == m.steps_removed);
            assert(p.time_source == m.time_source);
        },
    }
}

/// Encoding a decoded body gives its bytes back; for an Announce, provided its
/// reserved byte is zero.
pub proof fn lemma_body_bytes_round_trip(t: MessageType, s: Seq<u8>)
    requires
        t.spec_body_size() == Some(s.len()),
        t == MessageType::Announce ==> s[12] == 0,
    ensures
        MessageBody::spec_parse(t, s).wf(),
        MessageBody::spec_parse(t, s).message_type() == t,
        MessageBody::spec_parse(t, s).spec_bytes() == s,
{
    if t == MessageType::DelayResp {
        lemma_timestamp_bytes_round_trip(s.subrange(0, 10));
        lemma_port_identity_parse(s.subrange(10, 20));
        assert(MessageBody::spec_parse(t, s).spec_bytes() =~= s);
    } else if t == MessageType::Announce {
        let m = AnnounceMessage::spec_parse(s);
        lemma_timestamp_bytes_round_trip(s.subrange(0, 10));
        let uu = read16(s.subrange(10, 12));
        lemma_read16(s.subrange(10, 12));
        assert(#[verifier::truncate] ((#[verifier::truncate] (uu as i16)) as u16) == uu) by (bit_vector);
        let q = s.subrange(14, 18);
        lemma_read16(q.subrange(2, 4));
        assert(m.grandmaster_clock_quality.spec_bytes() =~= q);
        assert(m.grandmaster_identity.0@ =~= s.subrange(19, 27));
        lemma_read16(s.subrange(27, 29));
        assert(m.spec_bytes() =~= s);
    } else {
        lemma_timestamp_bytes_round_trip(s);
    }
}

/// Encoding a decoded message gives back the bytes it was read from, when they
/// are exactly as long as the message and any reserved byte is zero.
pub proof fn lemma_message_bytes_round_trip(s: Seq<u8>)
    requires
        Message::spec_parse(s) is Ok,
        s.len() == Message::spec_parse(s).unwrap().spec_bytes().len(),
        Message::spec_parse(s).unwrap().header.message_type == MessageType::Announce ==> s[HEADER_SIZE + 12] == 0,
    ensures
        Message::spec_parse(s).unwrap().wf(),
        Message::spec_parse(s).unwrap().spec_bytes() == s,
{
    let m = Message::spec_parse(s).unwrap();
    let h = s.subrange(0, HEADER_SIZE as int);
    lemma_header_prefix(s, h);
    lemma_header_bytes_round_trip(h);
    let n = m.header.message_type.spec_body_size().unwrap();
    let b = s.subrange(HEADER_SIZE as int, HEADER_SIZE + n);
    lemma_body_bytes_round_trip(m.header.message_type, b);
    assert(m.spec_bytes() =~= s);
}

/// Whatever decodes is a well-formed message.
pub proof fn lemma_parse_wf(s: Seq<u8>)
    requires
        Message::spec_parse(s) is Ok,
    ensures
        Message::spec_parse(s).unwrap().wf(),
{
    let m = Message::spec_parse(s).unwrap();
    let h = s.subrange(0, HEADER_SIZE as int);
    lemma_header_prefix(s, h);
    lemma_header_bytes_round_trip(h);
    let n = m.header.message_type.spec_body_size().unwrap();
    let b = s.subrange(HEADER_SIZE as int, HEADER_SIZE + n);
    lemma_timestamp_bytes_round_trip(b.subrange(0, 10));
    if n == 10 {
        assert(b.subrange(0, 10) =~= b);
    }
}

} // verus!
