use statime::codec::WireFormatError;
use statime::common::{ClockIdentity, ClockQuality, PortIdentity, Timestamp};
use statime::messages::{AnnounceMessage, Message, MessageBody, MessageType, SyncMessage};
use statime::state::new_header;

fn pid(b: u8, port: u16) -> PortIdentity {
    PortIdentity { clock_identity: ClockIdentity([b; 8]), port_number: port }
}

fn announce_message() -> Message {
    Message {
        header: new_header(MessageType::Announce, 9, pid(3, 1), 0, 0, 1),
        body: MessageBody::Announce(AnnounceMessage {
            origin_timestamp: Timestamp { seconds: 1169232218, nanos: 174389936 },
            current_utc_offset: -37,
            grandmaster_priority_1: 128,
            grandmaster_clock_quality: ClockQuality {
                clock_class: 248,
                clock_accuracy: 0x21,
                offset_scaled_log_variance: 0x4e5d,
            },
            grandmaster_priority_2: 127,
            grandmaster_identity: ClockIdentity([1, 2, 3, 4, 5, 6, 7, 8]),
            steps_removed: 2,
            time_source: 0xa0,
        }),
    }
}

#[test]
fn timestamp_serialize_short_buffer() {
    let t = Timestamp { seconds: 2, nanos: 1 };
    let mut buffer = [7u8; 9];
    assert_eq!(t.serialize(&mut buffer), Err(WireFormatError::BufferTooShort));
    assert_eq!(buffer, [7u8; 9]);
    assert_eq!(Timestamp::deserialize(&buffer), Err(WireFormatError::BufferTooShort));
}

#[test]
fn timestamp_serialize_keeps_tail() {
    let t = Timestamp { seconds: 2, nanos: 1 };
    let mut buffer = [7u8; 12];
    t.serialize(&mut buffer).unwrap();
    assert_eq!(buffer, [0, 0, 0, 0, 0, 2, 0, 0, 0, 1, 7, 7]);
    assert_eq!(t.wire_size(), 10);
}

#[test]
fn announce_round_trip() {
    let m = announce_message();
    let bytes = m.serialize_vec();
    assert_eq!(bytes.len(), 64);
    assert_eq!(bytes.len(), m.wire_size());
    assert_eq!(&bytes[34..44], &[0x00, 0x00, 0x45, 0xb1, 0x11, 0x5a, 0x0a, 0x64, 0xfa, 0xb0]);
    assert_eq!(bytes[0], 0x0b);
    assert_eq!(bytes[1], 0x12);
    assert_eq!(&bytes[2..4], &[0, 64]);
    assert_eq!(Message::deserialize(&bytes), Ok(m));
}

#[test]
fn announce_reserved_byte_ignored() {
    let m = announce_message();
    let mut bytes = m.serialize_vec();
    assert_eq!(bytes[34 + 12], 0);
    bytes[34 + 12] = 0x5a;
    let parsed = Message::deserialize(&bytes).unwrap();
    assert_eq!(parsed, m);
    let again = parsed.serialize_vec();
    assert_eq!(again[34 + 12], 0);
    assert_eq!(again, m.serialize_vec());
}

#[test]
fn message_serialize_short_buffer() {
    let m = announce_message();
    let mut buffer = [1u8; 63];
    assert_eq!(m.serialize(&mut buffer), Err(WireFormatError::BufferTooShort));
    assert_eq!(buffer, [1u8; 63]);
    let mut big = [1u8; 70];
    m.serialize(&mut big).unwrap();
    assert_eq!(&big[..64], &m.serialize_vec()[..]);
    assert_eq!(&big[64..], &[1u8; 6]);
}

#[test]
fn message_parse_errors() {
    let sync = Message {
        header: new_header(MessageType::Sync, 1, pid(2, 1), 0, 0, 0),
        body: MessageBody::Sync(SyncMessage { origin_timestamp: Timestamp { seconds: 5, nanos: 6 } }),
    };
    let bytes = sync.serialize_vec();
    assert_eq!(Message::deserialize(&bytes[..20]), Err(WireFormatError::BufferTooShort));
    assert_eq!(Message::deserialize(&bytes[..40]), Err(WireFormatError::BufferTooShort));
    let mut bad = bytes.clone();
    bad[0] = 0x04;
    assert_eq!(Message::deserialize(&bad), Err(WireFormatError::UnknownMessage));
    bad[0] = 0x0d;
    assert_eq!(Message::deserialize(&bad), Err(WireFormatError::UnknownMessage));
    assert_eq!(Message::deserialize(&bytes), Ok(sync));
}

#[test]
fn header_fields_round_trip() {
    let mut m = announce_message();
    m.header.sdo_id = 0xabc;
    m.header.domain_number = 7;
    m.header.correction_field = -65536 * 3;
    m.header.log_message_interval = -3;
    m.header.flags = 0x0208;
    let bytes = m.serialize_vec();
    assert_eq!(bytes[0], 0xab);
    assert_eq!(bytes[4], 7);
    assert_eq!(bytes[5], 0xbc);
    assert_eq!(bytes[33], 0xfd);
    assert_eq!(Message::deserialize(&bytes), Ok(m));
}
