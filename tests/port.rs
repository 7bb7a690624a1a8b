use statime::bmca::{find_best_announce_message, BestAnnounceMessage, RecommendedState};
use statime::common::{ClockIdentity, ClockQuality, PortIdentity, Timestamp};
use statime::datasets::{DefaultDS, DelayMechanism, PortDS};
use statime::messages::{
    AnnounceMessage, DelayReqMessage, DelayRespMessage, FollowUpMessage, Message, MessageBody,
    MessageType, SyncMessage,
};
use statime::port::Port;
use statime::state::{new_header, PortError, PortState, SequenceIdGenerator, SlaveState};
use statime::time::Duration;

fn pid(b: u8, port: u16) -> PortIdentity {
    PortIdentity { clock_identity: ClockIdentity([b; 8]), port_number: port }
}

fn default_ds() -> DefaultDS {
    DefaultDS {
        clock_identity: ClockIdentity([5; 8]),
        number_ports: 2,
        clock_quality: ClockQuality { clock_class: 248, clock_accuracy: 0x22, offset_scaled_log_variance: 0xffff },
        priority_1: 128,
        priority_2: 128,
        domain_number: 0,
        sdo_id: 0,
    }
}

fn port_ds(port: u16) -> PortDS {
    PortDS::new(pid(5, port), 0, 1, 3, 0, DelayMechanism::E2E, 0, 2, 1).unwrap()
}

fn ts(nanos: u64) -> Timestamp {
    Timestamp { seconds: nanos / 1_000_000_000, nanos: (nanos % 1_000_000_000) as u32 }
}

fn announce_from(source: PortIdentity, gm: u8, seq: u16, domain: u8) -> Message {
    let mut header = new_header(MessageType::Announce, seq, source, 0, domain, 1);
    header.flags = 0x0004 | 0x0010;
    Message {
        header,
        body: MessageBody::Announce(AnnounceMessage {
            origin_timestamp: ts(0),
            current_utc_offset: 37,
            grandmaster_priority_1: 128,
            grandmaster_clock_quality: ClockQuality { clock_class: 248, clock_accuracy: 0x22, offset_scaled_log_variance: 0xffff },
            grandmaster_priority_2: 128,
            grandmaster_identity: ClockIdentity([gm; 8]),
            steps_removed: 1,
            time_source: 0x20,
        }),
    }
}

fn best(source: PortIdentity, gm: u8) -> BestAnnounceMessage {
    let m = announce_from(source, gm, 0, 0);
    match m.body {
        MessageBody::Announce(a) => BestAnnounceMessage { header: m.header, message: a, timestamp: 0 },
        _ => unreachable!(),
    }
}

#[test]
fn intervals_from_log() {
    let ds = port_ds(1);
    assert_eq!(ds.announce_interval(), Duration { nanos: 2_000_000_000 });
    assert_eq!(ds.sync_interval(), Duration { nanos: 1_000_000_000 });
    assert_eq!(ds.announce_receipt_interval(), Duration { nanos: 6_000_000_000 });
    assert_eq!(Duration::from_log_interval(-1), Duration { nanos: 500_000_000 });
    assert_eq!(Duration::from_log_interval(-3), Duration { nanos: 125_000_000 });
    assert_eq!(Duration::from_log_interval(4), Duration { nanos: 16_000_000_000 });
}

#[test]
fn port_ds_rejects_peer_delay() {
    let r = PortDS::new(pid(5, 1), 0, 1, 3, 0, DelayMechanism::P2P, 0, 2, 1);
    assert_eq!(r.err(), Some(PortError::UnsupportedDelayMechanism));
    let r = PortDS::new(pid(5, 1), 0, 1, 3, 0, DelayMechanism::CommonP2p, 0, 2, 1);
    assert_eq!(r.err(), Some(PortError::UnsupportedDelayMechanism));
    let ds = port_ds(1);
    assert!(matches!(ds.port_state, PortState::Listening));
    assert_eq!(ds.mean_link_delay, Duration { nanos: 0 });
}

#[test]
fn sequence_ids_wrap() {
    let mut g = SequenceIdGenerator::new();
    assert_eq!(g.generate(), 0);
    assert_eq!(g.generate(), 1);
    g.next = 0xffff;
    assert_eq!(g.generate(), 0xffff);
    assert_eq!(g.generate(), 0);
}

#[test]
fn comparison_orders_datasets() {
    let a = best(pid(1, 1), 1);
    let b = best(pid(1, 1), 2);
    assert!(a.is_better_than(&b));
    assert!(!b.is_better_than(&a));
    assert!(!a.is_better_than(&a));
    let mut c = best(pid(1, 1), 0);
    c.message.grandmaster_priority_1 = 129;
    assert!(a.is_better_than(&c));
    let mut d = best(pid(0, 1), 1);
    d.message.steps_removed = 0;
    assert!(d.is_better_than(&a));
}

#[test]
fn best_does_not_depend_on_order() {
    let a = best(pid(1, 1), 3);
    let b = best(pid(1, 1), 2);
    let c = best(pid(1, 1), 4);
    let one = [Some(a), None, Some(b), Some(c)];
    let two = [Some(c), Some(b), None, Some(a)];
    assert_eq!(find_best_announce_message(&one), Some(b));
    assert_eq!(find_best_announce_message(&two), Some(b));
    assert_eq!(find_best_announce_message(&[None, None]), None);
}

#[test]
fn listening_port_becomes_slave_of_better_master() {
    let dds = default_ds();
    let mut port = Port::new(port_ds(1));
    let mut array = [None, None];
    let announce = announce_from(pid(1, 1), 1, 0, 0);
    let out = port.handle_packet(&announce.serialize_vec(), ts(1_000), &dds);
    assert_eq!(out.error, None);
    assert_eq!(out.restart_announce_receipt_timer, Some(Duration { nanos: 6_000_000_000 }));
    assert!(port.send_sync(ts(1_500), &dds).is_none());
    let o = port.run_bmca(ts(2_000_000_000), &mut array, &dds).unwrap();
    assert!(matches!(o.recommended, Some(RecommendedState::S1(_))));
    match &port.port_ds.port_state {
        PortState::Slave(s) => assert_eq!(s.remote_master(), pid(1, 1)),
        _ => panic!("not a slave"),
    }
    let tp = o.time_properties.unwrap();
    assert_eq!(tp.current_utc_offset, 37);
    assert!(tp.current_utc_offset_valid);
    assert!(tp.time_traceable);
    assert!(!tp.frequency_traceable);
    assert_eq!(tp.time_source, 0x20);
    assert!(array[0].is_some());
    assert!(port.send_sync(ts(3_000_000_000), &dds).is_none());
    assert!(port.send_announce(ts(3_000_000_000), &dds).is_none());
}

#[test]
fn silent_port_becomes_master() {
    let dds = default_ds();
    let mut port = Port::new(port_ds(1));
    let d = port.announce_receipt_timeout();
    assert_eq!(d, Duration { nanos: 6_000_000_000 });
    assert!(matches!(port.port_ds.port_state, PortState::Master(_)));
    let (sync, id) = port.send_sync(ts(10), &dds).unwrap();
    let sync = Message::deserialize(&sync).unwrap();
    assert_eq!(sync.header.message_type, MessageType::Sync);
    assert_eq!(sync.header.sequence_id, id);
    assert_eq!(sync.body, MessageBody::Sync(SyncMessage { origin_timestamp: ts(10) }));
    let fu = Message::deserialize(&port.follow_up(id, ts(12), &dds)).unwrap();
    assert_eq!(fu.header.sequence_id, id);
    assert_eq!(fu.body, MessageBody::FollowUp(FollowUpMessage { precise_origin_timestamp: ts(12) }));
    let (_, id2) = port.send_sync(ts(20), &dds).unwrap();
    assert_eq!(id2, id.wrapping_add(1));
    let ann = Message::deserialize(&port.send_announce(ts(30), &dds).unwrap()).unwrap();
    match ann.body {
        MessageBody::Announce(a) => {
            assert_eq!(a.steps_removed, 0);
            assert_eq!(a.current_utc_offset, 0);
            assert_eq!(a.grandmaster_identity, dds.clock_identity);
            assert_eq!(a.grandmaster_priority_1, dds.priority_1);
            assert_eq!(a.grandmaster_clock_quality, dds.clock_quality);
        }
        _ => panic!("not an announce"),
    }
    let again = port.announce_receipt_timeout();
    assert_eq!(again, d);
    assert!(matches!(port.port_ds.port_state, PortState::Master(_)));
}

fn slave_port(master: PortIdentity) -> Port {
    let mut port = Port::new(port_ds(1));
    port.port_ds.set_forced_port_state(PortState::Slave(SlaveState::new(master)));
    port
}

fn msg(t: MessageType, seq: u16, source: PortIdentity, body: MessageBody) -> Vec<u8> {
    Message { header: new_header(t, seq, source, 0, 0, 0), body }.serialize_vec()
}

#[test]
fn slave_measures_offset_and_delay() {
    let dds = default_ds();
    let master = pid(1, 1);
    let mut port = slave_port(master);
    let out = port.handle_packet(&msg(MessageType::Sync, 7, master, MessageBody::Sync(SyncMessage { origin_timestamp: ts(0) })), ts(1000), &dds);
    assert!(out.reply.is_none() && out.measurement.is_none());
    let out = port.handle_packet(&msg(MessageType::FollowUp, 7, master, MessageBody::FollowUp(FollowUpMessage { precise_origin_timestamp: ts(0) })), ts(1500), &dds);
    let req = Message::deserialize(&out.reply.unwrap()).unwrap();
    assert_eq!(req.header.message_type, MessageType::DelayReq);
    assert!(out.measurement.is_none());
    let resp = msg(MessageType::DelayResp, req.header.sequence_id, master, MessageBody::DelayResp(DelayRespMessage { receive_timestamp: ts(1700), requesting_port_identity: pid(5, 1) }));
    let out = port.handle_packet(&resp, ts(1800), &dds);
    let m = out.measurement.unwrap();
    assert_eq!(m.master_offset, Duration { nanos: 400 });
    assert_eq!(m.delay, Duration { nanos: 600 });
    assert_eq!(m.event_time, 1000);
    let out = port.handle_packet(&resp, ts(1900), &dds);
    assert!(out.measurement.is_none());
}

#[test]
fn master_change_drops_pending_exchange() {
    let dds = default_ds();
    let old_master = pid(1, 1);
    let new_master = pid(2, 1);
    let mut port = slave_port(old_master);
    port.handle_packet(&msg(MessageType::Sync, 7, old_master, MessageBody::Sync(SyncMessage { origin_timestamp: ts(0) })), ts(1000), &dds);
    let b = best(new_master, 1);
    port.port_ds.set_recommended_port_state(&RecommendedState::S1(b)).unwrap();
    match &port.port_ds.port_state {
        PortState::Slave(s) => {
            assert_eq!(s.remote_master(), new_master);
            assert!(s.sync.is_none());
        }
        _ => panic!("not a slave"),
    }
    let out = port.handle_packet(&msg(MessageType::FollowUp, 7, old_master, MessageBody::FollowUp(FollowUpMessage { precise_origin_timestamp: ts(0) })), ts(1500), &dds);
    assert!(out.reply.is_none() && out.measurement.is_none());
    let out = port.handle_packet(&msg(MessageType::FollowUp, 7, new_master, MessageBody::FollowUp(FollowUpMessage { precise_origin_timestamp: ts(0) })), ts(1500), &dds);
    assert!(out.reply.is_none() && out.measurement.is_none());
}

#[test]
fn two_ports_agree_on_best() {
    let dds = default_ds();
    let mut p1 = Port::new(port_ds(1));
    let mut p2 = Port::new(port_ds(2));
    let mut array = [None, None];
    p1.handle_packet(&announce_from(pid(1, 1), 1, 0, 0).serialize_vec(), ts(0), &dds);
    p2.handle_packet(&announce_from(pid(2, 1), 2, 0, 0).serialize_vec(), ts(0), &dds);
    let o2 = p2.run_bmca(ts(1), &mut array, &dds).unwrap();
    let o1 = p1.run_bmca(ts(1), &mut array, &dds).unwrap();
    assert_eq!(o1.ebest.unwrap().message.grandmaster_identity, ClockIdentity([1; 8]));
    assert!(matches!(o1.recommended, Some(RecommendedState::S1(_))));
    assert!(matches!(o2.recommended, Some(RecommendedState::S1(_))));
    let o2 = p2.run_bmca(ts(2), &mut array, &dds).unwrap();
    assert_eq!(o2.ebest.unwrap().message.grandmaster_identity, ClockIdentity([1; 8]));
    assert!(matches!(o2.recommended, Some(RecommendedState::M3(_))));
    assert!(matches!(p1.port_ds.port_state, PortState::Slave(_)));
    assert!(matches!(p2.port_ds.port_state, PortState::Listening));
}

#[test]
fn foreign_domain_announce_is_ignored() {
    let dds = default_ds();
    let mut port = Port::new(port_ds(1));
    let out = port.handle_packet(&announce_from(pid(1, 1), 1, 0, 3).serialize_vec(), ts(0), &dds);
    assert_eq!(out.error, None);
    assert_eq!(out.restart_announce_receipt_timer, None);
    assert_eq!(port.bmca.received.len(), 0);
    let out = port.handle_packet(&[1, 2, 3], ts(0), &dds);
    assert!(matches!(out.error, Some(PortError::Parse(_))));
}

#[test]
fn master_answers_delay_req_only() {
    let dds = default_ds();
    let mut port = Port::new(port_ds(1));
    port.announce_receipt_timeout();
    let req = msg(MessageType::DelayReq, 3, pid(9, 1), MessageBody::DelayReq(DelayReqMessage { origin_timestamp: ts(0) }));
    let out = port.handle_packet(&req, ts(1700), &dds);
    let resp = Message::deserialize(&out.reply.unwrap()).unwrap();
    assert_eq!(resp.header.sequence_id, 3);
    assert_eq!(resp.body, MessageBody::DelayResp(DelayRespMessage { receive_timestamp: ts(1700), requesting_port_identity: pid(9, 1) }));
    let other = msg(MessageType::DelayResp, 3, pid(9, 1), MessageBody::DelayResp(DelayRespMessage { receive_timestamp: ts(1), requesting_port_identity: pid(5, 1) }));
    let out = port.handle_packet(&other, ts(1800), &dds);
    assert!(out.reply.is_none());
}

#[test]
fn forced_states_are_not_operated() {
    let dds = default_ds();
    let mut port = Port::new(port_ds(1));
    port.port_ds.set_forced_port_state(PortState::Faulty);
    let req = msg(MessageType::DelayReq, 3, pid(9, 1), MessageBody::DelayReq(DelayReqMessage { origin_timestamp: ts(0) }));
    let out = port.handle_packet(&req, ts(1), &dds);
    assert_eq!(out.error, Some(PortError::UnsupportedState));
    assert_eq!(port.port_ds.set_recommended_port_state(&RecommendedState::M2), Err(PortError::UnsupportedState));
    assert!(matches!(port.port_ds.port_state, PortState::Faulty));
}

#[test]
fn stale_announces_are_evicted() {
    let dds = default_ds();
    let mut port = Port::new(port_ds(1));
    let mut array = [None, None];
    port.handle_packet(&announce_from(pid(1, 1), 1, 0, 0).serialize_vec(), ts(0), &dds);
    let o = port.run_bmca(ts(7_000_000_000), &mut array, &dds).unwrap();
    assert!(o.erbest.is_none());
    assert!(o.ebest.is_none());
    assert_eq!(o.recommended, None);
    assert!(matches!(port.port_ds.port_state, PortState::Listening));
    assert_eq!(port.bmca.received.len(), 0);
}

#[test]
fn announce_within_window_is_kept() {
    let dds = default_ds();
    let mut port = Port::new(port_ds(1));
    let mut array = [None, None];
    port.handle_packet(&announce_from(pid(1, 1), 1, 0, 0).serialize_vec(), ts(0), &dds);
    port.handle_packet(&announce_from(pid(2, 1), 2, 0, 0).serialize_vec(), ts(0), &dds);
    let o = port.run_bmca(ts(6_000_000_000), &mut array, &dds).unwrap();
    assert_eq!(o.erbest.unwrap().message.grandmaster_identity, ClockIdentity([1; 8]));
    assert_eq!(port.bmca.received.len(), 1);
}

#[test]
fn emitted_messages_carry_port_and_domain() {
    let mut dds = default_ds();
    dds.domain_number = 4;
    dds.sdo_id = 0x123;
    let mut port = Port::new(port_ds(2));
    port.announce_receipt_timeout();
    let (sync, id) = port.send_sync(ts(10), &dds).unwrap();
    let sync = Message::deserialize(&sync).unwrap();
    assert_eq!(sync.header.source_port_identity, pid(5, 2));
    assert_eq!(sync.header.domain_number, 4);
    assert_eq!(sync.header.sdo_id, 0x123);
    let fu = Message::deserialize(&port.follow_up(id, ts(11), &dds)).unwrap();
    assert_eq!(fu.header.source_port_identity, pid(5, 2));
    assert_eq!(fu.header.domain_number, 4);
    let bytes = port.send_announce(ts(12), &dds).unwrap();
    assert_eq!(bytes[34 + 12], 0);
    let ann = Message::deserialize(&bytes).unwrap();
    assert_eq!(ann.header.source_port_identity, pid(5, 2));
    assert_eq!(ann.header.sdo_id, 0x123);
    assert_eq!(ann.serialize_vec(), bytes);
}

#[test]
fn state_changes_keep_configuration() {
    let mut ds = port_ds(1);
    ds.master_only = true;
    ds.port_enable = false;
    ds.set_forced_port_state(PortState::Faulty);
    assert!(ds.master_only);
    assert!(!ds.port_enable);
    assert_eq!(ds.version_number, 2);
    assert_eq!(ds.minor_version_number, 1);
    assert_eq!(ds.delay_mechanism, DelayMechanism::E2E);
    let mut ds = port_ds(1);
    ds.set_recommended_port_state(&RecommendedState::M2).unwrap();
    assert!(matches!(ds.port_state, PortState::Master(_)));
    assert_eq!(ds.version_number, 2);
    assert!(ds.port_enable);
}

#[test]
fn measurement_clears_the_slave() {
    let dds = default_ds();
    let master = pid(1, 1);
    let mut port = slave_port(master);
    port.handle_packet(&msg(MessageType::Sync, 7, master, MessageBody::Sync(SyncMessage { origin_timestamp: ts(0) })), ts(1000), &dds);
    let out = port.handle_packet(&msg(MessageType::FollowUp, 7, master, MessageBody::FollowUp(FollowUpMessage { precise_origin_timestamp: ts(0) })), ts(1500), &dds);
    let req = Message::deserialize(&out.reply.unwrap()).unwrap();
    assert_eq!(req.header.source_port_identity, pid(5, 1));
    let resp = msg(MessageType::DelayResp, req.header.sequence_id, master, MessageBody::DelayResp(DelayRespMessage { receive_timestamp: ts(1700), requesting_port_identity: pid(5, 1) }));
    assert!(port.handle_packet(&resp, ts(1800), &dds).measurement.is_some());
    match &port.port_ds.port_state {
        PortState::Slave(s) => {
            assert!(s.sync.is_none() && s.follow_up.is_none());
            assert!(s.delay_req.is_none() && s.delay_resp.is_none());
            assert_eq!(s.remote_master(), master);
        }
        _ => panic!("not a slave"),
    }
}
