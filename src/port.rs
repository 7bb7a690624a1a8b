//! One port of a PTP instance: what it does on each timer and each packet.
//! The caller owns the timers, the network and the clock; it hands each event
//! here with the current time and carries out what comes back.
use vstd::prelude::*;
use crate::bmca::{
    BestAnnounceMessage, Bmca, RecommendedState, TimePropertiesDS, calculate_recommended_state,
    find_best_announce_message, is_best_of, spec_recommended_state,
};
use crate::common::{PortIdentity, Timestamp};
use crate::datasets::{DefaultDS, PortDS, next_state};
use crate::messages::{
    AnnounceMessage, FollowUpMessage, Message, MessageBody, MessageType, SyncMessage,
    lemma_parse_wf,
};
use crate::codec::WireFormatError;
use crate::state::{
    answer_delay_req_spec, MasterState, Measurement, PortError, PortState, new_header, spec_new_header, timestamp_nanos,
};
use crate::time::Duration;

verus! {

/// A port: its dataset and the announces it has received.
pub struct Port {
    pub port_ds: PortDS,
    pub bmca: Bmca,
}

/// What a packet led to: the reply to send, the measurement for the filter,
/// and whether the announce-receipt timer restarts, and for how long.
#[derive(Debug)]
pub struct PacketOutcome {
    pub reply: Option<Vec<u8>>,
    pub measurement: Option<Measurement>,
    pub restart_announce_receipt_timer: Option<Duration>,
    pub error: Option<PortError>,
}

/// What a run of BMCA decided.
#[derive(Clone, Copy, Debug)]
pub struct BmcaOutcome {
    /// The best announce of this port.
    pub erbest: Option<BestAnnounceMessage>,
    /// The best announce of the instance.
    pub ebest: Option<BestAnnounceMessage>,
    pub recommended: Option<RecommendedState>,
    /// The time properties to take over, when the port became or stays a slave.
    pub time_properties: Option<TimePropertiesDS>,
}

impl Port {
    /// Whether `self` differs from `before` at most in the port's state and
    /// the announces received.
    pub open spec fn keeps_configuration(self, before: Port) -> bool {
        &&& self.port_ds == (PortDS { port_state: self.port_ds.port_state, ..before.port_ds })
        &&& self.bmca.window == before.bmca.window
        &&& self.bmca.own_port_identity == before.bmca.own_port_identity
    }

    /// The Sync a master sends with `sequence_id` at `now`.
    pub open spec fn sync_message(self, sequence_id: u16, now: Timestamp, default_ds: DefaultDS) -> Message {
        Message {
            header: spec_new_header(
                MessageType::Sync,
                sequence_id,
                self.port_ds.port_identity,
                default_ds.sdo_id,
                default_ds.domain_number,
                self.port_ds.log_sync_interval,
            ),
            body: MessageBody::Sync(SyncMessage { origin_timestamp: now }),
        }
    }

    /// The FollowUp of the Sync with `sequence_id`, which left at `precise_origin`.
    pub open spec fn follow_up_message(
        self,
        sequence_id: u16,
        precise_origin: Timestamp,
        default_ds: DefaultDS,
    ) -> Message {
        Message {
            header: spec_new_header(
                MessageType::FollowUp,
                sequence_id,
                self.port_ds.port_identity,
                default_ds.sdo_id,
                default_ds.domain_number,
                self.port_ds.log_sync_interval,
            ),
            body: MessageBody::FollowUp(FollowUpMessage { precise_origin_timestamp: precise_origin }),
        }
    }

    /// The Announce a master sends with `sequence_id` at `now`.
    pub open spec fn announce_message(self, sequence_id: u16, now: Timestamp, default_ds: DefaultDS) -> Message {
        Message {
            header: spec_new_header(
                MessageType::Announce,
                sequence_id,
                self.port_ds.port_identity,
                default_ds.sdo_id,
                default_ds.domain_number,
                self.port_ds.log_announce_interval,
            ),
            body: MessageBody::Announce(
                AnnounceMessage {
                    origin_timestamp: now,
                    current_utc_offset: 0,
                    grandmaster_priority_1: default_ds.priority_1,
                    grandmaster_clock_quality: default_ds.clock_quality,
                    grandmaster_priority_2: default_ds.priority_2,
                    grandmaster_identity: default_ds.clock_identity,
                    steps_removed: 0,
                    time_source: 0xa0,
                },
            ),
        }
    }

    pub open spec fn wf(self) -> bool {
        &&& self.port_ds.wf()
        &&& self.bmca.window == self.port_ds.announce_receipt_timeout * crate::time::log_interval_nanos(
            self.port_ds.log_announce_interval as int,
        )
        &&& self.bmca.window >= 0
        &&& self.bmca.own_port_identity == self.port_ds.port_identity
        &&& forall|j: int|
            0 <= j < self.bmca.received@.len() ==> #[trigger] self.bmca.received@[j].timestamp >= 0
    }

    pub fn new(port_ds: PortDS) -> (r: Port)
        requires
            port_ds.wf(),
        ensures
            r.wf(),
            r.port_ds == port_ds,
            r.bmca.received@.len() == 0,
    {
        let window = port_ds.announce_receipt_interval();
        let bmca = Bmca::new(window, port_ds.port_identity);
        Port { port_ds, bmca }
    }

    pub fn identity(&self) -> (r: PortIdentity)
        ensures
            r == self.port_ds.port_identity,
    {
        self.port_ds.port_identity
    }

    /// The announce-receipt timeout fired: the port becomes master unless it is one.
    pub fn announce_receipt_timeout(&mut self) -> (r: Duration)
        requires
            old(self).wf(),
        ensures
            final(self).wf(),
            old(self).port_ds.port_state is Master ==> final(self).port_ds.port_state == old(
                self,
            ).port_ds.port_state,
            !(old(self).port_ds.port_state is Master) ==> final(self).port_ds.port_state
                == PortState::Master(MasterState::spec_new()),
            final(self).bmca == old(self).bmca,
            final(self).keeps_configuration(*old(self)),
            r.nanos == old(self).bmca.window,
    {
        match self.port_ds.port_state {
            PortState::Master(_) => {},
            _ => self.port_ds.set_forced_port_state(PortState::Master(MasterState::new())),
        }
        self.port_ds.announce_receipt_interval()
    }

    /// The sync timer fired: a master sends a Sync stamped `now` and returns it
    /// with its sequence id, which the FollowUp reuses. Other states send nothing.
    pub fn send_sync(&mut self, now: Timestamp, default_ds: &DefaultDS) -> (r: Option<(Vec<u8>, u16)>)
        requires
            old(self).wf(),
            now.wf(),
            default_ds.wf(),
        ensures
            final(self).wf(),
            r is Some <==> old(self).port_ds.port_state is Master,
            r matches Some(p) ==> {
                &&& old(self).port_ds.port_state matches PortState::Master(m)
                &&& p.1 == m.sync_seq_ids.next
                &&& final(self).port_ds.port_state matches PortState::Master(n)
                &&& n.sync_seq_ids.next as int == (m.sync_seq_ids.next as int + 1) % 0x10000
                &&& n.announce_seq_ids == m.announce_seq_ids
                &&& p.0@ == old(self).sync_message(p.1, now, *default_ds).spec_bytes()
                &&& Message::spec_parse(p.0@) == Ok::<Message, WireFormatError>(
                    old(self).sync_message(p.1, now, *default_ds),
                )
            },
            r is None ==> *final(self) == *old(self),
            final(self).bmca == old(self).bmca,
            final(self).keeps_configuration(*old(self)),
    {
        let own = self.port_ds.port_identity;
        let log = self.port_ds.log_sync_interval;
        match &mut self.port_ds.port_state {
            PortState::Master(master) => {
                let id = master.sync_seq_ids.generate();
                let header = new_header(
                    MessageType::Sync,
                    id,
                    own,
                    default_ds.sdo_id,
                    default_ds.domain_number,
                    log,
                );
                let msg = Message {
                    header,
                    body: MessageBody::Sync(SyncMessage { origin_timestamp: now }),
                };
                let bytes = msg.serialize_vec();
                proof {
                    crate::messages::lemma_message_round_trip(msg);
                }
                Some((bytes, id))
            },
            _ => None,
        }
    }

    /// The FollowUp of the Sync with `sequence_id`, carrying the precise time
    /// `precise_origin` at which it left.
    pub fn follow_up(&self, sequence_id: u16, precise_origin: Timestamp, default_ds: &DefaultDS) -> (r:
        Vec<u8>)
        requires
            precise_origin.wf(),
            default_ds.wf(),
        ensures
            r@ == self.follow_up_message(sequence_id, precise_origin, *default_ds).spec_bytes(),
            Message::spec_parse(r@) == Ok::<Message, WireFormatError>(
                self.follow_up_message(sequence_id, precise_origin, *default_ds),
            ),
    {
        let header = new_header(
            MessageType::FollowUp,
            sequence_id,
            self.port_ds.port_identity,
            default_ds.sdo_id,
            default_ds.domain_number,
            self.port_ds.log_sync_interval,
        );
        let msg = Message {
            header,
            body: MessageBody::FollowUp(FollowUpMessage { precise_origin_timestamp: precise_origin }),
        };
        proof {
            crate::messages::lemma_message_round_trip(msg);
        }
        msg.serialize_vec()
    }

    /// The announce timer fired: a master announces the local clock, with
    /// steps removed and UTC offset zero. Other states send nothing.
    pub fn send_announce(&mut self, now: Timestamp, default_ds: &DefaultDS) -> (r: Option<Vec<u8>>)
        requires
            old(self).wf(),
            now.wf(),
            default_ds.wf(),
        ensures
            final(self).wf(),
            r is Some <==> old(self).port_ds.port_state is Master,
            r matches Some(bytes) ==> {
                &&& old(self).port_ds.port_state matches PortState::Master(m)
                &&& final(self).port_ds.port_state matches PortState::Master(n)
                &&& n.announce_seq_ids.next as int == (m.announce_seq_ids.next as int + 1) % 0x10000
                &&& n.sync_seq_ids == m.sync_seq_ids
                &&& bytes@ == old(self).announce_message(m.announce_seq_ids.next, now, *default_ds).spec_bytes()
                &&& Message::spec_parse(bytes@) == Ok::<Message, WireFormatError>(
                    old(self).announce_message(m.announce_seq_ids.next, now, *default_ds),
                )
            },
            r is None ==> *final(self) == *old(self),
            final(self).bmca == old(self).bmca,
            final(self).keeps_configuration(*old(self)),
    {
        let own = self.port_ds.port_identity;
        let log = self.port_ds.log_announce_interval;
        match &mut self.port_ds.port_state {
            PortState::Master(master) => {
                let id = master.announce_seq_ids.generate();
                let header = new_header(
                    MessageType::Announce,
                    id,
                    own,
                    default_ds.sdo_id,
                    default_ds.domain_number,
                    log,
                );
                let msg = Message {
                    header,
                    body: MessageBody::Announce(
                        AnnounceMessage {
                            origin_timestamp: now,
                            current_utc_offset: 0,
                            grandmaster_priority_1: default_ds.priority_1,
                            grandmaster_clock_quality: default_ds.clock_quality,
                            grandmaster_priority_2: default_ds.priority_2,
                            grandmaster_identity: default_ds.clock_identity,
                            steps_removed: 0,
                            time_source: 0xa0,
                        },
                    ),
                };
                proof {
                    crate::messages::lemma_message_round_trip(msg);
                }
                Some(msg.serialize_vec())
            },
            _ => None,
        }
    }
}

/// Whether no place of `s` holds an announce.
pub open spec fn all_none(s: Seq<Option<BestAnnounceMessage>>) -> bool {
    forall|j: int| 0 <= j < s.len() ==> #[trigger] s[j] is None
}

impl Port {
    /// Whether a message belongs to the instance's domain.
    pub open spec fn in_domain(m: Message, default_ds: DefaultDS) -> bool {
        m.header.sdo_id == default_ds.sdo_id && m.header.domain_number == default_ds.domain_number
    }

    /// A packet arrived at `now`. It is decoded and, when it belongs to this
    /// instance's domain, an Announce is kept for BMCA (and the announce-receipt
    /// timer restarts); any other message goes to the port's state, whose reply
    /// and measurement are returned.
    pub fn handle_packet(&mut self, packet: &[u8], now: Timestamp, default_ds: &DefaultDS) -> (r:
        PacketOutcome)
        requires
            old(self).wf(),
            now.wf(),
        ensures
            final(self).wf(),
            final(self).keeps_configuration(*old(self)),
            ({
                let p = Message::spec_parse(packet@);
                let m = p.unwrap();
                let own = old(self).port_ds.port_identity;
                let state = old(self).port_ds.port_state;
                let handled = p is Ok && Port::in_domain(m, *default_ds) && !(m.body is Announce);
                let nothing = r.reply is None && r.measurement is None
                    && r.restart_announce_receipt_timer is None;
                &&& p is Err ==> *final(self) == *old(self) && nothing && r.error == Some(
                    PortError::Parse(p->Err_0),
                )
                &&& p is Ok && !Port::in_domain(m, *default_ds) ==> *final(self) == *old(self)
                    && nothing && r.error is None
                &&& p is Ok && Port::in_domain(m, *default_ds) && m.body is Announce ==> r.error
                    is None && final(self).bmca.received@ == old(self).bmca.received@.push(
                    BestAnnounceMessage {
                        header: m.header,
                        message: m.body->Announce_0,
                        timestamp: now.total_nanos() as i128,
                    },
                ) && final(self).port_ds == old(self).port_ds && r.reply is None
                    && r.measurement is None && r.restart_announce_receipt_timer == Some(
                    Duration { nanos: old(self).bmca.window },
                )
                &&& handled && !state.is_operated() ==> *final(self) == *old(self) && nothing
                    && r.error == Some(PortError::UnsupportedState)
                &&& handled && state is Listening ==> *final(self) == *old(self) && nothing
                    && r.error is None
                &&& handled && state is Master ==> *final(self) == *old(self) && r.error is None
                    && r.measurement is None && r.restart_announce_receipt_timer is None && (
                r.reply is Some <==> answer_delay_req_spec(m, now, own) is Some) && (r.reply is Some
                    ==> r.reply->Some_0@ == answer_delay_req_spec(m, now, own)->Some_0.spec_bytes())
                &&& handled && state is Slave ==> {
                    let s = state->Slave_0;
                    let s2 = s.after_receive(m, now, own);
                    &&& r.error is None
                    &&& r.restart_announce_receipt_timer is None
                    &&& r.measurement == s2.spec_measurement()
                    &&& final(self).port_ds.port_state == if s2.spec_measurement() is Some {
                        PortState::Slave(s2.cleared())
                    } else {
                        PortState::Slave(s2)
                    }
                    &&& final(self).bmca == old(self).bmca
                    &&& (r.reply is Some <==> s.reply_to(m, now, own) is Some)
                    &&& r.reply is Some ==> r.reply->Some_0@ == s.reply_to(m, now, own)->Some_0.spec_bytes()
                }
            }),
            r.measurement is Some ==> old(self).port_ds.port_state is Slave,
            r.reply is Some ==> Message::spec_parse(r.reply->Some_0@) is Ok,
            r.reply is Some && old(self).port_ds.port_state is Master ==> Message::spec_parse(
                r.reply->Some_0@,
            )->Ok_0.header.message_type == MessageType::DelayResp,
            r.reply is Some && old(self).port_ds.port_state is Slave ==> Message::spec_parse(
                r.reply->Some_0@,
            )->Ok_0.header.message_type == MessageType::DelayReq,
    {
        let message = match Message::deserialize(packet) {
            Ok(m) => m,
            Err(e) => {
                return PacketOutcome {
                    reply: None,
                    measurement: None,
                    restart_announce_receipt_timer: None,
                    error: Some(PortError::Parse(e)),
                };
            },
        };
        proof {
            lemma_parse_wf(packet@);
        }
        if message.header.sdo_id != default_ds.sdo_id || message.header.domain_number
            != default_ds.domain_number {
            return PacketOutcome {
                reply: None,
                measurement: None,
                restart_announce_receipt_timer: None,
                error: None,
            };
        }
        let t = timestamp_nanos(now);
        match &message.body {
            MessageBody::Announce(announce) => {
                self.bmca.register_announce_message(&message.header, announce, t);
                let interval = self.port_ds.announce_receipt_interval();
                PacketOutcome {
                    reply: None,
                    measurement: None,
                    restart_announce_receipt_timer: Some(interval),
                    error: None,
                }
            },
            _ => {
                let own = self.port_ds.port_identity;
                let reply = match self.port_ds.port_state.handle_message(&message, now, own) {
                    Ok(reply) => reply,
                    Err(e) => {
                        return PacketOutcome {
                            reply: None,
                            measurement: None,
                            restart_announce_receipt_timer: None,
                            error: Some(e),
                        };
                    },
                };
                let reply_bytes = match reply {
                    Some(m) => {
                        proof {
                            crate::messages::lemma_message_round_trip(m);
                        }
                        Some(m.serialize_vec())
                    },
                    None => None,
                };
                let measurement = match &mut self.port_ds.port_state {
                    PortState::Slave(slave) => slave.extract_measurement(),
                    _ => None,
                };
                PacketOutcome {
                    reply: reply_bytes,
                    measurement,
                    restart_announce_receipt_timer: None,
                    error: None,
                }
            },
        }
    }

    /// The BMCA timer fired at `now`: the port's best announce is taken, stored
    /// at the port's place (`port_number - 1`) in the instance's `announce_messages`
    /// (when that place exists), the instance's best is found there, and the
    /// recommended state is applied.
    pub fn run_bmca(
        &mut self,
        now: Timestamp,
        announce_messages: &mut [Option<BestAnnounceMessage>],
        default_ds: &DefaultDS,
    ) -> (r: Result<BmcaOutcome, PortError>)
        requires
            old(self).wf(),
            now.wf(),
        ensures
            final(self).wf(),
            final(self).keeps_configuration(*old(self)),
            ({
                let o = match r {
                    Ok(o) => o,
                    Err(_) => arbitrary(),
                };
                let index = old(self).port_ds.port_identity.port_number - 1;
                let survivors = old(self).bmca.survivors(now.total_nanos() as i128);
                r is Ok ==> {
                    &&& o.erbest is None <==> survivors.len() == 0
                    &&& o.erbest matches Some(b) ==> survivors.contains(b) && forall|j: int|
                        0 <= j < survivors.len() ==> b.key() <= #[trigger] survivors[j].key()
                    &&& index < old(announce_messages)@.len() ==> final(announce_messages)@ == old(
                        announce_messages,
                    )@.update(index, o.erbest)
                    &&& index < old(announce_messages)@.len() ==> (o.ebest is None <==> all_none(final(announce_messages)@)) && (o.ebest matches Some(b) ==> is_best_of(
                        b,
                        final(announce_messages)@,
                    ))
                    &&& index >= old(announce_messages)@.len() ==> final(announce_messages)@
                        == old(announce_messages)@ && o.ebest == o.erbest
                    &&& o.recommended == spec_recommended_state(
                        *default_ds,
                        o.ebest,
                        o.erbest,
                        old(self).port_ds.port_state,
                    )
                    &&& o.recommended matches Some(rs) ==> final(self).port_ds.port_state
                        == next_state(old(self).port_ds.port_state, rs)
                    &&& o.recommended is None ==> final(self).port_ds.port_state == old(
                        self,
                    ).port_ds.port_state
                    &&& o.time_properties == match o.recommended {
                        Some(RecommendedState::S1(a)) => Some(a.spec_time_properties()),
                        _ => None,
                    }
                }
            }),
            r is Err ==> r == Err::<BmcaOutcome, _>(PortError::UnsupportedState) && !old(
                self,
            ).port_ds.port_state.is_operated() && final(self).port_ds.port_state == old(
                self,
            ).port_ds.port_state,
    {
        let t = timestamp_nanos(now);
        let erbest = self.bmca.take_best_port_announce_message(t);
        let index = (self.port_ds.port_identity.port_number - 1) as usize;
        let ebest = if index < announce_messages.len() {
            announce_messages[index] = erbest;
            find_best_announce_message(announce_messages)
        } else {
            erbest
        };
        let recommended = calculate_recommended_state(
            default_ds,
            ebest,
            erbest,
            &self.port_ds.port_state,
        );
        let time_properties = match recommended {
            Some(rs) => {
                match self.port_ds.set_recommended_port_state(&rs) {
                    Ok(()) => {},
                    Err(e) => {
                        return Err(e);
                    },
                }
                match rs {
                    RecommendedState::S1(a) => Some(a.time_properties()),
                    _ => None,
                }
            },
            None => None,
        };
        proof {
            let survivors = old(self).bmca.survivors(t);
            if let Some(b) = erbest {
                let k = choose|k: int|
                    0 <= k < survivors.len() && survivors[k] == b && self.bmca.received@
                        == survivors.remove(k);
                assert(survivors.contains(b));
            }
        }
        Ok(BmcaOutcome { erbest, ebest, recommended, time_properties })
    }
}

} // verus!
