//! The per-port roles that carry state: a master's sequence ids and a slave's
//! correlation of sync, follow-up and delay messages into measurements.
use vstd::prelude::*;
use crate::common::{PortIdentity, Timestamp};
use crate::messages::{
    Header, Message, MessageBody, MessageType, DelayReqMessage, DelayRespMessage, HEADER_SIZE,
};
use crate::time::Duration;
use crate::codec::WireFormatError;

verus! {

/// A wrapping 16-bit counter that hands out the sequence ids of one series of messages.
#[derive(Clone, Copy, Debug, PartialEq, Eq, Structural)]
pub struct SequenceIdGenerator {
    pub next: u16,
}

impl SequenceIdGenerator {
    pub fn new() -> (r: SequenceIdGenerator)
        ensures
            r.next == 0,
    {
        SequenceIdGenerator { next: 0 }
    }

    /// Hands out the next id; the one after it is one more, modulo 2^16.
    pub fn generate(&mut self) -> (r: u16)
        ensures
            r == old(self).next,
            final(self).next as int == (old(self).next as int + 1) % 0x10000,
    {
        let id = self.next;
        self.next = self.next.wrapping_add(1);
        id
    }
}

/// The sequence ids of the messages a master sends.
#[derive(Clone, Copy, Debug, PartialEq, Eq, Structural)]
pub struct MasterState {
    pub sync_seq_ids: SequenceIdGenerator,
    pub announce_seq_ids: SequenceIdGenerator,
}

impl MasterState {
    pub open spec fn spec_new() -> MasterState {
        MasterState {
            sync_seq_ids: SequenceIdGenerator { next: 0 },
            announce_seq_ids: SequenceIdGenerator { next: 0 },
        }
    }

    pub fn new() -> (r: MasterState)
        ensures
            r == MasterState::spec_new(),
    {
        MasterState {
            sync_seq_ids: SequenceIdGenerator::new(),
            announce_seq_ids: SequenceIdGenerator::new(),
        }
    }
}

/// One correlated set of timestamps: the offset of the local clock from the
/// master, and the one-way path delay.
#[derive(Clone, Copy, Debug, PartialEq, Eq, Structural)]
pub struct Measurement {
    /// When the Sync arrived, in nanoseconds of local time.
    pub event_time: i128,
    pub master_offset: Duration,
    pub delay: Duration,
}

/// Division by two rounded toward zero, as Rust's integer division rounds.
pub open spec fn half(x: int) -> int {
    if x >= 0 {
        x / 2
    } else {
        -((-x) / 2)
    }
}

/// The whole nanoseconds in a correction field of scaled nanoseconds, rounded toward zero.
pub open spec fn correction_nanos(c: i64) -> int {
    if c >= 0 {
        c / 0x10000
    } else {
        -((-c) / 0x10000)
    }
}

pub open spec fn spec_measurement(t1: int, t2: int, t3: int, t4: int) -> Measurement {
    Measurement {
        event_time: t2 as i128,
        master_offset: Duration { nanos: half((t2 - t1) - (t4 - t3)) as i128 },
        delay: Duration { nanos: half((t2 - t1) + (t4 - t3)) as i128 },
    }
}

/// A bound on every time a slave handles, in nanoseconds: well above any
/// timestamp of 48-bit seconds.
pub const TIME_BOUND: i128 = 0x1_0000_0000_0000_0000_0000_0000;

pub open spec fn time_ok(t: int) -> bool {
    -TIME_BOUND <= t <= TIME_BOUND
}

fn halve(x: i128) -> (r: i128)
    requires
        x > i128::MIN,
    ensures
        r == half(x as int),
{
    if x >= 0 {
        x / 2
    } else {
        -((-x) / 2)
    }
}

fn correction_to_nanos(c: i64) -> (r: i128)
    ensures
        r == correction_nanos(c),
{
    let w = c as i128;
    if w >= 0 {
        w / 0x10000
    } else {
        -((-w) / 0x10000)
    }
}

/// The nanoseconds of a timestamp, which always fit comfortably.
pub fn timestamp_nanos(t: Timestamp) -> (r: i128)
    ensures
        r == t.total_nanos(),
        0 <= r < TIME_BOUND / 2,
{
    (t.seconds as i128) * 1_000_000_000 + (t.nanos as i128)
}

/// The state of a slave: its master, and the halves of the current exchange.
#[derive(Clone, Copy, Debug, PartialEq, Eq)]
pub struct SlaveState {
    pub remote_master: PortIdentity,
    /// The latest Sync not yet used: its sequence id and arrival time.
    pub sync: Option<(u16, i128)>,
    /// The latest FollowUp not yet used: its sequence id and the Sync's corrected origin time.
    pub follow_up: Option<(u16, i128)>,
    /// The latest DelayReq sent: its sequence id and departure time.
    pub delay_req: Option<(u16, i128)>,
    /// The latest matching DelayResp: its sequence id and the master's receipt time.
    pub delay_resp: Option<(u16, i128)>,
    pub delay_req_ids: SequenceIdGenerator,
}

impl SlaveState {
    pub open spec fn wf(self) -> bool {
        (self.sync matches Some(p) ==> time_ok(p.1 as int)) && (self.follow_up matches Some(p)
            ==> time_ok(p.1 as int)) && (self.delay_req matches Some(p) ==> time_ok(p.1 as int))
            && (self.delay_resp matches Some(p) ==> time_ok(p.1 as int))
    }

    /// A slave that follows `remote_master` and holds no half of any exchange.
    pub open spec fn fresh(self, remote_master: PortIdentity) -> bool {
        self.remote_master == remote_master && self.sync is None && self.follow_up is None
            && self.delay_req is None && self.delay_resp is None
    }

    pub open spec fn spec_new(remote_master: PortIdentity) -> SlaveState {
        SlaveState {
            remote_master,
            sync: None,
            follow_up: None,
            delay_req: None,
            delay_resp: None,
            delay_req_ids: SequenceIdGenerator { next: 0 },
        }
    }

    pub fn new(remote_master: PortIdentity) -> (r: SlaveState)
        ensures
            r == SlaveState::spec_new(remote_master),
            r.fresh(remote_master),
            r.wf(),
    {
        SlaveState {
            remote_master,
            sync: None,
            follow_up: None,
            delay_req: None,
            delay_resp: None,
            delay_req_ids: SequenceIdGenerator::new(),
        }
    }

    pub fn remote_master(&self) -> (r: PortIdentity)
        ensures
            r == self.remote_master,
    {
        self.remote_master
    }

    /// Whether the held Sync and FollowUp belong together.
    pub open spec fn sync_pair(self) -> bool {
        self.sync matches Some(s) && self.follow_up matches Some(f) && s.0 == f.0
    }

    /// Whether the held DelayReq and DelayResp belong together.
    pub open spec fn delay_pair(self) -> bool {
        self.delay_req matches Some(q) && self.delay_resp matches Some(p) && q.0 == p.0
    }

    /// The measurement that the held halves give, once all four are there and match.
    pub open spec fn spec_measurement(self) -> Option<Measurement> {
        if self.sync_pair() && self.delay_pair() {
            Some(
                spec_measurement(
                    self.follow_up.unwrap().1 as int,
                    self.sync.unwrap().1 as int,
                    self.delay_req.unwrap().1 as int,
                    self.delay_resp.unwrap().1 as int,
                ),
            )
        } else {
            None
        }
    }

    /// The slave with every half of the exchange dropped.
    pub open spec fn cleared(self) -> SlaveState {
        SlaveState { sync: None, follow_up: None, delay_req: None, delay_resp: None, ..self }
    }

    /// Takes the measurement out, once: the halves it was made of are cleared.
    pub fn extract_measurement(&mut self) -> (r: Option<Measurement>)
        requires
            old(self).wf(),
        ensures
            r == old(self).spec_measurement(),
            final(self).wf(),
            final(self).remote_master == old(self).remote_master,
            final(self).delay_req_ids == old(self).delay_req_ids,
            r is Some ==> final(self).fresh(old(self).remote_master),
            r is Some ==> *final(self) == old(self).cleared(),
            r is None ==> *final(self) == *old(self),
    {
        match (self.sync, self.follow_up, self.delay_req, self.delay_resp) {
            (Some(s), Some(f), Some(q), Some(p)) => {
                if s.0 == f.0 && q.0 == p.0 {
                    let forward = s.1 - f.1;
                    let backward = p.1 - q.1;
                    let m = Measurement {
                        event_time: s.1,
                        master_offset: Duration { nanos: halve(forward - backward) },
                        delay: Duration { nanos: halve(forward + backward) },
                    };
                    self.sync = None;
                    self.follow_up = None;
                    self.delay_req = None;
                    self.delay_resp = None;
                    Some(m)
                } else {
                    None
                }
            },
            _ => None,
        }
    }

    /// The slave after it sent the DelayReq of a matched pair at `now`.
    pub open spec fn after_delay_req(self, now: Timestamp) -> SlaveState {
        SlaveState {
            delay_req: Some((self.delay_req_ids.next, now.total_nanos() as i128)),
            delay_resp: None,
            delay_req_ids: SequenceIdGenerator {
                next: ((self.delay_req_ids.next as int + 1) % 0x10000) as u16,
            },
            ..self
        }
    }

    /// The DelayReq a slave sends at `now`, in the domain of `received`.
    pub open spec fn delay_req_message(self, received: Header, now: Timestamp, own: PortIdentity) -> Message {
        Message {
            header: spec_new_header(
                MessageType::DelayReq,
                self.delay_req_ids.next,
                own,
                received.sdo_id,
                received.domain_number,
                0x7f,
            ),
            body: MessageBody::DelayReq(DelayReqMessage { origin_timestamp: now }),
        }
    }

    /// The slave after it stored the half of an exchange that `message`,
    /// received at `now`, holds, before any DelayReq goes out.
    pub open spec fn after_message(self, message: Message, now: Timestamp, own: PortIdentity) -> SlaveState {
        let from_master = message.header.source_port_identity.same(self.remote_master);
        let seq = message.header.sequence_id;
        match message.body {
            MessageBody::Sync(_) => if from_master {
                SlaveState { sync: Some((seq, now.total_nanos() as i128)), ..self }
            } else {
                self
            },
            MessageBody::FollowUp(f) => if from_master {
                SlaveState {
                    follow_up: Some(
                        (
                            seq,
                            (f.precise_origin_timestamp.total_nanos() + correction_nanos(
                                message.header.correction_field,
                            )) as i128,
                        ),
                    ),
                    ..self
                }
            } else {
                self
            },
            MessageBody::DelayResp(d) => if from_master && d.requesting_port_identity.same(own)
                && self.delay_req is Some && self.delay_req.unwrap().0 == seq {
                SlaveState {
                    delay_resp: Some((seq, d.receive_timestamp.total_nanos() as i128)),
                    ..self
                }
            } else {
                self
            },
            _ => self,
        }
    }

    /// Whether storing `message` completes a Sync/FollowUp pair, so that a DelayReq goes out.
    pub open spec fn completes_pair(self, message: Message, now: Timestamp, own: PortIdentity) -> bool {
        (message.body is Sync || message.body is FollowUp)
            && message.header.source_port_identity.same(self.remote_master) && self.after_message(
            message,
            now,
            own,
        ).sync_pair()
    }

    /// The slave after it handled `message`, received at `now`.
    pub open spec fn after_receive(self, message: Message, now: Timestamp, own: PortIdentity) -> SlaveState {
        if self.completes_pair(message, now, own) {
            self.after_message(message, now, own).after_delay_req(now)
        } else {
            self.after_message(message, now, own)
        }
    }

    /// The DelayReq that handling `message` sends, if it completes a pair.
    pub open spec fn reply_to(self, message: Message, now: Timestamp, own: PortIdentity) -> Option<Message> {
        if self.completes_pair(message, now, own) {
            Some(self.after_message(message, now, own).delay_req_message(message.header, now, own))
        } else {
            None
        }
    }

    /// What a slave does with a message at local time `now`: it keeps the
    /// halves of the exchange with its master, and answers a matched
    /// Sync/FollowUp pair with the DelayReq that it returns.
    pub fn handle_message(&mut self, message: &Message, now: Timestamp, own: PortIdentity) -> (r:
        Option<Message>)
        requires
            old(self).wf(),
            message.wf(),
            now.wf(),
        ensures
            final(self).wf(),
            final(self).remote_master == old(self).remote_master,
            *final(self) == old(self).after_receive(*message, now, own),
            old(self).completes_pair(*message, now, own) ==> r == Some(
                old(self).after_message(*message, now, own).delay_req_message(
                    message.header,
                    now,
                    own,
                ),
            ),
            !old(self).completes_pair(*message, now, own) ==> r is None,
            r matches Some(m) ==> m.wf() && m.header.message_type == MessageType::DelayReq
                && m.header.source_port_identity == own,
            r is Some ==> message.header.message_type == MessageType::FollowUp
                || message.header.message_type == MessageType::Sync,
            !message.header.source_port_identity.same(old(self).remote_master) ==> r is None
                && *final(self) == *old(self),
    {
        let from_master = message.header.source_port_identity == self.remote_master;
        let t = timestamp_nanos(now);
        match message.body {
            MessageBody::Sync(_) => {
                if from_master {
                    self.sync = Some((message.header.sequence_id, t));
                    self.request_delay_if_paired(message, now, own)
                } else {
                    None
                }
            },
            MessageBody::FollowUp(f) => {
                if from_master {
                    let origin = timestamp_nanos(f.precise_origin_timestamp);
                    let c = correction_to_nanos(message.header.correction_field);
                    self.follow_up = Some((message.header.sequence_id, origin + c));
                    self.request_delay_if_paired(message, now, own)
                } else {
                    None
                }
            },
            MessageBody::DelayResp(d) => {
                match self.delay_req {
                    Some(q) => {
                        if d.requesting_port_identity == own && q.0 == message.header.sequence_id
                            && from_master {
                            self.delay_resp = Some(
                                (message.header.sequence_id, timestamp_nanos(d.receive_timestamp)),
                            );
                        }
                    },
                    None => {},
                }
                None
            },
            _ => None,
        }
    }

    fn request_delay_if_paired(&mut self, message: &Message, now: Timestamp, own: PortIdentity) -> (r:
        Option<Message>)
        requires
            old(self).wf(),
            message.wf(),
            now.wf(),
        ensures
            final(self).wf(),
            r is Some <==> old(self).sync_pair(),
            r is Some ==> *final(self) == old(self).after_delay_req(now)
                && r == Some(old(self).delay_req_message(message.header, now, own)),
            r is None ==> *final(self) == *old(self),
    {
        match (self.sync, self.follow_up) {
            (Some(s), Some(f)) => {
                if s.0 == f.0 {
                    let id = self.delay_req_ids.generate();
                    self.delay_req = Some((id, timestamp_nanos(now)));
                    self.delay_resp = None;
                    let header = new_header(
                        MessageType::DelayReq,
                        id,
                        own,
                        message.header.sdo_id,
                        message.header.domain_number,
                        0x7f,
                    );
                    Some(
                        Message {
                            header,
                            body: MessageBody::DelayReq(DelayReqMessage { origin_timestamp: now }),
                        },
                    )
                } else {
                    None
                }
            },
            _ => None,
        }
    }
}

/// The header of a message of kind `t` that this port sends.
pub open spec fn spec_new_header(
    t: MessageType,
    sequence_id: u16,
    source: PortIdentity,
    sdo_id: u16,
    domain_number: u8,
    log_message_interval: i8,
) -> Header {
    Header {
        sdo_id,
        message_type: t,
        minor_version: 1,
        version: 2,
        message_length: (HEADER_SIZE + t.spec_body_size().unwrap()) as u16,
        domain_number,
        flags: if t == MessageType::Sync {
            0x0200
        } else {
            0
        },
        correction_field: 0,
        message_type_specific: 0,
        source_port_identity: source,
        sequence_id,
        control_field: match t {
            MessageType::Sync => 0,
            MessageType::DelayReq => 1,
            MessageType::FollowUp => 2,
            MessageType::DelayResp => 3,
            _ => 5,
        },
        log_message_interval,
    }
}

pub fn new_header(
    t: MessageType,
    sequence_id: u16,
    source: PortIdentity,
    sdo_id: u16,
    domain_number: u8,
    log_message_interval: i8,
) -> (r: Header)
    requires
        t.spec_body_size() is Some,
        sdo_id < 0x1000,
    ensures
        r == spec_new_header(t, sequence_id, source, sdo_id, domain_number, log_message_interval),
        r.wf(),
{
    let (size, control): (u16, u8) = match t {
        MessageType::Sync => (10, 0),
        MessageType::DelayReq => (10, 1),
        MessageType::FollowUp => (10, 2),
        MessageType::DelayResp => (20, 3),
        _ => (30, 5),
    };
    Header {
        sdo_id,
        message_type: t,
        minor_version: 1,
        version: 2,
        message_length: 34 + size,
        domain_number,
        flags: if matches!(t, MessageType::Sync) {
            0x0200
        } else {
            0
        },
        correction_field: 0,
        message_type_specific: 0,
        source_port_identity: source,
        sequence_id,
        control_field: control,
        log_message_interval,
    }
}

/// A master answers a DelayReq with a DelayResp that says when it arrived.
pub fn answer_delay_req(message: &Message, now: Timestamp, own: PortIdentity) -> (r: Option<Message>)
    requires
        message.wf(),
        now.wf(),
    ensures
        r is Some <==> message.header.message_type == MessageType::DelayReq,
        r == answer_delay_req_spec(*message, now, own),
        r matches Some(m) ==> m.wf() && m.header.message_type == MessageType::DelayResp,
{
    match message.body {
        MessageBody::DelayReq(_) => {
            let header = new_header(
                MessageType::DelayResp,
                message.header.sequence_id,
                own,
                message.header.sdo_id,
                message.header.domain_number,
                0x7f,
            );
            Some(
                Message {
                    header,
                    body: MessageBody::DelayResp(
                        DelayRespMessage {
                            receive_timestamp: now,
                            requesting_port_identity: message.header.source_port_identity,
                        },
                    ),
                },
            )
        },
        _ => None,
    }
}

/// Why a port operation did not go through.
#[derive(Clone, Copy, Debug, PartialEq, Eq, Structural)]
pub enum PortError {
    /// A received packet did not hold a message.
    Parse(WireFormatError),
    ClockBusy,
    FilterBusy,
    TimePropertiesBusy,
    /// The port is in a state that this core does not operate.
    UnsupportedState,
    /// The delay mechanism needs a mean link delay that this core cannot set up.
    UnsupportedDelayMechanism,
}

/// The state of a port. Listening, Master and Slave are operated; the others
/// are only entered by force and do nothing.
#[derive(Clone, Copy, Debug, PartialEq, Eq)]
pub enum PortState {
    Initializing,
    Faulty,
    Disabled,
    Listening,
    PreMaster,
    Master(MasterState),
    Passive,
    Uncalibrated,
    Slave(SlaveState),
}

impl PortState {
    pub open spec fn wf(self) -> bool {
        self matches PortState::Slave(s) ==> s.wf()
    }

    pub open spec fn is_operated(self) -> bool {
        self is Listening || self is Master || self is Slave
    }

    /// Dispatches a message that is not an Announce to the state: a master
    /// answers DelayReqs, a slave correlates its exchange, a listening port
    /// ignores it. Returns the message to send in reply, if any.
    pub fn handle_message(&mut self, message: &Message, now: Timestamp, own: PortIdentity) -> (r:
        Result<Option<Message>, PortError>)
        requires
            old(self).wf(),
            message.wf(),
            now.wf(),
        ensures
            final(self).wf(),
            !old(self).is_operated() ==> r == Err::<Option<Message>, _>(PortError::UnsupportedState)
                && *final(self) == *old(self),
            old(self).is_operated() ==> r is Ok,
            *old(self) is Listening ==> r == Ok::<_, PortError>(None::<Message>) && *final(self) == *old(self),
            *old(self) is Master ==> *final(self) == *old(self) && r == Ok::<_, PortError>(
                answer_delay_req_spec(*message, now, own),
            ),
            *old(self) matches PortState::Slave(s) ==> *final(self) == PortState::Slave(
                s.after_receive(*message, now, own),
            ),
            *old(self) matches PortState::Slave(s) ==> r == Ok::<_, PortError>(
                s.reply_to(*message, now, own),
            ),
            r matches Ok(Some(m)) ==> m.wf() && (*old(self) is Master ==> m.header.message_type
                == MessageType::DelayResp) && (*old(self) is Slave ==> m.header.message_type
                == MessageType::DelayReq),
    {
        match self {
            PortState::Listening => Ok(None),
            PortState::Master(_) => Ok(answer_delay_req(message, now, own)),
            PortState::Slave(slave) => Ok(slave.handle_message(message, now, own)),
            _ => Err(PortError::UnsupportedState),
        }
    }
}

/// A master's reply to a message: a DelayResp to a DelayReq, nothing otherwise.
pub open spec fn answer_delay_req_spec(message: Message, now: Timestamp, own: PortIdentity) -> Option<Message> {
    if message.header.message_type == MessageType::DelayReq {
        Some(
            Message {
                header: spec_new_header(
                    MessageType::DelayResp,
                    message.header.sequence_id,
                    own,
                    message.header.sdo_id,
                    message.header.domain_number,
                    0x7f,
                ),
                body: MessageBody::DelayResp(
                    DelayRespMessage {
                        receive_timestamp: now,
                        requesting_port_identity: message.header.source_port_identity,
                    },
                ),
            },
        )
    } else {
        None
    }
}

} // verus!
