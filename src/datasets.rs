//! The datasets of an instance and of each of its ports.
use vstd::prelude::*;
use crate::bmca::RecommendedState;
use crate::common::{ClockIdentity, ClockQuality, PortIdentity};
use crate::state::{MasterState, PortError, PortState, SlaveState};
use crate::time::{Duration, MAX_LOG_INTERVAL, log_interval_nanos};

verus! {

/// What the whole instance says of its clock.
#[derive(Clone, Copy, Debug, PartialEq, Eq)]
pub struct DefaultDS {
    pub clock_identity: ClockIdentity,
    /// At least 1.
    pub number_ports: u16,
    pub clock_quality: ClockQuality,
    pub priority_1: u8,
    pub priority_2: u8,
    pub domain_number: u8,
    /// 12 bits.
    pub sdo_id: u16,
}

impl DefaultDS {
    pub open spec fn wf(self) -> bool {
        self.sdo_id < 0x1000 && self.number_ports >= 1
    }
}

/// How a port measures the delay of its link.
#[derive(Clone, Copy, Debug, PartialEq, Eq, Structural, Hash)]
pub enum DelayMechanism {
    E2E,
    P2P,
    NoMechanism,
    CommonP2p,
    Special,
}

/// The configuration and mutable role of one port.
#[derive(Debug)]
pub struct PortDS {
    pub port_identity: PortIdentity,
    pub port_state: PortState,
    pub log_min_delay_req_interval: i8,
    pub mean_link_delay: Duration,
    pub log_announce_interval: i8,
    /// How many announce intervals may pass without an announce.
    pub announce_receipt_timeout: u8,
    pub log_sync_interval: i8,
    pub delay_mechanism: DelayMechanism,
    pub log_min_p_delay_req_interval: i8,
    pub version_number: u8,
    pub minor_version_number: u8,
    pub delay_asymmetry: Duration,
    pub port_enable: bool,
    pub master_only: bool,
}

/// The state that a recommendation leads to from `current`, for the states
/// this core operates.
pub open spec fn next_state(current: PortState, recommended: RecommendedState) -> PortState {
    match recommended {
        RecommendedState::S1(a) => match current {
            PortState::Slave(s) => if s.remote_master.same(a.header.source_port_identity) {
                current
            } else {
                PortState::Slave(SlaveState::spec_new(a.header.source_port_identity))
            },
            _ => PortState::Slave(SlaveState::spec_new(a.header.source_port_identity)),
        },
        RecommendedState::M2 => match current {
            PortState::Master(_) => current,
            _ => PortState::Master(MasterState::spec_new()),
        },
        _ => PortState::Listening,
    }
}

impl PortDS {
    pub open spec fn wf(self) -> bool {
        &&& self.port_identity.port_number >= 1
        &&& self.log_min_delay_req_interval <= MAX_LOG_INTERVAL
        &&& self.log_announce_interval <= MAX_LOG_INTERVAL
        &&& self.log_sync_interval <= MAX_LOG_INTERVAL
        &&& self.log_min_p_delay_req_interval <= MAX_LOG_INTERVAL
        &&& self.port_state.wf()
    }

    /// A port dataset in Listening, enabled, with no link delay or asymmetry.
    /// Only delay mechanisms that need no link delay measurement are accepted.
    pub fn new(
        port_identity: PortIdentity,
        log_min_delay_req_interval: i8,
        log_announce_interval: i8,
        announce_receipt_timeout: u8,
        log_sync_interval: i8,
        delay_mechanism: DelayMechanism,
        log_min_p_delay_req_interval: i8,
        version_number: u8,
        minor_version_number: u8,
    ) -> (r: Result<PortDS, PortError>)
        requires
            port_identity.port_number >= 1,
            log_min_delay_req_interval <= MAX_LOG_INTERVAL,
            log_announce_interval <= MAX_LOG_INTERVAL,
            log_sync_interval <= MAX_LOG_INTERVAL,
            log_min_p_delay_req_interval <= MAX_LOG_INTERVAL,
        ensures
            r is Err <==> (delay_mechanism == DelayMechanism::P2P || delay_mechanism
                == DelayMechanism::CommonP2p),
            r is Err ==> r == Err::<PortDS, _>(PortError::UnsupportedDelayMechanism),
            r matches Ok(ds) ==> {
                &&& ds.wf()
                &&& ds.port_identity == port_identity
                &&& ds.port_state is Listening
                &&& ds.log_min_delay_req_interval == log_min_delay_req_interval
                &&& ds.log_announce_interval == log_announce_interval
                &&& ds.announce_receipt_timeout == announce_receipt_timeout
                &&& ds.log_sync_interval == log_sync_interval
                &&& ds.delay_mechanism == delay_mechanism
                &&& ds.log_min_p_delay_req_interval == log_min_p_delay_req_interval
                &&& ds.version_number == version_number
                &&& ds.minor_version_number == minor_version_number
                &&& ds.mean_link_delay.nanos == 0
                &&& ds.delay_asymmetry.nanos == 0
                &&& ds.port_enable
                &&& !ds.master_only
            },
    {
        let mean_link_delay = match delay_mechanism {
            DelayMechanism::E2E | DelayMechanism::NoMechanism | DelayMechanism::Special => {
                Duration::zero()
            },
            DelayMechanism::P2P | DelayMechanism::CommonP2p => {
                return Err(PortError::UnsupportedDelayMechanism);
            },
        };
        Ok(
            PortDS {
                port_identity,
                port_state: PortState::Listening,
                log_min_delay_req_interval,
                mean_link_delay,
                log_announce_interval,
                announce_receipt_timeout,
                log_sync_interval,
                delay_mechanism,
                log_min_p_delay_req_interval,
                version_number,
                minor_version_number,
                delay_asymmetry: Duration::zero(),
                port_enable: true,
                master_only: false,
            },
        )
    }

    pub fn min_delay_req_interval(&self) -> (r: Duration)
        requires
            self.wf(),
        ensures
            r.nanos == log_interval_nanos(self.log_min_delay_req_interval as int),
    {
        Duration::from_log_interval(self.log_min_delay_req_interval)
    }

    pub fn announce_interval(&self) -> (r: Duration)
        requires
            self.wf(),
        ensures
            r.nanos == log_interval_nanos(self.log_announce_interval as int),
    {
        Duration::from_log_interval(self.log_announce_interval)
    }

    pub fn sync_interval(&self) -> (r: Duration)
        requires
            self.wf(),
        ensures
            r.nanos == log_interval_nanos(self.log_sync_interval as int),
    {
        Duration::from_log_interval(self.log_sync_interval)
    }

    pub fn min_p_delay_req_interval(&self) -> (r: Duration)
        requires
            self.wf(),
        ensures
            r.nanos == log_interval_nanos(self.log_min_p_delay_req_interval as int),
    {
        Duration::from_log_interval(self.log_min_p_delay_req_interval)
    }

    /// How long the port waits for an announce: `announce_receipt_timeout`
    /// announce intervals.
    pub fn announce_receipt_interval(&self) -> (r: Duration)
        requires
            self.wf(),
        ensures
            r.nanos == self.announce_receipt_timeout * log_interval_nanos(
                self.log_announce_interval as int,
            ),
            r.nanos >= 0,
    {
        let interval = self.announce_interval();
        proof {
            crate::time::lemma_log_interval_bounds(self.log_announce_interval as int);
            assert(0 <= self.announce_receipt_timeout * interval.nanos
                <= 255 * 0x8000_0000_0000_0000 * 1_000_000_000) by (nonlinear_arith)
                requires
                    0 <= interval.nanos <= 0x8000_0000_0000_0000 * 1_000_000_000,
                    self.announce_receipt_timeout <= 255,
            ;
        }
        Duration { nanos: (self.announce_receipt_timeout as i128) * interval.nanos }
    }

    /// Puts the port in `state`, whatever it was in.
    pub fn set_forced_port_state(&mut self, state: PortState)
        ensures
            *final(self) == (PortDS { port_state: state, ..*old(self) }),
    {
        self.port_state = state;
    }

    /// Applies a recommendation of BMCA. A Slave whose master changes starts
    /// afresh, dropping any half of an exchange with the previous master.
    /// From a state that this core does not operate, nothing changes.
    pub fn set_recommended_port_state(&mut self, recommended_state: &RecommendedState) -> (r: Result<
        (),
        PortError,
    >)
        requires
            old(self).wf(),
        ensures
            final(self).wf(),
            old(self).port_state.is_operated() ==> r is Ok && final(self).port_state == next_state(
                old(self).port_state,
                *recommended_state,
            ),
            !old(self).port_state.is_operated() ==> r == Err::<(), _>(PortError::UnsupportedState)
                && final(self).port_state == old(self).port_state,
            *final(self) == (PortDS { port_state: final(self).port_state, ..*old(self) }),
    {
        let operated = match self.port_state {
            PortState::Listening | PortState::Master(_) | PortState::Slave(_) => true,
            _ => false,
        };
        if !operated {
            return Err(PortError::UnsupportedState);
        }
        match recommended_state {
            RecommendedState::S1(announce) => {
                let source = announce.header.source_port_identity;
                match &self.port_state {
                    PortState::Slave(slave) => {
                        if slave.remote_master() != source {
                            self.port_state = PortState::Slave(SlaveState::new(source));
                        }
                    },
                    _ => {
                        self.port_state = PortState::Slave(SlaveState::new(source));
                    },
                }
            },
            RecommendedState::M2 => match &self.port_state {
                PortState::Master(_) => {},
                _ => {
                    self.port_state = PortState::Master(MasterState::new());
                },
            },
            _ => {
                self.port_state = PortState::Listening;
            },
        }
        Ok(())
    }
}

} // verus!
