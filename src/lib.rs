//! The time-synchronisation core of a Precision Time Protocol (IEEE 1588)
//! endpoint: the wire format of PTP messages, the port datasets, the Best
//! Master Clock Algorithm, the master and slave state machines, and what a
//! port does on each of its timers and on each packet it receives.
//!
//! Timers, the network and the clock stay with the caller: each event is
//! handed to a [`port::Port`] with the current time, and what comes back (the
//! bytes to send, a measurement for the clock's filter, a timer to restart,
//! time properties to adopt) is for the caller to carry out.
use vstd::prelude::*;

pub mod bmca;
pub mod codec;
pub mod common;
pub mod datasets;
pub mod messages;
pub mod port;
pub mod state;
pub mod time;

verus! {

} // verus!
