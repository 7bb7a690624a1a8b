//! The Best Master Clock Algorithm: ordering announced datasets, keeping the
//! announces a port has seen, and recommending the port's role.
use vstd::prelude::*;
use crate::common::{ClockIdentity, ClockQuality, PortIdentity};
use crate::datasets::DefaultDS;
use crate::messages::{AnnounceMessage, Header};
use crate::state::PortState;

verus! {

/// Reads a dataset's fields, most significant first, as one number: a lower
/// number is a better dataset. The fields are priority 1, clock class, clock
/// accuracy, offset-scaled log variance, priority 2, grandmaster identity
/// (its bytes big-endian), steps removed, and the sender's clock identity and
/// port number. Comparing these numbers compares the fields lexicographically.
pub open spec fn key_of(
    priority_1: u8,
    quality: ClockQuality,
    priority_2: u8,
    grandmaster: ClockIdentity,
    steps_removed: u16,
    sender: PortIdentity,
) -> int {
    key_high(priority_1, quality, priority_2, grandmaster) * 0x1_0000_0000_0000_0000_0000_0000
        + key_low(steps_removed, sender)
}

pub open spec fn key_high(
    priority_1: u8,
    quality: ClockQuality,
    priority_2: u8,
    grandmaster: ClockIdentity,
) -> int {
    priority_1 * 0x1_0000_0000_0000_0000_0000_0000_0000 + quality.clock_class
        * 0x1_0000_0000_0000_0000_0000_0000_00 + quality.clock_accuracy
        * 0x1_0000_0000_0000_0000_0000_0000 + quality.offset_scaled_log_variance
        * 0x100_0000_0000_0000_0000 + priority_2 * 0x1_0000_0000_0000_0000 + grandmaster.key()
}

pub open spec fn key_low(steps_removed: u16, sender: PortIdentity) -> int {
    steps_removed * 0x1_0000_0000_0000_0000_0000 + sender.clock_identity.key() * 0x1_0000
        + sender.port_number
}

fn key_parts(
    priority_1: u8,
    quality: ClockQuality,
    priority_2: u8,
    grandmaster: ClockIdentity,
    steps_removed: u16,
    sender: PortIdentity,
) -> (r: (u128, u128))
    ensures
        r.0 == key_high(priority_1, quality, priority_2, grandmaster),
        r.1 == key_low(steps_removed, sender),
{
    let hi: u128 = (priority_1 as u128) * 0x1_0000_0000_0000_0000_0000_0000_0000
        + (quality.clock_class as u128) * 0x1_0000_0000_0000_0000_0000_0000_00
        + (quality.clock_accuracy as u128) * 0x1_0000_0000_0000_0000_0000_0000
        + (quality.offset_scaled_log_variance as u128) * 0x100_0000_0000_0000_0000
        + (priority_2 as u128) * 0x1_0000_0000_0000_0000 + (grandmaster.key_value() as u128);
    let lo: u128 = (steps_removed as u128) * 0x1_0000_0000_0000_0000_0000
        + (sender.clock_identity.key_value() as u128) * 0x1_0000 + (sender.port_number as u128);
    (hi, lo)
}

proof fn lemma_key_order(h1: int, l1: int, h2: int, l2: int)
    requires
        0 <= l1 < 0x1_0000_0000_0000_0000_0000_0000,
        0 <= l2 < 0x1_0000_0000_0000_0000_0000_0000,
    ensures
        (h1 * 0x1_0000_0000_0000_0000_0000_0000 + l1 < h2 * 0x1_0000_0000_0000_0000_0000_0000 + l2)
            == (h1 < h2 || (h1 == h2 && l1 < l2)),
{
    assert((h1 * 0x1_0000_0000_0000_0000_0000_0000 + l1 < h2 * 0x1_0000_0000_0000_0000_0000_0000
        + l2) == (h1 < h2 || (h1 == h2 && l1 < l2))) by (nonlinear_arith)
        requires
            0 <= l1 < 0x1_0000_0000_0000_0000_0000_0000,
            0 <= l2 < 0x1_0000_0000_0000_0000_0000_0000,
    ;
}

/// An announce as a port received it: its header, its body, and when (local
/// nanoseconds) it arrived.
#[derive(Clone, Copy, Debug, PartialEq, Eq)]
pub struct BestAnnounceMessage {
    pub header: Header,
    pub message: AnnounceMessage,
    pub timestamp: i128,
}

/// What the slave of a master takes over from its announces.
#[derive(Clone, Copy, Debug, PartialEq, Eq, Structural)]
pub struct TimePropertiesDS {
    pub current_utc_offset: i16,
    pub current_utc_offset_valid: bool,
    pub leap59: bool,
    pub leap61: bool,
    pub time_traceable: bool,
    pub frequency_traceable: bool,
    pub ptp_timescale: bool,
    pub time_source: u8,
}

impl BestAnnounceMessage {
    /// The dataset this announce offers, as a number: lower is better.
    pub open spec fn key(self) -> int {
        key_of(
            self.message.grandmaster_priority_1,
            self.message.grandmaster_clock_quality,
            self.message.grandmaster_priority_2,
            self.message.grandmaster_identity,
            self.message.steps_removed,
            self.header.source_port_identity,
        )
    }

    pub open spec fn spec_time_properties(self) -> TimePropertiesDS {
        TimePropertiesDS {
            current_utc_offset: self.message.current_utc_offset,
            current_utc_offset_valid: self.header.flags & 0x0004 != 0,
            leap59: self.header.flags & 0x0002 != 0,
            leap61: self.header.flags & 0x0001 != 0,
            time_traceable: self.header.flags & 0x0010 != 0,
            frequency_traceable: self.header.flags & 0x0020 != 0,
            ptp_timescale: self.header.flags & 0x0008 != 0,
            time_source: self.message.time_source,
        }
    }

    /// The time properties announced: the UTC offset and time source from the
    /// body, the rest from the header's flag bits.
    pub fn time_properties(&self) -> (r: TimePropertiesDS)
        ensures
            r == self.spec_time_properties(),
    {
        let flags = self.header.flags;
        TimePropertiesDS {
            current_utc_offset: self.message.current_utc_offset,
            current_utc_offset_valid: flags & 0x0004 != 0,
            leap59: flags & 0x0002 != 0,
            leap61: flags & 0x0001 != 0,
            time_traceable: flags & 0x0010 != 0,
            frequency_traceable: flags & 0x0020 != 0,
            ptp_timescale: flags & 0x0008 != 0,
            time_source: self.message.time_source,
        }
    }

    fn key_pair(&self) -> (r: (u128, u128))
        ensures
            r.0 * 0x1_0000_0000_0000_0000_0000_0000 + r.1 == self.key(),
            r.0 == key_high(
                self.message.grandmaster_priority_1,
                self.message.grandmaster_clock_quality,
                self.message.grandmaster_priority_2,
                self.message.grandmaster_identity,
            ),
            r.1 < 0x1_0000_0000_0000_0000_0000_0000,
    {
        key_parts(
            self.message.grandmaster_priority_1,
            self.message.grandmaster_clock_quality,
            self.message.grandmaster_priority_2,
            self.message.grandmaster_identity,
            self.message.steps_removed,
            self.header.source_port_identity,
        )
    }

    fn high_key(&self) -> (r: u128)
        ensures
            r == key_high(
                self.message.grandmaster_priority_1,
                self.message.grandmaster_clock_quality,
                self.message.grandmaster_priority_2,
                self.message.grandmaster_identity,
            ),
    {
        self.key_pair().0
    }

    /// Whether this announce offers a strictly better dataset than `other`.
    pub fn is_better_than(&self, other: &BestAnnounceMessage) -> (r: bool)
        ensures
            r == (self.key() < other.key()),
    {
        let a = self.key_pair();
        let b = other.key_pair();
        proof {
            lemma_key_order(a.0 as int, a.1 as int, b.0 as int, b.1 as int);
        }
        a.0 < b.0 || (a.0 == b.0 && a.1 < b.1)
    }
}

/// No dataset is better than itself, and of two that differ in the ordered
/// fields one is better than the other.
pub proof fn lemma_comparison_total(a: BestAnnounceMessage, b: BestAnnounceMessage)
    ensures
        !(a.key() < a.key()),
        a.key() < b.key() ==> !(b.key() < a.key()),
        a.key() != b.key() ==> a.key() < b.key() || b.key() < a.key(),
{
}

/// Being better is transitive.
pub proof fn lemma_comparison_transitive(
    a: BestAnnounceMessage,
    b: BestAnnounceMessage,
    c: BestAnnounceMessage,
)
    ensures
        a.key() < b.key() && b.key() < c.key() ==> a.key() < c.key(),
{
}

/// `best` is one of the announces held in `s`, and none there is better.
pub open spec fn is_best_of(best: BestAnnounceMessage, s: Seq<Option<BestAnnounceMessage>>) -> bool {
    s.contains(Some(best)) && forall|i: int|
        0 <= i < s.len() && #[trigger] s[i] is Some ==> best.key() <= s[i].unwrap().key()
}

/// Two collections that hold the same announces, in whatever order, have
/// equally good best announces.
pub proof fn lemma_best_independent_of_order(
    s1: Seq<Option<BestAnnounceMessage>>,
    s2: Seq<Option<BestAnnounceMessage>>,
    b1: BestAnnounceMessage,
    b2: BestAnnounceMessage,
)
    requires
        forall|x: Option<BestAnnounceMessage>| s1.contains(x) <==> s2.contains(x),
        is_best_of(b1, s1),
        is_best_of(b2, s2),
    ensures
        b1.key() == b2.key(),
{
    assert(s2.contains(Some(b1)));
    assert(s1.contains(Some(b2)));
    let i1 = choose|i: int| 0 <= i < s1.len() && s1[i] == Some(b2);
    let i2 = choose|i: int| 0 <= i < s2.len() && s2[i] == Some(b1);
    assert(s1[i1] is Some);
    assert(s2[i2] is Some);
}

/// The best of the announces held in `announces`, if any holds one.
pub fn find_best_announce_message(announces: &[Option<BestAnnounceMessage>]) -> (r: Option<
    BestAnnounceMessage,
>)
    ensures
        r is None <==> forall|i: int| 0 <= i < announces@.len() ==> #[trigger] announces@[i] is None,
        r matches Some(b) ==> is_best_of(b, announces@),
{
    let mut best: Option<BestAnnounceMessage> = None;
    let mut i: usize = 0;
    while i < announces.len()
        invariant
            i <= announces@.len(),
            best is None <==> forall|j: int| 0 <= j < i ==> #[trigger] announces@[j] is None,
            best matches Some(b) ==> announces@.subrange(0, i as int).contains(Some(b)),
            best matches Some(b) ==> forall|j: int|
                0 <= j < i && #[trigger] announces@[j] is Some ==> b.key()
                    <= announces@[j].unwrap().key(),
        decreases announces@.len() - i,
    {
        let ghost prefix = announces@.subrange(0, i as int);
        match announces[i] {
            Some(candidate) => {
                let take = match best {
                    Some(b) => candidate.is_better_than(&b),
                    None => true,
                };
                if take {
                    best = Some(candidate);
                    assert(announces@.subrange(0, i + 1)[i as int] == Some(candidate));
                } else {
                    assert(announces@.subrange(0, i + 1)[i as int] == announces@[i as int]);
                }
            },
            None => {},
        }
        proof {
            assert forall|x: Option<BestAnnounceMessage>| prefix.contains(x) implies announces@.subrange(
                0,
                i + 1,
            ).contains(x) by {
                let k = choose|k: int| 0 <= k < prefix.len() && prefix[k] == x;
                assert(announces@.subrange(0, i + 1)[k] == x);
            }
        }
        i = i + 1;
    }
    assert(announces@.subrange(0, announces@.len() as int) =~= announces@);
    best
}

/// The announces one port has received, and the port they were received on.
pub struct Bmca {
    pub received: Vec<BestAnnounceMessage>,
    pub own_port_identity: PortIdentity,
    /// How long, in nanoseconds, an announce stays eligible after its arrival.
    pub window: i128,
}

impl Bmca {
    pub open spec fn is_fresh(window: i128, m: BestAnnounceMessage, now: i128) -> bool {
        now - m.timestamp <= window
    }

    /// The received announces that are still eligible at `now`, in arrival order.
    pub open spec fn survivors(self, now: i128) -> Seq<BestAnnounceMessage> {
        self.received@.filter(|m: BestAnnounceMessage| Bmca::is_fresh(self.window, m, now))
    }

    pub fn new(window: crate::time::Duration, own_port_identity: PortIdentity) -> (r: Bmca)
        ensures
            r.received@.len() == 0,
            r.window == window.nanos,
            r.own_port_identity == own_port_identity,
    {
        Bmca { received: Vec::new(), own_port_identity, window: window.nanos }
    }

    pub fn register_announce_message(&mut self, header: &Header, message: &AnnounceMessage, now: i128)
        ensures
            final(self).received@ == old(self).received@.push(
                BestAnnounceMessage { header: *header, message: *message, timestamp: now },
            ),
            final(self).window == old(self).window,
            final(self).own_port_identity == old(self).own_port_identity,
    {
        self.received.push(BestAnnounceMessage { header: *header, message: *message, timestamp: now });
    }

    /// Drops the announces that are no longer eligible at `now`, then takes the
    /// best of the rest out and returns it.
    pub fn take_best_port_announce_message(&mut self, now: i128) -> (r: Option<BestAnnounceMessage>)
        requires
            now >= 0,
            old(self).window >= 0,
            forall|j: int| 0 <= j < old(self).received@.len() ==> #[trigger] old(self).received@[j].timestamp >= 0,
        ensures
            final(self).window == old(self).window,
            final(self).own_port_identity == old(self).own_port_identity,
            r is None <==> old(self).survivors(now).len() == 0,
            r is None ==> final(self).received@.len() == 0,
            r matches Some(b) ==> exists|k: int|
                0 <= k < old(self).survivors(now).len() && old(self).survivors(now)[k] == b
                    && final(self).received@ == old(self).survivors(now).remove(k),
            r matches Some(b) ==> forall|j: int|
                0 <= j < old(self).survivors(now).len() ==> b.key() <= #[trigger] old(
                    self,
                ).survivors(now)[j].key(),
            forall|j: int| 0 <= j < final(self).received@.len() ==> #[trigger] final(self).received@[j].timestamp >= 0,
    {
        let ghost pred = |m: BestAnnounceMessage| Bmca::is_fresh(self.window, m, now);
        let ghost all = self.received@;
        let mut kept: Vec<BestAnnounceMessage> = Vec::new();
        let mut i: usize = 0;
        while i < self.received.len()
            invariant
                i <= all.len(),
                all == self.received@,
                kept@ == all.subrange(0, i as int).filter(pred),
                pred == (|m: BestAnnounceMessage| Bmca::is_fresh(self.window, m, now)),
                now >= 0,
                forall|j: int| 0 <= j < all.len() ==> #[trigger] all[j].timestamp >= 0,
                forall|j: int| 0 <= j < kept@.len() ==> #[trigger] kept@[j].timestamp >= 0,
            decreases all.len() - i,
        {
            proof {
                assert(all.subrange(0, i + 1).drop_last() =~= all.subrange(0, i as int));
                reveal(Seq::filter);
            }
            let m = self.received[i];
            if now - m.timestamp <= self.window {
                kept.push(m);
            }
            i = i + 1;
        }
        assert(all.subrange(0, all.len() as int) =~= all);
        let ghost survivors = kept@;
        let mut best_index: usize = 0;
        let mut j: usize = 1;
        if kept.len() == 0 {
            self.received = kept;
            return None;
        }
        while j < kept.len()
            invariant
                kept@ == survivors,
                survivors.len() > 0,
                best_index < j <= survivors.len(),
                forall|k: int| 0 <= k < survivors.len() ==> #[trigger] survivors[k].timestamp >= 0,
                forall|k: int| 0 <= k < j ==> survivors[best_index as int].key() <= #[trigger] survivors[k].key(),
            decreases survivors.len() - j,
        {
            if kept[j].is_better_than(&kept[best_index]) {
                best_index = j;
            }
            j = j + 1;
        }
        let best = kept.remove(best_index);
        self.received = kept;
        proof {
            assert forall|k: int| 0 <= k < self.received@.len() implies #[trigger] self.received@[k].timestamp >= 0 by {
                if k < best_index {
                    assert(self.received@[k] == survivors[k]);
                } else {
                    assert(self.received@[k] == survivors[k + 1]);
                }
            }
        }
        Some(best)
    }
}

/// The role BMCA recommends for a port.
#[derive(Clone, Copy, Debug, PartialEq, Eq)]
pub enum RecommendedState {
    /// Become the slave of the sender of this announce.
    S1(BestAnnounceMessage),
    /// Be master as the grandmaster of a clock of class 1 to 127.
    M1,
    /// Be master: the local clock is better than all announced.
    M2,
    /// Be master towards the port's own segment.
    M3(BestAnnounceMessage),
    /// Be passive: a clock of class 1 to 127 that is not the best.
    P1(BestAnnounceMessage),
    /// Be passive: another port of this clock reaches the same grandmaster better.
    P2(BestAnnounceMessage),
}

/// The dataset of the local clock as a number comparable with announces' keys.
pub open spec fn local_key(default_ds: DefaultDS) -> int {
    key_of(
        default_ds.priority_1,
        default_ds.clock_quality,
        default_ds.priority_2,
        default_ds.clock_identity,
        0,
        PortIdentity { clock_identity: default_ds.clock_identity, port_number: 0 },
    )
}

/// Whether `a` and `b` announce the same grandmaster with the same quality,
/// so that they differ at most in steps removed and sender.
pub open spec fn same_grandmaster(a: BestAnnounceMessage, b: BestAnnounceMessage) -> bool {
    key_high(
        a.message.grandmaster_priority_1,
        a.message.grandmaster_clock_quality,
        a.message.grandmaster_priority_2,
        a.message.grandmaster_identity,
    ) == key_high(
        b.message.grandmaster_priority_1,
        b.message.grandmaster_clock_quality,
        b.message.grandmaster_priority_2,
        b.message.grandmaster_identity,
    )
}

/// The state decision: `ebest` is the best announce of the whole instance,
/// `erbest` the best of this port. `None` leaves the port as it is.
pub open spec fn spec_recommended_state(
    default_ds: DefaultDS,
    ebest: Option<BestAnnounceMessage>,
    erbest: Option<BestAnnounceMessage>,
    port_state: PortState,
) -> Option<RecommendedState> {
    if ebest is None && port_state is Listening {
        None
    } else if 1 <= default_ds.clock_quality.clock_class <= 127 {
        match erbest {
            Some(er) => if local_key(default_ds) < er.key() {
                Some(RecommendedState::M1)
            } else {
                Some(RecommendedState::P1(er))
            },
            None => Some(RecommendedState::M1),
        }
    } else {
        match ebest {
            None => Some(RecommendedState::M2),
            Some(e) => if local_key(default_ds) < e.key() {
                Some(RecommendedState::M2)
            } else {
                match erbest {
                    Some(er) => if er.key() == e.key() {
                        Some(RecommendedState::S1(er))
                    } else if same_grandmaster(e, er) {
                        Some(RecommendedState::P2(er))
                    } else {
                        Some(RecommendedState::M3(e))
                    },
                    None => Some(RecommendedState::M3(e)),
                }
            },
        }
    }
}

fn local_key_pair(default_ds: &DefaultDS) -> (r: (u128, u128))
    ensures
        r.0 * 0x1_0000_0000_0000_0000_0000_0000 + r.1 == local_key(*default_ds),
        r.1 < 0x1_0000_0000_0000_0000_0000_0000,
{
    key_parts(
        default_ds.priority_1,
        default_ds.clock_quality,
        default_ds.priority_2,
        default_ds.clock_identity,
        0,
        PortIdentity { clock_identity: default_ds.clock_identity, port_number: 0 },
    )
}

fn pair_less(a: (u128, u128), b: (u128, u128)) -> (r: bool)
    requires
        a.1 < 0x1_0000_0000_0000_0000_0000_0000,
        b.1 < 0x1_0000_0000_0000_0000_0000_0000,
    ensures
        r == (a.0 * 0x1_0000_0000_0000_0000_0000_0000 + a.1 < b.0 * 0x1_0000_0000_0000_0000_0000_0000
            + b.1),
{
    proof {
        lemma_key_order(a.0 as int, a.1 as int, b.0 as int, b.1 as int);
    }
    a.0 < b.0 || (a.0 == b.0 && a.1 < b.1)
}

pub fn calculate_recommended_state(
    default_ds: &DefaultDS,
    ebest: Option<BestAnnounceMessage>,
    erbest: Option<BestAnnounceMessage>,
    port_state: &PortState,
) -> (r: Option<RecommendedState>)
    ensures
        r == spec_recommended_state(*default_ds, ebest, erbest, *port_state),
{
    if ebest.is_none() && matches!(port_state, PortState::Listening) {
        return None;
    }
    let d0 = local_key_pair(default_ds);
    let class = default_ds.clock_quality.clock_class;
    if 1 <= class && class <= 127 {
        match erbest {
            Some(er) => if pair_less(d0, er.key_pair()) {
                Some(RecommendedState::M1)
            } else {
                Some(RecommendedState::P1(er))
            },
            None => Some(RecommendedState::M1),
        }
    } else {
        match ebest {
            None => Some(RecommendedState::M2),
            Some(e) => {
                let ek = e.key_pair();
                if pair_less(d0, ek) {
                    Some(RecommendedState::M2)
                } else {
                    match erbest {
                        Some(er) => {
                            let erk = er.key_pair();
                            proof {
                                lemma_key_order(erk.0 as int, erk.1 as int, ek.0 as int, ek.1 as int);
                                lemma_key_order(ek.0 as int, ek.1 as int, erk.0 as int, erk.1 as int);
                            }
                            if erk.0 == ek.0 && erk.1 == ek.1 {
                                Some(RecommendedState::S1(er))
                            } else if e.high_key() == er.high_key() {
                                Some(RecommendedState::P2(er))
                            } else {
                                Some(RecommendedState::M3(e))
                            }
                        },
                        None => Some(RecommendedState::M3(e)),
                    }
                }
            },
        }
    }
}

} // verus!
