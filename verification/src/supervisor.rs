//! The Core-side supervisor's policies: idle retirement, wedge detection, the
//! per-outpost queue of facts that arrive while an outpost is still spawning,
//! and the book of live outposts keyed by the pid each one watches.
//!
//! The processes, pipes and job handles themselves live with the caller; the
//! book holds what the decisions read, and every operation that a stale
//! message could reach is generation-checked.
//!
//! Times are milliseconds on one monotonic clock.

use vstd::prelude::*;

use crate::protocol::DeliveredFact;

verus! {

/// How long an outpost's application must have last held foreground before
/// the outpost is a candidate for idle retirement: two minutes.
pub const IDLE_RETIREMENT_MS: u64 = 120_000;

/// How often the background sweep looks for idle outposts.
pub const SWEEP_INTERVAL_MS: u64 = 30_000;

/// How often the heartbeat pings every live outpost.
pub const PING_INTERVAL_MS: u64 = 3_000;

/// How many consecutive ping intervals may pass with no pong before an
/// outpost is declared wedged.
pub const MISSED_PONG_THRESHOLD: u32 = 3;

/// The parked-thread count at or above which an outpost is killed and
/// respawned even though it still answers pings.
pub const PARKED_THREAD_KILL_THRESHOLD: usize = 8;

/// Time elapsed from `since` to `now`; a `now` earlier than `since` counts as
/// no time elapsed.
pub open spec fn elapsed(since: u64, now: u64) -> int {
    if now >= since {
        now - since
    } else {
        0
    }
}

/// Whether an outpost last foregrounded at `last_foreground_at` counts as idle
/// at `now` against the threshold `idle_after`.
pub open spec fn is_idle(last_foreground_at: u64, now: u64, idle_after: u64) -> bool {
    elapsed(last_foreground_at, now) >= idle_after
}

/// The idle-retirement decision.
pub fn idle_decision(last_foreground_at: u64, now: u64, idle_after: u64) -> (r: bool)
    ensures
        r == is_idle(last_foreground_at, now, idle_after),
{
    now.saturating_sub(last_foreground_at) >= idle_after
}

/// Why the supervisor killed and respawned an otherwise-alive outpost.
#[derive(Clone, Copy, Debug, PartialEq, Eq)]
pub enum WedgeReason {
    /// No pong arrived for the missed-pong threshold of ping intervals.
    MissedHeartbeats,
    /// The most recent pong reported a parked-thread count at or above the
    /// kill threshold.
    ParkedThreads,
}

impl WedgeReason {
    /// The reason as it appears in log lines.
    pub fn as_str(&self) -> (r: &'static str)
        ensures
            r@ == (match *self {
                WedgeReason::MissedHeartbeats => "missed heartbeats"@,
                WedgeReason::ParkedThreads => "parked threads"@,
            }),
    {
        match self {
            WedgeReason::MissedHeartbeats => "missed heartbeats",
            WedgeReason::ParkedThreads => "parked threads",
        }
    }
}

/// The wedge-kill decision: parked threads are checked first, as the more
/// specific diagnosis; then whether the missed-pong threshold of ping
/// intervals has passed since the last pong.
pub open spec fn wedge_spec(
    last_pong_at: u64,
    now: u64,
    ping_interval: u64,
    missed_pong_threshold: u32,
    parked_count: usize,
    parked_kill_threshold: usize,
) -> Option<WedgeReason> {
    if parked_count >= parked_kill_threshold {
        Some(WedgeReason::ParkedThreads)
    } else if elapsed(last_pong_at, now) >= ping_interval * missed_pong_threshold {
        Some(WedgeReason::MissedHeartbeats)
    } else {
        None
    }
}

/// Decides whether an outpost should be killed and respawned, and why.
pub fn wedge_decision(
    last_pong_at: u64,
    now: u64,
    ping_interval: u64,
    missed_pong_threshold: u32,
    parked_count: usize,
    parked_kill_threshold: usize,
) -> (r: Option<WedgeReason>)
    ensures
        r == wedge_spec(
            last_pong_at,
            now,
            ping_interval,
            missed_pong_threshold,
            parked_count,
            parked_kill_threshold,
        ),
{
    if parked_count >= parked_kill_threshold {
        return Some(WedgeReason::ParkedThreads);
    }
    let since = now.saturating_sub(last_pong_at);
    let interval = ping_interval as u128;
    let missed = missed_pong_threshold as u128;
    assert(interval * missed <= u64::MAX * u32::MAX) by (nonlinear_arith)
        requires
            interval <= u64::MAX,
            missed <= u32::MAX,
    ;
    if (since as u128) >= interval * missed {
        return Some(WedgeReason::MissedHeartbeats);
    }
    None
}

/// A focus fact held until its outpost is ready to receive it.
#[derive(Clone, Debug, PartialEq)]
pub struct PendingFact<T, S> {
    /// Trace ID the listener minted when it observed the OS event.
    pub trace_id: T,
    /// Milliseconds since the Unix epoch when the OS event was observed.
    pub observed_at_ms: u64,
    /// The routed fact.
    pub fact: DeliveredFact<S>,
}

/// The slot a fact is queued in: foreground, MSAA focus, UIA focus, menu
/// popup, in flush order.
pub open spec fn slot_of<S>(fact: DeliveredFact<S>) -> int {
    match fact {
        DeliveredFact::Foreground { .. } => 0,
        DeliveredFact::MsaaFocus { .. } => 1,
        DeliveredFact::UiaFocus { .. } => 2,
        DeliveredFact::MenuPopup { .. } => 3,
    }
}

/// The values present in a sequence of optional values, in order.
pub open spec fn present<X>(slots: Seq<Option<X>>) -> Seq<X> {
    slots.filter_map(|o: Option<X>| o)
}

/// The per-outpost queue of focus facts that arrived while the outpost was
/// still spawning: one slot per category, each newest-wins. MSAA and UIA
/// focus facts have separate slots, so a spawn that saw both delivers both.
pub struct PendingFacts<T, S> {
    foreground: Option<PendingFact<T, S>>,
    msaa_focus: Option<PendingFact<T, S>>,
    uia_focus: Option<PendingFact<T, S>>,
    menu_popup: Option<PendingFact<T, S>>,
}

impl<T, S> PendingFacts<T, S> {
    /// The four slots in flush order.
    pub closed spec fn slots(&self) -> Seq<Option<PendingFact<T, S>>> {
        seq![self.foreground, self.msaa_focus, self.uia_focus, self.menu_popup]
    }

    /// The empty queue.
    pub closed spec fn empty() -> Self {
        PendingFacts { foreground: None, msaa_focus: None, uia_focus: None, menu_popup: None }
    }

    /// This queue with `pending` stored in its category's slot.
    pub closed spec fn with_stored(self, pending: PendingFact<T, S>) -> Self {
        match pending.fact {
            DeliveredFact::Foreground { .. } => PendingFacts { foreground: Some(pending), ..self },
            DeliveredFact::MsaaFocus { .. } => PendingFacts { msaa_focus: Some(pending), ..self },
            DeliveredFact::UiaFocus { .. } => PendingFacts { uia_focus: Some(pending), ..self },
            DeliveredFact::MenuPopup { .. } => PendingFacts { menu_popup: Some(pending), ..self },
        }
    }

    /// The slots of the empty queue and of a queue after a store.
    pub proof fn lemma_slots(self, pending: PendingFact<T, S>)
        ensures
            Self::empty().slots() == seq![
                None::<PendingFact<T, S>>,
                None::<PendingFact<T, S>>,
                None::<PendingFact<T, S>>,
                None::<PendingFact<T, S>>,
            ],
            self.with_stored(pending).slots() == self.slots().update(slot_of(pending.fact), Some(pending)),
            self.slots().len() == 4,
    {
        assert(Self::empty().slots() =~= seq![
            None::<PendingFact<T, S>>,
            None::<PendingFact<T, S>>,
            None::<PendingFact<T, S>>,
            None::<PendingFact<T, S>>,
        ]);
        assert(self.with_stored(pending).slots() =~= self.slots().update(slot_of(pending.fact), Some(pending)));
    }

    /// An empty queue.
    pub fn new() -> (r: Self)
        ensures
            r == Self::empty(),
            r.slots() == seq![
                None::<PendingFact<T, S>>,
                None::<PendingFact<T, S>>,
                None::<PendingFact<T, S>>,
                None::<PendingFact<T, S>>,
            ],
    {
        PendingFacts { foreground: None, msaa_focus: None, uia_focus: None, menu_popup: None }
    }

    /// Stores `fact` in its category's slot, replacing any older fact there.
    pub fn store(&mut self, trace_id: T, observed_at_ms: u64, fact: DeliveredFact<S>)
        ensures
            *final(self) == old(self).with_stored(PendingFact { trace_id, observed_at_ms, fact }),
            final(self).slots() == old(self).slots().update(
                slot_of(fact),
                Some(PendingFact { trace_id, observed_at_ms, fact }),
            ),
    {
        let ghost g = PendingFact { trace_id, observed_at_ms, fact };
        let slot = match &fact {
            DeliveredFact::Foreground { .. } => 0u8,
            DeliveredFact::MsaaFocus { .. } => 1u8,
            DeliveredFact::UiaFocus { .. } => 2u8,
            DeliveredFact::MenuPopup { .. } => 3u8,
        };
        let pending = PendingFact { trace_id, observed_at_ms, fact };
        if slot == 0 {
            self.foreground = Some(pending);
        } else if slot == 1 {
            self.msaa_focus = Some(pending);
        } else if slot == 2 {
            self.uia_focus = Some(pending);
        } else {
            self.menu_popup = Some(pending);
        }
        assert(self.slots() =~= old(self).slots().update(slot_of(fact), Some(g)));
    }

    /// Takes the queued facts in the fixed flush order foreground, MSAA focus,
    /// UIA focus, menu popup, leaving every slot empty.
    pub fn drain(&mut self) -> (r: Vec<PendingFact<T, S>>)
        ensures
            r@ == present(old(self).slots()),
            *final(self) == Self::empty(),
            final(self).slots() == seq![
                None::<PendingFact<T, S>>,
                None::<PendingFact<T, S>>,
                None::<PendingFact<T, S>>,
                None::<PendingFact<T, S>>,
            ],
    {
        let ghost slots = self.slots();
        let mut out: Vec<PendingFact<T, S>> = Vec::new();
        let first = self.foreground.take();
        let second = self.msaa_focus.take();
        let third = self.uia_focus.take();
        let fourth = self.menu_popup.take();
        proof {
            broadcast use Seq::lemma_filter_map_take_succ;
            let f = |o: Option<PendingFact<T, S>>| o;
            slots.lemma_filter_map_take_succ(f, 0);
            slots.lemma_filter_map_take_succ(f, 1);
            slots.lemma_filter_map_take_succ(f, 2);
            slots.lemma_filter_map_take_succ(f, 3);
            assert(slots.take(0) =~= Seq::<Option<PendingFact<T, S>>>::empty());
            assert(slots.take(4) =~= slots);
        }
        if let Some(p) = first {
            out.push(p);
        }
        assert(out@ == slots.take(1).filter_map(|o: Option<PendingFact<T, S>>| o));
        if let Some(p) = second {
            out.push(p);
        }
        assert(out@ == slots.take(2).filter_map(|o: Option<PendingFact<T, S>>| o));
        if let Some(p) = third {
            out.push(p);
        }
        assert(out@ == slots.take(3).filter_map(|o: Option<PendingFact<T, S>>| o));
        if let Some(p) = fourth {
            out.push(p);
        }
        assert(self.slots() =~= seq![
            None::<PendingFact<T, S>>,
            None::<PendingFact<T, S>>,
            None::<PendingFact<T, S>>,
            None::<PendingFact<T, S>>,
        ]);
        out
    }
}

/// Of two facts stored in turn, the later one wins when they share a
/// category, and both survive when they do not.
pub proof fn law_newest_fact_wins_within_its_category<T, S>(
    slots: Seq<Option<PendingFact<T, S>>>,
    first: PendingFact<T, S>,
    second: PendingFact<T, S>,
)
    requires
        slots.len() == 4,
    ensures
        ({
            let after = slots.update(slot_of(first.fact), Some(first)).update(
                slot_of(second.fact),
                Some(second),
            );
            &&& after[slot_of(second.fact)] == Some(second)
            &&& slot_of(first.fact) != slot_of(second.fact) ==> after[slot_of(first.fact)] == Some(
                first,
            )
        }),
{
}

/// One live outpost as the supervisor's decisions see it.
pub struct OutpostRecord<T, S> {
    /// The application the outpost watches, fixed for its whole life.
    pub pid: u32,
    /// Which spawn this is; messages from an older spawn are ignored.
    pub generation: u64,
    /// When the watched application last held foreground.
    pub last_foreground_at: u64,
    /// When the most recent pong arrived (the spawn time before the first).
    pub last_pong_at: u64,
    /// The parked-thread count from the most recent pong, 0 before the first.
    pub last_parked_count: usize,
    /// Whether the outpost has sent its `Ready`.
    pub ready: bool,
    /// Facts routed to the outpost before it was ready.
    pub pending: PendingFacts<T, S>,
}

/// The record of an outpost just spawned for `pid` at `now`.
pub open spec fn spawned_record<T, S>(pid: u32, generation: u64, now: u64) -> OutpostRecord<T, S> {
    OutpostRecord {
        pid,
        generation,
        last_foreground_at: now,
        last_pong_at: now,
        last_parked_count: 0,
        ready: false,
        pending: PendingFacts::empty(),
    }
}

/// No two records watch the same pid.
pub open spec fn unique_pids<T, S>(records: Seq<OutpostRecord<T, S>>) -> bool {
    forall|i: int, j: int|
        0 <= i < records.len() && 0 <= j < records.len() && i != j ==> records[i].pid != records[j].pid
}

/// The position of the record watching `pid`, if any.
pub open spec fn position_of<T, S>(records: Seq<OutpostRecord<T, S>>, pid: u32) -> Option<int> {
    if exists|i: int| 0 <= i < records.len() && records[i].pid == pid {
        Some(choose|i: int| 0 <= i < records.len() && records[i].pid == pid)
    } else {
        None
    }
}

/// The position of the record watching `pid` in its spawn `generation`, if
/// that spawn is still the current one.
pub open spec fn current_position<T, S>(records: Seq<OutpostRecord<T, S>>, pid: u32, generation: u64) -> Option<int> {
    match position_of(records, pid) {
        Some(i) => if records[i].generation == generation {
            Some(i)
        } else {
            None
        },
        None => None,
    }
}

/// What routing a fact to an outpost did.
#[derive(Debug, PartialEq)]
pub enum RouteOutcome<T, S> {
    /// The outpost is ready: write this fact to it now.
    Deliver(PendingFact<T, S>),
    /// The outpost is still spawning: the fact is queued until its `Ready`.
    Queued,
    /// No outpost watches the pid: spawn one first.
    NoOutpost,
}

/// The result of routing `pending` to the outpost watching `pid`.
pub open spec fn route_spec<T, S>(
    records: Seq<OutpostRecord<T, S>>,
    pid: u32,
    pending: PendingFact<T, S>,
) -> (Seq<OutpostRecord<T, S>>, RouteOutcome<T, S>) {
    match position_of(records, pid) {
        None => (records, RouteOutcome::NoOutpost),
        Some(i) => if records[i].ready {
            (records, RouteOutcome::Deliver(pending))
        } else {
            (
                records.update(i, OutpostRecord { pending: records[i].pending.with_stored(pending), ..records[i] }),
                RouteOutcome::Queued,
            )
        },
    }
}

/// The result of the outpost watching `pid` reporting `Ready` from spawn
/// `generation`: the facts to flush, in flush order.
pub open spec fn ready_spec<T, S>(records: Seq<OutpostRecord<T, S>>, pid: u32, generation: u64) -> (
    Seq<OutpostRecord<T, S>>,
    Seq<PendingFact<T, S>>,
) {
    match current_position(records, pid, generation) {
        None => (records, Seq::empty()),
        Some(i) => (
            records.update(i, OutpostRecord { ready: true, pending: PendingFacts::empty(), ..records[i] }),
            present(records[i].pending.slots()),
        ),
    }
}

/// Whether the idle sweep retires `record`: never the current foreground's
/// outpost, never the one watching the supervisor's own process.
pub open spec fn retires<T, S>(
    record: OutpostRecord<T, S>,
    current: Option<u32>,
    own_pid: u32,
    now: u64,
    idle_after: u64,
) -> bool {
    &&& current != Some(record.pid)
    &&& record.pid != own_pid
    &&& is_idle(record.last_foreground_at, now, idle_after)
}

/// What the heartbeat decides for `record`.
pub open spec fn record_wedge<T, S>(
    record: OutpostRecord<T, S>,
    now: u64,
    ping_interval: u64,
    missed_pong_threshold: u32,
    parked_kill_threshold: usize,
) -> Option<WedgeReason> {
    wedge_spec(
        record.last_pong_at,
        now,
        ping_interval,
        missed_pong_threshold,
        record.last_parked_count,
        parked_kill_threshold,
    )
}

/// One heartbeat's decisions: whom to ping, and whom to kill and respawn.
pub struct HeartbeatPlan {
    /// Pids of the outposts to ping, in book order.
    pub ping: Vec<u32>,
    /// Pid, spawn generation and reason of each outpost judged wedged, in
    /// book order.
    pub wedged: Vec<(u32, u64, WedgeReason)>,
}

/// The live outposts, keyed by the pid each one watches.
pub struct OutpostBook<T, S> {
    records: Vec<OutpostRecord<T, S>>,
    generation: u64,
}

impl<T, S> OutpostBook<T, S> {
    /// The records, in book order.
    pub closed spec fn records(&self) -> Seq<OutpostRecord<T, S>> {
        self.records@
    }

    /// The last spawn generation handed out.
    pub closed spec fn last_generation(&self) -> u64 {
        self.generation
    }

    /// No two records watch the same pid.
    pub open spec fn wf(&self) -> bool {
        unique_pids(self.records())
    }

    /// An empty book.
    pub fn new() -> (r: Self)
        ensures
            r.wf(),
            r.records() == Seq::<OutpostRecord<T, S>>::empty(),
            r.last_generation() == 0,
    {
        OutpostBook { records: Vec::new(), generation: 0 }
    }

    /// Hands out the next spawn generation (wrapping at `u64::MAX`).
    pub fn next_generation(&mut self) -> (r: u64)
        ensures
            r == (if old(self).last_generation() == u64::MAX { 0 } else { old(self).last_generation() + 1 }),
            final(self).last_generation() == r,
            final(self).records() == old(self).records(),
    {
        self.generation = self.generation.wrapping_add(1);
        self.generation
    }

    /// The position of the record watching `pid`.
    fn find(&self, pid: u32) -> (r: Option<usize>)
        requires
            self.wf(),
        ensures
            r matches Some(i) ==> position_of(self.records(), pid) == Some(i as int),
            r is None ==> position_of(self.records(), pid) is None,
    {
        let mut i: usize = 0;
        while i < self.records.len()
            invariant
                self.wf(),
                i <= self.records@.len(),
                forall|j: int| 0 <= j < i ==> self.records@[j].pid != pid,
            decreases self.records.len() - i,
        {
            if self.records[i].pid == pid {
                proof {
                    let recs = self.records@;
                    assert(recs[i as int].pid == pid);
                    let j = choose|j: int| 0 <= j < recs.len() && recs[j].pid == pid;
                    assert(j == i as int);
                }
                return Some(i);
            }
            i = i + 1;
        }
        None
    }

    /// Whether an outpost watches `pid`.
    pub fn contains(&self, pid: u32) -> (r: bool)
        requires
            self.wf(),
        ensures
            r == (position_of(self.records(), pid) is Some),
    {
        self.find(pid).is_some()
    }

    /// Records an outpost just spawned for `pid` in spawn `generation`,
    /// replacing any record of an earlier spawn for the same pid.
    pub fn insert_spawned(&mut self, pid: u32, generation: u64, now: u64)
        requires
            old(self).wf(),
        ensures
            final(self).wf(),
            final(self).last_generation() == old(self).last_generation(),
            final(self).records() == (match position_of(old(self).records(), pid) {
                Some(i) => old(self).records().update(i, spawned_record(pid, generation, now)),
                None => old(self).records().push(spawned_record(pid, generation, now)),
            }),
    {
        let record = OutpostRecord {
            pid,
            generation,
            last_foreground_at: now,
            last_pong_at: now,
            last_parked_count: 0,
            ready: false,
            pending: PendingFacts::new(),
        };
        match self.find(pid) {
            Some(i) => {
                self.records.set(i, record);
            },
            None => {
                self.records.push(record);
            },
        }
    }

    /// Notes that the application `pid` now holds foreground; returns whether
    /// an outpost watches it (when none does, one must be spawned).
    pub fn note_foreground(&mut self, pid: u32, now: u64) -> (r: bool)
        requires
            old(self).wf(),
        ensures
            final(self).wf(),
            final(self).last_generation() == old(self).last_generation(),
            r == (position_of(old(self).records(), pid) is Some),
            final(self).records() == (match position_of(old(self).records(), pid) {
                Some(i) => old(self).records().update(
                    i,
                    OutpostRecord { last_foreground_at: now, ..old(self).records()[i] },
                ),
                None => old(self).records(),
            }),
    {
        match self.find(pid) {
            Some(i) => {
                let mut record = self.records.remove(i);
                record.last_foreground_at = now;
                self.records.insert(i, record);
                assert(self.records@ =~= old(self).records@.update(
                    i as int,
                    OutpostRecord { last_foreground_at: now, ..old(self).records@[i as int] },
                ));
                true
            },
            None => false,
        }
    }

    /// Routes a fact to the outpost watching `pid`: handed back for delivery
    /// when the outpost is ready, queued newest-wins per category when it is
    /// still spawning.
    pub fn route(&mut self, pid: u32, trace_id: T, observed_at_ms: u64, fact: DeliveredFact<S>) -> (r: RouteOutcome<T, S>)
        requires
            old(self).wf(),
        ensures
            final(self).wf(),
            final(self).last_generation() == old(self).last_generation(),
            (final(self).records(), r) == route_spec(
                old(self).records(),
                pid,
                PendingFact { trace_id, observed_at_ms, fact },
            ),
    {
        let ghost pending = PendingFact { trace_id, observed_at_ms, fact };
        match self.find(pid) {
            None => RouteOutcome::NoOutpost,
            Some(i) => {
                if self.records[i].ready {
                    RouteOutcome::Deliver(PendingFact { trace_id, observed_at_ms, fact })
                } else {
                    let mut record = self.records.remove(i);
                    record.pending.store(trace_id, observed_at_ms, fact);
                    self.records.insert(i, record);
                    assert(self.records@ =~= old(self).records@.update(
                        i as int,
                        OutpostRecord {
                            pending: old(self).records@[i as int].pending.with_stored(pending),
                            ..old(self).records@[i as int]
                        },
                    ));
                    RouteOutcome::Queued
                }
            },
        }
    }

    /// The position of the record of spawn `generation` for `pid`, if that
    /// spawn is still current.
    fn find_current(&self, pid: u32, generation: u64) -> (r: Option<usize>)
        requires
            self.wf(),
        ensures
            r matches Some(i) ==> current_position(self.records(), pid, generation) == Some(i as int),
            r is None ==> current_position(self.records(), pid, generation) is None,
    {
        match self.find(pid) {
            Some(i) => if self.records[i].generation == generation {
                Some(i)
            } else {
                None
            },
            None => None,
        }
    }

    /// Marks the outpost of spawn `generation` for `pid` ready and hands back
    /// the facts queued while it spawned, in flush order. A `Ready` from a
    /// spawn that has since been replaced or retired changes nothing.
    pub fn on_ready(&mut self, pid: u32, generation: u64) -> (r: Vec<PendingFact<T, S>>)
        requires
            old(self).wf(),
        ensures
            final(self).wf(),
            final(self).last_generation() == old(self).last_generation(),
            (final(self).records(), r@) == ready_spec(old(self).records(), pid, generation),
    {
        match self.find_current(pid, generation) {
            None => Vec::new(),
            Some(i) => {
                let mut record = self.records.remove(i);
                record.ready = true;
                let flushed = record.pending.drain();
                self.records.insert(i, record);
                assert(self.records@ =~= old(self).records@.update(
                    i as int,
                    OutpostRecord { ready: true, pending: PendingFacts::empty(), ..old(self).records@[i as int] },
                ));
                flushed
            },
        }
    }

    /// Records a pong from the outpost of spawn `generation` for `pid`. A pong
    /// from a spawn that has since been replaced or retired changes nothing.
    pub fn record_pong(&mut self, pid: u32, generation: u64, parked_count: usize, now: u64)
        requires
            old(self).wf(),
        ensures
            final(self).wf(),
            final(self).last_generation() == old(self).last_generation(),
            final(self).records() == (match current_position(old(self).records(), pid, generation) {
                Some(i) => old(self).records().update(
                    i,
                    OutpostRecord { last_pong_at: now, last_parked_count: parked_count, ..old(self).records()[i] },
                ),
                None => old(self).records(),
            }),
    {
        if let Some(i) = self.find_current(pid, generation) {
            let mut record = self.records.remove(i);
            record.last_pong_at = now;
            record.last_parked_count = parked_count;
            self.records.insert(i, record);
            assert(self.records@ =~= old(self).records@.update(
                i as int,
                OutpostRecord { last_pong_at: now, last_parked_count: parked_count, ..old(self).records@[i as int] },
            ));
        }
    }

    /// Removes the record of spawn `generation` for `pid` if that spawn is
    /// still current (its process exited, or it is being killed as wedged);
    /// returns whether it was. A spawn already replaced or retired is left
    /// alone.
    pub fn remove_if_current(&mut self, pid: u32, generation: u64) -> (r: bool)
        requires
            old(self).wf(),
        ensures
            final(self).wf(),
            final(self).last_generation() == old(self).last_generation(),
            r == (current_position(old(self).records(), pid, generation) is Some),
            final(self).records() == (match current_position(old(self).records(), pid, generation) {
                Some(i) => old(self).records().remove(i),
                None => old(self).records(),
            }),
    {
        match self.find_current(pid, generation) {
            Some(i) => {
                self.records.remove(i);
                proof {
                    let o = old(self).records@;
                    assert forall|a: int, b: int|
                        0 <= a < self.records@.len() && 0 <= b < self.records@.len() && a != b implies self.records@[a].pid
                        != self.records@[b].pid by {
                        let oa = if a < i { a } else { a + 1 };
                        let ob = if b < i { b } else { b + 1 };
                        assert(self.records@[a] == o[oa]);
                        assert(self.records@[b] == o[ob]);
                    }
                }
                true
            },
            None => false,
        }
    }

    /// Decides one heartbeat: every outpost the wedge policy judges wedged is
    /// to be killed and respawned, every other one pinged.
    #[verifier::loop_isolation(false)]
    pub fn heartbeat(&self, now: u64, ping_interval: u64, missed_pong_threshold: u32, parked_kill_threshold: usize) -> (r: HeartbeatPlan)
        ensures
            r.ping@ == self.records().filter_map(
                |rec: OutpostRecord<T, S>|
                    if record_wedge(rec, now, ping_interval, missed_pong_threshold, parked_kill_threshold) is None {
                        Some(rec.pid)
                    } else {
                        None
                    },
            ),
            r.wedged@ == self.records().filter_map(
                |rec: OutpostRecord<T, S>|
                    match record_wedge(rec, now, ping_interval, missed_pong_threshold, parked_kill_threshold) {
                        Some(reason) => Some((rec.pid, rec.generation, reason)),
                        None => None,
                    },
            ),
    {
        let ghost recs = self.records@;
        let ghost fp = |rec: OutpostRecord<T, S>|
            if record_wedge(rec, now, ping_interval, missed_pong_threshold, parked_kill_threshold) is None {
                Some(rec.pid)
            } else {
                None
            };
        let ghost fw = |rec: OutpostRecord<T, S>|
            match record_wedge(rec, now, ping_interval, missed_pong_threshold, parked_kill_threshold) {
                Some(reason) => Some((rec.pid, rec.generation, reason)),
                None => None,
            };
        let mut ping: Vec<u32> = Vec::new();
        let mut wedged: Vec<(u32, u64, WedgeReason)> = Vec::new();
        let mut i: usize = 0;
        assert(recs.take(0) =~= Seq::<OutpostRecord<T, S>>::empty());
        while i < self.records.len()
            invariant
                recs == self.records@,
                i <= recs.len(),
                ping@ == recs.take(i as int).filter_map(fp),
                wedged@ == recs.take(i as int).filter_map(fw),
            decreases self.records.len() - i,
        {
            proof {
                recs.lemma_filter_map_take_succ(fp, i as int);
                recs.lemma_filter_map_take_succ(fw, i as int);
            }
            let record = &self.records[i];
            let decision = wedge_decision(
                record.last_pong_at,
                now,
                ping_interval,
                missed_pong_threshold,
                record.last_parked_count,
                parked_kill_threshold,
            );
            assert(decision == record_wedge(recs[i as int], now, ping_interval, missed_pong_threshold, parked_kill_threshold));
            match decision {
                Some(reason) => {
                    wedged.push((record.pid, record.generation, reason));
                    assert(fp(recs[i as int]) is None);
                    assert(fw(recs[i as int]) == Some((record.pid, record.generation, reason)));
                },
                None => {
                    ping.push(record.pid);
                    assert(fp(recs[i as int]) == Some(record.pid));
                    assert(fw(recs[i as int]) is None);
                },
            }
            assert(ping@ =~= recs.take(i + 1).filter_map(fp));
            assert(wedged@ =~= recs.take(i + 1).filter_map(fw));
            i = i + 1;
        }
        assert(recs.take(recs.len() as int) =~= recs);
        HeartbeatPlan { ping, wedged }
    }

    /// Retires every idle outpost: removes its record and returns its pid, in
    /// book order. The current foreground's outpost and the one watching the
    /// supervisor's own process are never retired.
    #[verifier::loop_isolation(false)]
    pub fn sweep_idle(&mut self, current: Option<u32>, own_pid: u32, now: u64, idle_after: u64) -> (r: Vec<u32>)
        requires
            old(self).wf(),
        ensures
            final(self).wf(),
            final(self).last_generation() == old(self).last_generation(),
            r@ == old(self).records().filter_map(
                |rec: OutpostRecord<T, S>|
                    if retires(rec, current, own_pid, now, idle_after) {
                        Some(rec.pid)
                    } else {
                        None
                    },
            ),
            final(self).records() == old(self).records().filter_map(
                |rec: OutpostRecord<T, S>|
                    if retires(rec, current, own_pid, now, idle_after) {
                        None
                    } else {
                        Some(rec)
                    },
            ),
    {
        let ghost recs = self.records@;
        let ghost fr = |rec: OutpostRecord<T, S>|
            if retires(rec, current, own_pid, now, idle_after) {
                Some(rec.pid)
            } else {
                None
            };
        let ghost fk = |rec: OutpostRecord<T, S>|
            if retires(rec, current, own_pid, now, idle_after) {
                None
            } else {
                Some(rec)
            };
        let mut rest: Vec<OutpostRecord<T, S>> = Vec::new();
        std::mem::swap(&mut rest, &mut self.records);
        let mut retired: Vec<u32> = Vec::new();
        let mut k: usize = 0;
        assert(recs.len() == rest.len());
        assert(recs.take(0) =~= Seq::<OutpostRecord<T, S>>::empty());
        while rest.len() > 0
            invariant
                k <= recs.len() <= usize::MAX,
                rest@ == recs.skip(k as int),
                unique_pids(recs),
                unique_pids(self.records@),
                forall|a: int, m: int| 0 <= a < self.records@.len() && k <= m < recs.len() ==> self.records@[a].pid != recs[m].pid,
                retired@ == recs.take(k as int).filter_map(fr),
                self.records@ == recs.take(k as int).filter_map(fk),
                self.generation == old(self).generation,
            decreases rest.len(),
        {
            proof {
                recs.lemma_filter_map_take_succ(fr, k as int);
                recs.lemma_filter_map_take_succ(fk, k as int);
            }
            assert(k < recs.len());
            let record = rest.remove(0);
            assert(record == recs[k as int]);
            let keep = match current {
                Some(c) => c == record.pid,
                None => false,
            } || record.pid == own_pid || !idle_decision(record.last_foreground_at, now, idle_after);
            if keep {
                let ghost before = self.records@;
                self.records.push(record);
                proof {
                    assert forall|a: int, b: int|
                        0 <= a < self.records@.len() && 0 <= b < self.records@.len() && a != b implies self.records@[a].pid
                        != self.records@[b].pid by {
                        if a < before.len() && b < before.len() {
                        } else if a < before.len() {
                            assert(self.records@[b] == recs[k as int]);
                        } else {
                            assert(self.records@[a] == recs[k as int]);
                        }
                    }
                }
                assert(fk(recs[k as int]) == Some(recs[k as int]));
                assert(fr(recs[k as int]) is None);
            } else {
                retired.push(record.pid);
                assert(fk(recs[k as int]) is None);
                assert(fr(recs[k as int]) == Some(recs[k as int].pid));
            }
            assert(self.records@ =~= recs.take(k + 1).filter_map(fk));
            assert(retired@ =~= recs.take(k + 1).filter_map(fr));
            assert(rest@ =~= recs.skip(k + 1));
            k = k + 1;
        }
        assert(k == recs.len());
        assert(recs.take(recs.len() as int) =~= recs);
        retired
    }
}

/// A message from a spawn that has since been replaced or retired changes
/// nothing: a stale `Ready` flushes nothing.
pub proof fn law_stale_ready_changes_nothing<T, S>(records: Seq<OutpostRecord<T, S>>, pid: u32, generation: u64)
    requires
        current_position(records, pid, generation) is None,
    ensures
        ready_spec(records, pid, generation) == (records, Seq::<PendingFact<T, S>>::empty()),
{
}

/// A fact routed to an outpost that is still spawning is handed over by that
/// spawn's `Ready`, unless a newer fact of its category replaced it first.
pub proof fn law_queued_fact_is_flushed_on_ready<T, S>(
    records: Seq<OutpostRecord<T, S>>,
    pid: u32,
    pending: PendingFact<T, S>,
)
    requires
        unique_pids(records),
        position_of(records, pid) is Some,
        !records[position_of(records, pid)->0].ready,
    ensures
        ({
            let (after, outcome) = route_spec(records, pid, pending);
            let generation = records[position_of(records, pid)->0].generation;
            &&& outcome == RouteOutcome::<T, S>::Queued
            &&& ready_spec(after, pid, generation).1.contains(pending)
        }),
{
    let i = position_of(records, pid)->0;
    let (after, outcome) = route_spec(records, pid, pending);
    let generation = records[i].generation;
    let queued = records[i].pending.with_stored(pending);
    records[i].pending.lemma_slots(pending);
    assert(after[i].pid == pid);
    assert(position_of(after, pid) == Some(i)) by {
        let j = choose|j: int| 0 <= j < after.len() && after[j].pid == pid;
        if j != i {
            assert(after[j] == records[j]);
        }
    }
    let slots = queued.slots();
    let f = |o: Option<PendingFact<T, S>>| o;
    let k = slot_of(pending.fact);
    assert(slots[k] == Some(pending));
    assert(slots.take(k + 1).filter_map(f) =~= slots.take(k).filter_map(f).push(pending)) by {
        slots.lemma_filter_map_take_succ(f, k);
    }
    assert(slots.take(k + 1).filter_map(f).contains(pending)) by {
        assert(slots.take(k + 1).filter_map(f)[slots.take(k).filter_map(f).len() as int] == pending);
    }
    lemma_filter_map_prefix_contained(slots, f, k + 1, pending);
}

/// An element of the filtered prefix is an element of the whole filtered
/// sequence.
proof fn lemma_filter_map_prefix_contained<A, B>(s: Seq<A>, f: spec_fn(A) -> Option<B>, n: int, b: B)
    requires
        0 <= n <= s.len(),
        s.take(n).filter_map(f).contains(b),
    ensures
        s.filter_map(f).contains(b),
    decreases s.len() - n,
{
    if n == s.len() {
        assert(s.take(n) =~= s);
    } else {
        s.lemma_filter_map_take_succ(f, n);
        let w = choose|w: int| 0 <= w < s.take(n).filter_map(f).len() && s.take(n).filter_map(f)[w] == b;
        assert(s.take(n + 1).filter_map(f)[w] == b);
        lemma_filter_map_prefix_contained(s, f, n + 1, b);
    }
}

/// The idle sweep keeps the outposts of the current foreground and of the
/// supervisor's own process, and every outpost that is not idle.
pub proof fn law_sweep_keeps_what_it_must<T, S>(
    records: Seq<OutpostRecord<T, S>>,
    current: Option<u32>,
    own_pid: u32,
    now: u64,
    idle_after: u64,
    i: int,
)
    requires
        0 <= i < records.len(),
        current == Some(records[i].pid) || records[i].pid == own_pid || !is_idle(
            records[i].last_foreground_at,
            now,
            idle_after,
        ),
    ensures
        records.filter_map(
            |rec: OutpostRecord<T, S>|
                if retires(rec, current, own_pid, now, idle_after) {
                    None
                } else {
                    Some(rec)
                },
        ).contains(records[i]),
{
    let f = |rec: OutpostRecord<T, S>|
        if retires(rec, current, own_pid, now, idle_after) {
            None
        } else {
            Some(rec)
        };
    records.lemma_filter_map_take_succ(f, i);
    assert(records.take(i + 1).filter_map(f) =~= records.take(i).filter_map(f).push(records[i]));
    assert(records.take(i + 1).filter_map(f)[records.take(i).filter_map(f).len() as int] == records[i]);
    lemma_filter_map_prefix_contained(records, f, i + 1, records[i]);
}


/// The focus listener's running process as the supervisor tracks it: its
/// spawn generation and when it last answered a ping.
#[derive(Clone, Copy, Debug, PartialEq, Eq)]
pub struct ListenerRecord {
    /// The spawn generation.
    pub generation: u64,
    /// Milliseconds reading of the last pong, or of the spawn.
    pub last_pong_at: u64,
}

/// What one heartbeat does about the listener.
#[derive(Clone, Copy, Debug, PartialEq, Eq)]
pub enum ListenerBeat {
    /// The slot is empty (a spawn failed): spawn one.
    Spawn,
    /// The listener is healthy: ping it.
    Ping,
    /// The listener of this generation is wedged: kill and respawn it.
    Wedged(u64, WedgeReason),
}

/// The listener's dedicated slot: one permanent process, supervised by the
/// same wedge policy as the outposts, never idle-retired, never parking a
/// thread.
pub struct ListenerSlot {
    running: Option<ListenerRecord>,
}

impl View for ListenerSlot {
    type V = Option<ListenerRecord>;

    closed spec fn view(&self) -> Option<ListenerRecord> {
        self.running
    }
}

/// The heartbeat's decision for the listener slot.
pub open spec fn listener_beat_spec(slot: Option<ListenerRecord>, now: u64, ping_interval: u64, missed_pong_threshold: u32) -> ListenerBeat {
    match slot {
        None => ListenerBeat::Spawn,
        Some(rec) => match wedge_spec(rec.last_pong_at, now, ping_interval, missed_pong_threshold, 0, PARKED_THREAD_KILL_THRESHOLD) {
            Some(reason) => ListenerBeat::Wedged(rec.generation, reason),
            None => ListenerBeat::Ping,
        },
    }
}

impl ListenerSlot {
    /// An empty slot.
    pub fn new() -> (r: Self)
        ensures
            r@ is None,
    {
        ListenerSlot { running: None }
    }

    /// Fills the slot with a listener just spawned in `generation` at `now`.
    pub fn spawned(&mut self, generation: u64, now: u64)
        ensures
            final(self)@ == Some(ListenerRecord { generation, last_pong_at: now }),
    {
        self.running = Some(ListenerRecord { generation, last_pong_at: now });
    }

    /// Whether the slot holds a listener.
    pub fn is_filled(&self) -> (r: bool)
        ensures
            r == self@ is Some,
    {
        self.running.is_some()
    }

    /// Records a pong from the listener of `generation` at `now`; a pong from
    /// a listener already replaced changes nothing.
    pub fn record_pong(&mut self, generation: u64, now: u64)
        ensures
            final(self)@ == match old(self)@ {
                Some(rec) => if rec.generation == generation {
                    Some(ListenerRecord { last_pong_at: now, ..rec })
                } else {
                    Some(rec)
                },
                None => None,
            },
    {
        if let Some(rec) = &mut self.running {
            if rec.generation == generation {
                rec.last_pong_at = now;
            }
        }
    }

    /// Empties the slot when it still holds the listener of `generation`,
    /// for a kill-and-respawn or an end-of-stream respawn; returns whether it
    /// did. A late report about a listener already replaced is a no-op.
    pub fn take_if_current(&mut self, generation: u64) -> (r: bool)
        ensures
            r == (old(self)@ matches Some(rec) && rec.generation == generation),
            final(self)@ == if r {
                None
            } else {
                old(self)@
            },
    {
        match self.running {
            Some(rec) => if rec.generation == generation {
                self.running = None;
                true
            } else {
                false
            },
            None => false,
        }
    }

    /// Decides one heartbeat for the listener.
    pub fn heartbeat(&self, now: u64, ping_interval: u64, missed_pong_threshold: u32) -> (r: ListenerBeat)
        ensures
            r == listener_beat_spec(self@, now, ping_interval, missed_pong_threshold),
    {
        match self.running {
            None => ListenerBeat::Spawn,
            Some(rec) => match wedge_decision(rec.last_pong_at, now, ping_interval, missed_pong_threshold, 0, PARKED_THREAD_KILL_THRESHOLD) {
                Some(reason) => ListenerBeat::Wedged(rec.generation, reason),
                None => ListenerBeat::Ping,
            },
        }
    }
}

/// The listener is never killed for parked threads: it reports none, so
/// only missed heartbeats wedge it.
pub proof fn law_listener_wedges_only_on_missed_heartbeats(
    rec: ListenerRecord,
    now: u64,
    ping_interval: u64,
    missed_pong_threshold: u32,
)
    ensures
        listener_beat_spec(Some(rec), now, ping_interval, missed_pong_threshold) != ListenerBeat::Wedged(
            rec.generation,
            WedgeReason::ParkedThreads,
        ),
{
}

} // verus!
