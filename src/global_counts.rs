//! The counting context: in-flight and lifetime counts per operation class,
//! busy/idle status derived from them, duration histograms and the event log.
use crate::histogram::{add_sample, has_room, record_sample};
use std::collections::BTreeMap;
use vstd::prelude::*;

verus! {

/// Whether a class has operations in flight, and since which cycle. A class
/// that has never been busy has no idle interval to measure yet.
#[derive(Clone, Copy, PartialEq, Eq, Structural, Debug)]
pub enum MemStatus {
    NeverBusy,
    Idle(u64),
    Busy(u64),
}

impl MemStatus {
    /// The cycle at which the current state began.
    pub open spec fn since(self) -> u64 {
        match self {
            MemStatus::NeverBusy => 0,
            MemStatus::Idle(c) => c,
            MemStatus::Busy(c) => c,
        }
    }

    pub open spec fn is_busy(self) -> bool {
        self is Busy
    }
}

/// A span of simulated time, in cycles.
#[derive(Clone, Copy, PartialEq, Eq, Structural, PartialOrd, Ord, Debug)]
pub struct Cycle(pub u64);

/// One counter per operation class.
#[derive(Clone, Copy, PartialEq, Eq, Structural, Debug)]
pub struct Counts {
    pub loads: u64,
    pub stores: u64,
    pub computes: u64,
}

/// One cycle total per operation class, and one for loads and stores together.
#[derive(Clone, Copy, PartialEq, Eq, Structural, Debug)]
pub struct OpCycles {
    pub loads: Cycle,
    pub stores: Cycle,
    pub computes: Cycle,
    pub load_or_stores: Cycle,
}

/// The status of each class, and of loads and stores together.
#[derive(Clone, Copy, PartialEq, Eq, Structural, Debug)]
pub struct CurrentStatus {
    pub loads: MemStatus,
    pub stores: MemStatus,
    pub computes: MemStatus,
    pub load_or_stores: MemStatus,
}

/// One duration histogram per class, and one for loads and stores together.
pub struct CycleHistogram {
    pub loads: BTreeMap<u64, u64>,
    pub stores: BTreeMap<u64, u64>,
    pub computes: BTreeMap<u64, u64>,
    pub load_or_stores: BTreeMap<u64, u64>,
}

/// The contents of a `CycleHistogram`.
pub struct HistoView {
    pub loads: Map<u64, u64>,
    pub stores: Map<u64, u64>,
    pub computes: Map<u64, u64>,
    pub load_or_stores: Map<u64, u64>,
}

impl View for CycleHistogram {
    type V = HistoView;

    open spec fn view(&self) -> HistoView {
        HistoView {
            loads: self.loads@,
            stores: self.stores@,
            computes: self.computes@,
            load_or_stores: self.load_or_stores@,
        }
    }
}

/// Named phases of a simulation run.
#[derive(Clone, Copy, PartialEq, Eq, Structural, Debug)]
pub enum RunStage {
    A,
    B,
    C,
    D,
    E,
    F,
    Finished,
}

/// The operation classes, and loads and stores together.
#[derive(Clone, Copy, PartialEq, Eq, Structural, Debug)]
pub enum MemOp {
    Load,
    Store,
    Compute,
    LoadOrStore,
}

/// What an event records.
#[derive(Clone, Copy, PartialEq, Eq, Structural, Debug)]
pub enum EventType {
    MemEventStart(MemOp),
    MemEventEnd(MemOp),
    StageStart,
    StageEnd,
    NpuStart,
    PimStart,
    NpuFinished,
    PimFinished,
}

/// One entry of the event log.
#[derive(Clone, Copy, PartialEq, Eq, Structural, Debug)]
pub struct Event {
    pub cycle: u64,
    pub stage: RunStage,
    pub event: EventType,
}

/// The state of one simulation run.
pub struct GlobalCountsCtx {
    /// operations in flight now
    pub current_counts: Counts,
    pub current_stage: RunStage,
    pub current_status: CurrentStatus,
    /// lengths of idle intervals
    pub idle_histo: CycleHistogram,
    /// lengths of busy intervals
    pub busy_histo: CycleHistogram,
    pub busy_cycles: OpCycles,
    pub idle_cycles: OpCycles,
    pub event_vec: Vec<Event>,
    /// the cycle of the latest call that carried one
    pub last_cycle: u64,
    /// operations issued since the run began
    pub all_counts: Counts,
}

/// The abstract state of a `GlobalCountsCtx`.
pub struct CtxView {
    pub current_counts: Counts,
    pub current_stage: RunStage,
    pub current_status: CurrentStatus,
    pub idle_histo: HistoView,
    pub busy_histo: HistoView,
    pub busy_cycles: OpCycles,
    pub idle_cycles: OpCycles,
    pub events: Seq<Event>,
    pub last_cycle: u64,
    pub all_counts: Counts,
}

impl View for GlobalCountsCtx {
    type V = CtxView;

    open spec fn view(&self) -> CtxView {
        CtxView {
            current_counts: self.current_counts,
            current_stage: self.current_stage,
            current_status: self.current_status,
            idle_histo: self.idle_histo@,
            busy_histo: self.busy_histo@,
            busy_cycles: self.busy_cycles,
            idle_cycles: self.idle_cycles,
            events: self.event_vec@,
            last_cycle: self.last_cycle,
            all_counts: self.all_counts,
        }
    }
}

/// The idle histogram `h` after a class in status `status` turns busy at
/// `cycle`: the idle interval that ends is recorded with its length, unless
/// that length is zero or the class had never been busy before.
pub open spec fn record_idle(h: Map<u64, u64>, status: MemStatus, cycle: u64) -> Map<u64, u64> {
    match status {
        MemStatus::Idle(since) => if cycle > since {
            add_sample(h, (cycle - since) as u64)
        } else {
            h
        },
        _ => h,
    }
}

/// The combined status is busy exactly when loads or stores are busy.
pub open spec fn combined_consistent(s: CurrentStatus) -> bool {
    s.load_or_stores.is_busy() == (s.loads.is_busy() || s.stores.is_busy())
}

impl CtxView {
    /// The invariant of a counting context.
    pub open spec fn wf(self) -> bool {
        &&& (self.current_counts.loads > 0) == self.current_status.loads.is_busy()
        &&& (self.current_counts.stores > 0) == self.current_status.stores.is_busy()
        &&& combined_consistent(self.current_status)
        &&& self.current_counts.loads <= self.all_counts.loads
        &&& self.current_counts.stores <= self.all_counts.stores
        &&& self.current_counts.computes <= self.all_counts.computes
    }

    /// An event of kind `kind` at `cycle`, tagged with the current stage.
    pub open spec fn event_at(self, cycle: u64, kind: EventType) -> Event {
        Event { cycle, stage: self.current_stage, event: kind }
    }

    /// `cycle` does not precede the start of the load or the combined status.
    pub open spec fn load_cycle_ok(self, cycle: u64) -> bool {
        self.current_status.loads.since() <= cycle && self.current_status.load_or_stores.since()
            <= cycle
    }

    /// `cycle` does not precede the start of the store or the combined status.
    pub open spec fn store_cycle_ok(self, cycle: u64) -> bool {
        self.current_status.stores.since() <= cycle && self.current_status.load_or_stores.since()
            <= cycle
    }

    /// The load and combined histograms can each take one more sample.
    pub open spec fn load_room(self) -> bool {
        &&& has_room(self.idle_histo.loads)
        &&& has_room(self.busy_histo.loads)
        &&& has_room(self.idle_histo.load_or_stores)
        &&& has_room(self.busy_histo.load_or_stores)
    }

    /// The store and combined histograms can each take one more sample.
    pub open spec fn store_room(self) -> bool {
        &&& has_room(self.idle_histo.stores)
        &&& has_room(self.busy_histo.stores)
        &&& has_room(self.idle_histo.load_or_stores)
        &&& has_room(self.busy_histo.load_or_stores)
    }

    /// The combined status goes busy at `cycle`, if it was idle.
    pub open spec fn combined_started(self, cycle: u64) -> CtxView {
        match self.current_status.load_or_stores {
            MemStatus::Busy(_) => self,
            status => CtxView {
                idle_histo: HistoView {
                    load_or_stores: record_idle(self.idle_histo.load_or_stores, status, cycle),
                    ..self.idle_histo
                },
                current_status: CurrentStatus {
                    load_or_stores: MemStatus::Busy(cycle),
                    ..self.current_status
                },
                events: self.events.push(
                    self.event_at(cycle, EventType::MemEventStart(MemOp::LoadOrStore)),
                ),
                ..self
            },
        }
    }

    /// The combined status goes idle at `cycle`: its busy interval is recorded.
    pub open spec fn combined_ended(self, cycle: u64) -> CtxView {
        let since = self.current_status.load_or_stores.since();
        CtxView {
            busy_histo: HistoView {
                load_or_stores: add_sample(self.busy_histo.load_or_stores, (cycle - since) as u64),
                ..self.busy_histo
            },
            current_status: CurrentStatus {
                load_or_stores: MemStatus::Idle(cycle),
                ..self.current_status
            },
            events: self.events.push(
                self.event_at(cycle, EventType::MemEventEnd(MemOp::LoadOrStore)),
            ),
            ..self
        }
    }

    /// Loads go from idle to busy at `cycle`.
    pub open spec fn loads_started(self, cycle: u64) -> CtxView {
        CtxView {
            idle_histo: HistoView {
                loads: record_idle(self.idle_histo.loads, self.current_status.loads, cycle),
                ..self.idle_histo
            },
            current_status: CurrentStatus { loads: MemStatus::Busy(cycle), ..self.current_status },
            events: self.events.push(self.event_at(cycle, EventType::MemEventStart(MemOp::Load))),
            ..self
        }.combined_started(cycle)
    }

    /// Stores go from idle to busy at `cycle`.
    pub open spec fn stores_started(self, cycle: u64) -> CtxView {
        CtxView {
            idle_histo: HistoView {
                stores: record_idle(self.idle_histo.stores, self.current_status.stores, cycle),
                ..self.idle_histo
            },
            current_status: CurrentStatus {
                stores: MemStatus::Busy(cycle),
                ..self.current_status
            },
            events: self.events.push(self.event_at(cycle, EventType::MemEventStart(MemOp::Store))),
            ..self
        }.combined_started(cycle)
    }

    /// Loads go from busy to idle at `cycle`; the combined status follows
    /// when stores are idle too.
    pub open spec fn loads_ended(self, cycle: u64) -> CtxView {
        let since = self.current_status.loads.since();
        let v = CtxView {
            busy_histo: HistoView {
                loads: add_sample(self.busy_histo.loads, (cycle - since) as u64),
                ..self.busy_histo
            },
            current_status: CurrentStatus { loads: MemStatus::Idle(cycle), ..self.current_status },
            events: self.events.push(self.event_at(cycle, EventType::MemEventEnd(MemOp::Load))),
            ..self
        };
        if self.current_status.stores.is_busy() {
            v
        } else {
            v.combined_ended(cycle)
        }
    }

    /// Stores go from busy to idle at `cycle`; the combined status follows
    /// when loads are idle too.
    pub open spec fn stores_ended(self, cycle: u64) -> CtxView {
        let since = self.current_status.stores.since();
        let v = CtxView {
            busy_histo: HistoView {
                stores: add_sample(self.busy_histo.stores, (cycle - since) as u64),
                ..self.busy_histo
            },
            current_status: CurrentStatus {
                stores: MemStatus::Idle(cycle),
                ..self.current_status
            },
            events: self.events.push(self.event_at(cycle, EventType::MemEventEnd(MemOp::Store))),
            ..self
        };
        if self.current_status.loads.is_busy() {
            v
        } else {
            v.combined_ended(cycle)
        }
    }

    /// The state after `n` loads are issued at `cycle`.
    pub open spec fn after_add_loads(self, n: u64, cycle: u64) -> CtxView {
        let counted = CtxView {
            current_counts: Counts {
                loads: (self.current_counts.loads + n) as u64,
                ..self.current_counts
            },
            all_counts: Counts { loads: (self.all_counts.loads + n) as u64, ..self.all_counts },
            last_cycle: cycle,
            ..self
        };
        if n > 0 && self.current_counts.loads == 0 {
            counted.loads_started(cycle)
        } else {
            counted
        }
    }

    /// The state after `n` stores are issued at `cycle`.
    pub open spec fn after_add_stores(self, n: u64, cycle: u64) -> CtxView {
        let counted = CtxView {
            current_counts: Counts {
                stores: (self.current_counts.stores + n) as u64,
                ..self.current_counts
            },
            all_counts: Counts { stores: (self.all_counts.stores + n) as u64, ..self.all_counts },
            last_cycle: cycle,
            ..self
        };
        if n > 0 && self.current_counts.stores == 0 {
            counted.stores_started(cycle)
        } else {
            counted
        }
    }

    /// The state after `n` of the in-flight loads complete at `cycle`
    /// (where `n` does not exceed them).
    pub open spec fn after_reduce_loads(self, n: u64, cycle: u64) -> CtxView {
        let counted = CtxView {
            current_counts: Counts {
                loads: (self.current_counts.loads - n) as u64,
                ..self.current_counts
            },
            last_cycle: cycle,
            ..self
        };
        if n > 0 && self.current_counts.loads == n {
            counted.loads_ended(cycle)
        } else {
            counted
        }
    }

    /// The state after `n` of the in-flight stores complete at `cycle`
    /// (where `n` does not exceed them).
    pub open spec fn after_reduce_stores(self, n: u64, cycle: u64) -> CtxView {
        let counted = CtxView {
            current_counts: Counts {
                stores: (self.current_counts.stores - n) as u64,
                ..self.current_counts
            },
            last_cycle: cycle,
            ..self
        };
        if n > 0 && self.current_counts.stores == n {
            counted.stores_ended(cycle)
        } else {
            counted
        }
    }
}

/// The state of a run that has not begun: nothing in flight, no class ever
/// busy, empty histograms and log, first stage.
pub open spec fn initial_view() -> CtxView {
    let idle = MemStatus::NeverBusy;
    let zero = Counts { loads: 0, stores: 0, computes: 0 };
    let empty = HistoView {
        loads: Map::empty(),
        stores: Map::empty(),
        computes: Map::empty(),
        load_or_stores: Map::empty(),
    };
    let no_cycles = OpCycles {
        loads: Cycle(0),
        stores: Cycle(0),
        computes: Cycle(0),
        load_or_stores: Cycle(0),
    };
    CtxView {
        current_counts: zero,
        current_stage: RunStage::A,
        current_status: CurrentStatus {
            loads: idle,
            stores: idle,
            computes: idle,
            load_or_stores: idle,
        },
        idle_histo: empty,
        busy_histo: empty,
        busy_cycles: no_cycles,
        idle_cycles: no_cycles,
        events: Seq::empty(),
        last_cycle: 0,
        all_counts: zero,
    }
}

fn start_combined(ctx: &mut GlobalCountsCtx, cycle: u64)
    requires
        old(ctx).current_status.load_or_stores.since() <= cycle,
        has_room(old(ctx)@.idle_histo.load_or_stores),
    ensures
        final(ctx)@ == old(ctx)@.combined_started(cycle),
{
    if let MemStatus::Busy(_) = ctx.current_status.load_or_stores {
        return;
    }
    if let MemStatus::Idle(since) = ctx.current_status.load_or_stores {
        let idle: u64 = cycle - since;
        if idle != 0 {
            record_sample(&mut ctx.idle_histo.load_or_stores, idle);
        }
    }
    ctx.current_status.load_or_stores = MemStatus::Busy(cycle);
    let stage = ctx.current_stage;
    ctx.event_vec.push(Event { cycle, stage, event: EventType::MemEventStart(MemOp::LoadOrStore) });
}

fn end_combined(ctx: &mut GlobalCountsCtx, cycle: u64)
    requires
        old(ctx).current_status.load_or_stores.since() <= cycle,
        has_room(old(ctx)@.busy_histo.load_or_stores),
    ensures
        final(ctx)@ == old(ctx)@.combined_ended(cycle),
{
    let since: u64 = match ctx.current_status.load_or_stores {
        MemStatus::Idle(c) | MemStatus::Busy(c) => c,
        MemStatus::NeverBusy => 0,
    };
    record_sample(&mut ctx.busy_histo.load_or_stores, cycle - since);
    ctx.current_status.load_or_stores = MemStatus::Idle(cycle);
    let stage = ctx.current_stage;
    ctx.event_vec.push(Event { cycle, stage, event: EventType::MemEventEnd(MemOp::LoadOrStore) });
}

/// Issues `loads` load operations at `cycle`. When loads were idle and now
/// have operations in flight, the idle interval that ends is recorded (unless
/// it is empty, or loads had never been busy), loads turn busy, and so does
/// the combined status if it was idle. Cycles must not go backwards: `cycle`
/// may not precede the start of the load or the combined status, and a caller
/// that cannot rule this out must check it before the call.
pub fn add_loads(ctx: &mut GlobalCountsCtx, loads: u64, cycle: u64)
    requires
        old(ctx)@.wf(),
        old(ctx)@.load_cycle_ok(cycle),
        old(ctx)@.load_room(),
        old(ctx).all_counts.loads + loads <= u64::MAX,
    ensures
        final(ctx)@.wf(),
        final(ctx)@ == old(ctx)@.after_add_loads(loads, cycle),
        final(ctx).current_counts.loads == old(ctx).current_counts.loads + loads,
        final(ctx).all_counts.loads == old(ctx).all_counts.loads + loads,
        old(ctx).current_status.loads == MemStatus::NeverBusy ==> final(ctx)@.idle_histo.loads
            == old(ctx)@.idle_histo.loads,
{
    let was_idle = ctx.current_counts.loads == 0;
    ctx.current_counts.loads = ctx.current_counts.loads + loads;
    ctx.all_counts.loads = ctx.all_counts.loads + loads;
    ctx.last_cycle = cycle;
    if loads > 0 && was_idle {
        if let MemStatus::Idle(since) = ctx.current_status.loads {
            let idle: u64 = cycle - since;
            if idle != 0 {
                record_sample(&mut ctx.idle_histo.loads, idle);
            }
        }
        ctx.current_status.loads = MemStatus::Busy(cycle);
        let stage = ctx.current_stage;
        ctx.event_vec.push(Event { cycle, stage, event: EventType::MemEventStart(MemOp::Load) });
        start_combined(ctx, cycle);
    }
}

/// Issues `stores` store operations at `cycle`, with the same edge rules as
/// `add_loads`. `cycle` may not precede the start of the store or the
/// combined status.
pub fn add_stores(ctx: &mut GlobalCountsCtx, stores: u64, cycle: u64)
    requires
        old(ctx)@.wf(),
        old(ctx)@.store_cycle_ok(cycle),
        old(ctx)@.store_room(),
        old(ctx).all_counts.stores + stores <= u64::MAX,
    ensures
        final(ctx)@.wf(),
        final(ctx)@ == old(ctx)@.after_add_stores(stores, cycle),
        final(ctx).current_counts.stores == old(ctx).current_counts.stores + stores,
        final(ctx).all_counts.stores == old(ctx).all_counts.stores + stores,
        old(ctx).current_status.stores == MemStatus::NeverBusy ==> final(ctx)@.idle_histo.stores
            == old(ctx)@.idle_histo.stores,
{
    let was_idle = ctx.current_counts.stores == 0;
    ctx.current_counts.stores = ctx.current_counts.stores + stores;
    ctx.all_counts.stores = ctx.all_counts.stores + stores;
    ctx.last_cycle = cycle;
    if stores > 0 && was_idle {
        if let MemStatus::Idle(since) = ctx.current_status.stores {
            let idle: u64 = cycle - since;
            if idle != 0 {
                record_sample(&mut ctx.idle_histo.stores, idle);
            }
        }
        ctx.current_status.stores = MemStatus::Busy(cycle);
        let stage = ctx.current_stage;
        ctx.event_vec.push(Event { cycle, stage, event: EventType::MemEventStart(MemOp::Store) });
        start_combined(ctx, cycle);
    }
}

/// Completes `loads` of the in-flight load operations at `cycle`. Fails, and
/// changes nothing, when fewer are in flight. When none are left, the busy
/// interval that ends is recorded (even an empty one) and loads turn idle;
/// the combined status turns idle too unless stores are still busy. `cycle`
/// may not precede the start of the load or the combined status; a cycle that
/// goes backwards is a caller error, ruled out here rather than clamped.
pub fn reduce_loads(ctx: &mut GlobalCountsCtx, loads: u64, cycle: u64) -> (r: bool)
    requires
        old(ctx)@.wf(),
        old(ctx)@.load_cycle_ok(cycle),
        old(ctx)@.load_room(),
    ensures
        final(ctx)@.wf(),
        r == (loads <= old(ctx).current_counts.loads),
        r ==> final(ctx)@ == old(ctx)@.after_reduce_loads(loads, cycle),
        r ==> final(ctx).current_counts.loads == old(ctx).current_counts.loads - loads,
        !r ==> final(ctx)@ == old(ctx)@,
{
    if ctx.current_counts.loads < loads {
        return false;
    }
    let was_busy = ctx.current_counts.loads > 0;
    ctx.current_counts.loads = ctx.current_counts.loads - loads;
    ctx.last_cycle = cycle;
    if was_busy && ctx.current_counts.loads == 0 {
        let since: u64 = match ctx.current_status.loads {
            MemStatus::Idle(c) | MemStatus::Busy(c) => c,
            MemStatus::NeverBusy => 0,
        };
        record_sample(&mut ctx.busy_histo.loads, cycle - since);
        ctx.current_status.loads = MemStatus::Idle(cycle);
        let stage = ctx.current_stage;
        ctx.event_vec.push(Event { cycle, stage, event: EventType::MemEventEnd(MemOp::Load) });
        if !matches!(ctx.current_status.stores, MemStatus::Busy(_)) {
            end_combined(ctx, cycle);
        }
    }
    true
}

/// Completes `stores` of the in-flight store operations at `cycle`, with the
/// same rules as `reduce_loads`. `cycle` may not precede the start of the
/// store or the combined status.
pub fn reduce_stores(ctx: &mut GlobalCountsCtx, stores: u64, cycle: u64) -> (r: bool)
    requires
        old(ctx)@.wf(),
        old(ctx)@.store_cycle_ok(cycle),
        old(ctx)@.store_room(),
    ensures
        final(ctx)@.wf(),
        r == (stores <= old(ctx).current_counts.stores),
        r ==> final(ctx)@ == old(ctx)@.after_reduce_stores(stores, cycle),
        r ==> final(ctx).current_counts.stores == old(ctx).current_counts.stores - stores,
        !r ==> final(ctx)@ == old(ctx)@,
{
    if ctx.current_counts.stores < stores {
        return false;
    }
    let was_busy = ctx.current_counts.stores > 0;
    ctx.current_counts.stores = ctx.current_counts.stores - stores;
    ctx.last_cycle = cycle;
    if was_busy && ctx.current_counts.stores == 0 {
        let since: u64 = match ctx.current_status.stores {
            MemStatus::Idle(c) | MemStatus::Busy(c) => c,
            MemStatus::NeverBusy => 0,
        };
        record_sample(&mut ctx.busy_histo.stores, cycle - since);
        ctx.current_status.stores = MemStatus::Idle(cycle);
        let stage = ctx.current_stage;
        ctx.event_vec.push(Event { cycle, stage, event: EventType::MemEventEnd(MemOp::Store) });
        if !matches!(ctx.current_status.loads, MemStatus::Busy(_)) {
            end_combined(ctx, cycle);
        }
    }
    true
}

impl Default for GlobalCountsCtx {
    fn default() -> (r: GlobalCountsCtx)
        ensures
            r@ == initial_view(),
    {
        let idle = MemStatus::NeverBusy;
        let zero = Counts { loads: 0, stores: 0, computes: 0 };
        let no_cycles = OpCycles {
            loads: Cycle(0),
            stores: Cycle(0),
            computes: Cycle(0),
            load_or_stores: Cycle(0),
        };
        GlobalCountsCtx {
            current_counts: zero,
            current_stage: RunStage::A,
            current_status: CurrentStatus {
                loads: idle,
                stores: idle,
                computes: idle,
                load_or_stores: idle,
            },
            idle_histo: CycleHistogram {
                loads: BTreeMap::new(),
                stores: BTreeMap::new(),
                computes: BTreeMap::new(),
                load_or_stores: BTreeMap::new(),
            },
            busy_histo: CycleHistogram {
                loads: BTreeMap::new(),
                stores: BTreeMap::new(),
                computes: BTreeMap::new(),
                load_or_stores: BTreeMap::new(),
            },
            busy_cycles: no_cycles,
            idle_cycles: no_cycles,
            event_vec: Vec::new(),
            last_cycle: 0,
            all_counts: zero,
        }
    }
}

/// Begins a run: a fresh context in its initial state.
pub fn new_global_counts_ctx() -> (r: GlobalCountsCtx)
    ensures
        r@ == initial_view(),
        r@.wf(),
{
    GlobalCountsCtx::default()
}

/// Ends a run, releasing its context.
pub fn drop_global_counts_ctx(ctx: GlobalCountsCtx) {
}

/// Enters `stage` at `cycle`: logs its start, tagged with `stage`, and makes
/// it the current stage.
pub fn update_stage(ctx: &mut GlobalCountsCtx, stage: RunStage, cycle: u64)
    ensures
        final(ctx)@ == (CtxView {
            current_stage: stage,
            events: old(ctx)@.events.push(Event { cycle, stage, event: EventType::StageStart }),
            ..old(ctx)@
        }),
{
    ctx.event_vec.push(Event { cycle, stage, event: EventType::StageStart });
    ctx.current_stage = stage;
}

/// Logs the end of `stage` at `cycle`, tagged with `stage`; the current stage
/// is left as it is.
pub fn end_stage(ctx: &mut GlobalCountsCtx, stage: RunStage, cycle: u64)
    ensures
        final(ctx)@ == (CtxView {
            events: old(ctx)@.events.push(Event { cycle, stage, event: EventType::StageEnd }),
            ..old(ctx)@
        }),
{
    ctx.event_vec.push(Event { cycle, stage, event: EventType::StageEnd });
}

/// Logs at `cycle` that the NPU engine has finished, tagged with the current stage.
pub fn npu_finished(ctx: &mut GlobalCountsCtx, cycle: u64)
    ensures
        final(ctx)@ == (CtxView {
            events: old(ctx)@.events.push(old(ctx)@.event_at(cycle, EventType::NpuFinished)),
            ..old(ctx)@
        }),
{
    let stage = ctx.current_stage;
    ctx.event_vec.push(Event { cycle, stage, event: EventType::NpuFinished });
}

/// Logs at `cycle` that the PIM engine has finished, tagged with the current stage.
pub fn pim_finished(ctx: &mut GlobalCountsCtx, cycle: u64)
    ensures
        final(ctx)@ == (CtxView {
            events: old(ctx)@.events.push(old(ctx)@.event_at(cycle, EventType::PimFinished)),
            ..old(ctx)@
        }),
{
    let stage = ctx.current_stage;
    ctx.event_vec.push(Event { cycle, stage, event: EventType::PimFinished });
}

/// Issues `computes` compute operations. Computes take no part in busy/idle
/// tracking.
pub fn add_computes(ctx: &mut GlobalCountsCtx, computes: u64)
    requires
        old(ctx)@.wf(),
        old(ctx).all_counts.computes + computes <= u64::MAX,
    ensures
        final(ctx)@.wf(),
        final(ctx)@ == (CtxView {
            current_counts: Counts {
                computes: (old(ctx).current_counts.computes + computes) as u64,
                ..old(ctx).current_counts
            },
            all_counts: Counts {
                computes: (old(ctx).all_counts.computes + computes) as u64,
                ..old(ctx).all_counts
            },
            ..old(ctx)@
        }),
{
    ctx.current_counts.computes = ctx.current_counts.computes + computes;
    ctx.all_counts.computes = ctx.all_counts.computes + computes;
}

/// Completes `computes` of the in-flight compute operations. Fails, and
/// changes nothing, when fewer are in flight.
pub fn reduce_computes(ctx: &mut GlobalCountsCtx, computes: u64) -> (r: bool)
    requires
        old(ctx)@.wf(),
    ensures
        final(ctx)@.wf(),
        r == (computes <= old(ctx).current_counts.computes),
        r ==> final(ctx)@ == (CtxView {
            current_counts: Counts {
                computes: (old(ctx).current_counts.computes - computes) as u64,
                ..old(ctx).current_counts
            },
            ..old(ctx)@
        }),
        !r ==> final(ctx)@ == old(ctx)@,
{
    if ctx.current_counts.computes < computes {
        return false;
    }
    ctx.current_counts.computes = ctx.current_counts.computes - computes;
    true
}

/// The number of load operations in flight.
pub fn get_loads(ctx: &GlobalCountsCtx) -> (r: u64)
    ensures
        r == ctx.current_counts.loads,
{
    ctx.current_counts.loads
}

/// The number of store operations in flight.
pub fn get_stores(ctx: &GlobalCountsCtx) -> (r: u64)
    ensures
        r == ctx.current_counts.stores,
{
    ctx.current_counts.stores
}

/// The number of compute operations in flight.
pub fn get_computes(ctx: &GlobalCountsCtx) -> (r: u64)
    ensures
        r == ctx.current_counts.computes,
{
    ctx.current_counts.computes
}

} // verus!
