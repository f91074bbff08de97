//! The report of a run: what is kept of a counting context when it is exported.
use crate::global_counts::{Counts, CycleHistogram, Event, GlobalCountsCtx, RunStage};
use vstd::prelude::*;

verus! {

/// Lifetime counts, the idle and busy histograms, the final stage and the
/// full event log of a run.
pub struct Report {
    pub all_counts: Counts,
    pub idle_histo: CycleHistogram,
    pub busy_histo: CycleHistogram,
    pub final_stage: RunStage,
    pub events: Vec<Event>,
}

fn copy_histogram(h: &CycleHistogram) -> (r: CycleHistogram)
    ensures
        r@ == h@,
{
    CycleHistogram {
        loads: h.loads.clone(),
        stores: h.stores.clone(),
        computes: h.computes.clone(),
        load_or_stores: h.load_or_stores.clone(),
    }
}

fn copy_events(events: &Vec<Event>) -> (r: Vec<Event>)
    ensures
        r@ == events@,
{
    let mut out: Vec<Event> = Vec::new();
    let mut i: usize = 0;
    while i < events.len()
        invariant
            i <= events@.len(),
            out@ == events@.subrange(0, i as int),
        decreases events@.len() - i,
    {
        out.push(events[i]);
        i = i + 1;
    }
    assert(events@.subrange(0, events@.len() as int) =~= events@);
    out
}

/// The report of `ctx` as it stands; `ctx` itself is not changed.
pub fn snapshot_report(ctx: &GlobalCountsCtx) -> (r: Report)
    ensures
        r.all_counts == ctx.all_counts,
        r.idle_histo@ == ctx.idle_histo@,
        r.busy_histo@ == ctx.busy_histo@,
        r.final_stage == ctx.current_stage,
        r.events@ == ctx.event_vec@,
{
    Report {
        all_counts: ctx.all_counts,
        idle_histo: copy_histogram(&ctx.idle_histo),
        busy_histo: copy_histogram(&ctx.busy_histo),
        final_stage: ctx.current_stage,
        events: copy_events(&ctx.event_vec),
    }
}

} // verus!
