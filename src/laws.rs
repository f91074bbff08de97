//! Properties of the counting context that hold over every input.
use crate::global_counts::{combined_consistent, record_idle, CtxView, MemStatus};
use crate::histogram::add_sample;
use vstd::prelude::*;

verus! {

/// A call that changes the number of loads in flight.
pub enum LoadCall {
    Add { n: u64, cycle: u64 },
    Reduce { n: u64, cycle: u64 },
}

/// The state after `call`, as `add_loads` and `reduce_loads` leave it; a
/// reduce that asks for more than is in flight changes nothing.
pub open spec fn apply_load_call(v: CtxView, call: LoadCall) -> CtxView {
    match call {
        LoadCall::Add { n, cycle } => v.after_add_loads(n, cycle),
        LoadCall::Reduce { n, cycle } => if n <= v.current_counts.loads {
            v.after_reduce_loads(n, cycle)
        } else {
            v
        },
    }
}

/// The state after each of `calls` in turn.
pub open spec fn run_load_calls(v: CtxView, calls: Seq<LoadCall>) -> CtxView
    decreases calls.len(),
{
    if calls.len() == 0 {
        v
    } else {
        apply_load_call(run_load_calls(v, calls.drop_last()), calls.last())
    }
}

/// The sum of the amounts that `calls` add.
pub open spec fn loads_added(calls: Seq<LoadCall>) -> nat
    decreases calls.len(),
{
    if calls.len() == 0 {
        0
    } else {
        loads_added(calls.drop_last()) + match calls.last() {
            LoadCall::Add { n, .. } => n as nat,
            LoadCall::Reduce { .. } => 0,
        }
    }
}

/// The sum of the amounts that the reduces among `calls` take away, counting
/// only those that succeed when run from `v`.
pub open spec fn loads_reduced(v: CtxView, calls: Seq<LoadCall>) -> nat
    decreases calls.len(),
{
    if calls.len() == 0 {
        0
    } else {
        let before = run_load_calls(v, calls.drop_last());
        loads_reduced(v, calls.drop_last()) + match calls.last() {
            LoadCall::Add { .. } => 0,
            LoadCall::Reduce { n, .. } => if n <= before.current_counts.loads {
                n as nat
            } else {
                0
            },
        }
    }
}

/// After any run of load adds and reduces, the loads in flight are those
/// there were, plus all that were added, minus all that were successfully
/// taken away; the count never goes below zero, and the lifetime count grows
/// by exactly what was added.
pub proof fn lemma_load_count_balance(v: CtxView, calls: Seq<LoadCall>)
    requires
        v.all_counts.loads + loads_added(calls) <= u64::MAX,
        v.current_counts.loads <= v.all_counts.loads,
    ensures
        run_load_calls(v, calls).current_counts.loads + loads_reduced(v, calls)
            == v.current_counts.loads + loads_added(calls),
        run_load_calls(v, calls).all_counts.loads == v.all_counts.loads + loads_added(calls),
        run_load_calls(v, calls).current_counts.loads <= run_load_calls(v, calls).all_counts.loads,
    decreases calls.len(),
{
    if calls.len() > 0 {
        lemma_load_count_balance(v, calls.drop_last());
    }
}

/// When loads turn busy after an idle interval that began at `since` (when
/// they last turned idle), that interval is recorded in the load idle
/// histogram with its length, busy start minus idle start, and only when that
/// length is positive. Loads turning busy for the first time record nothing.
pub proof fn lemma_load_idle_edge(v: CtxView, n: u64, cycle: u64)
    requires
        v.wf(),
        v.load_cycle_ok(cycle),
        v.current_counts.loads == 0,
        n > 0,
    ensures
        ({
            let w = v.after_add_loads(n, cycle);
            &&& w.current_status.loads == MemStatus::Busy(cycle)
            &&& w.busy_histo.loads == v.busy_histo.loads
            &&& forall|since: u64|
                v.current_status.loads == MemStatus::Idle(since) ==> {
                    &&& cycle > since ==> w.idle_histo.loads == add_sample(
                        v.idle_histo.loads,
                        (cycle - since) as u64,
                    )
                    &&& cycle == since ==> w.idle_histo.loads == v.idle_histo.loads
                }
            &&& v.current_status.loads == MemStatus::NeverBusy ==> w.idle_histo.loads
                == v.idle_histo.loads
        }),
{
}

/// When stores turn busy after an idle interval that began at `since`, that
/// interval is recorded in the store idle histogram with its length, and only
/// when that is positive. Stores turning busy for the first time record nothing.
pub proof fn lemma_store_idle_edge(v: CtxView, n: u64, cycle: u64)
    requires
        v.wf(),
        v.store_cycle_ok(cycle),
        v.current_counts.stores == 0,
        n > 0,
    ensures
        ({
            let w = v.after_add_stores(n, cycle);
            &&& w.current_status.stores == MemStatus::Busy(cycle)
            &&& w.busy_histo.stores == v.busy_histo.stores
            &&& w.idle_histo.stores == record_idle(
                v.idle_histo.stores,
                v.current_status.stores,
                cycle,
            )
            &&& forall|since: u64|
                v.current_status.stores == MemStatus::Idle(since) ==> {
                    &&& cycle > since ==> w.idle_histo.stores == add_sample(
                        v.idle_histo.stores,
                        (cycle - since) as u64,
                    )
                    &&& cycle == since ==> w.idle_histo.stores == v.idle_histo.stores
                }
            &&& v.current_status.stores == MemStatus::NeverBusy ==> w.idle_histo.stores
                == v.idle_histo.stores
        }),
{
}

/// When loads turn idle, the busy interval that ends is recorded in the load
/// busy histogram with its length, also when that length is zero.
pub proof fn lemma_load_busy_edge(v: CtxView, n: u64, cycle: u64)
    requires
        v.wf(),
        v.load_cycle_ok(cycle),
        v.current_counts.loads == n,
        n > 0,
    ensures
        ({
            let since = v.current_status.loads.since();
            let w = v.after_reduce_loads(n, cycle);
            &&& w.current_status.loads == MemStatus::Idle(cycle)
            &&& w.busy_histo.loads == add_sample(v.busy_histo.loads, (cycle - since) as u64)
        }),
{
}

/// When stores turn idle, the busy interval that ends is recorded in the
/// store busy histogram with its length, also when that length is zero.
pub proof fn lemma_store_busy_edge(v: CtxView, n: u64, cycle: u64)
    requires
        v.wf(),
        v.store_cycle_ok(cycle),
        v.current_counts.stores == n,
        n > 0,
    ensures
        ({
            let since = v.current_status.stores.since();
            let w = v.after_reduce_stores(n, cycle);
            &&& w.current_status.stores == MemStatus::Idle(cycle)
            &&& w.busy_histo.stores == add_sample(v.busy_histo.stores, (cycle - since) as u64)
        }),
{
}

/// The combined load-or-store status is busy exactly when loads or stores
/// are busy, in every state that any add or reduce of loads or stores leads to.
pub proof fn lemma_combined_is_union(v: CtxView, n: u64, cycle: u64)
    requires
        v.wf(),
    ensures
        combined_consistent(v.current_status),
        v.all_counts.loads + n <= u64::MAX ==> v.after_add_loads(n, cycle).wf(),
        v.all_counts.stores + n <= u64::MAX ==> v.after_add_stores(n, cycle).wf(),
        n <= v.current_counts.loads ==> v.after_reduce_loads(n, cycle).wf(),
        n <= v.current_counts.stores ==> v.after_reduce_stores(n, cycle).wf(),
{
}

} // verus!
