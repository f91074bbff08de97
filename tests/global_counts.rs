use neupimrust::global_counts::{
    add_computes, add_loads, add_stores, drop_global_counts_ctx, end_stage, get_computes,
    get_loads, get_stores, new_global_counts_ctx, npu_finished, pim_finished, reduce_computes,
    reduce_loads, reduce_stores, update_stage, Event, EventType, MemOp, MemStatus, RunStage,
};
use neupimrust::report::snapshot_report;
use std::collections::BTreeMap;

fn histo(entries: &[(u64, u64)]) -> BTreeMap<u64, u64> {
    entries.iter().cloned().collect()
}

fn ev(cycle: u64, stage: RunStage, event: EventType) -> Event {
    Event { cycle, stage, event }
}

#[test]
fn test_save() {
    let mut ctx = new_global_counts_ctx();
    add_loads(&mut ctx, 1, 1);
    add_stores(&mut ctx, 1, 1);
    assert!(reduce_loads(&mut ctx, 1, 3));
    assert!(reduce_stores(&mut ctx, 1, 4));
    let report = snapshot_report(&ctx);
    assert_eq!(report.all_counts.loads, 1);
    assert_eq!(report.all_counts.stores, 1);
    assert_eq!(report.busy_histo.loads, histo(&[(2, 1)]));
    assert_eq!(report.busy_histo.stores, histo(&[(3, 1)]));
    assert_eq!(report.busy_histo.load_or_stores, histo(&[(3, 1)]));
    assert!(report.idle_histo.loads.is_empty());
    assert_eq!(report.events.len(), 6);
    drop_global_counts_ctx(ctx);
}

#[test]
fn load_round_trip_histograms() {
    let mut ctx = new_global_counts_ctx();
    add_loads(&mut ctx, 1, 1);
    assert!(reduce_loads(&mut ctx, 1, 4));
    add_loads(&mut ctx, 1, 6);
    assert!(reduce_loads(&mut ctx, 1, 6));
    assert_eq!(ctx.idle_histo.loads, histo(&[(2, 1)]));
    assert_eq!(ctx.busy_histo.loads, histo(&[(3, 1), (0, 1)]));
    let load_events: Vec<(u64, EventType)> = ctx
        .event_vec
        .iter()
        .filter(|e| {
            matches!(
                e.event,
                EventType::MemEventStart(MemOp::Load) | EventType::MemEventEnd(MemOp::Load)
            )
        })
        .map(|e| (e.cycle, e.event))
        .collect();
    assert_eq!(
        load_events,
        vec![
            (1, EventType::MemEventStart(MemOp::Load)),
            (4, EventType::MemEventEnd(MemOp::Load)),
            (6, EventType::MemEventStart(MemOp::Load)),
            (6, EventType::MemEventEnd(MemOp::Load)),
        ]
    );
}

#[test]
fn combined_stays_busy_while_stores_busy() {
    let mut ctx = new_global_counts_ctx();
    add_loads(&mut ctx, 1, 1);
    add_stores(&mut ctx, 1, 1);
    assert!(reduce_loads(&mut ctx, 1, 5));
    assert_eq!(ctx.current_status.load_or_stores, MemStatus::Busy(1));
    assert!(!ctx
        .event_vec
        .iter()
        .any(|e| e.event == EventType::MemEventEnd(MemOp::LoadOrStore)));
    assert!(ctx.busy_histo.load_or_stores.is_empty());
    assert!(reduce_stores(&mut ctx, 1, 7));
    assert_eq!(ctx.current_status.load_or_stores, MemStatus::Idle(7));
    assert_eq!(ctx.busy_histo.load_or_stores, histo(&[(6, 1)]));
    assert_eq!(
        ctx.event_vec.last(),
        Some(&ev(7, RunStage::A, EventType::MemEventEnd(MemOp::LoadOrStore)))
    );
}

#[test]
fn reduce_past_zero_changes_nothing() {
    let mut ctx = new_global_counts_ctx();
    add_loads(&mut ctx, 2, 3);
    let events_before = ctx.event_vec.clone();
    let idle_before = ctx.idle_histo.loads.clone();
    assert!(!reduce_loads(&mut ctx, 3, 9));
    assert_eq!(get_loads(&ctx), 2);
    assert_eq!(ctx.all_counts.loads, 2);
    assert_eq!(ctx.event_vec, events_before);
    assert_eq!(ctx.idle_histo.loads, idle_before);
    assert!(ctx.busy_histo.loads.is_empty());
    assert_eq!(ctx.current_status.loads, MemStatus::Busy(3));
    assert_eq!(ctx.last_cycle, 3);
    assert!(!reduce_stores(&mut ctx, 1, 9));
    assert!(!reduce_computes(&mut ctx, 1));
}

#[test]
fn load_count_is_adds_minus_successful_reduces() {
    let mut ctx = new_global_counts_ctx();
    add_loads(&mut ctx, 3, 1);
    assert!(reduce_loads(&mut ctx, 2, 2));
    assert!(!reduce_loads(&mut ctx, 5, 3));
    add_loads(&mut ctx, 4, 4);
    assert!(reduce_loads(&mut ctx, 1, 5));
    assert_eq!(get_loads(&ctx), 3 + 4 - 2 - 1);
    assert_eq!(ctx.all_counts.loads, 7);
}

#[test]
fn zero_length_idle_interval_not_recorded() {
    let mut ctx = new_global_counts_ctx();
    add_stores(&mut ctx, 1, 0);
    assert!(ctx.idle_histo.stores.is_empty());
    assert!(ctx.idle_histo.load_or_stores.is_empty());
    assert!(reduce_stores(&mut ctx, 1, 0));
    assert_eq!(ctx.busy_histo.stores, histo(&[(0, 1)]));
    assert_eq!(ctx.busy_histo.load_or_stores, histo(&[(0, 1)]));
}

#[test]
fn add_zero_is_no_edge() {
    let mut ctx = new_global_counts_ctx();
    add_loads(&mut ctx, 0, 5);
    assert_eq!(ctx.current_status.loads, MemStatus::NeverBusy);
    assert!(ctx.event_vec.is_empty());
    assert!(ctx.idle_histo.loads.is_empty());
}

#[test]
fn combined_idle_interval_recorded() {
    let mut ctx = new_global_counts_ctx();
    add_loads(&mut ctx, 1, 2);
    assert!(reduce_loads(&mut ctx, 1, 4));
    add_stores(&mut ctx, 1, 9);
    assert_eq!(ctx.idle_histo.load_or_stores, histo(&[(5, 1)]));
    assert!(ctx.idle_histo.stores.is_empty());
    assert_eq!(ctx.current_status.load_or_stores, MemStatus::Busy(9));
}

#[test]
fn computes_are_counted_only() {
    let mut ctx = new_global_counts_ctx();
    add_computes(&mut ctx, 5);
    assert_eq!(get_computes(&ctx), 5);
    assert!(reduce_computes(&mut ctx, 2));
    assert_eq!(get_computes(&ctx), 3);
    assert_eq!(ctx.all_counts.computes, 5);
    assert!(ctx.event_vec.is_empty());
    assert_eq!(get_stores(&ctx), 0);
}

#[test]
fn stage_and_milestone_events() {
    let mut ctx = new_global_counts_ctx();
    update_stage(&mut ctx, RunStage::B, 10);
    npu_finished(&mut ctx, 12);
    end_stage(&mut ctx, RunStage::B, 15);
    update_stage(&mut ctx, RunStage::Finished, 15);
    pim_finished(&mut ctx, 16);
    assert_eq!(ctx.current_stage, RunStage::Finished);
    assert_eq!(
        ctx.event_vec,
        vec![
            ev(10, RunStage::B, EventType::StageStart),
            ev(12, RunStage::B, EventType::NpuFinished),
            ev(15, RunStage::B, EventType::StageEnd),
            ev(15, RunStage::Finished, EventType::StageStart),
            ev(16, RunStage::Finished, EventType::PimFinished),
        ]
    );
    let report = snapshot_report(&ctx);
    assert_eq!(report.final_stage, RunStage::Finished);
    assert_eq!(report.events, ctx.event_vec);
}

#[test]
fn events_carry_current_stage() {
    let mut ctx = new_global_counts_ctx();
    update_stage(&mut ctx, RunStage::C, 0);
    add_loads(&mut ctx, 1, 2);
    assert_eq!(
        ctx.event_vec[1..].to_vec(),
        vec![
            ev(2, RunStage::C, EventType::MemEventStart(MemOp::Load)),
            ev(2, RunStage::C, EventType::MemEventStart(MemOp::LoadOrStore)),
        ]
    );
}

#[test]
fn report_matches_context() {
    let mut ctx = new_global_counts_ctx();
    add_loads(&mut ctx, 2, 1);
    add_stores(&mut ctx, 3, 2);
    add_computes(&mut ctx, 4);
    assert!(reduce_loads(&mut ctx, 2, 6));
    let report = snapshot_report(&ctx);
    assert_eq!(report.all_counts, ctx.all_counts);
    assert_eq!(report.idle_histo.loads, ctx.idle_histo.loads);
    assert_eq!(report.busy_histo.loads, histo(&[(5, 1)]));
    assert!(report.idle_histo.stores.is_empty());
    assert_eq!(report.events.len(), ctx.event_vec.len());
}

#[test]
fn first_busy_period_records_no_idle_interval() {
    let mut ctx = new_global_counts_ctx();
    add_loads(&mut ctx, 1, 1);
    add_stores(&mut ctx, 1, 3);
    assert!(ctx.idle_histo.loads.is_empty());
    assert!(ctx.idle_histo.stores.is_empty());
    assert!(ctx.idle_histo.load_or_stores.is_empty());
    assert!(reduce_stores(&mut ctx, 1, 4));
    add_stores(&mut ctx, 1, 7);
    assert_eq!(ctx.idle_histo.stores, histo(&[(3, 1)]));
    assert!(ctx.idle_histo.load_or_stores.is_empty());
}

#[test]
fn stage_and_milestones_leave_last_cycle() {
    let mut ctx = new_global_counts_ctx();
    add_loads(&mut ctx, 1, 4);
    update_stage(&mut ctx, RunStage::D, 8);
    end_stage(&mut ctx, RunStage::D, 9);
    npu_finished(&mut ctx, 10);
    pim_finished(&mut ctx, 11);
    assert_eq!(ctx.last_cycle, 4);
    assert_eq!(ctx.current_stage, RunStage::D);
}
