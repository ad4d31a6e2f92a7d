use std::collections::VecDeque;

use hoop_valley_pico::runtime::replay::{apply_memory_delta_locally, ReplayRecord};
use hoop_valley_pico::runtime::types::{
    FrameState, MemoryDelta, MemoryView, ProbeSurface, StepBudgets, StepControl, StepPhase,
    StepResult, StepStatus,
};

fn make_frame() -> FrameState {
    FrameState::new(7, 3)
}

fn make_memory() -> MemoryView {
    let mut memory = MemoryView::new(4);
    memory.items = VecDeque::from(vec![10, 11]);
    memory
}

fn make_budgets() -> StepBudgets {
    StepBudgets {
        max_state_slots: 8,
        max_memory_items: 4,
        max_steps: 8,
    }
}

fn make_result(next_state: FrameState, memory_delta: MemoryDelta) -> StepResult {
    StepResult {
        frame_id: 7,
        tick: 0,
        phase: StepPhase::Evaluate,
        next_state,
        probes: ProbeSurface::default(),
        memory_delta,
        status: StepStatus::Running,
    }
}

#[test]
fn replay_record_starts_with_initial_state() {
    let frame = make_frame();
    let memory = make_memory();
    let record = ReplayRecord::new(
        frame.clone(),
        memory.clone(),
        make_budgets(),
        StepControl::default(),
    );

    assert_eq!(record.frame_id, 7);
    assert_eq!(record.initial_frame, frame);
    assert_eq!(record.initial_memory, memory);
    assert_eq!(record.final_frame.frame_id, 7);
    assert_eq!(record.final_memory.items, VecDeque::from(vec![10, 11]));
    assert!(record.is_empty());
}

#[test]
fn push_step_updates_final_frame_and_memory() {
    let frame = make_frame();
    let memory = make_memory();
    let budgets = make_budgets();
    let mut record = ReplayRecord::new(frame, memory.clone(), budgets, StepControl::default());

    let mut next_state = make_frame();
    next_state.step_index = 1;
    next_state.emitted_events = 1;
    next_state.phase = StepPhase::Evaluate;

    let result = make_result(next_state.clone(), MemoryDelta::Append(42));
    let mut memory_after = memory.clone();
    apply_memory_delta_locally(&mut memory_after, &result.memory_delta, &budgets).unwrap();

    record.push_step(0, Some(5), memory, result.clone(), memory_after.clone());

    assert_eq!(record.len(), 1);
    assert_eq!(record.final_frame, next_state);
    assert_eq!(record.final_memory, memory_after);
    assert_eq!(record.last_step().unwrap().result, result);
}

#[test]
fn local_memory_apply_matches_append_and_evict_rules() {
    let budgets = make_budgets();
    let mut memory = make_memory();

    apply_memory_delta_locally(&mut memory, &MemoryDelta::Append(12), &budgets).unwrap();
    assert_eq!(memory.items, VecDeque::from(vec![10, 11, 12]));

    apply_memory_delta_locally(&mut memory, &MemoryDelta::Append(13), &budgets).unwrap();
    assert_eq!(memory.items, VecDeque::from(vec![10, 11, 12, 13]));

    apply_memory_delta_locally(
        &mut memory,
        &MemoryDelta::EvictAndAppend {
            evicted: 10,
            appended: 99,
        },
        &budgets,
    )
    .unwrap();
    assert_eq!(memory.items, VecDeque::from(vec![11, 12, 13, 99]));
}

#[test]
fn local_memory_apply_rejects_wrong_eviction() {
    let budgets = make_budgets();
    let mut memory = make_memory();

    let err = apply_memory_delta_locally(
        &mut memory,
        &MemoryDelta::EvictAndAppend {
            evicted: 99,
            appended: 12,
        },
        &budgets,
    )
    .unwrap_err();

    assert_eq!(err, "memory eviction did not match expected oldest token");
}

#[test]
fn replace_all_respects_budget() {
    let budgets = make_budgets();
    let mut memory = make_memory();

    apply_memory_delta_locally(
        &mut memory,
        &MemoryDelta::ReplaceAll(VecDeque::from(vec![1, 2, 3])),
        &budgets,
    )
    .unwrap();

    assert_eq!(memory.items, VecDeque::from(vec![1, 2, 3]));
    assert_eq!(memory.max_items, budgets.max_memory_items);
}

#[test]
fn replay_record_keeps_control_metadata() {
    let frame = make_frame();
    let memory = make_memory();
    let control = StepControl {
        policy_flags: 3,
        debug_flags: 9,
        force_halt: false,
    };

    let record = ReplayRecord::new(frame, memory, make_budgets(), control);

    assert_eq!(record.control.policy_flags, 3);
    assert_eq!(record.control.debug_flags, 9);
    assert!(!record.control.force_halt);
}

#[test]
fn local_memory_apply_reports_each_error() {
    let budgets = make_budgets();
    let zero = StepBudgets { max_memory_items: 0, ..make_budgets() };

    let mut memory = make_memory();
    assert_eq!(
        apply_memory_delta_locally(&mut memory, &MemoryDelta::Append(1), &zero).unwrap_err(),
        "cannot append memory when max_memory_items is 0"
    );
    assert_eq!(memory, make_memory());

    let mut memory = make_memory();
    memory.items = VecDeque::from(vec![1, 2, 3, 4]);
    assert_eq!(
        apply_memory_delta_locally(&mut memory, &MemoryDelta::Append(5), &budgets).unwrap_err(),
        "append would exceed max_memory_items"
    );
    assert_eq!(memory.items, VecDeque::from(vec![1, 2, 3, 4]));

    let mut memory = MemoryView::new(4);
    let evict = MemoryDelta::EvictAndAppend { evicted: 1, appended: 2 };
    assert_eq!(
        apply_memory_delta_locally(&mut memory, &evict, &budgets).unwrap_err(),
        "cannot evict from empty memory view"
    );

    let mut memory = make_memory();
    let evict = MemoryDelta::EvictAndAppend { evicted: 10, appended: 2 };
    assert_eq!(
        apply_memory_delta_locally(&mut memory, &evict, &zero).unwrap_err(),
        "cannot append memory when max_memory_items is 0"
    );
    // The oldest item has already left the window, and the bound is unchanged.
    assert_eq!(memory.items, VecDeque::from(vec![11]));
    assert_eq!(memory.max_items, 4);

    let mut memory = make_memory();
    let replace = MemoryDelta::ReplaceAll(VecDeque::from(vec![1, 2, 3, 4, 5]));
    assert_eq!(
        apply_memory_delta_locally(&mut memory, &replace, &budgets).unwrap_err(),
        "replacement memory exceeds max_memory_items"
    );
    assert_eq!(memory, make_memory());
}

#[test]
fn wrong_eviction_still_drops_oldest() {
    let budgets = make_budgets();
    let mut memory = make_memory();
    let _ = apply_memory_delta_locally(
        &mut memory,
        &MemoryDelta::EvictAndAppend { evicted: 99, appended: 12 },
        &budgets,
    );
    assert_eq!(memory.items, VecDeque::from(vec![11]));
}

#[test]
fn unchanged_delta_sets_bound() {
    let mut memory = make_memory();
    memory.max_items = 9;
    apply_memory_delta_locally(&mut memory, &MemoryDelta::Unchanged, &make_budgets()).unwrap();
    assert_eq!(memory.items, VecDeque::from(vec![10, 11]));
    assert_eq!(memory.max_items, 4);
}

#[test]
fn types_have_documented_defaults_and_constructors() {
    let budgets = StepBudgets::default();
    assert_eq!(budgets.max_state_slots, 16);
    assert_eq!(budgets.max_memory_items, 8);
    assert_eq!(budgets.max_steps, 8);
    let probes = ProbeSurface::default();
    assert_eq!(probes, ProbeSurface { pressure_milli: 0, memory_load_milli: 0, drift_milli: 0 });
    assert_eq!(StepStatus::default(), StepStatus::Running);
    assert_eq!(StepPhase::default(), StepPhase::Evaluate);
    let frame = FrameState::new(3, 2);
    assert_eq!(frame.state_slots, vec![0, 0]);
    assert_eq!(frame.phase, StepPhase::Prefill);
    assert!(frame.active);
    let memory = MemoryView::new(3);
    assert!(memory.is_empty());
    assert_eq!(memory.len(), 0);
    assert_eq!(make_memory().len(), 2);
}
