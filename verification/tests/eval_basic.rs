use std::collections::VecDeque;

use hoop_valley_pico::eval::basic::BasicEvaluator;
use hoop_valley_pico::runtime::types::{FrameState, MemoryDelta, MemoryView, StepBudgets, TokenId};

fn make_frame() -> FrameState {
    FrameState::new(7, 4)
}

fn make_memory(items: &[TokenId], max_items: usize) -> MemoryView {
    let mut memory = MemoryView::new(max_items);
    memory.items = VecDeque::from(items.to_vec());
    memory
}

fn make_budgets(max_memory_items: usize) -> StepBudgets {
    StepBudgets {
        max_state_slots: 8,
        max_memory_items,
        max_steps: 8,
    }
}

#[test]
fn evaluate_is_deterministic_for_same_input() {
    let evaluator = BasicEvaluator::new();
    let frame = make_frame();
    let memory = make_memory(&[10, 11], 4);
    let budgets = make_budgets(4);

    let a = evaluator.evaluate(&frame, &memory, Some(5), &budgets);
    let b = evaluator.evaluate(&frame, &memory, Some(5), &budgets);

    assert_eq!(a, b);
}

#[test]
fn appends_when_memory_has_room() {
    let evaluator = BasicEvaluator::new();
    let out = evaluator.evaluate(
        &make_frame(),
        &make_memory(&[10, 11], 4),
        Some(42),
        &make_budgets(4),
    );

    assert!(matches!(out.memory_delta, MemoryDelta::Append(42)));
}

#[test]
fn evicts_when_memory_is_full() {
    let evaluator = BasicEvaluator::new();
    let out = evaluator.evaluate(
        &make_frame(),
        &make_memory(&[10, 11, 12, 13], 4),
        Some(99),
        &make_budgets(4),
    );

    assert_eq!(
        out.memory_delta,
        MemoryDelta::EvictAndAppend {
            evicted: 10,
            appended: 99,
        }
    );
}

#[test]
fn none_input_does_not_mutate_memory() {
    let evaluator = BasicEvaluator::new();
    let out = evaluator.evaluate(
        &make_frame(),
        &make_memory(&[10, 11], 4),
        None,
        &make_budgets(4),
    );

    assert!(matches!(out.memory_delta, MemoryDelta::Unchanged));
}

#[test]
fn probes_stay_bounded() {
    let evaluator = BasicEvaluator::new();
    let out = evaluator.evaluate(
        &make_frame(),
        &make_memory(&[1, 2, 3, 4], 4),
        Some(500),
        &make_budgets(4),
    );

    assert!(out.probes.pressure_milli <= 1000);
    assert!(out.probes.memory_load_milli <= 1000);
    assert!(out.probes.drift_milli <= 1000);
}

#[test]
fn evaluate_computes_slots_and_probes() {
    let evaluator = BasicEvaluator::new();
    let out = evaluator.evaluate(&make_frame(), &make_memory(&[10, 11], 4), Some(5), &make_budgets(4));
    // load 2 * 1000 / 4 = 500; first slot 0 + 1 + 5 % 17; second 0 + 2; drift 6 - 2.
    assert_eq!(out.next_slots, vec![6, 2, 4, 1]);
    assert_eq!(out.probes.pressure_milli, 6);
    assert_eq!(out.probes.memory_load_milli, 500);
    assert_eq!(out.probes.drift_milli, 4);
}

#[test]
fn evaluate_heavy_load_and_no_token() {
    let evaluator = BasicEvaluator::new();
    let mut frame = make_frame();
    frame.state_slots = vec![3, 7, 0, 1, 42];
    let out = evaluator.evaluate(&frame, &make_memory(&[1, 2, 3], 4), None, &make_budgets(4));
    // load 750 bumps the first slot by 2; no token relieves the second by 1.
    assert_eq!(out.next_slots, vec![5, 9, 4, 0, 42]);
    assert_eq!(out.probes.memory_load_milli, 750);
    assert_eq!(out.memory_delta, MemoryDelta::Unchanged);
}

#[test]
fn evaluate_saturates_and_caps_probes() {
    let evaluator = BasicEvaluator::new();
    let mut frame = make_frame();
    frame.state_slots = vec![i32::MAX, 0, 0];
    let out = evaluator.evaluate(&frame, &make_memory(&[], 4), Some(16), &make_budgets(4));
    assert_eq!(out.next_slots, vec![i32::MAX, 0, i32::MAX]);
    assert_eq!(out.probes.pressure_milli, 1000);
    assert_eq!(out.probes.drift_milli, 1000);
    assert_eq!(out.probes.memory_load_milli, 0);
}

#[test]
fn evaluate_zero_budget_keeps_memory_and_reads_no_load() {
    let evaluator = BasicEvaluator::new();
    let out = evaluator.evaluate(&make_frame(), &make_memory(&[], 0), Some(3), &make_budgets(0));
    assert_eq!(out.memory_delta, MemoryDelta::Unchanged);
    assert_eq!(out.probes.memory_load_milli, 0);
}

#[test]
fn evaluate_with_few_slots() {
    let evaluator = BasicEvaluator::new();
    let empty = FrameState::new(1, 0);
    let out = evaluator.evaluate(&empty, &make_memory(&[], 4), Some(1), &make_budgets(4));
    assert!(out.next_slots.is_empty());
    assert_eq!(out.probes.pressure_milli, 0);
    assert_eq!(out.probes.drift_milli, 0);
    let single = FrameState::new(1, 1);
    let out = evaluator.evaluate(&single, &make_memory(&[], 4), Some(1), &make_budgets(4));
    assert_eq!(out.next_slots, vec![2]);
    assert_eq!(out.probes.pressure_milli, 2);
}
