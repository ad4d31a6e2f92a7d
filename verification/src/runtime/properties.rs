use vstd::prelude::*;

use crate::eval::basic::{choose_delta, evaluation, evaluation_defined};
use crate::runtime::engine::{
    halts_now, run_continues, run_from, run_input, run_step, saturating_inc, step_defined,
    step_outcome,
    validation_error,
};
use crate::runtime::replay::{
    apply_outcome, apply_result, empty_record, record_push, ReplayRecordModel,
};
use crate::runtime::types::{
    DeltaModel, FrameModel, MemoryModel, StepBudgets, StepControl, StepInputModel, StepPhase,
    StepResultModel, StepStatus, TokenId,
};

verus! {

/// The newest `max` tokens of `items` followed by the token, if there is one;
/// a zero budget remembers nothing new.
pub open spec fn newest_window(items: Seq<TokenId>, token: Option<TokenId>, max: usize) -> Seq<TokenId> {
    match token {
        None => items,
        Some(t) => if max == 0 {
            items
        } else {
            let s = items.push(t);
            if s.len() > max {
                s.subrange(s.len() - max, s.len() as int)
            } else {
                s
            }
        },
    }
}

/// The memory change the evaluator chooses always applies to the window it
/// was chosen from, when that window is within its budget: the window then
/// keeps the newest `max` tokens, the new one last, and the budget as its bound.
pub proof fn lemma_chosen_delta_applies(mem: MemoryModel, token: Option<TokenId>, max: usize)
    requires
        mem.items.len() <= max,
    ensures
        apply_result(mem, choose_delta(mem.items, token, max), max) == Ok::<MemoryModel, &'static str>(
            MemoryModel { max_items: max, items: newest_window(mem.items, token, max) },
        ),
        newest_window(mem.items, token, max).len() <= max,
{
    let items = mem.items;
    match token {
        None => {},
        Some(t) => {
            if max != 0 && items.len() >= max {
                let s = items.push(t);
                assert(s.subrange(s.len() - max, s.len() as int) =~= items.drop_first().push(t));
            }
        },
    }
}

/// A memory change that applies keeps a window within its budget within it,
/// and makes the budget the window's bound.
pub proof fn lemma_apply_keeps_budget(mem: MemoryModel, delta: DeltaModel, max: usize)
    requires
        mem.items.len() <= max,
        apply_outcome(mem, delta, max).1 is None,
    ensures
        apply_outcome(mem, delta, max).0.items.len() <= max,
        apply_outcome(mem, delta, max).0.max_items == max,
{
}

/// Every accepted step keeps the frame's identity and number of slots, moves
/// its index on by one (saturating), bounds its probes by 1000, and reports
/// `Halted` exactly when the next frame is inactive, which is exactly when it
/// is in the `Finalize` phase. A forced halt halts without changing memory.
pub proof fn lemma_step_result_coherent(input: StepInputModel)
    requires
        step_defined(input),
        step_outcome(input) is Ok,
    ensures
        ({
            let res = step_outcome(input)->Ok_0;
            &&& res.frame_id == input.frame_id
            &&& res.tick == input.tick
            &&& res.phase == input.frame_state.phase
            &&& res.next_state.frame_id == input.frame_state.frame_id
            &&& res.next_state.state_slots.len() == input.frame_state.state_slots.len()
            &&& res.next_state.step_index == saturating_inc(input.frame_state.step_index)
            &&& res.probes.pressure_milli <= 1000
            &&& res.probes.memory_load_milli <= 1000
            &&& res.probes.drift_milli <= 1000
            &&& (res.status == StepStatus::Halted <==> !res.next_state.active)
            &&& (!res.next_state.active <==> res.next_state.phase == StepPhase::Finalize)
            &&& res.next_state.active ==> res.next_state.phase == StepPhase::Evaluate
            &&& res.next_state.emitted_events == if res.memory_delta is Unchanged {
                input.frame_state.emitted_events
            } else {
                saturating_inc(input.frame_state.emitted_events)
            }
            &&& input.control.force_halt ==> res.status == StepStatus::Halted
                && res.memory_delta == DeltaModel::Unchanged
        }),
{
}

/// A frame that is not active takes no further step: every step on it is refused.
pub proof fn lemma_inactive_frame_takes_no_step(input: StepInputModel)
    requires
        !input.frame_state.active,
    ensures
        step_outcome(input) is Err,
{
}

/// The frame a recorded run held before its step `i` (after all its steps,
/// for `i` equal to their number).
pub open spec fn frame_before(record: ReplayRecordModel, i: int) -> FrameModel {
    if i == 0 {
        record.initial_frame
    } else {
        record.steps[i - 1].result.next_state
    }
}

/// The memory a recorded run held before its step `i`.
pub open spec fn memory_before(record: ReplayRecordModel, i: int) -> MemoryModel {
    if i == 0 {
        record.initial_memory
    } else {
        record.steps[i - 1].memory_after
    }
}

/// The input of step `i` of a recorded run, rebuilt from the record and the inputs.
pub open spec fn replay_input(
    record: ReplayRecordModel,
    inputs: Seq<Option<TokenId>>,
    i: int,
) -> StepInputModel {
    StepInputModel {
        frame_id: frame_before(record, i).frame_id,
        tick: i as u64,
        input_token: inputs[i],
        frame_state: frame_before(record, i),
        memory_view: memory_before(record, i),
        budgets: record.budgets,
        control: record.control,
    }
}

/// Step `i` of the record is what stepping its rebuilt input gives, from an
/// active frame, and its memory afterwards is what applying its change gives.
pub open spec fn step_replays(record: ReplayRecordModel, inputs: Seq<Option<TokenId>>, i: int) -> bool {
    let s = record.steps[i];
    &&& s.tick == i as u64
    &&& s.input_token == inputs[i]
    &&& s.memory_before == memory_before(record, i)
    &&& frame_before(record, i).active
    &&& step_outcome(replay_input(record, inputs, i)) == Ok::<StepResultModel, &'static str>(s.result)
    &&& apply_result(memory_before(record, i), s.result.memory_delta, record.budgets.max_memory_items)
        == Ok::<MemoryModel, &'static str>(s.memory_after)
}

/// A record replays `inputs`: one step per input from the first, each step
/// reproducible from the one before, and the record ends where its last step
/// ended.
pub open spec fn replays(record: ReplayRecordModel, inputs: Seq<Option<TokenId>>) -> bool {
    &&& record.steps.len() <= inputs.len()
    &&& record.frame_id == record.initial_frame.frame_id
    &&& record.final_frame == frame_before(record, record.steps.len() as int)
    &&& record.final_memory == memory_before(record, record.steps.len() as int)
    &&& forall|i: int| 0 <= i < record.steps.len() ==> #[trigger] step_replays(record, inputs, i)
}

/// What holds of a run's record after its first step: the frame's index is
/// the number of steps, its slots and memory are within budget, the memory's
/// bound is the budget, and a positive step budget has not been passed.
spec fn within_budget(record: ReplayRecordModel) -> bool {
    let k = record.steps.len();
    let b = record.budgets;
    &&& record.final_frame.step_index == k
    &&& record.final_frame.state_slots.len() <= b.max_state_slots
    &&& record.final_memory.max_items == b.max_memory_items
    &&& record.final_memory.items.len() <= b.max_memory_items
    &&& b.max_steps > 0 ==> k <= b.max_steps
    &&& b.max_steps > 0 && k >= b.max_steps ==> !record.final_frame.active
}

proof fn lemma_push_replays(
    record: ReplayRecordModel,
    inputs: Seq<Option<TokenId>>,
    result: StepResultModel,
)
    requires
        replays(record, inputs),
        run_continues(record, inputs, record.steps.len()),
        step_outcome(run_input(record, inputs, record.steps.len())) == Ok::<StepResultModel, &'static str>(result),
        apply_outcome(record.final_memory, result.memory_delta, record.budgets.max_memory_items).1 is None,
    ensures
        replays(record_push(record, run_step(record, inputs, record.steps.len(), result)), inputs),
{
    let k = record.steps.len();
    let next = record_push(record, run_step(record, inputs, k, result));
    assert forall|i: int| 0 <= i <= k implies frame_before(next, i) == frame_before(record, i)
        && memory_before(next, i) == memory_before(record, i) by {
        if i > 0 {
            assert(next.steps[i - 1] == record.steps[i - 1]);
        }
    }
    assert forall|i: int| 0 <= i < next.steps.len() implies #[trigger] step_replays(next, inputs, i) by {
        if i < k {
            assert(step_replays(record, inputs, i));
            assert(next.steps[i] == record.steps[i]);
            assert(replay_input(next, inputs, i) == replay_input(record, inputs, i));
        } else {
            assert(replay_input(next, inputs, i) == run_input(record, inputs, k));
        }
    }
}

proof fn lemma_run_from_replays(record: ReplayRecordModel, inputs: Seq<Option<TokenId>>)
    requires
        inputs.len() <= u64::MAX,
        replays(record, inputs),
        record.steps.len() > 0 ==> within_budget(record),
    ensures
        run_from(record, inputs, record.steps.len()) matches Err(e) ==> record.steps.len() == 0
            && validation_error(run_input(record, inputs, 0)) == Some(e),
        run_from(record, inputs, record.steps.len()) matches Ok(r) ==> {
            &&& replays(r, inputs)
            &&& r.steps.len() == inputs.len() || !r.final_frame.active
            &&& r.budgets.max_steps > 0 ==> r.steps.len() <= r.budgets.max_steps
            &&& r.frame_id == record.frame_id
            &&& r.initial_frame == record.initial_frame
            &&& r.initial_memory == record.initial_memory
            &&& r.budgets == record.budgets
            &&& r.control == record.control
        },
    decreases inputs.len() - record.steps.len(),
{
    let k = record.steps.len();
    if !run_continues(record, inputs, k) {
        return;
    }
    let input = run_input(record, inputs, k);
    match step_outcome(input) {
        Err(e) => {
            if k > 0 {
                assert(validation_error(input) is None);
            }
        },
        Ok(result) => {
            let b = record.budgets;
            assert(validation_error(input) is None);
            assert(input.frame_state.step_index == k);
            let applied = apply_outcome(record.final_memory, result.memory_delta, b.max_memory_items);
            if halts_now(input) {
                assert(result.memory_delta == DeltaModel::Unchanged);
            } else {
                lemma_chosen_delta_applies(record.final_memory, inputs[k as int], b.max_memory_items);
            }
            assert(applied.1 is None);
            lemma_apply_keeps_budget(record.final_memory, result.memory_delta, b.max_memory_items);
            let next = record_push(record, run_step(record, inputs, k, result));
            lemma_push_replays(record, inputs, result);
            assert(within_budget(next));
            lemma_run_from_replays(next, inputs);
        },
    }
}

/// A run fails only at its first step, and only because that step's input is
/// rejected: every later step is accepted and every memory change the run
/// applies fits.
pub proof fn lemma_run_fails_only_on_entry(
    frame: FrameModel,
    memory: MemoryModel,
    budgets: StepBudgets,
    control: StepControl,
    inputs: Seq<Option<TokenId>>,
)
    requires
        inputs.len() <= u64::MAX,
    ensures
        run_from(empty_record(frame, memory, budgets, control), inputs, 0) is Err <==> (
        inputs.len() > 0 && frame.active && validation_error(
            run_input(empty_record(frame, memory, budgets, control), inputs, 0),
        ) is Some),
        run_from(empty_record(frame, memory, budgets, control), inputs, 0) matches Err(e)
            ==> validation_error(run_input(empty_record(frame, memory, budgets, control), inputs, 0))
            == Some(e),
{
    let start = empty_record(frame, memory, budgets, control);
    assert(replays(start, inputs));
    lemma_run_from_replays(start, inputs);
}

/// The record of a successful run replays its inputs (see [`replays`]) from
/// the given frame and memory under the given budgets and control; it stops
/// only when the inputs are used up or the frame halts; and under a positive
/// step budget it holds at most that many steps.
pub proof fn lemma_run_record_replays(
    frame: FrameModel,
    memory: MemoryModel,
    budgets: StepBudgets,
    control: StepControl,
    inputs: Seq<Option<TokenId>>,
)
    requires
        inputs.len() <= u64::MAX,
        run_from(empty_record(frame, memory, budgets, control), inputs, 0) is Ok,
    ensures
        ({
            let r = run_from(empty_record(frame, memory, budgets, control), inputs, 0)->Ok_0;
            &&& replays(r, inputs)
            &&& r.frame_id == frame.frame_id
            &&& r.initial_frame == frame
            &&& r.initial_memory == memory
            &&& r.budgets == budgets
            &&& r.control == control
            &&& r.steps.len() == inputs.len() || !r.final_frame.active
            &&& budgets.max_steps > 0 ==> r.steps.len() <= budgets.max_steps
        }),
{
    let start = empty_record(frame, memory, budgets, control);
    assert(replays(start, inputs));
    lemma_run_from_replays(start, inputs);
}

/// The token step `i` of a recorded run remembers: its input token, unless the
/// step halted the frame without evaluating.
pub open spec fn remembered_token(
    record: ReplayRecordModel,
    inputs: Seq<Option<TokenId>>,
    i: int,
) -> Option<TokenId> {
    if halts_now(replay_input(record, inputs, i)) {
        None
    } else {
        inputs[i]
    }
}

/// Across a successful run, each step's memory is the newest tokens within the
/// memory budget, the step's own token last: the window a step leaves is
/// [`newest_window`] of the one it found, and it never exceeds the budget.
pub proof fn lemma_run_memory_windows(
    frame: FrameModel,
    memory: MemoryModel,
    budgets: StepBudgets,
    control: StepControl,
    inputs: Seq<Option<TokenId>>,
)
    requires
        inputs.len() <= u64::MAX,
        run_from(empty_record(frame, memory, budgets, control), inputs, 0) is Ok,
    ensures
        ({
            let r = run_from(empty_record(frame, memory, budgets, control), inputs, 0)->Ok_0;
            forall|i: int|
                0 <= i < r.steps.len() ==> {
                    &&& (#[trigger] r.steps[i]).memory_after.items == newest_window(
                        r.steps[i].memory_before.items,
                        remembered_token(r, inputs, i),
                        budgets.max_memory_items,
                    )
                    &&& r.steps[i].memory_after.items.len() <= budgets.max_memory_items
                }
        }),
{
    lemma_run_record_replays(frame, memory, budgets, control, inputs);
    let r = run_from(empty_record(frame, memory, budgets, control), inputs, 0)->Ok_0;
    let max = budgets.max_memory_items;
    assert forall|i: int| 0 <= i < r.steps.len() implies {
        &&& (#[trigger] r.steps[i]).memory_after.items == newest_window(
            r.steps[i].memory_before.items,
            remembered_token(r, inputs, i),
            max,
        )
        &&& r.steps[i].memory_after.items.len() <= max
    } by {
        assert(step_replays(r, inputs, i));
        let input = replay_input(r, inputs, i);
        assert(validation_error(input) is None);
        lemma_chosen_delta_applies(memory_before(r, i), remembered_token(r, inputs, i), max);
    }
}

/// The integer `x` clamped to the range of `i32`, as saturating arithmetic gives it.
pub open spec fn clamp_i32(x: int) -> int {
    if x > i32::MAX {
        i32::MAX as int
    } else if x < i32::MIN {
        i32::MIN as int
    } else {
        x
    }
}

/// How the evaluator moves the slots, for every frame, memory and token:
/// the first slot grows by 1 (by 2 when the reported memory load is 750 or
/// more) plus the token modulo 17; the second by the memory length, less 1
/// without a token; the third becomes the distance of the first two; the
/// fourth records whether there was a token; the others stay. All of it
/// saturates at the bounds of `i32`, and the slots keep their number.
pub proof fn lemma_evaluate_moves_slots(
    frame: FrameModel,
    memory: MemoryModel,
    token: Option<TokenId>,
    budgets: StepBudgets,
)
    requires
        evaluation_defined(
            frame.state_slots,
            memory.items.len() as usize,
            budgets.max_memory_items,
            token,
        ),
    ensures
        ({
            let r = evaluation(frame, memory, token, budgets);
            let s = frame.state_slots;
            let n = r.next_slots;
            let bump: int = if r.probes.memory_load_milli >= 750 {
                2
            } else {
                1
            };
            let bias: int = match token {
                Some(t) => t as int % 17,
                None => 0,
            };
            let relief: int = if token is None {
                1
            } else {
                0
            };
            &&& n.len() == s.len()
            &&& s.len() > 0 ==> n[0] as int == clamp_i32(s[0] + bump + bias)
            &&& s.len() > 1 && memory.items.len() <= i32::MAX ==> n[1] as int == clamp_i32(
                s[1] + memory.items.len() - relief,
            )
            &&& s.len() > 2 ==> n[2] as int == if clamp_i32(n[0] - n[1]) < 0 {
                -clamp_i32(n[0] - n[1])
            } else {
                clamp_i32(n[0] - n[1])
            }
            &&& s.len() > 3 ==> n[3] == if token is Some {
                1i32
            } else {
                0i32
            }
            &&& forall|i: int| 4 <= i < s.len() ==> n[i] == s[i]
        }),
{
}

/// The probes are read off the next slots and the memory alone, for every
/// token: pressure is the first slot's magnitude and drift the third's, each
/// capped at 1000 (0 without such a slot); the load is the memory length in
/// thousandths of the budget, capped at 1000, and 0 for a zero budget.
pub proof fn lemma_evaluate_probes(
    frame: FrameModel,
    memory: MemoryModel,
    token: Option<TokenId>,
    budgets: StepBudgets,
)
    ensures
        ({
            let r = evaluation(frame, memory, token, budgets);
            let n = r.next_slots;
            let len = memory.items.len();
            let max = budgets.max_memory_items;
            &&& r.probes.pressure_milli == if n.len() > 0 {
                if n[0] >= 1000 || n[0] <= -1000 {
                    1000
                } else if n[0] < 0 {
                    -n[0]
                } else {
                    n[0] as int
                }
            } else {
                0
            }
            &&& r.probes.drift_milli == if n.len() > 2 {
                if n[2] >= 1000 || n[2] <= -1000 {
                    1000
                } else if n[2] < 0 {
                    -n[2]
                } else {
                    n[2] as int
                }
            } else {
                0
            }
            &&& max == 0 ==> r.probes.memory_load_milli == 0
            &&& 0 < max <= u32::MAX && len <= max ==> r.probes.memory_load_milli == if (len as int) * 1000
                / (max as int) >= 1000 {
                1000
            } else {
                (len as int) * 1000 / (max as int)
            }
        }),
{
    let len = memory.items.len();
    let max = budgets.max_memory_items;
    if 0 < max <= u32::MAX && len <= max {
        assert((len as usize) as u32 == len);
        assert((max as u32) == max);
    }
}

/// A halting step (a forced halt, or a frame in `Finalize`) keeps the frame as
/// it was but for three fields: it becomes inactive, enters `Finalize`, and
/// moves its index on by one (saturating). Its slots, identity and event count
/// stay; memory is left unchanged, the probes read zero, and it reports `Halted`.
pub proof fn lemma_halting_step_keeps_frame(input: StepInputModel)
    requires
        step_outcome(input) is Ok,
        input.control.force_halt || input.frame_state.phase == StepPhase::Finalize,
    ensures
        ({
            let res = step_outcome(input)->Ok_0;
            let f = input.frame_state;
            &&& res.next_state.state_slots == f.state_slots
            &&& res.next_state.frame_id == f.frame_id
            &&& res.next_state.emitted_events == f.emitted_events
            &&& !res.next_state.active
            &&& res.next_state.phase == StepPhase::Finalize
            &&& res.next_state.step_index == if f.step_index == u64::MAX {
                u64::MAX as int
            } else {
                f.step_index + 1
            }
            &&& res.memory_delta == DeltaModel::Unchanged
            &&& res.probes.pressure_milli == 0
            &&& res.probes.memory_load_milli == 0
            &&& res.probes.drift_milli == 0
            &&& res.status == StepStatus::Halted
            &&& res.phase == f.phase
        }),
{
}

/// A step that does not halt takes its slots, probes and memory change from
/// the evaluator, applied to the input's frame, memory, token and budgets; its
/// frame halts exactly when a positive step budget is reached.
pub proof fn lemma_evaluating_step_uses_evaluator(input: StepInputModel)
    requires
        step_outcome(input) is Ok,
        !input.control.force_halt,
        input.frame_state.phase != StepPhase::Finalize,
    ensures
        ({
            let res = step_outcome(input)->Ok_0;
            let e = evaluation(input.frame_state, input.memory_view, input.input_token, input.budgets);
            let b = input.budgets.max_steps;
            &&& res.next_state.state_slots == e.next_slots
            &&& res.probes == e.probes
            &&& res.memory_delta == e.memory_delta
            &&& res.next_state.active <==> !(b > 0 && res.next_state.step_index >= b)
        }),
{
}

/// A step is accepted exactly when its input is consistent and in budget: the
/// ids agree, the tick is the frame's index, the memory's bound is the budget,
/// slots and memory are within their budgets, and the frame is active.
pub proof fn lemma_step_accepts_exactly_valid_inputs(input: StepInputModel)
    ensures
        step_outcome(input) is Ok <==> {
            &&& input.frame_id == input.frame_state.frame_id
            &&& input.tick == input.frame_state.step_index
            &&& input.memory_view.max_items == input.budgets.max_memory_items
            &&& input.frame_state.state_slots.len() <= input.budgets.max_state_slots
            &&& input.memory_view.items.len() <= input.budgets.max_memory_items
            &&& input.frame_state.active
        },
{
}

/// No change leaves the items as they were, always succeeds, and makes the
/// budget the window's bound.
pub proof fn lemma_apply_unchanged(mem: MemoryModel, max: usize)
    ensures
        apply_outcome(mem, DeltaModel::Unchanged, max).1 is None,
        apply_outcome(mem, DeltaModel::Unchanged, max).0.items == mem.items,
        apply_outcome(mem, DeltaModel::Unchanged, max).0.max_items == max,
{
}

/// An append succeeds exactly when the budget is positive and the window has
/// room; it then adds the token after the others. A refused append leaves the
/// window as it was.
pub proof fn lemma_apply_append(mem: MemoryModel, token: TokenId, max: usize)
    ensures
        ({
            let (after, err) = apply_outcome(mem, DeltaModel::Append(token), max);
            &&& err is None <==> (max > 0 && mem.items.len() < max)
            &&& err is None ==> after.items.len() == mem.items.len() + 1
                && after.items.last() == token
                && (forall|i: int| 0 <= i < mem.items.len() ==> after.items[i] == mem.items[i])
                && after.max_items == max
            &&& err is Some ==> after == mem
        }),
{
}

/// An eviction succeeds exactly when the window's oldest item is the expected
/// one and the budget is positive, whatever the window's length: the oldest
/// item leaves, the others move up one place, and the new token comes last.
/// When the window is not empty, the oldest item leaves even if it then fails;
/// an empty window is left as it was.
pub proof fn lemma_apply_evict(mem: MemoryModel, evicted: TokenId, appended: TokenId, max: usize)
    ensures
        ({
            let (after, err) = apply_outcome(
                mem,
                DeltaModel::EvictAndAppend { evicted, appended },
                max,
            );
            let old = mem.items;
            &&& err is None <==> (old.len() > 0 && old[0] == evicted && max > 0)
            &&& err is None ==> after.items.len() == old.len() && after.items.last() == appended
                && (forall|i: int| 0 <= i < old.len() - 1 ==> after.items[i] == old[i + 1])
                && after.max_items == max
            &&& err is Some && old.len() > 0 ==> after.items.len() == old.len() - 1 && (forall|
                i: int,
            |
                0 <= i < old.len() - 1 ==> after.items[i] == old[i + 1]) && after.max_items
                == mem.max_items
            &&& old.len() == 0 ==> err is Some && after == mem
        }),
{
}

/// A replacement succeeds exactly when the new items fit the budget; the
/// window then holds exactly the new items, whatever it held before. A refused
/// replacement leaves the window as it was.
pub proof fn lemma_apply_replace(mem: MemoryModel, next: Seq<TokenId>, max: usize)
    ensures
        ({
            let (after, err) = apply_outcome(mem, DeltaModel::ReplaceAll(next), max);
            &&& err is None <==> next.len() <= max
            &&& err is None ==> after.items == next && after.max_items == max
            &&& err is Some ==> after == mem
        }),
{
}

} // verus!
