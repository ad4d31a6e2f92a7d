use vstd::prelude::*;

use crate::eval::basic::{evaluation, evaluation_defined, BasicEvaluator};
use crate::runtime::replay::{
    apply_memory_delta_locally, apply_outcome, empty_record, record_push, ReplayRecord,
    ReplayRecordModel, ReplayStepModel,
};
use crate::runtime::types::{
    DeltaModel, FrameModel, FrameState, MemoryDelta, MemoryView, ProbeSurface, StepBudgets,
    StepControl, StepInput, StepInputModel, StepPhase, StepResult, StepResultModel, StepStatus,
    TokenId,
};

verus! {

/// The first check that `input` fails, in the order they are made, if any.
pub open spec fn validation_error(input: StepInputModel) -> Option<&'static str> {
    if input.frame_id != input.frame_state.frame_id {
        Some("frame_id does not match frame_state.frame_id")
    } else if input.tick != input.frame_state.step_index {
        Some("tick does not match frame_state.step_index")
    } else if input.memory_view.max_items != input.budgets.max_memory_items {
        Some("memory_view.max_items does not match budgets.max_memory_items")
    } else if input.frame_state.state_slots.len() > input.budgets.max_state_slots {
        Some("state_slots exceed budgets.max_state_slots")
    } else if input.memory_view.items.len() > input.budgets.max_memory_items {
        Some("memory items exceed budgets.max_memory_items")
    } else if !input.frame_state.active {
        Some("frame is not active")
    } else {
        None
    }
}

/// The phase after an ordinary step: `Prefill` moves on to `Evaluate`; the
/// other phases stay.
pub open spec fn phase_after(current: StepPhase) -> StepPhase {
    match current {
        StepPhase::Prefill => StepPhase::Evaluate,
        StepPhase::Evaluate => StepPhase::Evaluate,
        StepPhase::Finalize => StepPhase::Finalize,
    }
}

/// `x + 1`, saturating at `u64::MAX`.
pub open spec fn saturating_inc(x: u64) -> u64 {
    if x == u64::MAX {
        x
    } else {
        (x + 1) as u64
    }
}

/// Whether a valid step halts the frame without evaluating: on a forced halt
/// or from the `Finalize` phase.
pub open spec fn halts_now(input: StepInputModel) -> bool {
    input.control.force_halt || input.frame_state.phase == StepPhase::Finalize
}

/// The result of a halting step: the frame is finalized and made inactive.
pub open spec fn halt_result(input: StepInputModel) -> StepResultModel {
    StepResultModel {
        frame_id: input.frame_id,
        tick: input.tick,
        phase: input.frame_state.phase,
        next_state: FrameModel {
            active: false,
            phase: StepPhase::Finalize,
            step_index: saturating_inc(input.frame_state.step_index),
            ..input.frame_state
        },
        probes: ProbeSurface { pressure_milli: 0, memory_load_milli: 0, drift_milli: 0 },
        memory_delta: DeltaModel::Unchanged,
        status: StepStatus::Halted,
    }
}

/// The result of an evaluating step. The frame takes the evaluated slots and
/// moves one index on; a memory change counts as an emitted event; reaching a
/// positive step budget finalizes the frame and halts it.
pub open spec fn eval_result(input: StepInputModel) -> StepResultModel {
    let frame = input.frame_state;
    let eval = evaluation(frame, input.memory_view, input.input_token, input.budgets);
    let index = saturating_inc(frame.step_index);
    let exhausted = input.budgets.max_steps > 0 && index >= input.budgets.max_steps;
    StepResultModel {
        frame_id: input.frame_id,
        tick: input.tick,
        phase: frame.phase,
        next_state: FrameModel {
            frame_id: frame.frame_id,
            step_index: index,
            phase: if exhausted {
                StepPhase::Finalize
            } else {
                phase_after(frame.phase)
            },
            active: !exhausted,
            state_slots: eval.next_slots,
            emitted_events: if eval.memory_delta is Unchanged {
                frame.emitted_events
            } else {
                saturating_inc(frame.emitted_events)
            },
        },
        probes: eval.probes,
        memory_delta: eval.memory_delta,
        status: if exhausted {
            StepStatus::Halted
        } else {
            StepStatus::Running
        },
    }
}

/// What `Engine::step` returns for `input`.
pub open spec fn step_outcome(input: StepInputModel) -> Result<StepResultModel, &'static str> {
    match validation_error(input) {
        Some(e) => Err(e),
        None => if halts_now(input) {
            Ok(halt_result(input))
        } else {
            Ok(eval_result(input))
        },
    }
}

/// The inputs on which a step runs without overflow: those it rejects, those
/// it halts on, and those whose evaluation is defined.
pub open spec fn step_defined(input: StepInputModel) -> bool {
    validation_error(input) is Some || halts_now(input) || evaluation_defined(
        input.frame_state.state_slots,
        input.memory_view.items.len() as usize,
        input.budgets.max_memory_items,
        input.input_token,
    )
}

/// The input of the step a run makes at tick `k`, from the record so far.
pub open spec fn run_input(
    record: ReplayRecordModel,
    inputs: Seq<Option<TokenId>>,
    k: nat,
) -> StepInputModel {
    StepInputModel {
        frame_id: record.final_frame.frame_id,
        tick: k as u64,
        input_token: inputs[k as int],
        frame_state: record.final_frame,
        memory_view: record.final_memory,
        budgets: record.budgets,
        control: record.control,
    }
}

/// The recorded step for a step result at tick `k`, with the memory it leaves.
pub open spec fn run_step(
    record: ReplayRecordModel,
    inputs: Seq<Option<TokenId>>,
    k: nat,
    result: StepResultModel,
) -> ReplayStepModel {
    ReplayStepModel {
        tick: k as u64,
        input_token: inputs[k as int],
        memory_before: record.final_memory,
        result,
        memory_after: apply_outcome(
            record.final_memory,
            result.memory_delta,
            record.budgets.max_memory_items,
        ).0,
    }
}

/// Whether a run goes on at tick `k`: there is an input left and the frame is active.
pub open spec fn run_continues(record: ReplayRecordModel, inputs: Seq<Option<TokenId>>, k: nat) -> bool {
    k < inputs.len() && record.final_frame.active
}

/// What a run returns, given the record so far and the next tick `k`: it stops
/// when the inputs are used up or the frame is inactive; otherwise it steps,
/// applies the step's memory change, records the step and goes on. The first
/// error of a step or of a memory change ends it.
pub open spec fn run_from(
    record: ReplayRecordModel,
    inputs: Seq<Option<TokenId>>,
    k: nat,
) -> Result<ReplayRecordModel, &'static str>
    decreases inputs.len() - k,
{
    if !run_continues(record, inputs, k) {
        Ok(record)
    } else {
        match step_outcome(run_input(record, inputs, k)) {
            Err(e) => Err(e),
            Ok(result) => match apply_outcome(
                record.final_memory,
                result.memory_delta,
                record.budgets.max_memory_items,
            ).1 {
                Some(e) => Err(e),
                None => run_from(record_push(record, run_step(record, inputs, k, result)), inputs, k + 1),
            },
        }
    }
}

/// Whether every step a run makes from tick `k` on is defined.
pub open spec fn run_defined(
    record: ReplayRecordModel,
    inputs: Seq<Option<TokenId>>,
    k: nat,
) -> bool
    decreases inputs.len() - k,
{
    if !run_continues(record, inputs, k) {
        true
    } else {
        &&& step_defined(run_input(record, inputs, k))
        &&& match step_outcome(run_input(record, inputs, k)) {
            Err(_) => true,
            Ok(result) => match apply_outcome(
                record.final_memory,
                result.memory_delta,
                record.budgets.max_memory_items,
            ).1 {
                Some(_) => true,
                None => run_defined(
                    record_push(record, run_step(record, inputs, k, result)),
                    inputs,
                    k + 1,
                ),
            },
        }
    }
}

/// Runs frames one step at a time with the basic evaluator.
#[derive(Debug, Default)]
pub struct Engine {
    evaluator: BasicEvaluator,
}

impl Engine {
    pub fn new() -> Self {
        Engine { evaluator: BasicEvaluator::new() }
    }

    /// Advances a frame by one step: see [`step_outcome`].
    pub fn step(&self, input: StepInput) -> (r: Result<StepResult, &'static str>)
        requires
            step_defined(input@),
        ensures
            match r {
                Ok(res) => step_outcome(input@) == Ok::<StepResultModel, &'static str>(res@),
                Err(e) => step_outcome(input@) == Err::<StepResultModel, &'static str>(e),
            },
    {
        match Self::validate_input(&input) {
            Ok(()) => {},
            Err(e) => {
                return Err(e);
            },
        }

        let finalizing = match input.frame_state.phase {
            StepPhase::Finalize => true,
            _ => false,
        };
        if input.control.force_halt || finalizing {
            let phase = input.frame_state.phase;
            let mut next_state = input.frame_state;
            next_state.active = false;
            next_state.phase = StepPhase::Finalize;
            next_state.step_index = next_state.step_index.saturating_add(1);

            return Ok(
                StepResult {
                    frame_id: input.frame_id,
                    tick: input.tick,
                    phase,
                    next_state,
                    probes: ProbeSurface::default(),
                    memory_delta: MemoryDelta::Unchanged,
                    status: StepStatus::Halted,
                },
            );
        }

        let eval = self.evaluator.evaluate(
            &input.frame_state,
            &input.memory_view,
            input.input_token,
            &input.budgets,
        );

        let phase = input.frame_state.phase;
        let mut next_state = input.frame_state;
        next_state.state_slots = eval.next_slots;
        next_state.step_index = next_state.step_index.saturating_add(1);
        next_state.phase = Self::next_phase(phase);

        let changes_memory = match &eval.memory_delta {
            MemoryDelta::Unchanged => false,
            _ => true,
        };
        if changes_memory {
            next_state.emitted_events = next_state.emitted_events.saturating_add(1);
        }

        if input.budgets.max_steps > 0 && next_state.step_index >= input.budgets.max_steps {
            next_state.active = false;
            next_state.phase = StepPhase::Finalize;
        }

        let status = if next_state.active {
            StepStatus::Running
        } else {
            StepStatus::Halted
        };

        Ok(
            StepResult {
                frame_id: input.frame_id,
                tick: input.tick,
                phase,
                next_state,
                probes: eval.probes,
                memory_delta: eval.memory_delta,
                status,
            },
        )
    }

    /// Runs a frame over `inputs`, one step per input, from tick 0, applying
    /// each step's memory change and recording it, until the inputs are used
    /// up or the frame halts: see [`run_from`].
    pub fn run(
        &self,
        initial_frame: FrameState,
        initial_memory: MemoryView,
        inputs: &[Option<TokenId>],
        budgets: StepBudgets,
        control: StepControl,
    ) -> (r: Result<ReplayRecord, &'static str>)
        requires
            run_defined(empty_record(initial_frame@, initial_memory@, budgets, control), inputs@, 0),
        ensures
            match r {
                Ok(record) => run_from(
                    empty_record(initial_frame@, initial_memory@, budgets, control),
                    inputs@,
                    0,
                ) == Ok::<ReplayRecordModel, &'static str>(record@),
                Err(e) => run_from(
                    empty_record(initial_frame@, initial_memory@, budgets, control),
                    inputs@,
                    0,
                ) == Err::<ReplayRecordModel, &'static str>(e),
            },
    {
        let ghost start = empty_record(initial_frame@, initial_memory@, budgets, control);
        let mut frame = initial_frame.clone();
        let mut memory = initial_memory.clone();
        let mut record = ReplayRecord::new(initial_frame, initial_memory, budgets, control);
        let mut tick: usize = 0;

        while tick < inputs.len() && frame.active
            invariant
                tick <= inputs.len(),
                start == empty_record(initial_frame@, initial_memory@, budgets, control),
                frame@ == record@.final_frame,
                memory@ == record@.final_memory,
                record@.budgets == budgets,
                record@.control == control,
                run_from(record@, inputs@, tick as nat) == run_from(start, inputs@, 0),
                run_defined(record@, inputs@, tick as nat),
            decreases inputs.len() - tick,
        {
            let input_token = inputs[tick];
            let memory_before = memory.clone();
            let step_input = StepInput {
                frame_id: frame.frame_id,
                tick: tick as u64,
                input_token,
                frame_state: frame.clone(),
                memory_view: memory.clone(),
                budgets,
                control,
            };
            assert(step_input@ == run_input(record@, inputs@, tick as nat));

            let result = match self.step(step_input) {
                Ok(res) => res,
                Err(e) => {
                    return Err(e);
                },
            };
            match apply_memory_delta_locally(&mut memory, &result.memory_delta, &budgets) {
                Ok(()) => {},
                Err(e) => {
                    return Err(e);
                },
            }
            frame = result.next_state.clone();
            let memory_after = memory.clone();
            let ghost before = record@;
            let ghost step = run_step(before, inputs@, tick as nat, result@);
            record.push_step(tick as u64, input_token, memory_before, result, memory_after);
            assert(record@ == record_push(before, step));
            tick += 1;
        }
        Ok(record)
    }

    fn validate_input(input: &StepInput) -> (r: Result<(), &'static str>)
        ensures
            r == (match validation_error(input@) {
                Some(e) => Err::<(), &'static str>(e),
                None => Ok(()),
            }),
    {
        if input.frame_id != input.frame_state.frame_id {
            return Err("frame_id does not match frame_state.frame_id");
        }
        if input.tick != input.frame_state.step_index {
            return Err("tick does not match frame_state.step_index");
        }
        if input.memory_view.max_items != input.budgets.max_memory_items {
            return Err("memory_view.max_items does not match budgets.max_memory_items");
        }
        if input.frame_state.state_slots.len() > input.budgets.max_state_slots {
            return Err("state_slots exceed budgets.max_state_slots");
        }
        if input.memory_view.len() > input.budgets.max_memory_items {
            return Err("memory items exceed budgets.max_memory_items");
        }
        if !input.frame_state.active {
            return Err("frame is not active");
        }
        Ok(())
    }

    fn next_phase(current: StepPhase) -> (r: StepPhase)
        ensures
            r == phase_after(current),
    {
        match current {
            StepPhase::Prefill => StepPhase::Evaluate,
            StepPhase::Evaluate => StepPhase::Evaluate,
            StepPhase::Finalize => StepPhase::Finalize,
        }
    }
}

} // verus!
