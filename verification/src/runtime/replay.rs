use vstd::prelude::*;

use crate::runtime::types::{
    DeltaModel, FrameModel, FrameState, MemoryDelta, MemoryModel, MemoryView, StepBudgets,
    StepControl, StepResult, StepResultModel, TokenId,
};

verus! {

/// One recorded step: its tick and token, the memory around it and its result.
#[derive(Debug, PartialEq, Eq)]
pub struct ReplayStep {
    pub tick: u64,
    pub input_token: Option<TokenId>,
    pub memory_before: MemoryView,
    pub result: StepResult,
    pub memory_after: MemoryView,
}

/// Mathematical value of a [`ReplayStep`].
#[verifier::ext_equal]
pub struct ReplayStepModel {
    pub tick: u64,
    pub input_token: Option<TokenId>,
    pub memory_before: MemoryModel,
    pub result: StepResultModel,
    pub memory_after: MemoryModel,
}

impl View for ReplayStep {
    type V = ReplayStepModel;

    open spec fn view(&self) -> ReplayStepModel {
        ReplayStepModel {
            tick: self.tick,
            input_token: self.input_token,
            memory_before: self.memory_before@,
            result: self.result@,
            memory_after: self.memory_after@,
        }
    }
}

impl Clone for ReplayStep {
    fn clone(&self) -> (r: Self)
        ensures
            r@ == self@,
    {
        ReplayStep {
            tick: self.tick,
            input_token: self.input_token,
            memory_before: self.memory_before.clone(),
            result: self.result.clone(),
            memory_after: self.memory_after.clone(),
        }
    }
}

/// The record of a run: where it started, every step, and where it ended.
#[derive(Debug, PartialEq, Eq)]
pub struct ReplayRecord {
    pub frame_id: u64,
    pub initial_frame: FrameState,
    pub initial_memory: MemoryView,
    pub budgets: StepBudgets,
    pub control: StepControl,
    pub steps: Vec<ReplayStep>,
    pub final_frame: FrameState,
    pub final_memory: MemoryView,
}

/// Mathematical value of a [`ReplayRecord`].
#[verifier::ext_equal]
pub struct ReplayRecordModel {
    pub frame_id: u64,
    pub initial_frame: FrameModel,
    pub initial_memory: MemoryModel,
    pub budgets: StepBudgets,
    pub control: StepControl,
    pub steps: Seq<ReplayStepModel>,
    pub final_frame: FrameModel,
    pub final_memory: MemoryModel,
}

/// The models of a sequence of recorded steps.
pub open spec fn step_models(steps: Seq<ReplayStep>) -> Seq<ReplayStepModel> {
    steps.map_values(|s: ReplayStep| s@)
}

impl View for ReplayRecord {
    type V = ReplayRecordModel;

    open spec fn view(&self) -> ReplayRecordModel {
        ReplayRecordModel {
            frame_id: self.frame_id,
            initial_frame: self.initial_frame@,
            initial_memory: self.initial_memory@,
            budgets: self.budgets,
            control: self.control,
            steps: step_models(self.steps@),
            final_frame: self.final_frame@,
            final_memory: self.final_memory@,
        }
    }
}

impl Clone for ReplayRecord {
    fn clone(&self) -> (r: Self)
        ensures
            r@ == self@,
    {
        let steps = self.steps.clone();
        assert(step_models(steps@) =~= step_models(self.steps@));
        ReplayRecord {
            frame_id: self.frame_id,
            initial_frame: self.initial_frame.clone(),
            initial_memory: self.initial_memory.clone(),
            budgets: self.budgets,
            control: self.control,
            steps,
            final_frame: self.final_frame.clone(),
            final_memory: self.final_memory.clone(),
        }
    }
}

/// The record of a run that has not taken a step yet.
pub open spec fn empty_record(
    initial_frame: FrameModel,
    initial_memory: MemoryModel,
    budgets: StepBudgets,
    control: StepControl,
) -> ReplayRecordModel {
    ReplayRecordModel {
        frame_id: initial_frame.frame_id,
        initial_frame,
        initial_memory,
        budgets,
        control,
        steps: Seq::empty(),
        final_frame: initial_frame,
        final_memory: initial_memory,
    }
}

/// `record` with one more step appended, its end moved to that step's outcome.
pub open spec fn record_push(record: ReplayRecordModel, step: ReplayStepModel) -> ReplayRecordModel {
    ReplayRecordModel {
        steps: record.steps.push(step),
        final_frame: step.result.next_state,
        final_memory: step.memory_after,
        ..record
    }
}

impl ReplayRecord {
    /// A record that starts (and, for now, ends) at the given frame and memory.
    pub fn new(
        initial_frame: FrameState,
        initial_memory: MemoryView,
        budgets: StepBudgets,
        control: StepControl,
    ) -> (r: Self)
        ensures
            r@ == empty_record(initial_frame@, initial_memory@, budgets, control),
    {
        let r = ReplayRecord {
            frame_id: initial_frame.frame_id,
            initial_frame: initial_frame.clone(),
            initial_memory: initial_memory.clone(),
            budgets,
            control,
            steps: Vec::new(),
            final_frame: initial_frame,
            final_memory: initial_memory,
        };
        assert(r@.steps =~= Seq::<ReplayStepModel>::empty());
        r
    }

    /// Appends a step; the record's end becomes that step's next state and memory.
    pub fn push_step(
        &mut self,
        tick: u64,
        input_token: Option<TokenId>,
        memory_before: MemoryView,
        result: StepResult,
        memory_after: MemoryView,
    )
        ensures
            final(self)@ == record_push(
                old(self)@,
                ReplayStepModel {
                    tick,
                    input_token,
                    memory_before: memory_before@,
                    result: result@,
                    memory_after: memory_after@,
                },
            ),
    {
        self.final_frame = result.next_state.clone();
        self.final_memory = memory_after.clone();
        let ghost before = self.steps@;
        let step = ReplayStep { tick, input_token, memory_before, result, memory_after };
        let ghost step_model = step@;
        self.steps.push(step);
        assert(step_models(self.steps@) =~= step_models(before).push(step_model));
    }

    /// Number of recorded steps.
    pub fn len(&self) -> (r: usize)
        ensures
            r == self@.steps.len(),
    {
        self.steps.len()
    }

    /// Whether no step was recorded.
    pub fn is_empty(&self) -> (r: bool)
        ensures
            r == (self@.steps.len() == 0),
    {
        self.steps.len() == 0
    }

    /// The most recent step, if any.
    pub fn last_step(&self) -> (r: Option<&ReplayStep>)
        ensures
            self@.steps.len() == 0 ==> r is None,
            self@.steps.len() > 0 ==> (r matches Some(s) && s@ == self@.steps.last()),
    {
        let n = self.steps.len();
        if n == 0 {
            None
        } else {
            Some(&self.steps[n - 1])
        }
    }
}

/// What `apply_memory_delta_locally` leaves behind: the memory window afterwards,
/// and the error it reports, if any. On success the window's bound becomes
/// `max`; an eviction takes the oldest item out even when it then fails.
pub open spec fn apply_outcome(mem: MemoryModel, delta: DeltaModel, max: usize) -> (
    MemoryModel,
    Option<&'static str>,
) {
    let items = mem.items;
    match delta {
        DeltaModel::Unchanged => (MemoryModel { max_items: max, items }, None),
        DeltaModel::Append(token) => if max == 0 {
            (mem, Some("cannot append memory when max_memory_items is 0"))
        } else if items.len() >= max {
            (mem, Some("append would exceed max_memory_items"))
        } else {
            (MemoryModel { max_items: max, items: items.push(token) }, None)
        },
        DeltaModel::EvictAndAppend { evicted, appended } => if items.len() == 0 {
            (mem, Some("cannot evict from empty memory view"))
        } else if items[0] != evicted {
            (
                MemoryModel { max_items: mem.max_items, items: items.drop_first() },
                Some("memory eviction did not match expected oldest token"),
            )
        } else if max == 0 {
            (
                MemoryModel { max_items: mem.max_items, items: items.drop_first() },
                Some("cannot append memory when max_memory_items is 0"),
            )
        } else {
            (MemoryModel { max_items: max, items: items.drop_first().push(appended) }, None)
        },
        DeltaModel::ReplaceAll(next) => if next.len() > max {
            (mem, Some("replacement memory exceeds max_memory_items"))
        } else {
            (MemoryModel { max_items: max, items: next }, None)
        },
    }
}

/// The memory window after a successful application of `delta`, or the error.
pub open spec fn apply_result(mem: MemoryModel, delta: DeltaModel, max: usize) -> Result<
    MemoryModel,
    &'static str,
> {
    match apply_outcome(mem, delta, max).1 {
        Some(e) => Err(e),
        None => Ok(apply_outcome(mem, delta, max).0),
    }
}

/// Applies `delta` to `memory_view` under `budgets`, checking that it fits the
/// window: see [`apply_outcome`] for the window afterwards and the error.
pub fn apply_memory_delta_locally(
    memory_view: &mut MemoryView,
    delta: &MemoryDelta,
    budgets: &StepBudgets,
) -> (r: Result<(), &'static str>)
    ensures
        final(memory_view)@ == apply_outcome(
            old(memory_view)@,
            delta@,
            budgets.max_memory_items,
        ).0,
        r == (match apply_outcome(old(memory_view)@, delta@, budgets.max_memory_items).1 {
            Some(e) => Err::<(), &'static str>(e),
            None => Ok(()),
        }),
{
    let ghost items = memory_view.items@;
    match delta {
        MemoryDelta::Unchanged => {},
        MemoryDelta::Append(token) => {
            if budgets.max_memory_items == 0 {
                return Err("cannot append memory when max_memory_items is 0");
            }
            if memory_view.len() >= budgets.max_memory_items {
                return Err("append would exceed max_memory_items");
            }
            memory_view.items.push_back(*token);
        },
        MemoryDelta::EvictAndAppend { evicted, appended } => match memory_view.items.pop_front() {
            Some(found) => {
                assert(items.drop_first() =~= memory_view.items@);
                if found != *evicted {
                    return Err("memory eviction did not match expected oldest token");
                }
                if budgets.max_memory_items == 0 {
                    return Err("cannot append memory when max_memory_items is 0");
                }
                memory_view.items.push_back(*appended);
            },
            None => {
                return Err("cannot evict from empty memory view");
            },
        },
        MemoryDelta::ReplaceAll(next) => {
            if next.len() > budgets.max_memory_items {
                return Err("replacement memory exceeds max_memory_items");
            }
            let items_next = next.clone();
            assert(items_next@ =~= next@);
            memory_view.items = items_next;
        },
    }
    memory_view.max_items = budgets.max_memory_items;
    Ok(())
}

} // verus!
