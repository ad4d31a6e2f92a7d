use std::collections::VecDeque;
use vstd::prelude::*;

verus! {

/// Identifier of an input token.
pub type TokenId = u32;

/// Whether a step left the frame running or halted it.
#[derive(Debug, Clone, Copy, PartialEq, Eq, Structural, Default)]
pub enum StepStatus {
    #[default]
    Running,
    Halted,
}

/// The phase a frame is in.
#[derive(Debug, Clone, Copy, PartialEq, Eq, Structural, Default)]
pub enum StepPhase {
    Prefill,
    #[default]
    Evaluate,
    Finalize,
}

/// The bounded state of one frame.
#[derive(Debug, PartialEq, Eq)]
pub struct FrameState {
    pub frame_id: u64,
    pub step_index: u64,
    pub phase: StepPhase,
    pub active: bool,
    pub state_slots: Vec<i32>,
    pub emitted_events: u64,
}

/// Mathematical value of a [`FrameState`].
#[verifier::ext_equal]
pub struct FrameModel {
    pub frame_id: u64,
    pub step_index: u64,
    pub phase: StepPhase,
    pub active: bool,
    pub state_slots: Seq<i32>,
    pub emitted_events: u64,
}

impl View for FrameState {
    type V = FrameModel;

    open spec fn view(&self) -> FrameModel {
        FrameModel {
            frame_id: self.frame_id,
            step_index: self.step_index,
            phase: self.phase,
            active: self.active,
            state_slots: self.state_slots@,
            emitted_events: self.emitted_events,
        }
    }
}

impl Clone for FrameState {
    fn clone(&self) -> (r: Self)
        ensures
            r@ == self@,
    {
        let slots = self.state_slots.clone();
        assert(slots@ =~= self.state_slots@);
        FrameState {
            frame_id: self.frame_id,
            step_index: self.step_index,
            phase: self.phase,
            active: self.active,
            state_slots: slots,
            emitted_events: self.emitted_events,
        }
    }
}

impl FrameState {
    /// A fresh, active frame in the `Prefill` phase with `slot_count` zeroed slots.
    pub fn new(frame_id: u64, slot_count: usize) -> (r: Self)
        ensures
            r@ == (FrameModel {
                frame_id,
                step_index: 0,
                phase: StepPhase::Prefill,
                active: true,
                state_slots: Seq::new(slot_count as nat, |i: int| 0i32),
                emitted_events: 0,
            }),
    {
        let slots: Vec<i32> = vec![0i32; slot_count];
        assert(slots@ =~= Seq::new(slot_count as nat, |i: int| 0i32));
        FrameState {
            frame_id,
            step_index: 0,
            phase: StepPhase::Prefill,
            active: true,
            state_slots: slots,
            emitted_events: 0,
        }
    }
}

/// The bounded FIFO window of tokens a frame remembers.
#[derive(Debug, PartialEq, Eq)]
pub struct MemoryView {
    pub max_items: usize,
    pub items: VecDeque<TokenId>,
}

/// Mathematical value of a [`MemoryView`]: its bound and its items, oldest first.
#[verifier::ext_equal]
pub struct MemoryModel {
    pub max_items: usize,
    pub items: Seq<TokenId>,
}

impl View for MemoryView {
    type V = MemoryModel;

    open spec fn view(&self) -> MemoryModel {
        MemoryModel { max_items: self.max_items, items: self.items@ }
    }
}

impl Clone for MemoryView {
    fn clone(&self) -> (r: Self)
        ensures
            r@ == self@,
    {
        let items = self.items.clone();
        assert(items@ =~= self.items@);
        MemoryView { max_items: self.max_items, items }
    }
}

impl MemoryView {
    /// An empty memory window with the given bound.
    pub fn new(max_items: usize) -> (r: Self)
        ensures
            r@ == (MemoryModel { max_items, items: Seq::empty() }),
    {
        MemoryView { max_items, items: VecDeque::new() }
    }

    /// Number of remembered tokens.
    pub fn len(&self) -> (r: usize)
        ensures
            r == self@.items.len(),
    {
        self.items.len()
    }

    /// Whether no token is remembered.
    pub fn is_empty(&self) -> (r: bool)
        ensures
            r == (self@.items.len() == 0),
    {
        self.items.len() == 0
    }
}

/// A change to a memory window.
#[derive(Debug, PartialEq, Eq)]
pub enum MemoryDelta {
    Unchanged,
    Append(TokenId),
    EvictAndAppend { evicted: TokenId, appended: TokenId },
    ReplaceAll(VecDeque<TokenId>),
}

/// Mathematical value of a [`MemoryDelta`].
#[verifier::ext_equal]
pub enum DeltaModel {
    Unchanged,
    Append(TokenId),
    EvictAndAppend { evicted: TokenId, appended: TokenId },
    ReplaceAll(Seq<TokenId>),
}

impl View for MemoryDelta {
    type V = DeltaModel;

    open spec fn view(&self) -> DeltaModel {
        match self {
            MemoryDelta::Unchanged => DeltaModel::Unchanged,
            MemoryDelta::Append(t) => DeltaModel::Append(*t),
            MemoryDelta::EvictAndAppend { evicted, appended } => DeltaModel::EvictAndAppend {
                evicted: *evicted,
                appended: *appended,
            },
            MemoryDelta::ReplaceAll(next) => DeltaModel::ReplaceAll(next@),
        }
    }
}

impl Clone for MemoryDelta {
    fn clone(&self) -> (r: Self)
        ensures
            r@ == self@,
    {
        match self {
            MemoryDelta::Unchanged => MemoryDelta::Unchanged,
            MemoryDelta::Append(t) => MemoryDelta::Append(*t),
            MemoryDelta::EvictAndAppend { evicted, appended } => MemoryDelta::EvictAndAppend {
                evicted: *evicted,
                appended: *appended,
            },
            MemoryDelta::ReplaceAll(next) => {
                let items = next.clone();
                assert(items@ =~= next@);
                MemoryDelta::ReplaceAll(items)
            },
        }
    }
}

/// Limits that bound one frame's state, memory and number of steps.
#[derive(Debug, Clone, Copy, PartialEq, Eq, Structural)]
pub struct StepBudgets {
    pub max_state_slots: usize,
    pub max_memory_items: usize,
    pub max_steps: u64,
}

impl Default for StepBudgets {
    fn default() -> (r: Self)
        ensures
            r == (StepBudgets { max_state_slots: 16, max_memory_items: 8, max_steps: 8 }),
    {
        StepBudgets { max_state_slots: 16, max_memory_items: 8, max_steps: 8 }
    }
}

/// Flags that steer a step; `force_halt` stops the frame at once.
#[derive(Debug, Clone, Copy, PartialEq, Eq, Structural, Default)]
pub struct StepControl {
    pub policy_flags: u32,
    pub debug_flags: u32,
    pub force_halt: bool,
}

/// Everything one step reads.
#[derive(Debug, PartialEq, Eq)]
pub struct StepInput {
    pub frame_id: u64,
    pub tick: u64,
    pub input_token: Option<TokenId>,
    pub frame_state: FrameState,
    pub memory_view: MemoryView,
    pub budgets: StepBudgets,
    pub control: StepControl,
}

/// Mathematical value of a [`StepInput`].
#[verifier::ext_equal]
pub struct StepInputModel {
    pub frame_id: u64,
    pub tick: u64,
    pub input_token: Option<TokenId>,
    pub frame_state: FrameModel,
    pub memory_view: MemoryModel,
    pub budgets: StepBudgets,
    pub control: StepControl,
}

impl View for StepInput {
    type V = StepInputModel;

    open spec fn view(&self) -> StepInputModel {
        StepInputModel {
            frame_id: self.frame_id,
            tick: self.tick,
            input_token: self.input_token,
            frame_state: self.frame_state@,
            memory_view: self.memory_view@,
            budgets: self.budgets,
            control: self.control,
        }
    }
}

impl Clone for StepInput {
    fn clone(&self) -> (r: Self)
        ensures
            r@ == self@,
    {
        StepInput {
            frame_id: self.frame_id,
            tick: self.tick,
            input_token: self.input_token,
            frame_state: self.frame_state.clone(),
            memory_view: self.memory_view.clone(),
            budgets: self.budgets,
            control: self.control,
        }
    }
}

/// Observations of a step, each in thousandths and at most 1000.
#[derive(Debug, Clone, Copy, PartialEq, Eq, Structural)]
pub struct ProbeSurface {
    pub pressure_milli: u32,
    pub memory_load_milli: u32,
    pub drift_milli: u32,
}

impl Default for ProbeSurface {
    fn default() -> (r: Self)
        ensures
            r == (ProbeSurface { pressure_milli: 0, memory_load_milli: 0, drift_milli: 0 }),
    {
        ProbeSurface { pressure_milli: 0, memory_load_milli: 0, drift_milli: 0 }
    }
}

/// Everything one step produces.
#[derive(Debug, PartialEq, Eq)]
pub struct StepResult {
    pub frame_id: u64,
    pub tick: u64,
    pub phase: StepPhase,
    pub next_state: FrameState,
    pub probes: ProbeSurface,
    pub memory_delta: MemoryDelta,
    pub status: StepStatus,
}

/// Mathematical value of a [`StepResult`].
#[verifier::ext_equal]
pub struct StepResultModel {
    pub frame_id: u64,
    pub tick: u64,
    pub phase: StepPhase,
    pub next_state: FrameModel,
    pub probes: ProbeSurface,
    pub memory_delta: DeltaModel,
    pub status: StepStatus,
}

impl View for StepResult {
    type V = StepResultModel;

    open spec fn view(&self) -> StepResultModel {
        StepResultModel {
            frame_id: self.frame_id,
            tick: self.tick,
            phase: self.phase,
            next_state: self.next_state@,
            probes: self.probes,
            memory_delta: self.memory_delta@,
            status: self.status,
        }
    }
}

impl Clone for StepResult {
    fn clone(&self) -> (r: Self)
        ensures
            r@ == self@,
    {
        StepResult {
            frame_id: self.frame_id,
            tick: self.tick,
            phase: self.phase,
            next_state: self.next_state.clone(),
            probes: self.probes,
            memory_delta: self.memory_delta.clone(),
            status: self.status,
        }
    }
}

} // verus!
