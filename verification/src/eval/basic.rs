use vstd::prelude::*;

use crate::runtime::types::{
    DeltaModel, FrameModel, FrameState, MemoryDelta, MemoryModel, MemoryView, ProbeSurface,
    StepBudgets, TokenId,
};

verus! {

/// What one evaluation produces: the next slots, the probes and the memory change.
#[derive(Debug, PartialEq, Eq)]
pub struct EvalOutput {
    pub next_slots: Vec<i32>,
    pub probes: ProbeSurface,
    pub memory_delta: MemoryDelta,
}

/// Mathematical value of an [`EvalOutput`].
#[verifier::ext_equal]
pub struct EvalOutputModel {
    pub next_slots: Seq<i32>,
    pub probes: ProbeSurface,
    pub memory_delta: DeltaModel,
}

impl View for EvalOutput {
    type V = EvalOutputModel;

    open spec fn view(&self) -> EvalOutputModel {
        EvalOutputModel {
            next_slots: self.next_slots@,
            probes: self.probes,
            memory_delta: self.memory_delta@,
        }
    }
}

impl Clone for EvalOutput {
    fn clone(&self) -> (r: Self)
        ensures
            r@ == self@,
    {
        let slots = self.next_slots.clone();
        assert(slots@ =~= self.next_slots@);
        EvalOutput { next_slots: slots, probes: self.probes, memory_delta: self.memory_delta.clone() }
    }
}

/// `x` clamped to the range of `i32`.
pub open spec fn saturate(x: int) -> i32 {
    if x > i32::MAX {
        i32::MAX
    } else if x < i32::MIN {
        i32::MIN
    } else {
        x as i32
    }
}

/// `x` clamped to at most 1000.
pub open spec fn cap_milli(x: int) -> u32 {
    if x < 1000 {
        x as u32
    } else {
        1000
    }
}

/// The absolute value of `x`.
pub open spec fn abs(x: int) -> int {
    if x < 0 {
        -x
    } else {
        x
    }
}

/// How full the memory is, in thousandths of the budget, at most 1000; 0 for
/// a zero budget. The count and the budget are taken as `u32`, as they are used.
pub open spec fn memory_load(len: usize, max: usize) -> u32 {
    if max == 0 {
        0
    } else {
        cap_milli(((len as u32) as int * 1000) / ((max as u32) as int))
    }
}

/// The token's push on the first slot: its value modulo 17, or 0 without a token.
pub open spec fn token_bias(token: Option<TokenId>) -> int {
    match token {
        Some(t) => (t % 17) as int,
        None => 0,
    }
}

/// The first slot grows by 2 under heavy memory load (750 and above), else by 1.
pub open spec fn pressure_bump(load: u32) -> int {
    if load >= 750 {
        2
    } else {
        1
    }
}

/// A step without a token relieves the second slot by 1.
pub open spec fn recovery_bump(token: Option<TokenId>) -> int {
    if token is None {
        1
    } else {
        0
    }
}

/// The next value of the first slot.
pub open spec fn first_slot_next(s0: i32, load: u32, token: Option<TokenId>) -> i32 {
    saturate(s0 + pressure_bump(load) + token_bias(token))
}

/// The next value of the second slot: grows by the memory length (taken as
/// `i32`) less the recovery bump.
pub open spec fn second_slot_next(s1: i32, len: usize, token: Option<TokenId>) -> i32 {
    saturate(s1 + ((len as i32) - recovery_bump(token)))
}

/// The next value of the third slot: how far apart the first two have moved.
pub open spec fn drift_slot(n0: i32, n1: i32) -> i32 {
    abs(saturate(n0 - n1) as int) as i32
}

/// The slots after one evaluation: the first four are recomputed, the rest kept.
pub open spec fn evolved_slots(
    slots: Seq<i32>,
    len: usize,
    max: usize,
    token: Option<TokenId>,
) -> Seq<i32> {
    let n0 = first_slot_next(slots[0], memory_load(len, max), token);
    let n1 = second_slot_next(slots[1], len, token);
    Seq::new(
        slots.len(),
        |i: int|
            if i == 0 {
                n0
            } else if i == 1 {
                n1
            } else if i == 2 {
                drift_slot(n0, n1)
            } else if i == 3 {
                if token is Some {
                    1i32
                } else {
                    0i32
                }
            } else {
                slots[i]
            },
    )
}

/// The probes read off the next slots and the memory load.
pub open spec fn probes_of(next: Seq<i32>, len: usize, max: usize) -> ProbeSurface {
    ProbeSurface {
        pressure_milli: if next.len() > 0 {
            cap_milli(abs(next[0] as int))
        } else {
            0
        },
        memory_load_milli: memory_load(len, max),
        drift_milli: if next.len() > 2 {
            cap_milli(abs(next[2] as int))
        } else {
            0
        },
    }
}

/// The memory change for a token: none without a token or with a zero budget;
/// an append while there is room; else the oldest item makes way for the token.
pub open spec fn choose_delta(items: Seq<TokenId>, token: Option<TokenId>, max: usize) -> DeltaModel {
    match token {
        None => DeltaModel::Unchanged,
        Some(t) => if max == 0 {
            DeltaModel::Unchanged
        } else if items.len() < max {
            DeltaModel::Append(t)
        } else {
            DeltaModel::EvictAndAppend { evicted: items[0], appended: t }
        },
    }
}

/// What `evaluate` returns for a frame, a memory window, a token and budgets.
pub open spec fn evaluation(
    frame: FrameModel,
    memory: MemoryModel,
    token: Option<TokenId>,
    budgets: StepBudgets,
) -> EvalOutputModel {
    let len = memory.items.len() as usize;
    let max = budgets.max_memory_items;
    let next = evolved_slots(frame.state_slots, len, max, token);
    EvalOutputModel {
        next_slots: next,
        probes: probes_of(next, len, max),
        memory_delta: choose_delta(memory.items, token, max),
    }
}

/// The inputs on which an evaluation runs without arithmetic overflow or a
/// division by zero: the load's product and divisor fit `u32`, the second
/// slot's increment fits `i32`, and the distance of the first two slots is
/// not `i32::MIN`.
pub open spec fn evaluation_defined(
    slots: Seq<i32>,
    len: usize,
    max: usize,
    token: Option<TokenId>,
) -> bool {
    &&& max != 0 ==> (len as u32) as int * 1000 <= u32::MAX && (max as u32) != 0
    &&& slots.len() > 1 && token is None ==> (len as i32) != i32::MIN
    &&& slots.len() > 2 ==> saturate(
        first_slot_next(slots[0], memory_load(len, max), token) - second_slot_next(
            slots[1],
            len,
            token,
        ),
    ) != i32::MIN
}

fn saturating_add(a: i32, b: i32) -> (r: i32)
    ensures
        r == saturate(a + b),
{
    let s: i64 = a as i64 + b as i64;
    if s > i32::MAX as i64 {
        i32::MAX
    } else if s < i32::MIN as i64 {
        i32::MIN
    } else {
        s as i32
    }
}

fn saturating_sub(a: i32, b: i32) -> (r: i32)
    ensures
        r == saturate(a - b),
{
    let s: i64 = a as i64 - b as i64;
    if s > i32::MAX as i64 {
        i32::MAX
    } else if s < i32::MIN as i64 {
        i32::MIN
    } else {
        s as i32
    }
}

fn unsigned_abs_capped(x: i32) -> (r: u32)
    ensures
        r == cap_milli(abs(x as int)),
{
    let a: u32 = if x < 0 {
        (0i64 - x as i64) as u32
    } else {
        x as u32
    };
    if a < 1000 {
        a
    } else {
        1000
    }
}

/// The evaluator that turns a frame's slots, its memory and a token into the
/// next slots, a set of probes and a memory change.
#[derive(Debug, Default)]
pub struct BasicEvaluator;

impl BasicEvaluator {
    pub fn new() -> Self {
        BasicEvaluator
    }

    /// Evaluates one step: see [`evaluation`]. Every probe is at most 1000 and
    /// the slots keep their number.
    pub fn evaluate(
        &self,
        frame_state: &FrameState,
        memory_view: &MemoryView,
        input_token: Option<TokenId>,
        budgets: &StepBudgets,
    ) -> (r: EvalOutput)
        requires
            evaluation_defined(
                frame_state@.state_slots,
                memory_view@.items.len() as usize,
                budgets.max_memory_items,
                input_token,
            ),
        ensures
            r@ == evaluation(frame_state@, memory_view@, input_token, *budgets),
            r.probes.pressure_milli <= 1000,
            r.probes.memory_load_milli <= 1000,
            r.probes.drift_milli <= 1000,
            r@.next_slots.len() == frame_state@.state_slots.len(),
    {
        let mut next_slots = frame_state.state_slots.clone();
        assert(next_slots@ =~= frame_state.state_slots@);
        let len = memory_view.len();
        let ghost slots = frame_state.state_slots@;
        let ghost max = budgets.max_memory_items;

        let memory_load_milli: u32 = if budgets.max_memory_items == 0 {
            0
        } else {
            let q: u32 = (len as u32) * 1000 / (budgets.max_memory_items as u32);
            if q < 1000 {
                q
            } else {
                1000
            }
        };
        assert(memory_load_milli == memory_load(len, max));

        let token_bias: i32 = match input_token {
            Some(t) => (t % 17) as i32,
            None => 0,
        };
        let pressure_bump: i32 = if memory_load_milli >= 750 {
            2
        } else {
            1
        };
        let recovery_bump: i32 = if input_token.is_none() {
            1
        } else {
            0
        };

        if next_slots.len() > 0 {
            let v = saturating_add(next_slots[0], pressure_bump + token_bias);
            next_slots.set(0, v);
        }
        if next_slots.len() > 1 {
            let v = saturating_add(next_slots[1], (len as i32) - recovery_bump);
            next_slots.set(1, v);
        }
        if next_slots.len() > 2 {
            let d = saturating_sub(next_slots[0], next_slots[1]);
            let drift: i32 = if d < 0 {
                -d
            } else {
                d
            };
            next_slots.set(2, drift);
        }
        if next_slots.len() > 3 {
            let v: i32 = if input_token.is_some() {
                1
            } else {
                0
            };
            next_slots.set(3, v);
        }
        assert(next_slots@ =~= evolved_slots(slots, len, max, input_token));

        let memory_delta = self.choose_memory_delta(memory_view, input_token, budgets);

        let drift_milli: u32 = if next_slots.len() > 2 {
            unsigned_abs_capped(next_slots[2])
        } else {
            0
        };
        let first: i32 = if next_slots.len() > 0 {
            next_slots[0]
        } else {
            0
        };
        let pressure_milli = unsigned_abs_capped(first);

        EvalOutput {
            next_slots,
            probes: ProbeSurface { pressure_milli, memory_load_milli, drift_milli },
            memory_delta,
        }
    }

    fn choose_memory_delta(
        &self,
        memory_view: &MemoryView,
        input_token: Option<TokenId>,
        budgets: &StepBudgets,
    ) -> (r: MemoryDelta)
        ensures
            r@ == choose_delta(memory_view@.items, input_token, budgets.max_memory_items),
    {
        let token = match input_token {
            Some(t) => t,
            None => {
                return MemoryDelta::Unchanged;
            },
        };

        if budgets.max_memory_items == 0 {
            return MemoryDelta::Unchanged;
        }

        if memory_view.len() < budgets.max_memory_items {
            return MemoryDelta::Append(token);
        }

        if memory_view.len() > 0 {
            MemoryDelta::EvictAndAppend { evicted: memory_view.items[0], appended: token }
        } else {
            MemoryDelta::Append(token)
        }
    }
}

} // verus!
