# hoop_valley_pico

A small deterministic runtime that advances bounded frame state one step at a
time, keeps a bounded FIFO memory window of tokens, and records every step of a
run so that it can be replayed. The library is written in Verus and every
function in `src/` is verified against its contract.

- `src/runtime/types.rs`: frames, memory windows, deltas, budgets, step inputs
  and results, each with a mathematical model (`view`).
- `src/eval/basic.rs`: the basic evaluator; `evaluation` states what it computes.
- `src/runtime/replay.rs`: replay records and the application of memory deltas
  (`apply_outcome`).
- `src/runtime/engine.rs`: validation, one step (`step_outcome`) and a whole run
  (`run_from`).
- `src/runtime/properties.rs`: proved properties: chosen memory changes always
  apply and keep the newest tokens, accepted steps are coherent, halted frames
  take no step, a run fails only on its first step, and a run's record replays
  its inputs within the step budget.
- `app/main.rs`: the demo program.
