//! A small deterministic runtime that advances bounded frame state one step at
//! a time, keeps a bounded FIFO memory window of tokens, and records every step
//! so that a run can be replayed.

pub mod eval;
pub mod runtime;
