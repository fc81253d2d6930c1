//! Simulation of deterministic, single-tape, one-way Turing machines.
//!
//! A machine is described by its states, its tape and language symbols, and a
//! transition table; a computation encodes an input word onto a tape and then
//! executes the machine step by step until it halts (accept or reject) or
//! exceeds caller-supplied time or space bounds.
//!
//! The behavior of the engine is pinned down by spec-level models: a machine
//! views as a `MachineModel`, a computation as a `ConfigModel`, and a single
//! step is the mathematical function `step_model`, whose precedence order —
//! time bound, then transition effects, then space bound, then accept or
//! reject — every `step` call is proved to follow exactly.

pub mod deterministic;
pub mod errors;
pub mod util;
