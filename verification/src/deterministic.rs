//! Deterministic, single-tape, one-way Turing machines: the immutable
//! machine descriptor and the computation engine that executes it.

pub mod computation;
pub mod machine;

pub use crate::deterministic::computation::Computation as DetComputation;
pub use crate::deterministic::machine::TuringMachine as DTM;
