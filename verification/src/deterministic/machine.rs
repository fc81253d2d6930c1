//! The machine descriptor: an immutable table of states, symbols and
//! transitions plus the three distinguished state indices.
//!
//! A machine is the classical tuple of a state set, a language alphabet, a
//! tape alphabet, a transition table and start, accept and reject states.
//! Every tape cell holds an index into the concatenation of the tape symbols
//! followed by the language symbols, the unified symbol index space that the
//! whole engine works in.

use vstd::prelude::*;

use crate::deterministic::computation::{Computation, start_outcome};
use crate::errors::TmError;
use crate::util::{State, Symbol, Transition, TransitionModel, labels_of, chars_of, rows_of};

verus! {

/// Spec-level image of a `TuringMachine`: labels, display characters and
/// transition entries as mathematical sequences.
pub struct MachineModel {
    pub states: Seq<Seq<char>>,
    pub tape_symbols: Seq<char>,
    pub language_symbols: Seq<char>,
    pub transitions: Seq<Seq<TransitionModel>>,
    pub start_state: int,
    pub accept_state: int,
    pub reject_state: int,
}

impl MachineModel {
    /// Size of the unified symbol index space: tape symbols occupy the low
    /// range, language symbols the high range.
    pub open spec fn symbol_count(self) -> int {
        self.tape_symbols.len() + self.language_symbols.len() as int
    }
}

/// An immutable machine description. The engine trusts it to be well formed:
/// no cross-field validation happens at construction, and an out-of-range
/// index only surfaces when a computation would dereference it.
pub struct TuringMachine {
    states: Vec<State>,
    tape_symbols: Vec<Symbol>,
    language_symbols: Vec<Symbol>,
    transitions: Vec<Vec<Transition>>,
    start_state: usize,
    accept_state: usize,
    reject_state: usize,
}

impl View for TuringMachine {
    type V = MachineModel;

    closed spec fn view(&self) -> MachineModel {
        MachineModel {
            states: labels_of(self.states@),
            tape_symbols: chars_of(self.tape_symbols@),
            language_symbols: chars_of(self.language_symbols@),
            transitions: rows_of(self.transitions@),
            start_state: self.start_state as int,
            accept_state: self.accept_state as int,
            reject_state: self.reject_state as int,
        }
    }
}

impl TuringMachine {
    /// Construct an unbounded computation on this machine from a word.
    pub fn compute<'a>(&'a self, word: &String) -> (r: Result<Computation<'a>, TmError>)
        requires
            self@.symbol_count() <= usize::MAX,
        ensures
            start_outcome(self@, word@, None, None, r),
    {
        Computation::start(self, word)
    }

    /// Construct a bounded computation on this machine from a word. `limits`
    /// carries the optional time and space bounds, in that order.
    pub fn bounded_compute<'a>(
        &'a self,
        word: &String,
        limits: (Option<usize>, Option<usize>),
    ) -> (r: Result<Computation<'a>, TmError>)
        requires
            self@.symbol_count() <= usize::MAX,
        ensures
            start_outcome(self@, word@, limits.0, limits.1, r),
    {
        Computation::bounded_start(self, word, limits)
    }

    /// Assemble a machine from its parts, taking them at face value.
    pub fn new(
        states: Vec<State>,
        language_symbols: Vec<Symbol>,
        tape_symbols: Vec<Symbol>,
        transitions: Vec<Vec<Transition>>,
        start_state: usize,
        accept_state: usize,
        reject_state: usize,
    ) -> (r: Self)
        ensures
            (r@ == MachineModel {
                states: labels_of(states@),
                tape_symbols: chars_of(tape_symbols@),
                language_symbols: chars_of(language_symbols@),
                transitions: rows_of(transitions@),
                start_state: start_state as int,
                accept_state: accept_state as int,
                reject_state: reject_state as int,
            }),
    {
        Self { states, tape_symbols, language_symbols, transitions, start_state, accept_state, reject_state }
    }

    /// The machine's states, in index order.
    pub fn view_states(&self) -> (r: &Vec<State>)
        ensures
            labels_of(r@) == self@.states,
    {
        &self.states
    }

    /// The control symbols, occupying the low unified indices.
    pub fn view_tape_symbols(&self) -> (r: &Vec<Symbol>)
        ensures
            chars_of(r@) == self@.tape_symbols,
    {
        &self.tape_symbols
    }

    /// The input alphabet, occupying the high unified indices.
    pub fn view_language_symbols(&self) -> (r: &Vec<Symbol>)
        ensures
            chars_of(r@) == self@.language_symbols,
    {
        &self.language_symbols
    }

    /// The transition table, indexed by state and then by unified symbol index.
    pub fn view_transitions(&self) -> (r: &Vec<Vec<Transition>>)
        ensures
            rows_of(r@) == self@.transitions,
    {
        &self.transitions
    }

    /// Index of the state a computation starts in.
    pub fn view_start_state(&self) -> (r: usize)
        ensures
            r == self@.start_state,
    {
        self.start_state
    }

    /// Index of the accepting state; its transition row is never dereferenced.
    pub fn view_accept_state(&self) -> (r: usize)
        ensures
            r == self@.accept_state,
    {
        self.accept_state
    }

    /// Index of the rejecting state; its transition row is never dereferenced.
    pub fn view_reject_state(&self) -> (r: usize)
        ensures
            r == self@.reject_state,
    {
        self.reject_state
    }
}

/// The model of the example machine that `TuringMachine::default` builds.
pub open spec fn default_machine_model() -> MachineModel {
    MachineModel {
        states: seq!["q0"@, "q1"@, "q2"@],
        tape_symbols: seq!['_', '>'],
        language_symbols: seq!['0', '1'],
        transitions: seq![
            seq![
                TransitionModel { next_state: 1, write_symbol: 0, direction: 1 },
                TransitionModel { next_state: 1, write_symbol: 1, direction: 1 },
                TransitionModel { next_state: 1, write_symbol: 2, direction: 1 },
                TransitionModel { next_state: 1, write_symbol: 3, direction: 1 },
            ],
        ],
        start_state: 0,
        accept_state: 1,
        reject_state: 2,
    }
}

impl Default for TuringMachine {
    /// A minimal well-formed example machine: three states, the `0`/`1`
    /// alphabet, and a single transition row that sends the start state
    /// straight to the accept state on every symbol.
    fn default() -> (r: Self)
        ensures
            r@ == default_machine_model(),
    {
        let states = vec![
            State::new_state(String::from_str("q0")),
            State::new_state(String::from_str("q1")),
            State::new_state(String::from_str("q2")),
        ];
        let language_symbols = vec![Symbol::new_symbol('0'), Symbol::new_symbol('1')];
        let tape_symbols = vec![Symbol::new_symbol('_'), Symbol::new_symbol('>')];
        let transitions = vec![
            vec![
                Transition::new_transition(1, 0, 1),
                Transition::new_transition(1, 1, 1),
                Transition::new_transition(1, 2, 1),
                Transition::new_transition(1, 3, 1),
            ],
        ];
        let r = Self {
            states,
            tape_symbols,
            language_symbols,
            transitions,
            start_state: 0,
            accept_state: 1,
            reject_state: 2,
        };
        proof {
            assert(r@.states =~= default_machine_model().states);
            assert(r@.tape_symbols =~= default_machine_model().tape_symbols);
            assert(r@.language_symbols =~= default_machine_model().language_symbols);
            assert(r@.transitions[0] =~= default_machine_model().transitions[0]);
            assert(r@.transitions =~= default_machine_model().transitions);
        }
        r
    }
}

} // verus!
