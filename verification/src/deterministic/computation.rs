//! The computation engine: a tape, a head, a current state and a resource
//! clock, mutated step by step against an immutable machine descriptor.

use vstd::prelude::*;

use crate::errors::TmError;
use crate::util::{
    ComputationClock, ComputationStatus, Symbol, Transition, TransitionModel, bound_model,
    decimal_digits, decimal_string, push_char, chars_of,
};
use crate::deterministic::machine::{MachineModel, TuringMachine};

verus! {

/// Spec-level configuration of a computation: everything that `step` reads
/// and mutates, as mathematical values.
pub struct ConfigModel {
    pub current_state: int,
    pub head: int,
    pub tape: Seq<int>,
    pub status: ComputationStatus,
    pub time: int,
    pub space: int,
    pub max_time: Option<int>,
    pub max_space: Option<int>,
}

/// The cells of a tape as mathematical integers.
pub open spec fn tape_model(tape: Seq<usize>) -> Seq<int> {
    tape.map_values(|v: usize| v as int)
}

/// Index of the first occurrence of `c` in `s`, if any.
pub open spec fn find_char(s: Seq<char>, c: char) -> Option<int>
    decreases s.len(),
{
    if s.len() == 0 {
        None
    } else if s[0] == c {
        Some(0)
    } else {
        match find_char(s.subrange(1, s.len() as int), c) {
            Some(i) => Some(i + 1),
            None => None,
        }
    }
}

/// The unified symbol index of a character: language symbols take priority
/// and are shifted past the tape symbols; tape symbols keep their own index.
pub open spec fn symbol_index(m: MachineModel, c: char) -> Option<int> {
    match find_char(m.language_symbols, c) {
        Some(i) => Some(m.tape_symbols.len() + i),
        None => find_char(m.tape_symbols, c),
    }
}

/// Every character of the word is displayed by some symbol of the machine.
pub open spec fn word_encodable(m: MachineModel, word: Seq<char>) -> bool {
    forall|i: int| 0 <= i < word.len() ==> symbol_index(m, #[trigger] word[i]) is Some
}

/// Position of the first character of the word that no symbol displays.
pub open spec fn first_invalid(m: MachineModel, word: Seq<char>) -> int
    decreases word.len(),
{
    if word.len() == 0 {
        0
    } else if symbol_index(m, word[0]) is None {
        0
    } else {
        1 + first_invalid(m, word.subrange(1, word.len() as int))
    }
}

/// The initial tape: the left-end marker (unified index 1) followed by the
/// encoded word.
pub open spec fn encoded_tape(m: MachineModel, word: Seq<char>) -> Seq<int> {
    seq![1int] + Seq::new(word.len(), |i: int| symbol_index(m, word[i]).unwrap())
}

/// The message reported for an invalid character at a zero-based position.
pub open spec fn invalid_symbol_message(c: char, position: int) -> Seq<char> {
    "Invalid symbol "@ + seq![c] + " found at position "@ + decimal_digits(position as nat) + "."@
}

/// The configuration a computation starts from.
pub open spec fn initial_config(
    m: MachineModel,
    word: Seq<char>,
    max_time: Option<usize>,
    max_space: Option<usize>,
) -> ConfigModel {
    ConfigModel {
        current_state: m.start_state,
        head: 0,
        tape: encoded_tape(m, word),
        status: ComputationStatus::Executing,
        time: 0,
        space: word.len() as int + 1,
        max_time: bound_model(max_time),
        max_space: bound_model(max_space),
    }
}

/// Whether an elapsed time has reached a configured time bound.
pub open spec fn time_bound_hit(max_time: Option<int>, time: int) -> bool {
    match max_time {
        Some(limit) => time >= limit,
        None => false,
    }
}

/// Whether a space high-water mark has reached a configured space bound.
pub open spec fn space_bound_hit(max_space: Option<int>, space: int) -> bool {
    match max_space {
        Some(limit) => space >= limit,
        None => false,
    }
}

/// The transition that applies to a configuration: the table row of the
/// current state, at the unified index under the head.
pub open spec fn transition_of(m: MachineModel, c: ConfigModel) -> TransitionModel {
    m.transitions[c.current_state][c.tape[c.head]]
}

/// Where the head moves: displaced by the transition's direction, clamped at
/// the physical start of the tape.
pub open spec fn moved_head(m: MachineModel, c: ConfigModel) -> int {
    let moved = c.head + transition_of(m, c).direction;
    if moved < 0 {
        0
    } else {
        moved
    }
}

/// Whether the step appends a blank cell: the moved head lands at or past the
/// current tape end.
pub open spec fn step_grows_tape(m: MachineModel, c: ConfigModel) -> bool {
    moved_head(m, c) >= c.tape.len()
}

/// One step of the engine, in the fixed precedence order: time bound, then
/// transition effects, then space bound, then accept or reject. A halted
/// configuration is returned unchanged.
pub open spec fn step_model(m: MachineModel, c: ConfigModel) -> ConfigModel {
    if c.status != ComputationStatus::Executing {
        c
    } else if time_bound_hit(c.max_time, c.time + 1) {
        ConfigModel { time: c.time + 1, status: ComputationStatus::Timeout, ..c }
    } else {
        let t = transition_of(m, c);
        let grows = step_grows_tape(m, c);
        let written = c.tape.update(c.head, t.write_symbol);
        let tape = if grows {
            written.push(0)
        } else {
            written
        };
        let space = if grows {
            c.space + 1
        } else {
            c.space
        };
        let status = if grows && space_bound_hit(c.max_space, space) {
            ComputationStatus::Spaceout
        } else if t.next_state == m.accept_state {
            ComputationStatus::Accept
        } else if t.next_state == m.reject_state {
            ComputationStatus::Reject
        } else {
            ComputationStatus::Executing
        };
        ConfigModel {
            current_state: t.next_state,
            head: moved_head(m, c),
            tape,
            status,
            time: c.time + 1,
            space,
            max_time: c.max_time,
            max_space: c.max_space,
        }
    }
}

/// The configuration after `n` steps.
pub open spec fn run_model(m: MachineModel, c: ConfigModel, n: nat) -> ConfigModel
    decreases n,
{
    if n == 0 {
        c
    } else {
        step_model(m, run_model(m, c, (n - 1) as nat))
    }
}

/// The inputs on which one `step` call performs no out-of-range table or tape
/// access and no overflowing arithmetic. A halted computation is always safe;
/// so is one that times out before looking up a transition.
pub open spec fn step_safe(m: MachineModel, c: ConfigModel) -> bool {
    c.status == ComputationStatus::Executing ==> {
        &&& c.time < usize::MAX
        &&& (!time_bound_hit(c.max_time, c.time + 1) ==> {
            &&& 0 <= c.head < c.tape.len()
            &&& 0 <= c.current_state < m.transitions.len()
            &&& 0 <= c.tape[c.head] < m.transitions[c.current_state].len()
            &&& c.head + transition_of(m, c).direction <= usize::MAX
            &&& (step_grows_tape(m, c) ==> c.space < usize::MAX)
        })
    }
}

proof fn lemma_find_char_hit(s: Seq<char>, c: char, j: int)
    requires
        0 <= j < s.len(),
        s[j] == c,
        forall|k: int| 0 <= k < j ==> s[k] != c,
    ensures
        find_char(s, c) == Some(j),
    decreases j,
{
    if j > 0 {
        lemma_find_char_hit(s.subrange(1, s.len() as int), c, j - 1);
    }
}

proof fn lemma_find_char_miss(s: Seq<char>, c: char)
    requires
        forall|k: int| 0 <= k < s.len() ==> s[k] != c,
    ensures
        find_char(s, c) is None,
    decreases s.len(),
{
    if s.len() > 0 {
        lemma_find_char_miss(s.subrange(1, s.len() as int), c);
    }
}

/// A found index points into the sequence, at the character looked for.
pub proof fn lemma_find_char_in_range(s: Seq<char>, c: char)
    ensures
        find_char(s, c) matches Some(i) ==> 0 <= i < s.len() && s[i] == c,
    decreases s.len(),
{
    if s.len() > 0 && s[0] != c {
        lemma_find_char_in_range(s.subrange(1, s.len() as int), c);
    }
}

/// A unified symbol index lies inside the unified index space.
pub proof fn lemma_symbol_index_in_range(m: MachineModel, c: char)
    ensures
        symbol_index(m, c) matches Some(v) ==> 0 <= v < m.symbol_count(),
{
    lemma_find_char_in_range(m.language_symbols, c);
    lemma_find_char_in_range(m.tape_symbols, c);
}

proof fn lemma_first_invalid_at(m: MachineModel, word: Seq<char>, i: int)
    requires
        0 <= i < word.len(),
        symbol_index(m, word[i]) is None,
        forall|j: int| 0 <= j < i ==> symbol_index(m, #[trigger] word[j]) is Some,
    ensures
        first_invalid(m, word) == i,
    decreases i,
{
    if i > 0 {
        lemma_first_invalid_at(m, word.subrange(1, word.len() as int), i - 1);
    }
}

/// Find the first symbol in the list that displays `c`, scanning forward.
fn find_symbol_position(symbols: &Vec<Symbol>, c: char) -> (r: Option<usize>)
    ensures
        (match r {
            Some(i) => find_char(chars_of(symbols@), c) == Some(i as int),
            None => find_char(chars_of(symbols@), c) is None,
        }),
{
    let mut j: usize = 0;
    while j < symbols.len()
        invariant
            0 <= j <= symbols@.len(),
            forall|k: int| 0 <= k < j ==> chars_of(symbols@)[k] != c,
        decreases symbols@.len() - j,
    {
        if symbols[j].as_char() == c {
            proof {
                lemma_find_char_hit(chars_of(symbols@), c, j as int);
            }
            return Some(j);
        }
        j = j + 1;
    }
    proof {
        lemma_find_char_miss(chars_of(symbols@), c);
    }
    None
}

/// What `start` and each of its wrappers promise of their result: success
/// exactly when the word is encodable, a fully determined initial
/// configuration on success, and on failure a message naming the first
/// character that no symbol displays, and its position.
pub open spec fn start_outcome<'a>(
    m: MachineModel,
    word: Seq<char>,
    max_time: Option<usize>,
    max_space: Option<usize>,
    r: Result<Computation<'a>, TmError>,
) -> bool {
    match r {
        Ok(c) => {
            &&& word_encodable(m, word)
            &&& c.machine_model() == m
            &&& c@ == initial_config(m, word, max_time, max_space)
        },
        Err(e) => {
            &&& !word_encodable(m, word)
            &&& e@ == invalid_symbol_message(word[first_invalid(m, word)], first_invalid(m, word))
        },
    }
}

/// A transition entry that stays inside the machine: its target state and
/// written symbol are in range, and it moves the head at most one cell to the
/// right, so that the head can never jump past a tape end that has not been
/// extended yet.
pub open spec fn entry_runnable(m: MachineModel, t: TransitionModel) -> bool {
    &&& 0 <= t.next_state < m.states.len()
    &&& 0 <= t.write_symbol < m.symbol_count()
    &&& t.direction <= 1
}

/// A transition row that covers the whole unified symbol index space with
/// runnable entries.
pub open spec fn row_runnable(m: MachineModel, s: int) -> bool {
    &&& s < m.transitions.len()
    &&& m.symbol_count() <= m.transitions[s].len()
    &&& forall|i: int| 0 <= i < m.symbol_count() ==> entry_runnable(m, #[trigger] m.transitions[s][i])
}

/// A machine whose table is total on every non-terminal state: such a machine
/// can step indefinitely without an undefined table lookup or a head jump
/// past the tape end. The accept and reject rows may be empty, since they are
/// never dereferenced.
pub open spec fn machine_runnable(m: MachineModel) -> bool {
    forall|s: int|
        0 <= s < m.states.len() && s != m.accept_state && s != m.reject_state
            ==> #[trigger] row_runnable(m, s)
}

/// Internal consistency of a configuration, relative to its machine: the
/// space high-water mark tracks the tape length, and while the computation is
/// executing the head is on the tape, the current state is a non-terminal
/// state of the machine, and every cell holds a unified symbol index.
pub open spec fn config_inv(m: MachineModel, c: ConfigModel) -> bool {
    &&& c.space == c.tape.len()
    &&& (c.status == ComputationStatus::Executing ==> {
        &&& 0 <= c.head < c.tape.len()
        &&& 0 <= c.current_state < m.states.len()
        &&& c.current_state != m.accept_state
        &&& c.current_state != m.reject_state
        &&& forall|i: int| 0 <= i < c.tape.len() ==> 0 <= #[trigger] c.tape[i] < m.symbol_count()
    })
}

/// The computation halts within `n` steps, with enough headroom that its
/// clocks stay representable for that long.
pub open spec fn halts_within(m: MachineModel, c: ConfigModel, n: nat) -> bool {
    &&& run_model(m, c, n).status != ComputationStatus::Executing
    &&& c.time + n <= usize::MAX
    &&& c.space + n <= usize::MAX
}

/// One step of a runnable machine from an executing, consistent
/// configuration is safe, preserves consistency, advances time by exactly one
/// step and space by at most one cell.
pub proof fn lemma_step_preserves(m: MachineModel, c: ConfigModel)
    requires
        machine_runnable(m),
        config_inv(m, c),
        c.status == ComputationStatus::Executing,
        c.time < usize::MAX,
        c.space < usize::MAX,
    ensures
        step_safe(m, c),
        config_inv(m, step_model(m, c)),
        step_model(m, c).time == c.time + 1,
        c.space <= step_model(m, c).space <= c.space + 1,
{
    if !time_bound_hit(c.max_time, c.time + 1) {
        assert(row_runnable(m, c.current_state));
        let t = transition_of(m, c);
        assert(entry_runnable(m, t));
        let c1 = step_model(m, c);
        if c1.status == ComputationStatus::Executing {
            assert forall|i: int| 0 <= i < c1.tape.len() implies 0 <= #[trigger] c1.tape[i]
                < m.symbol_count() by {}
        }
    }
}

/// Law: once the status has left `Executing`, a step changes nothing — tape,
/// head, state, clock and status are all returned unchanged.
pub proof fn lemma_halted_step_is_noop(m: MachineModel, c: ConfigModel)
    requires
        c.status != ComputationStatus::Executing,
    ensures
        step_model(m, c) == c,
{
}

/// Law: once the status has left `Executing`, any number of further steps
/// changes nothing.
pub proof fn lemma_halted_run_is_noop(m: MachineModel, c: ConfigModel, n: nat)
    requires
        c.status != ComputationStatus::Executing,
    ensures
        run_model(m, c, n) == c,
    decreases n,
{
    if n > 0 {
        lemma_halted_run_is_noop(m, c, (n - 1) as nat);
    }
}

/// Law: resource bounds take precedence over halting outcomes reached in the
/// same step. A step that grows the tape onto a satisfied space bound while
/// its transition lands on the accept state reports `Spaceout`, never
/// `Accept`.
pub proof fn lemma_space_bound_beats_accept(m: MachineModel, c: ConfigModel)
    requires
        c.status == ComputationStatus::Executing,
        !time_bound_hit(c.max_time, c.time + 1),
        step_grows_tape(m, c),
        space_bound_hit(c.max_space, c.space + 1),
        transition_of(m, c).next_state == m.accept_state,
    ensures
        step_model(m, c).status == ComputationStatus::Spaceout,
{
}

/// Law: a step that reaches a configured time bound halts with `Timeout`
/// without applying the transition — only the elapsed time and the status
/// change; tape, head and state keep their prior values.
pub proof fn lemma_time_bound_preserves_configuration(m: MachineModel, c: ConfigModel)
    requires
        c.status == ComputationStatus::Executing,
        time_bound_hit(c.max_time, c.time + 1),
    ensures
        (step_model(m, c) == ConfigModel {
            status: ComputationStatus::Timeout,
            time: c.time + 1,
            ..c
        }),
        step_model(m, c).tape == c.tape,
        step_model(m, c).head == c.head,
        step_model(m, c).current_state == c.current_state,
        step_model(m, c).space == c.space,
{
}

/// The configuration that `start` builds satisfies the execution invariant,
/// provided the word is encodable, the unified index space has room for the
/// left-end marker, and the machine's start state is a non-terminal state.
/// Together with `lemma_step_preserves` this makes a fresh computation on a
/// runnable machine safe to step and run.
pub proof fn lemma_initial_config_inv(
    m: MachineModel,
    word: Seq<char>,
    max_time: Option<usize>,
    max_space: Option<usize>,
)
    requires
        word_encodable(m, word),
        2 <= m.symbol_count(),
        0 <= m.start_state < m.states.len(),
        m.start_state != m.accept_state,
        m.start_state != m.reject_state,
    ensures
        config_inv(m, initial_config(m, word, max_time, max_space)),
{
    let c = initial_config(m, word, max_time, max_space);
    assert forall|i: int| 0 <= i < c.tape.len() implies 0 <= #[trigger] c.tape[i]
        < m.symbol_count() by {
        if i > 0 {
            lemma_symbol_index_in_range(m, word[i - 1]);
            assert(symbol_index(m, word[i - 1]) is Some);
        }
    }
}

/// A computation in progress: a non-owning reference to its machine plus the
/// mutable execution state. Created by `start`, mutated only by `step`.
pub struct Computation<'a> {
    machine: &'a TuringMachine,
    current_state: usize,
    head_position: usize,
    tape: Vec<usize>,
    status: ComputationStatus,
    clock: ComputationClock,
}

impl<'a> View for Computation<'a> {
    type V = ConfigModel;

    closed spec fn view(&self) -> ConfigModel {
        ConfigModel {
            current_state: self.current_state as int,
            head: self.head_position as int,
            tape: tape_model(self.tape@),
            status: self.status,
            time: self.clock.time as int,
            space: self.clock.space as int,
            max_time: bound_model(self.clock.max_time),
            max_space: bound_model(self.clock.max_space),
        }
    }
}

impl<'a> Computation<'a> {
    /// The model of the machine this computation executes.
    pub closed spec fn machine_model(self) -> MachineModel {
        self.machine@
    }

    /// The machine this computation executes.
    pub fn view_machine(&self) -> (r: &TuringMachine)
        ensures
            r@ == self.machine_model(),
    {
        self.machine
    }

    /// Index of the current state.
    pub fn view_current_state(&self) -> (r: usize)
        ensures
            r == self@.current_state,
    {
        self.current_state
    }

    /// The head's position on the tape.
    pub fn view_head_position(&self) -> (r: usize)
        ensures
            r == self@.head,
    {
        self.head_position
    }

    /// The full tape contents, one unified symbol index per cell.
    pub fn view_tape(&self) -> (r: &Vec<usize>)
        ensures
            tape_model(r@) == self@.tape,
    {
        &self.tape
    }

    /// The halting status.
    pub fn view_status(&self) -> (r: &ComputationStatus)
        ensures
            *r == self@.status,
    {
        &self.status
    }

    /// Create a computation from a machine and a word, with no resource
    /// bounds.
    pub fn start(machine: &'a TuringMachine, word: &String) -> (r: Result<Self, TmError>)
        requires
            machine@.symbol_count() <= usize::MAX,
        ensures
            start_outcome(machine@, word@, None, None, r),
    {
        Self::bounded_start(machine, word, (None, None))
    }

    /// Create a computation from a machine and a word. `limits` carries the
    /// optional time and space bounds, in that order; an absent bound means
    /// unbounded.
    pub fn bounded_start(
        machine: &'a TuringMachine,
        word: &String,
        limits: (Option<usize>, Option<usize>),
    ) -> (r: Result<Self, TmError>)
        requires
            machine@.symbol_count() <= usize::MAX,
        ensures
            start_outcome(machine@, word@, limits.0, limits.1, r),
    {
        let mut tape: Vec<usize> = Vec::new();
        tape.push(1);

        let word_str = word.as_str();
        let word_len = word_str.unicode_len();
        let mut i: usize = 0;
        while i < word_len
            invariant
                machine@.symbol_count() <= usize::MAX,
                word_len == word@.len(),
                word_str@ == word@,
                0 <= i <= word_len,
                forall|j: int| 0 <= j < i ==> symbol_index(machine@, #[trigger] word@[j]) is Some,
                tape_model(tape@) == encoded_tape(machine@, word@.subrange(0, i as int)),
                tape@.len() == i + 1,
            decreases word_len - i,
        {
            let w = word_str.get_char(i);
            let index: usize = match find_symbol_position(machine.view_language_symbols(), w) {
                Some(val) => {
                    proof {
                        lemma_find_char_in_range(machine@.language_symbols, w);
                    }
                    val + machine.view_tape_symbols().len()
                },
                None => match find_symbol_position(machine.view_tape_symbols(), w) {
                    Some(val) => val,
                    None => {
                        let mut message = String::from_str("Invalid symbol ");
                        push_char(&mut message, w);
                        message.append(" found at position ");
                        let digits = decimal_string(i);
                        message.append(digits.as_str());
                        message.append(".");
                        proof {
                            lemma_first_invalid_at(machine@, word@, i as int);
                            assert(message@ =~= invalid_symbol_message(word@[i as int], i as int));
                        }
                        return Err(TmError::new(message));
                    },
                },
            };
            let ghost pre = tape@;
            tape.push(index);
            proof {
                let mm = machine@;
                let prefix = word@.subrange(0, i + 1);
                assert(symbol_index(mm, word@[i as int]) == Some(index as int));
                assert(tape@ =~= pre.push(index));
                assert forall|k: int| 0 <= k < tape@.len() implies tape_model(tape@)[k]
                    == encoded_tape(mm, prefix)[k] by {
                    if k < i + 1 {
                        assert(tape_model(pre)[k] == encoded_tape(mm, word@.subrange(0, i as int))[k]);
                    }
                }
                assert(tape_model(tape@) =~= encoded_tape(mm, prefix));
            }
            i = i + 1;
        }

        proof {
            assert(word@.subrange(0, word_len as int) =~= word@);
        }
        Ok(
            Computation {
                machine,
                current_state: machine.view_start_state(),
                head_position: 0,
                status: ComputationStatus::Executing,
                clock: ComputationClock::clock(limits.0, limits.1, tape.len()),
                tape,
            },
        )
    }

    /// Execute the next transition from the current configuration. Once the
    /// status has left `Executing` the call is a no-op, so stepping is
    /// idempotent after halting.
    pub fn step(&mut self)
        requires
            step_safe(old(self).machine_model(), old(self)@),
        ensures
            final(self).machine_model() == old(self).machine_model(),
            final(self)@ == step_model(old(self).machine_model(), old(self)@),
    {
        match self.status {
            ComputationStatus::Executing => (),
            _ => {
                return;
            },
        }

        self.clock.time = self.clock.time + 1;
        match self.clock.max_time {
            Some(limit) => {
                if self.clock.time >= limit {
                    self.status = ComputationStatus::Timeout;
                    return;
                }
            },
            None => (),
        }

        let ghost mm = old(self).machine_model();
        let ghost c0 = old(self)@;
        let machine = self.machine;
        let read_symbol = self.tape[self.head_position];
        let row: &Vec<Transition> = &machine.view_transitions()[self.current_state];
        let transition: Transition = row[read_symbol];
        proof {
            assert(transition@ == transition_of(mm, c0));
        }

        let direction = transition.direction();
        let new_head_position: usize = if direction >= 0 {
            self.head_position + (direction as usize)
        } else {
            let magnitude: usize = (-(direction as i64)) as usize;
            if self.head_position >= magnitude {
                self.head_position - magnitude
            } else {
                0
            }
        };
        proof {
            assert(new_head_position == moved_head(mm, c0));
        }

        self.current_state = transition.next_state_id();
        let ghost pre = self.tape@;
        self.tape.set(self.head_position, transition.write_symbol_id());
        proof {
            assert(tape_model(self.tape@) =~= tape_model(pre).update(
                c0.head,
                transition_of(mm, c0).write_symbol,
            ));
        }
        self.head_position = new_head_position;

        if self.head_position >= self.tape.len() {
            let ghost written = self.tape@;
            self.tape.push(0);
            proof {
                assert(tape_model(self.tape@) =~= tape_model(written).push(0));
            }
            self.clock.space = self.clock.space + 1;
            match self.clock.max_space {
                Some(limit) => {
                    if self.clock.space >= limit {
                        self.status = ComputationStatus::Spaceout;
                        return;
                    }
                },
                None => (),
            }
        }

        if transition.next_state_id() == machine.view_accept_state() {
            self.status = ComputationStatus::Accept;
            return;
        } else if transition.next_state_id() == machine.view_reject_state() {
            self.status = ComputationStatus::Reject;
            return;
        }
    }

    /// Run the computation until it halts. The machine must be runnable, the
    /// configuration consistent, and the computation must halt within the
    /// representable step budget; a time bound always provides such a budget.
    pub fn run(&mut self)
        requires
            machine_runnable(old(self).machine_model()),
            config_inv(old(self).machine_model(), old(self)@),
            exists|n: nat| halts_within(old(self).machine_model(), old(self)@, n),
        ensures
            final(self).machine_model() == old(self).machine_model(),
            final(self)@.status != ComputationStatus::Executing,
            exists|n: nat|
                {
                    &&& final(self)@ == run_model(old(self).machine_model(), old(self)@, n)
                    &&& forall|k: nat|
                        k < n ==> (#[trigger] run_model(
                            old(self).machine_model(),
                            old(self)@,
                            k,
                        )).status == ComputationStatus::Executing
                },
    {
        let ghost mm = old(self).machine_model();
        let ghost c0 = old(self)@;
        let ghost budget = choose|n: nat| halts_within(mm, c0, n);
        let ghost mut k: nat = 0;
        while self.status == ComputationStatus::Executing
            invariant
                self.machine_model() == mm,
                machine_runnable(mm),
                config_inv(mm, self@),
                halts_within(mm, c0, budget),
                k <= budget,
                self@ == run_model(mm, c0, k),
                self@.time <= c0.time + k,
                self@.space <= c0.space + k,
                forall|j: nat|
                    j < k ==> (#[trigger] run_model(mm, c0, j)).status
                        == ComputationStatus::Executing,
            decreases budget - k,
        {
            proof {
                if k == budget {
                    assert(self@.status != ComputationStatus::Executing);
                }
                lemma_step_preserves(mm, self@);
            }
            self.step();
            proof {
                k = k + 1;
            }
        }
    }

    /// The resource clock.
    pub fn view_clock(&self) -> (r: &ComputationClock)
        ensures
            r@.time == self@.time,
            r@.space == self@.space,
            r@.max_time == self@.max_time,
            r@.max_space == self@.max_space,
    {
        &self.clock
    }
}

} // verus!
