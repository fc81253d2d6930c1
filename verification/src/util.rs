//! Basic building blocks of a machine description: states, symbols,
//! transitions, and the resource clock and halting status of a computation.

use vstd::prelude::*;

verus! {

/// Spec-level image of a `Transition`: target state, symbol to write, and
/// signed head displacement.
pub struct TransitionModel {
    pub next_state: int,
    pub write_symbol: int,
    pub direction: int,
}

/// Spec-level image of a `ComputationClock`.
pub struct ClockModel {
    pub time: int,
    pub space: int,
    pub max_time: Option<int>,
    pub max_space: Option<int>,
}

/// The spec-level value of an optional resource bound.
pub open spec fn bound_model(b: Option<usize>) -> Option<int> {
    match b {
        Some(v) => Some(v as int),
        None => None,
    }
}

/// A machine state. Identity is positional (the index into the machine's
/// state list); the label is only used for presentation.
#[derive(Debug)]
pub struct State(String);

/// A tape or language symbol, displayed as a single character.
#[derive(Debug, PartialEq, Eq, Structural, Clone, Copy)]
pub struct Symbol(char);

/// One entry of a transition table: next state, symbol to write, and signed
/// head displacement of arbitrary magnitude.
#[derive(Debug, PartialEq, Eq, Structural, Clone, Copy)]
pub struct Transition(usize, usize, i32);

impl View for State {
    type V = Seq<char>;

    closed spec fn view(&self) -> Seq<char> {
        self.0@
    }
}

impl PartialEq for State {
    fn eq(&self, other: &State) -> (r: bool)
        ensures
            r == (self@ == other@),
    {
        self.0 == other.0
    }
}

impl vstd::std_specs::cmp::PartialEqSpecImpl for State {
    open spec fn obeys_eq_spec() -> bool {
        true
    }

    open spec fn eq_spec(&self, other: &State) -> bool {
        self@ == other@
    }
}

impl State {
    /// Wrap a display label as a state.
    pub fn new_state(state_identifier: String) -> (r: State)
        ensures
            r@ == state_identifier@,
    {
        State(state_identifier)
    }

    /// The state's label.
    pub fn as_string(&self) -> (r: &String)
        ensures
            r@ == self@,
    {
        &self.0
    }

    /// The state's label as a string slice.
    pub fn as_str(&self) -> (r: &str)
        ensures
            r@ == self@,
    {
        self.0.as_str()
    }
}

impl View for Symbol {
    type V = char;

    closed spec fn view(&self) -> char {
        self.0
    }
}

impl Symbol {
    /// Wrap a display character as a symbol.
    pub fn new_symbol(symbol_identifier: char) -> (r: Symbol)
        ensures
            r@ == symbol_identifier,
    {
        Symbol(symbol_identifier)
    }

    /// The symbol's display character.
    pub fn as_char(&self) -> (c: char)
        ensures
            c == self@,
    {
        self.0
    }
}

impl View for Transition {
    type V = TransitionModel;

    closed spec fn view(&self) -> TransitionModel {
        TransitionModel {
            next_state: self.0 as int,
            write_symbol: self.1 as int,
            direction: self.2 as int,
        }
    }
}

impl Transition {
    /// Build a transition from its three components.
    pub fn new_transition(next_state: usize, write_symbol: usize, direction: i32) -> (r: Transition)
        ensures
            (r@ == TransitionModel {
                next_state: next_state as int,
                write_symbol: write_symbol as int,
                direction: direction as int,
            }),
    {
        Transition(next_state, write_symbol, direction)
    }

    /// Index of the state the machine moves to.
    pub fn next_state_id(&self) -> (r: usize)
        ensures
            r == self@.next_state,
    {
        self.0
    }

    /// Unified index of the symbol written at the current head position.
    pub fn write_symbol_id(&self) -> (r: usize)
        ensures
            r == self@.write_symbol,
    {
        self.1
    }

    /// Signed head displacement.
    pub fn direction(&self) -> (r: i32)
        ensures
            r == self@.direction,
    {
        self.2
    }

    /// Render the displacement as `S` (stay), `L<n>` (left) or `R<n>` (right).
    pub fn direction_to_string(&self) -> (r: String)
        ensures
            r@ == direction_text(self@.direction),
    {
        let d = self.2;
        if d == 0 {
            let mut s = String::new();
            push_char(&mut s, 'S');
            s
        } else if d < 0 {
            let magnitude: usize = (-(d as i64)) as usize;
            let mut s = String::new();
            push_char(&mut s, 'L');
            let digits = decimal_string(magnitude);
            s.append(digits.as_str());
            s
        } else {
            let magnitude: usize = d as usize;
            let mut s = String::new();
            push_char(&mut s, 'R');
            let digits = decimal_string(magnitude);
            s.append(digits.as_str());
            s
        }
    }
}

/// The text that renders a head displacement.
pub open spec fn direction_text(d: int) -> Seq<char> {
    if d == 0 {
        seq!['S']
    } else if d < 0 {
        seq!['L'] + decimal_digits((-d) as nat)
    } else {
        seq!['R'] + decimal_digits(d as nat)
    }
}

/// The character for a single decimal digit.
pub open spec fn digit_char(d: int) -> char {
    ((d + 48) as u8) as char
}

/// The decimal digit sequence of a natural number, most significant first.
pub open spec fn decimal_digits(n: nat) -> Seq<char>
    decreases n,
{
    if n < 10 {
        seq![digit_char(n as int)]
    } else {
        decimal_digits(n / 10).push(digit_char((n % 10) as int))
    }
}

/// Relies on `String::push`: appends the given character to the end of the string.
#[verifier::external_body]
pub(crate) fn push_char(s: &mut String, c: char)
    ensures
        final(s)@ == old(s)@.push(c),
{
    s.push(c);
}

/// Render a number in decimal.
pub(crate) fn decimal_string(n: usize) -> (r: String)
    ensures
        r@ == decimal_digits(n as nat),
    decreases n,
{
    let d: usize = n % 10;
    let c: char = ((d as u8) + 48) as char;
    proof {
        assert(c == digit_char(d as int));
    }
    if n < 10 {
        let mut s = String::new();
        push_char(&mut s, c);
        s
    } else {
        let mut s = decimal_string(n / 10);
        push_char(&mut s, c);
        s
    }
}

/// The resource clock of a computation: elapsed steps, the tape-length
/// high-water mark, and the optional bounds they are checked against.
#[derive(Debug)]
pub struct ComputationClock {
    pub time: usize,
    pub space: usize,
    pub max_time: Option<usize>,
    pub max_space: Option<usize>,
}

impl View for ComputationClock {
    type V = ClockModel;

    open spec fn view(&self) -> ClockModel {
        ClockModel {
            time: self.time as int,
            space: self.space as int,
            max_time: bound_model(self.max_time),
            max_space: bound_model(self.max_space),
        }
    }
}

impl ComputationClock {
    /// A fresh clock for a computation whose initial tape has the given length.
    pub fn clock(max_time: Option<usize>, max_space: Option<usize>, tape_length: usize) -> (r:
        ComputationClock)
        ensures
            (r@ == ClockModel {
                time: 0,
                space: tape_length as int,
                max_time: bound_model(max_time),
                max_space: bound_model(max_space),
            }),
    {
        ComputationClock { max_time, max_space, time: 0, space: tape_length }
    }
}

impl Default for ComputationClock {
    /// An unbounded clock for a tape holding only the left-end marker.
    fn default() -> (r: Self)
        ensures
            (r@ == ClockModel { time: 0, space: 1, max_time: None, max_space: None }),
    {
        ComputationClock { max_time: None, max_space: None, time: 0, space: 1 }
    }
}

/// The halting status of a computation. `Executing` is the initial status;
/// the other four are terminal and mutually exclusive.
#[derive(Debug, PartialEq, Eq, Structural, Clone, Copy)]
pub enum ComputationStatus {
    Executing,
    Accept,
    Reject,
    Timeout,
    Spaceout,
}

impl Default for ComputationStatus {
    fn default() -> (r: Self)
        ensures
            r == ComputationStatus::Executing,
    {
        ComputationStatus::Executing
    }
}

/// The labels of a sequence of states.
pub open spec fn labels_of(states: Seq<State>) -> Seq<Seq<char>> {
    states.map_values(|s: State| s@)
}

/// The display characters of a sequence of symbols.
pub open spec fn chars_of(symbols: Seq<Symbol>) -> Seq<char> {
    symbols.map_values(|s: Symbol| s@)
}

/// The spec-level image of a transition table.
pub open spec fn rows_of(transitions: Seq<Vec<Transition>>) -> Seq<Seq<TransitionModel>> {
    transitions.map_values(|row: Vec<Transition>| row@.map_values(|t: Transition| t@))
}

} // verus!
