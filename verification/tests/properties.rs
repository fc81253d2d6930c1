//! Concrete checks of the engine's stated behavior: encoding, error
//! positions, idempotence after halting, and the precedence of resource
//! bounds over halting outcomes.

use tm_engine::deterministic::computation::Computation;
use tm_engine::deterministic::machine::TuringMachine;
use tm_engine::util::ComputationStatus;

#[test]
fn encoding_maps_word_onto_tape() {
    // Left-end marker, then '1' -> 2 + 1 and '0' -> 2 + 0.
    let machine = TuringMachine::default();
    let computation = Computation::start(&machine, &"10".to_string()).unwrap();

    assert_eq!(computation.view_tape(), &vec![1, 3, 2]);
    assert_eq!(computation.view_head_position(), 0);
    assert_eq!(computation.view_current_state(), 0);
    assert_eq!(computation.view_status(), &ComputationStatus::Executing);
    assert_eq!(computation.view_clock().time, 0);
    assert_eq!(computation.view_clock().space, 3);
}

#[test]
fn encoding_finds_tape_symbols_after_language_symbols() {
    // '_' and '>' are not language symbols but are tape symbols 0 and 1.
    let machine = TuringMachine::default();
    let computation = Computation::start(&machine, &">_".to_string()).unwrap();

    assert_eq!(computation.view_tape(), &vec![1, 1, 0]);
}

#[test]
fn invalid_symbol_reports_first_position() {
    let machine = TuringMachine::default();
    let error = match Computation::start(&machine, &"102x01x".to_string()) {
        Ok(_) => panic!("expected an encoding error"),
        Err(e) => e,
    };

    assert_eq!(error.message, "Invalid symbol 2 found at position 2.");
}

#[test]
fn invalid_symbol_at_two_digit_position() {
    let machine = TuringMachine::default();
    let error = match Computation::start(&machine, &"0101010101x".to_string()) {
        Ok(_) => panic!("expected an encoding error"),
        Err(e) => e,
    };

    assert_eq!(error.message, "Invalid symbol x found at position 10.");
}

#[test]
fn steps_after_halting_change_nothing() {
    let machine = TuringMachine::default();
    let mut computation = Computation::start(&machine, &"01".to_string()).unwrap();
    computation.run();

    assert_eq!(computation.view_status(), &ComputationStatus::Accept);
    let tape = computation.view_tape().clone();
    let head = computation.view_head_position();
    let state = computation.view_current_state();
    let time = computation.view_clock().time;
    let space = computation.view_clock().space;

    computation.step();
    computation.step();

    assert_eq!(computation.view_status(), &ComputationStatus::Accept);
    assert_eq!(computation.view_tape(), &tape);
    assert_eq!(computation.view_head_position(), head);
    assert_eq!(computation.view_current_state(), state);
    assert_eq!(computation.view_clock().time, time);
    assert_eq!(computation.view_clock().space, space);
}

#[test]
fn space_bound_beats_accept_in_same_step() {
    // The first step of the example machine grows the tape and lands on the
    // accept state; with a space bound of 2 the reported status must be
    // Spaceout, never Accept.
    let machine = TuringMachine::default();
    let mut computation = machine.bounded_compute(&"".to_string(), (None, Some(2))).unwrap();
    computation.step();

    assert_eq!(computation.view_status(), &ComputationStatus::Spaceout);
    assert_eq!(computation.view_current_state(), 1);
    assert_eq!(computation.view_clock().space, 2);
}

#[test]
fn time_bound_halts_without_applying_transition() {
    let machine = TuringMachine::default();
    let mut computation = machine.bounded_compute(&"".to_string(), (Some(1), None)).unwrap();
    computation.step();

    assert_eq!(computation.view_status(), &ComputationStatus::Timeout);
    assert_eq!(computation.view_tape(), &vec![1]);
    assert_eq!(computation.view_head_position(), 0);
    assert_eq!(computation.view_current_state(), 0);
    assert_eq!(computation.view_clock().time, 1);
    assert_eq!(computation.view_clock().space, 1);
}

#[test]
fn unreached_space_bound_does_not_trigger() {
    // A bound below the current space only triggers when the tape actually
    // grows.
    let machine = TuringMachine::default();
    let mut computation = machine.bounded_compute(&"".to_string(), (Some(1), Some(1))).unwrap();
    computation.step();

    // Time is checked before the transition, so the tape never grows and the
    // space bound, although below the current space, is never consulted.
    assert_eq!(computation.view_status(), &ComputationStatus::Timeout);
    assert_eq!(computation.view_clock().space, 1);
}

#[test]
fn run_on_halted_computation_returns_at_once() {
    let machine = TuringMachine::default();
    let mut computation = Computation::start(&machine, &"".to_string()).unwrap();
    computation.run();
    let time = computation.view_clock().time;
    computation.run();

    assert_eq!(computation.view_clock().time, time);
    assert_eq!(computation.view_status(), &ComputationStatus::Accept);
}
