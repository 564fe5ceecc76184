use qs_harness::{conclude_run, start_run, ExecutionState, QsError, QubitState};

fn basis(id: &str, re: f64, im: f64) -> QubitState {
    QubitState {
        id: id.to_string(),
        amplitude_real: re.to_bits(),
        amplitude_imaginary: im.to_bits(),
    }
}

fn error_text(e: &QsError) -> &str {
    match e {
        QsError::ErrorMessage { error_text } => error_text.as_str(),
    }
}

#[test]
fn hello_program_capture() {
    let mut state = start_run(true).unwrap();
    state.record_message("Hello");
    let result = conclude_run(state, true).unwrap();

    assert_eq!(result.messages.len(), 1);
    assert_eq!(result.messages[0], "Hello");
    assert_eq!(result.qubit_count, 0);
    assert_eq!(result.states.len(), 0);
}

#[test]
fn unbuilt_context_gives_context_error() {
    let e = start_run(false).unwrap_err();
    assert_eq!(error_text(&e), "context error");
    assert_eq!(e.message(), "Error with message: `context error`");
}

#[test]
fn failed_evaluation_gives_execution_error() {
    let mut state = start_run(true).unwrap();
    state.record_message("before the failure");
    let e = conclude_run(state, false).unwrap_err();
    assert_eq!(error_text(&e), "execution error");
    assert_eq!(e.message(), "Error with message: `execution error`");
}

#[test]
fn error_constructors_carry_their_labels() {
    assert_eq!(error_text(&QsError::context_error()), qs_harness::CONTEXT_ERROR);
    assert_eq!(error_text(&QsError::execution_error()), qs_harness::EXECUTION_ERROR);
}

#[test]
fn messages_keep_emission_order() {
    let mut state = ExecutionState::new();
    state.record_message("A");
    state.record_message("B");
    assert_eq!(state.messages, vec!["A".to_string(), "B".to_string()]);
}

#[test]
fn repeated_messages_are_all_kept() {
    let mut state = ExecutionState::new();
    state.record_message("A");
    state.record_message("A");
    state.record_message("");
    assert_eq!(state.messages, vec!["A".to_string(), "A".to_string(), String::new()]);
}

fn sample_run() -> ExecutionState {
    let mut state = start_run(true).unwrap();
    state.record_message("start");
    state.record_state(
        vec![basis("00", 0.5f64.sqrt(), 0.0), basis("11", 0.0, -(0.5f64.sqrt()))],
        2,
    );
    state.record_message("end");
    conclude_run(state, true).unwrap()
}

#[test]
fn same_callbacks_same_capture() {
    let first = sample_run();
    let second = sample_run();
    assert_eq!(first.messages, second.messages);
    assert_eq!(first.qubit_count, second.qubit_count);
    assert_eq!(first.states.len(), second.states.len());
    for (a, b) in first.states.iter().zip(second.states.iter()) {
        assert_eq!(a.id, b.id);
        assert_eq!(a.amplitude_real, b.amplitude_real);
        assert_eq!(a.amplitude_imaginary, b.amplitude_imaginary);
    }
}

#[test]
fn amplitudes_round_trip_without_rounding() {
    let values: Vec<(f64, f64)> = vec![
        (0.1, -0.2),
        (-0.0, 0.0),
        (1e-308, f64::MAX),
        (f64::MIN_POSITIVE, -1.0 / 3.0),
    ];
    let mut state = ExecutionState::new();
    let records: Vec<QubitState> = values
        .iter()
        .enumerate()
        .map(|(i, (re, im))| basis(&format!("{i:02b}"), *re, *im))
        .collect();
    state.record_state(records, 2);
    assert_eq!(state.states.len(), values.len());
    for (q, (re, im)) in state.states.iter().zip(values.iter()) {
        let back_re = f64::from_bits(q.amplitude_real);
        let back_im = f64::from_bits(q.amplitude_imaginary);
        assert_eq!(back_re.to_bits(), re.to_bits());
        assert_eq!(back_im.to_bits(), im.to_bits());
        assert_eq!(back_re, *re);
        assert_eq!(back_im, *im);
    }
    assert_eq!(state.states[2].id, "10");
}

#[test]
fn recorded_state_replaces_the_previous_one() {
    let mut state = ExecutionState::new();
    state.record_message("kept");
    state.record_state(vec![basis("0", 1.0, 0.0), basis("1", 0.0, 0.0)], 1);
    state.record_state(vec![basis("01", 0.0, 1.0)], 2);
    assert_eq!(state.qubit_count, 2);
    assert_eq!(state.states.len(), 1);
    assert_eq!(state.states[0].id, "01");
    assert_eq!(f64::from_bits(state.states[0].amplitude_imaginary), 1.0);
    assert_eq!(state.messages, vec!["kept".to_string()]);
}

#[test]
fn empty_state_report_clears_states() {
    let mut state = ExecutionState::new();
    state.record_state(vec![basis("1", 1.0, 0.0)], 1);
    state.record_state(Vec::new(), 0);
    assert_eq!(state.qubit_count, 0);
    assert!(state.states.is_empty());
}

#[test]
fn fresh_capture_is_empty() {
    let fresh = ExecutionState::new();
    let default = ExecutionState::default();
    let started = start_run(true).unwrap();
    for s in [fresh, default, started] {
        assert!(s.states.is_empty());
        assert_eq!(s.qubit_count, 0);
        assert!(s.messages.is_empty());
    }
}
