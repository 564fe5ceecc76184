//! Capture of what a quantum program reports while it runs: the messages it
//! emits and its final state, as a sparse list of basis-state amplitudes,
//! together with the decisions that turn an interpreter's outcome into a
//! result or an error.

mod capture;
mod error;
mod run;

pub use capture::{
    apply_event, empty_capture, lemma_messages_in_order, lemma_observed_replays,
    lemma_replay_messages, lemma_same_events_same_capture, lemma_single_message_capture,
    message_events, observed, replay, Capture, CaptureEvent, ExecutionState, QubitState,
};
pub use error::{QsError, CONTEXT_ERROR, EXECUTION_ERROR};
pub use run::{conclude_run, start_run};
