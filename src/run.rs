use vstd::prelude::*;

use crate::capture::{empty_capture, ExecutionState};
use crate::error::QsError;

verus! {

/// Decides how a run goes on once the interpreter has tried to build a
/// context from the source text: with a fresh, empty capture to evaluate
/// into, or with the context error when it could not be built.
pub fn start_run(context_built: bool) -> (r: Result<ExecutionState, QsError>)
    ensures
        context_built <==> r is Ok,
        r matches Ok(s) ==> s@ == empty_capture(),
        r matches Err(e) ==> e.is_context_error(),
{
    if context_built {
        Ok(ExecutionState::new())
    } else {
        Err(QsError::context_error())
    }
}

/// Decides the outcome of a run once evaluation is over: the capture itself
/// when the program returned, the execution error when it failed. No partial
/// capture is handed out on failure.
pub fn conclude_run(state: ExecutionState, evaluated: bool) -> (r: Result<ExecutionState, QsError>)
    ensures
        evaluated <==> r is Ok,
        r matches Ok(s) ==> s == state,
        r matches Err(e) ==> e.is_execution_error(),
{
    if evaluated {
        Ok(state)
    } else {
        Err(QsError::execution_error())
    }
}

} // verus!
