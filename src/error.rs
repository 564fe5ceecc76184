use vstd::prelude::*;

verus! {

/// Label of the error returned when the interpreter could not build a
/// context from the source text.
pub const CONTEXT_ERROR: &'static str = "context error";

/// Label of the error returned when evaluation raised a runtime error.
pub const EXECUTION_ERROR: &'static str = "execution error";

/// Why a run did not produce a result.
#[derive(Debug)]
pub enum QsError {
    ErrorMessage { error_text: String },
}

impl QsError {
    /// The label that the error carries.
    pub open spec fn text(&self) -> Seq<char> {
        match self {
            QsError::ErrorMessage { error_text } => error_text@,
        }
    }

    /// The error is the one for a context that could not be built.
    pub open spec fn is_context_error(&self) -> bool {
        self.text() == CONTEXT_ERROR@
    }

    /// The error is the one for an evaluation that failed.
    pub open spec fn is_execution_error(&self) -> bool {
        self.text() == EXECUTION_ERROR@
    }

    /// The error of a source text from which no context could be built.
    pub fn context_error() -> (e: QsError)
        ensures
            e.is_context_error(),
    {
        QsError::ErrorMessage { error_text: CONTEXT_ERROR.to_owned() }
    }

    /// The error of a program whose evaluation failed.
    pub fn execution_error() -> (e: QsError)
        ensures
            e.is_execution_error(),
    {
        QsError::ErrorMessage { error_text: EXECUTION_ERROR.to_owned() }
    }

    /// The human-readable description: the label between backquotes, after
    /// a fixed prefix.
    pub fn message(&self) -> (r: String)
        ensures
            r@ == "Error with message: `"@ + self.text() + "`"@,
    {
        let mut r = String::from_str("Error with message: `");
        match self {
            QsError::ErrorMessage { error_text } => r.append(error_text.as_str()),
        }
        r.append("`");
        r
    }
}

} // verus!
