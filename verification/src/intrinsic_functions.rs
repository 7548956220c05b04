//! Intrinsic functions: calls written inside a definition that compute a
//! value from the input. The registry of functions is empty: no text is read
//! as a call, and a call built by hand fails when it is evaluated.

use crate::json::JsonValue;
use vstd::prelude::*;

verus! {

/// A call of an intrinsic function.
#[derive(Debug, PartialEq, Eq)]
pub enum IntrinsicFunction {
    /// A call of a function that the registry does not hold, as written.
    Unregistered(String),
}

/// Why a text is no call of an intrinsic function.
#[derive(Debug, PartialEq, Eq)]
pub enum IntrinsicFunctionParseError {
    /// The text names no known function.
    Unknown(String),
    /// The function was given too few arguments.
    InsufficientArguments { name: String, expected: usize, actual: usize },
}

/// Why a call of an intrinsic function failed.
#[derive(Debug, PartialEq, Eq, Clone, Copy, Structural)]
pub enum IntrinsicFunctionExecutionError {
    /// The arguments have the wrong types.
    WrongArguments,
}

impl IntrinsicFunction {
    /// Reads a call of an intrinsic function. As none is known, every text is
    /// refused as `Unknown`, with the text itself.
    pub fn try_from(value: &str) -> (res: Result<IntrinsicFunction, IntrinsicFunctionParseError>)
        ensures
            res matches Err(IntrinsicFunctionParseError::Unknown(text)) && text@ == value@,
    {
        Err(IntrinsicFunctionParseError::Unknown(value.to_owned()))
    }

    /// The value of the call on `input`. A call of a function that the
    /// registry does not hold fails.
    pub fn evaluate(&self, input: &JsonValue) -> (res: Result<
        Option<JsonValue>,
        IntrinsicFunctionExecutionError,
    >)
        ensures
            res == Err::<Option<JsonValue>, _>(IntrinsicFunctionExecutionError::WrongArguments),
    {
        match self {
            IntrinsicFunction::Unregistered(_) => Err(
                IntrinsicFunctionExecutionError::WrongArguments,
            ),
        }
    }

    /// Whether a text is a call of a known intrinsic function: none is.
    pub open spec fn recognized(text: Seq<char>) -> bool {
        false
    }
}

} // verus!
