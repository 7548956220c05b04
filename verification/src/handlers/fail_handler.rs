//! The fail state: the name and the cause of the error in which the
//! execution ends.

use crate::execution::{Execution, StateExecutionHandler};
use crate::json::{json_text, Json, JsonValue};
use crate::states::fail::{Fail, FailStateCauseField, FailStateErrorField};
use crate::text::join;
use crate::types::{DynamicValue, DynamicValueEvaluateError, DynamicValueView, ExecutionInput};
use vstd::prelude::*;

verus! {

/// What the yield of a fail state stands for in contracts.
pub struct FailOutputView {
    pub error: Seq<char>,
    pub cause: Option<Seq<char>>,
}

/// What a fail state yields: the name of the error, and its cause.
#[derive(Debug, PartialEq, Eq)]
pub struct FailStateOutput {
    pub error: String,
    pub cause: Option<String>,
}

impl View for FailStateOutput {
    type V = FailOutputView;

    open spec fn view(&self) -> FailOutputView {
        FailOutputView {
            error: self.error@,
            cause: match self.cause {
                Some(cause) => Some(cause@),
                None => None,
            },
        }
    }
}

/// What a path error stands for in contracts.
pub enum PathErrorView {
    DynamicValueEvaluateError(DynamicValueEvaluateError),
    ValueDoesntPointToAString(Seq<char>),
}

/// Why a path of a fail state leads to no string.
#[derive(Debug, PartialEq, Eq)]
pub enum HandlePathError {
    /// The path cannot be followed.
    DynamicValueEvaluateError(DynamicValueEvaluateError),
    /// The path leads to a value that is no string; the value as JSON text.
    ValueDoesntPointToAString(String),
}

impl View for HandlePathError {
    type V = PathErrorView;

    open spec fn view(&self) -> PathErrorView {
        match self {
            HandlePathError::DynamicValueEvaluateError(e) => PathErrorView::DynamicValueEvaluateError(*e),
            HandlePathError::ValueDoesntPointToAString(text) => PathErrorView::ValueDoesntPointToAString(text@),
        }
    }
}

impl PathErrorView {
    /// The error in words.
    pub open spec fn message(self) -> Seq<char> {
        match self {
            PathErrorView::DynamicValueEvaluateError(e) => "Evaluation error: "@ + e.spec_message(),
            PathErrorView::ValueDoesntPointToAString(text) =>
                "Evaluated value is not a string. Got: "@ + text,
        }
    }
}

impl HandlePathError {
    /// The error in words.
    pub fn message(&self) -> (res: String)
        ensures
            res@ == self@.message(),
    {
        match self {
            HandlePathError::DynamicValueEvaluateError(e) => join(
                "Evaluation error: ",
                e.message().as_str(),
            ),
            HandlePathError::ValueDoesntPointToAString(text) => join(
                "Evaluated value is not a string. Got: ",
                text.as_str(),
            ),
        }
    }
}

/// What a fail state's error stands for in contracts.
pub enum FailErrorView {
    MalformedErrorPath(PathErrorView),
    MalformedCausePath(PathErrorView),
    ErrorPathIsNotAString,
    CausePathIsNotAString,
}

/// Why a fail state could not say in which error the execution ends.
#[derive(Debug, PartialEq, Eq)]
pub enum FailStateExecutionError {
    /// The path to the name of the error cannot be followed.
    MalformedErrorPath(HandlePathError),
    /// The path to the cause cannot be followed.
    MalformedCausePath(HandlePathError),
    /// The path to the name of the error leads to no string: nowhere, or to
    /// a value that is none.
    ErrorPathIsNotAString,
    /// The path to the cause leads to no string: nowhere, or to a value that
    /// is none.
    CausePathIsNotAString,
}

impl View for FailStateExecutionError {
    type V = FailErrorView;

    open spec fn view(&self) -> FailErrorView {
        match self {
            FailStateExecutionError::MalformedErrorPath(e) => FailErrorView::MalformedErrorPath(e@),
            FailStateExecutionError::MalformedCausePath(e) => FailErrorView::MalformedCausePath(e@),
            FailStateExecutionError::ErrorPathIsNotAString => FailErrorView::ErrorPathIsNotAString,
            FailStateExecutionError::CausePathIsNotAString => FailErrorView::CausePathIsNotAString,
        }
    }
}

impl FailErrorView {
    /// The error in words.
    pub open spec fn message(self) -> Seq<char> {
        match self {
            FailErrorView::MalformedErrorPath(e) => "Invalid 'ErrorPath' field due to "@
                + e.message(),
            FailErrorView::MalformedCausePath(e) => "Invalid 'CausePath' field due to "@
                + e.message(),
            FailErrorView::ErrorPathIsNotAString =>
                "'ErrorPath' field evaluated value is not a valid string within the input."@,
            FailErrorView::CausePathIsNotAString =>
                "'CausePath' field evaluated value is not a valid string within the input."@,
        }
    }
}

impl FailStateExecutionError {
    /// The error in words.
    pub fn message(&self) -> (res: String)
        ensures
            res@ == self@.message(),
    {
        match self {
            FailStateExecutionError::MalformedErrorPath(e) => join(
                "Invalid 'ErrorPath' field due to ",
                e.message().as_str(),
            ),
            FailStateExecutionError::MalformedCausePath(e) => join(
                "Invalid 'CausePath' field due to ",
                e.message().as_str(),
            ),
            FailStateExecutionError::ErrorPathIsNotAString =>
                "'ErrorPath' field evaluated value is not a valid string within the input.".to_owned(),
            FailStateExecutionError::CausePathIsNotAString =>
                "'CausePath' field evaluated value is not a valid string within the input.".to_owned(),
        }
    }
}

/// The string that a path leads to on an input: none where the path leads
/// nowhere. A path that cannot be followed, or that leads to a value that is
/// no string, is an error.
pub open spec fn path_text(path: DynamicValueView, value: Json, context: Json) -> Result<
    Option<Seq<char>>,
    PathErrorView,
> {
    match path.evaluate(value, context) {
        Err(e) => Err(PathErrorView::DynamicValueEvaluateError(e)),
        Ok(None) => Ok(None),
        Ok(Some(Json::String(text))) => Ok(Some(text)),
        Ok(Some(other)) => Err(PathErrorView::ValueDoesntPointToAString(json_text(other))),
    }
}

/// What the string that a path leads to stands for.
pub open spec fn path_text_view(res: Result<Option<String>, HandlePathError>) -> Result<
    Option<Seq<char>>,
    PathErrorView,
> {
    match res {
        Ok(Some(text)) => Ok(Some(text@)),
        Ok(None) => Ok(None),
        Err(e) => Err(e@),
    }
}

/// The string that a path leads to on `input`.
pub fn evaluate_path_as_string(input: &ExecutionInput, path: &DynamicValue) -> (res: Result<
    Option<String>,
    HandlePathError,
>)
    ensures
        path_text_view(res) == path_text(path@, input.value@, input.context@),
{
    match path.evaluate(input) {
        Err(e) => Err(HandlePathError::DynamicValueEvaluateError(e)),
        Ok(None) => Ok(None),
        Ok(Some(JsonValue::String(text))) => Ok(Some(text)),
        Ok(Some(other)) => Err(HandlePathError::ValueDoesntPointToAString(other.to_text())),
    }
}

impl Fail {
    /// The name of the error on an input: the name that the state writes,
    /// or the string that its path leads to; `Reached Fail State` where the
    /// state says nothing of it. A path that leads to no string, be it
    /// nowhere or to another value, is an error; so is one that cannot be
    /// followed.
    pub open spec fn error_name(self, value: Json, context: Json) -> Result<
        Seq<char>,
        FailErrorView,
    > {
        match self.error {
            None => Ok("Reached Fail State"@),
            Some(FailStateErrorField::Error(name)) => Ok(name@),
            Some(FailStateErrorField::ErrorPath(path)) => match path_text(path@, value, context) {
                Ok(Some(name)) => Ok(name),
                Ok(None) => Err(FailErrorView::ErrorPathIsNotAString),
                Err(PathErrorView::ValueDoesntPointToAString(_)) => Err(
                    FailErrorView::ErrorPathIsNotAString,
                ),
                Err(e) => Err(FailErrorView::MalformedErrorPath(e)),
            },
        }
    }

    /// The cause of the error on an input: the cause that the state writes,
    /// or the string that its path leads to; none where the state says
    /// nothing of it. A path that leads to no string, be it nowhere or to
    /// another value, is an error; so is one that cannot be followed.
    pub open spec fn error_cause(self, value: Json, context: Json) -> Result<
        Option<Seq<char>>,
        FailErrorView,
    > {
        match self.cause {
            None => Ok(None),
            Some(FailStateCauseField::Cause(cause)) => Ok(Some(cause@)),
            Some(FailStateCauseField::CausePath(path)) => match path_text(path@, value, context) {
                Ok(Some(cause)) => Ok(Some(cause)),
                Ok(None) => Err(FailErrorView::CausePathIsNotAString),
                Err(PathErrorView::ValueDoesntPointToAString(_)) => Err(
                    FailErrorView::CausePathIsNotAString,
                ),
                Err(e) => Err(FailErrorView::MalformedCausePath(e)),
            },
        }
    }

    /// What the state yields on an input: the name of the error and its
    /// cause. The name is settled first, so that of two unreadable paths
    /// that of the name is reported.
    pub open spec fn outcome(self, value: Json, context: Json) -> Result<
        FailOutputView,
        FailErrorView,
    > {
        match self.error_name(value, context) {
            Err(e) => Err(e),
            Ok(error) => match self.error_cause(value, context) {
                Err(e) => Err(e),
                Ok(cause) => Ok(FailOutputView { error, cause }),
            },
        }
    }
}

/// What the result of a fail state stands for.
pub open spec fn fail_result_view(res: Result<FailStateOutput, FailStateExecutionError>) -> Result<
    FailOutputView,
    FailErrorView,
> {
    match res {
        Ok(output) => Ok(output@),
        Err(e) => Err(e@),
    }
}

impl<'a, H: StateExecutionHandler> Execution<'a, H> {
    /// Runs a fail state: settles the name and the cause of the error in
    /// which the execution ends.
    pub fn handle_fail(&self, fail: &Fail, input: &ExecutionInput) -> (res: Result<
        FailStateOutput,
        FailStateExecutionError,
    >)
        ensures
            fail_result_view(res) == fail.outcome(input.value@, input.context@),
    {
        let error: String = match &fail.error {
            None => "Reached Fail State".to_owned(),
            Some(FailStateErrorField::Error(name)) => name.clone(),
            Some(FailStateErrorField::ErrorPath(path)) => match evaluate_path_as_string(input, path) {
                Ok(Some(name)) => name,
                Ok(None) => {
                    return Err(FailStateExecutionError::ErrorPathIsNotAString);
                },
                Err(HandlePathError::ValueDoesntPointToAString(_)) => {
                    return Err(FailStateExecutionError::ErrorPathIsNotAString);
                },
                Err(e) => {
                    return Err(FailStateExecutionError::MalformedErrorPath(e));
                },
            },
        };
        let cause: Option<String> = match &fail.cause {
            None => None,
            Some(FailStateCauseField::Cause(cause)) => Some(cause.clone()),
            Some(FailStateCauseField::CausePath(path)) => match evaluate_path_as_string(input, path) {
                Ok(Some(cause)) => Some(cause),
                Ok(None) => {
                    return Err(FailStateExecutionError::CausePathIsNotAString);
                },
                Err(HandlePathError::ValueDoesntPointToAString(_)) => {
                    return Err(FailStateExecutionError::CausePathIsNotAString);
                },
                Err(e) => {
                    return Err(FailStateExecutionError::MalformedCausePath(e));
                },
            },
        };
        Ok(FailStateOutput { error, cause })
    }
}

} // verus!
