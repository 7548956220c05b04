//! The fail state: the end of an execution in failure.

use crate::decode::{
    dynamic_of, option_view, read_dynamic, read_text, refuse, require, text_of, DecodeError,
};
use crate::json::{Json, JsonValue};
use crate::types::DynamicValue;
use vstd::prelude::*;

verus! {

/// The name of the error of a fail state: written in the definition, or
/// found at a path.
#[derive(Debug, PartialEq, Eq)]
pub enum FailStateErrorField {
    Error(String),
    ErrorPath(DynamicValue),
}

/// The cause of the error of a fail state: written in the definition, or
/// found at a path.
#[derive(Debug, PartialEq, Eq)]
pub enum FailStateCauseField {
    Cause(String),
    CausePath(DynamicValue),
}

/// A state that ends the execution in failure.
#[derive(Debug, PartialEq, Eq)]
pub struct Fail {
    pub error: Option<FailStateErrorField>,
    pub cause: Option<FailStateCauseField>,
    pub comment: Option<String>,
}

/// Whether the name of an error is what an object says: the text of its
/// member `Error`, or the path of its member `ErrorPath`, or none where it
/// has neither. An object with both says nothing.
pub open spec fn error_field_decoded(error: Option<FailStateErrorField>, json: Json) -> bool {
    match (json.field("Error"@), json.field("ErrorPath"@)) {
        (Some(_), Some(_)) => false,
        (Some(name), None) => error matches Some(FailStateErrorField::Error(text)) && text_of(
            Some(name),
        ) == Some(Some(text@)),
        (None, Some(path)) => error matches Some(FailStateErrorField::ErrorPath(p)) && dynamic_of(
            Some(path),
        ) == Some(Some(p@)),
        (None, None) => error is None,
    }
}

/// Whether the cause of an error is what an object says: the text of its
/// member `Cause`, or the path of its member `CausePath`, or none where it
/// has neither. An object with both says nothing.
pub open spec fn cause_field_decoded(cause: Option<FailStateCauseField>, json: Json) -> bool {
    match (json.field("Cause"@), json.field("CausePath"@)) {
        (Some(_), Some(_)) => false,
        (Some(words), None) => cause matches Some(FailStateCauseField::Cause(text)) && text_of(
            Some(words),
        ) == Some(Some(text@)),
        (None, Some(path)) => cause matches Some(FailStateCauseField::CausePath(p)) && dynamic_of(
            Some(path),
        ) == Some(Some(p@)),
        (None, None) => cause is None,
    }
}

/// The name of the error that the object of a fail state writes.
pub fn read_error_field(json: &JsonValue) -> (res: Result<Option<FailStateErrorField>, DecodeError>)
    ensures
        res matches Ok(error) ==> error_field_decoded(error, json@),
        res is Err ==> forall|error: Option<FailStateErrorField>| !error_field_decoded(error, json@),
{
    let name = json.field("Error");
    let path = json.field("ErrorPath");
    if name.is_some() && path.is_some() {
        return refuse("Expected only one of Error and ", "ErrorPath");
    }
    if name.is_some() {
        let text = require(read_text(name, "Error")?, "Error")?;
        Ok(Some(FailStateErrorField::Error(text)))
    } else if path.is_some() {
        let p = require(read_dynamic(path, "ErrorPath")?, "ErrorPath")?;
        Ok(Some(FailStateErrorField::ErrorPath(p)))
    } else {
        Ok(None)
    }
}

/// The cause of the error that the object of a fail state writes.
pub fn read_cause_field(json: &JsonValue) -> (res: Result<Option<FailStateCauseField>, DecodeError>)
    ensures
        res matches Ok(cause) ==> cause_field_decoded(cause, json@),
        res is Err ==> forall|cause: Option<FailStateCauseField>| !cause_field_decoded(cause, json@),
{
    let words = json.field("Cause");
    let path = json.field("CausePath");
    if words.is_some() && path.is_some() {
        return refuse("Expected only one of Cause and ", "CausePath");
    }
    if words.is_some() {
        let text = require(read_text(words, "Cause")?, "Cause")?;
        Ok(Some(FailStateCauseField::Cause(text)))
    } else if path.is_some() {
        let p = require(read_dynamic(path, "CausePath")?, "CausePath")?;
        Ok(Some(FailStateCauseField::CausePath(p)))
    } else {
        Ok(None)
    }
}

impl Fail {
    /// Whether the state is what an object says: the name and the cause of
    /// the error are each written as a text or as a path, not both, and
    /// `Comment` holds the comment.
    pub open spec fn decoded_from(self, json: Json) -> bool {
        &&& json is Object
        &&& error_field_decoded(self.error, json)
        &&& cause_field_decoded(self.cause, json)
        &&& text_of(json.field("Comment"@)) == Some(option_view(self.comment))
    }

    /// Reads a fail state from the object of a state.
    pub fn decode(json: &JsonValue) -> (res: Result<Fail, DecodeError>)
        ensures
            res matches Ok(fail) ==> fail.decoded_from(json@),
            res is Err ==> forall|fail: Fail| !fail.decoded_from(json@),
    {
        if !json.is_object() {
            return refuse("Expected an object for ", "a fail state");
        }
        let error = read_error_field(json)?;
        let cause = read_cause_field(json)?;
        let comment = read_text(json.field("Comment"), "Comment")?;
        Ok(Fail { error, cause, comment })
    }
}

} // verus!
