//! Reading the members of a JSON object: what each kind of member may hold,
//! and what it is read as.

use crate::error_handling::{names_view, ErrorName, StateMachineExecutionPredefinedErrors};
use crate::json::{array_json, lemma_array_json, Json, JsonNumber, JsonValue, Num};
use crate::text::{join, str_equal};
use crate::types::{
    path_read, DynamicValue, DynamicValueView, MyJsonPath, TimestampType,
};
use vstd::prelude::*;

verus! {

/// Why a document is no definition.
#[derive(Debug, PartialEq, Eq)]
pub struct DecodeError {
    pub message: String,
}

/// The refusal of the member `name`, in the words of `what`.
pub fn refuse<T>(what: &str, name: &str) -> (res: Result<T, DecodeError>)
    ensures
        res matches Err(e) && e.message@ == what@ + name@,
{
    Err(DecodeError { message: join(what, name) })
}

impl Json {
    /// The member that `name` names, where there is one and it is not
    /// `null`.
    pub open spec fn field(self, name: Seq<char>) -> Option<Json> {
        match self.member(name) {
            Some(Json::Null) => None,
            other => other,
        }
    }
}

/// The document that an optional reference stands for.
pub open spec fn found_json(found: Option<&JsonValue>) -> Option<Json> {
    match found {
        Some(value) => Some(value@),
        None => None,
    }
}

impl JsonValue {
    /// The member that `name` names, where there is one and it is not
    /// `null`.
    pub fn field(&self, name: &str) -> (res: Option<&JsonValue>)
        ensures
            found_json(res) == self@.field(name@),
    {
        match self.get(name) {
            Some(JsonValue::Null) => None,
            other => other,
        }
    }

    /// Whether the document is an object.
    pub fn is_object(&self) -> (res: bool)
        ensures
            res == (self@ is Object),
    {
        match self {
            JsonValue::Object(_) => true,
            _ => false,
        }
    }
}

/// What a member that may be missing is read as, where it has to hold a
/// string. Nothing where it holds something else.
pub open spec fn text_of(found: Option<Json>) -> Option<Option<Seq<char>>> {
    match found {
        None => Some(None),
        Some(Json::String(text)) => Some(Some(text)),
        Some(_) => None,
    }
}

/// What a member that may be missing is read as, where it has to hold a
/// number.
pub open spec fn number_of(found: Option<Json>) -> Option<Option<Num>> {
    match found {
        None => Some(None),
        Some(Json::Number(number)) => Some(Some(number)),
        Some(_) => None,
    }
}

/// What a member that may be missing is read as, where it has to hold a
/// whole number from zero to the largest `u32`.
pub open spec fn count_of(found: Option<Json>) -> Option<Option<u32>> {
    match found {
        None => Some(None),
        Some(Json::Number(Num::PosInt(n))) => if n <= u32::MAX {
            Some(Some(n as u32))
        } else {
            None
        },
        Some(_) => None,
    }
}

/// What a member that may be missing is read as, where it has to hold a
/// truth value.
pub open spec fn flag_of(found: Option<Json>) -> Option<Option<bool>> {
    match found {
        None => Some(None),
        Some(Json::Bool(flag)) => Some(Some(flag)),
        Some(_) => None,
    }
}

/// What a member that may be missing is read as, where it has to hold the
/// text of a dynamic value.
pub open spec fn dynamic_of(found: Option<Json>) -> Option<Option<DynamicValueView>> {
    match found {
        None => Some(None),
        Some(Json::String(text)) => match DynamicValueView::classify(text) {
            Ok(kind) => Some(Some(kind)),
            Err(_) => None,
        },
        Some(_) => None,
    }
}

/// What a member that may be missing is read as, where it has to hold a
/// JSONPath query.
pub open spec fn path_of(found: Option<Json>) -> Option<Option<Seq<char>>> {
    match found {
        None => Some(None),
        Some(Json::String(text)) => match path_read(text) {
            Ok(_) => Some(Some(text)),
            Err(_) => None,
        },
        Some(_) => None,
    }
}

/// What a member that may be missing is read as, where it has to hold an
/// RFC 3339 timestamp.
pub open spec fn instant_of(found: Option<Json>) -> Option<Option<TimestampType>> {
    match found {
        None => Some(None),
        Some(Json::String(text)) => match TimestampType::read(text) {
            Ok(instant) => Some(Some(instant)),
            Err(_) => None,
        },
        Some(_) => None,
    }
}

/// What a member that has to be there is read as.
pub open spec fn required<T>(read: Option<Option<T>>) -> Option<T> {
    match read {
        Some(Some(value)) => Some(value),
        _ => None,
    }
}

/// What a member that may be missing is read as, where a value takes its
/// place when it is missing.
pub open spec fn or_default<T>(read: Option<Option<T>>, default: T) -> Option<T> {
    match read {
        Some(Some(value)) => Some(value),
        Some(None) => Some(default),
        None => None,
    }
}

/// What a reading stands for: what was read, or nothing where the member
/// was refused.
pub open spec fn read_view<T: View>(res: Result<Option<T>, DecodeError>) -> Option<Option<T::V>> {
    match res {
        Ok(Some(value)) => Some(Some(value@)),
        Ok(None) => Some(None),
        Err(_) => None,
    }
}

/// What a reading of a plain value stands for.
pub open spec fn read_plain<T>(res: Result<Option<T>, DecodeError>) -> Option<Option<T>> {
    match res {
        Ok(found) => Some(found),
        Err(_) => None,
    }
}

/// What an optional value stands for.
pub open spec fn option_view<T: View>(value: Option<T>) -> Option<T::V> {
    match value {
        Some(v) => Some(v@),
        None => None,
    }
}

/// The string that the member `name` holds.
pub fn read_text(found: Option<&JsonValue>, name: &str) -> (res: Result<Option<String>, DecodeError>)
    ensures
        read_view(res) == text_of(found_json(found)),
{
    match found {
        None => Ok(None),
        Some(JsonValue::String(text)) => Ok(Some(text.clone())),
        Some(_) => refuse("Expected a string in ", name),
    }
}

/// The number that the member `name` holds.
pub fn read_number(found: Option<&JsonValue>, name: &str) -> (res: Result<
    Option<JsonNumber>,
    DecodeError,
>)
    ensures
        read_view(res) == number_of(found_json(found)),
{
    match found {
        None => Ok(None),
        Some(JsonValue::Number(number)) => Ok(Some(number.clone())),
        Some(_) => refuse("Expected a number in ", name),
    }
}

/// The count that the member `name` holds.
pub fn read_count(found: Option<&JsonValue>, name: &str) -> (res: Result<Option<u32>, DecodeError>)
    ensures
        read_plain(res) == count_of(found_json(found)),
{
    match found {
        None => Ok(None),
        Some(JsonValue::Number(JsonNumber::PosInt(n))) => if *n <= u32::MAX as u64 {
            Ok(Some(*n as u32))
        } else {
            refuse("Expected a smaller number in ", name)
        },
        Some(_) => refuse("Expected a whole number that is not negative in ", name),
    }
}

/// The truth value that the member `name` holds.
pub fn read_flag(found: Option<&JsonValue>, name: &str) -> (res: Result<Option<bool>, DecodeError>)
    ensures
        read_plain(res) == flag_of(found_json(found)),
{
    match found {
        None => Ok(None),
        Some(JsonValue::Bool(flag)) => Ok(Some(*flag)),
        Some(_) => refuse("Expected true or false in ", name),
    }
}

/// The dynamic value that the member `name` holds.
pub fn read_dynamic(found: Option<&JsonValue>, name: &str) -> (res: Result<
    Option<DynamicValue>,
    DecodeError,
>)
    ensures
        read_view(res) == dynamic_of(found_json(found)),
{
    match found {
        None => Ok(None),
        Some(JsonValue::String(text)) => match DynamicValue::from_str(text.as_str()) {
            Ok(value) => Ok(Some(value)),
            Err(_) => refuse("Expected a path in ", name),
        },
        Some(_) => refuse("Expected a string in ", name),
    }
}

/// The JSONPath query that the member `name` holds.
pub fn read_path(found: Option<&JsonValue>, name: &str) -> (res: Result<
    Option<MyJsonPath>,
    DecodeError,
>)
    ensures
        read_view(res) == path_of(found_json(found)),
{
    match found {
        None => Ok(None),
        Some(JsonValue::String(text)) => match MyJsonPath::from_str(text.as_str()) {
            Ok(path) => Ok(Some(path)),
            Err(_) => refuse("Expected a path in ", name),
        },
        Some(_) => refuse("Expected a string in ", name),
    }
}

/// The instant that the member `name` holds.
pub fn read_instant(found: Option<&JsonValue>, name: &str) -> (res: Result<
    Option<TimestampType>,
    DecodeError,
>)
    ensures
        read_plain(res) == instant_of(found_json(found)),
{
    match found {
        None => Ok(None),
        Some(JsonValue::String(text)) => match TimestampType::from_str(text.as_str()) {
            Ok(instant) => Ok(Some(instant)),
            Err(_) => refuse("Expected a timestamp in ", name),
        },
        Some(_) => refuse("Expected a string in ", name),
    }
}

/// A copy of the member `name`, whatever it holds.
pub fn read_value(found: Option<&JsonValue>) -> (res: Option<JsonValue>)
    ensures
        option_view(res) == found_json(found),
{
    match found {
        None => None,
        Some(value) => Some(value.clone()),
    }
}

/// What was read of the member `name`, which has to be there.
pub fn require<T>(read: Option<T>, name: &str) -> (res: Result<T, DecodeError>)
    ensures
        match read {
            Some(value) => res == Ok::<T, DecodeError>(value),
            None => res matches Err(e) && e.message@ == "Missing "@ + name@,
        },
{
    match read {
        Some(value) => Ok(value),
        None => refuse("Missing ", name),
    }
}

impl ErrorName {
    /// The error name that a text is read as: the predefined name that is
    /// written so, or else a name of the definition's own.
    pub open spec fn named(text: Seq<char>) -> ErrorName {
        if text == "States.ALL"@ {
            ErrorName::StatesALL
        } else if text == "States.HeartbeatTimeout"@ {
            ErrorName::StatesHeartbeatTimeout
        } else if text == "States.Timeout"@ {
            ErrorName::StatesTimeout
        } else if text == "States.TaskFailed"@ {
            ErrorName::StatesTaskFailed
        } else if text == "States.Permissions"@ {
            ErrorName::StatesPermissions
        } else if text == "States.ResultPathMatchFailure"@ {
            ErrorName::StatesResultPathMatchFailure
        } else if text == "States.ParameterPathFailure"@ {
            ErrorName::StatesParameterPathFailure
        } else if text == "States.BranchFailed"@ {
            ErrorName::StatesBranchFailed
        } else if text == "States.NoChoiceMatched"@ {
            ErrorName::StatesNoChoiceMatched
        } else if text == "States.IntrinsicFailure"@ {
            ErrorName::StatesIntrinsicFailure
        } else if text == "States.ExceedToleratedFailureThreshold"@ {
            ErrorName::StatesExceedToleratedFailureThreshold
        } else if text == "States.ItemReaderFailed"@ {
            ErrorName::StatesItemReaderFailed
        } else if text == "States.ResultWriterFailed"@ {
            ErrorName::StatesResultWriterFailed
        } else {
            ErrorName::Custom(text)
        }
    }
}

impl StateMachineExecutionPredefinedErrors {
    /// The error name that a text is read as.
    pub fn from_name(text: &str) -> (res: StateMachineExecutionPredefinedErrors)
        ensures
            res@ == ErrorName::named(text@),
    {
        if str_equal(text, "States.ALL") {
            StateMachineExecutionPredefinedErrors::StatesALL
        } else if str_equal(text, "States.HeartbeatTimeout") {
            StateMachineExecutionPredefinedErrors::StatesHeartbeatTimeout
        } else if str_equal(text, "States.Timeout") {
            StateMachineExecutionPredefinedErrors::StatesTimeout
        } else if str_equal(text, "States.TaskFailed") {
            StateMachineExecutionPredefinedErrors::StatesTaskFailed
        } else if str_equal(text, "States.Permissions") {
            StateMachineExecutionPredefinedErrors::StatesPermissions
        } else if str_equal(text, "States.ResultPathMatchFailure") {
            StateMachineExecutionPredefinedErrors::StatesResultPathMatchFailure
        } else if str_equal(text, "States.ParameterPathFailure") {
            StateMachineExecutionPredefinedErrors::StatesParameterPathFailure
        } else if str_equal(text, "States.BranchFailed") {
            StateMachineExecutionPredefinedErrors::StatesBranchFailed
        } else if str_equal(text, "States.NoChoiceMatched") {
            StateMachineExecutionPredefinedErrors::StatesNoChoiceMatched
        } else if str_equal(text, "States.IntrinsicFailure") {
            StateMachineExecutionPredefinedErrors::StatesIntrinsicFailure
        } else if str_equal(text, "States.ExceedToleratedFailureThreshold") {
            StateMachineExecutionPredefinedErrors::StatesExceedToleratedFailureThreshold
        } else if str_equal(text, "States.ItemReaderFailed") {
            StateMachineExecutionPredefinedErrors::StatesItemReaderFailed
        } else if str_equal(text, "States.ResultWriterFailed") {
            StateMachineExecutionPredefinedErrors::StatesResultWriterFailed
        } else {
            StateMachineExecutionPredefinedErrors::Custom(text.to_owned())
        }
    }
}

/// The error names that a member is read as, which has to hold an array of
/// strings. Nothing where it is missing or holds something else.
pub open spec fn names_of(found: Option<Json>) -> Option<Seq<ErrorName>> {
    match found {
        Some(Json::Array(items)) => if forall|i: int| 0 <= i < items.len() ==> (#[trigger] items[i]) is String {
            Some(Seq::new(items.len(), |i: int| ErrorName::named(items[i]->String_0)))
        } else {
            None
        },
        _ => None,
    }
}

/// The error names that the member `name` holds.
#[verifier::loop_isolation(false)]
pub fn read_names(found: Option<&JsonValue>, name: &str) -> (res: Result<
    Vec<StateMachineExecutionPredefinedErrors>,
    DecodeError,
>)
    ensures
        match names_of(found_json(found)) {
            Some(names) => res matches Ok(list) && names_view(list@) == names,
            None => res is Err,
        },
{
    match found {
        Some(JsonValue::Array(items)) => {
            let ghost all = array_json(items@);
            proof {
                lemma_array_json(items@);
            }
            let mut names: Vec<StateMachineExecutionPredefinedErrors> = Vec::new();
            let mut i: usize = 0;
            while i < items.len()
                invariant
                    i <= items.len(),
                    all == array_json(items@),
                    all.len() == items.len(),
                    forall|k: int| 0 <= k < items.len() ==> (#[trigger] all[k]) == items@[k]@,
                    names.len() == i,
                    forall|k: int| 0 <= k < i ==> (#[trigger] all[k]) is String,
                    forall|k: int|
                        0 <= k < i ==> (#[trigger] names@[k])@ == ErrorName::named(
                            all[k]->String_0,
                        ),
                decreases items.len() - i,
            {
                match &items[i] {
                    JsonValue::String(text) => {
                        names.push(StateMachineExecutionPredefinedErrors::from_name(text.as_str()));
                    },
                    _ => {
                        assert(!(all[i as int] is String));
                        return refuse("Expected only strings in ", name);
                    },
                }
                i += 1;
            }
            proof {
                assert(names_view(names@) =~= names_of(found_json(found))->Some_0);
            }
            Ok(names)
        },
        _ => refuse("Expected an array in ", name),
    }
}

} // verus!
