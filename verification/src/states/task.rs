//! The task state: work that the host carries out.

use crate::decode::{
    count_of, dynamic_of, number_of, option_view, read_count, read_dynamic, read_number,
    read_text, read_value, refuse, require, required, text_of, DecodeError,
};
use crate::error_handling::{
    catchers_decoded, read_catchers, read_retriers, retriers_decoded, Catcher, Retrier,
};
use crate::json::{number_double_bits, Json, JsonNumber, JsonValue, Num};
use crate::number::{double_less, double_rank};
use crate::states::all_states::EndOrNext;
use crate::types::{DynamicValue, Parameters, ResultSelector};
use vstd::prelude::*;

verus! {

/// How long a task may run: a number of seconds, or the path to one.
#[derive(Debug, PartialEq, Eq)]
pub enum TimeoutSecondsOrPath {
    TimeoutSeconds(JsonNumber),
    TimeoutSecondsPath(DynamicValue),
}

impl Default for TimeoutSecondsOrPath {
    /// A task may run for sixty seconds unless it says otherwise.
    fn default() -> (res: Self)
        ensures
            res matches TimeoutSecondsOrPath::TimeoutSeconds(n) && n@ == Num::PosInt(60),
    {
        TimeoutSecondsOrPath::TimeoutSeconds(JsonNumber::PosInt(60))
    }
}

/// How long a task may stay silent: a number of seconds, or the path to
/// one.
#[derive(Debug, PartialEq, Eq)]
pub enum HeartbeatSecondsOrPath {
    HeartbeatSeconds(u32),
    HeartbeatSecondsPath(DynamicValue),
}

/// A state that has the host carry out the work that `resource` names.
#[derive(Debug, PartialEq, Eq)]
pub struct Task {
    /// The name of the work, a URI that the host understands.
    pub resource: String,
    /// How long the task may run.
    pub timeout: Option<TimeoutSecondsOrPath>,
    /// How long the task may stay silent. Where both are plain numbers, it
    /// is less than the timeout.
    pub heartbeat: Option<HeartbeatSecondsOrPath>,
    /// What the host needs to be allowed to carry out the work.
    pub credentials: Option<JsonValue>,
    pub comment: Option<String>,
    pub input_path: Option<DynamicValue>,
    pub output_path: Option<DynamicValue>,
    pub end_or_next: EndOrNext,
    pub result_path: Option<DynamicValue>,
    pub parameters: Option<Parameters>,
    pub result_selector: Option<ResultSelector>,
    /// The rules for running the task again after an error, in order.
    pub retry: Option<Vec<Retrier>>,
    /// The rules for leaving the task after an error, in order.
    pub catch: Option<Vec<Catcher>>,
}

impl Task {
    /// A task for `resource` that hands over as `end_or_next` says, may run
    /// for sixty seconds, and has nothing else set.
    pub fn new(resource: String, end_or_next: EndOrNext) -> (res: Task)
        ensures
            res.resource == resource,
            res.end_or_next == end_or_next,
            res.timeout matches Some(TimeoutSecondsOrPath::TimeoutSeconds(n)) && n@ == Num::PosInt(
                60,
            ),
            res.heartbeat is None,
            res.credentials is None,
            res.comment is None,
            res.input_path is None,
            res.output_path is None,
            res.result_path is None,
            res.parameters is None,
            res.result_selector is None,
            res.retry is None,
            res.catch is None,
    {
        Task {
            resource,
            timeout: Some(TimeoutSecondsOrPath::default()),
            heartbeat: None,
            credentials: None,
            comment: None,
            input_path: None,
            output_path: None,
            end_or_next,
            result_path: None,
            parameters: None,
            result_selector: None,
            retry: None,
            catch: None,
        }
    }
}

/// Whether a timeout is what an object says: the seconds of its member
/// `TimeoutSeconds`, or the path of its member `TimeoutSecondsPath`, or
/// sixty seconds where it has neither. An object with both says nothing.
pub open spec fn timeout_decoded(timeout: Option<TimeoutSecondsOrPath>, json: Json) -> bool {
    match (json.field("TimeoutSeconds"@), json.field("TimeoutSecondsPath"@)) {
        (Some(_), Some(_)) => false,
        (Some(seconds), None) => timeout matches Some(TimeoutSecondsOrPath::TimeoutSeconds(n))
            && number_of(Some(seconds)) == Some(Some(n@)),
        (None, Some(path)) => timeout matches Some(TimeoutSecondsOrPath::TimeoutSecondsPath(p))
            && dynamic_of(Some(path)) == Some(Some(p@)),
        (None, None) => timeout matches Some(TimeoutSecondsOrPath::TimeoutSeconds(n)) && n@
            == Num::PosInt(60),
    }
}

/// Whether a heartbeat is what an object says: the seconds of its member
/// `HeartbeatSeconds`, or the path of its member `HeartbeatSecondsPath`, or
/// none where it has neither. An object with both says nothing.
pub open spec fn heartbeat_decoded(heartbeat: Option<HeartbeatSecondsOrPath>, json: Json) -> bool {
    match (json.field("HeartbeatSeconds"@), json.field("HeartbeatSecondsPath"@)) {
        (Some(_), Some(_)) => false,
        (Some(seconds), None) => heartbeat matches Some(HeartbeatSecondsOrPath::HeartbeatSeconds(n))
            && count_of(Some(seconds)) == Some(Some(n)),
        (None, Some(path)) => heartbeat matches Some(
            HeartbeatSecondsOrPath::HeartbeatSecondsPath(p),
        ) && dynamic_of(Some(path)) == Some(Some(p@)),
        (None, None) => heartbeat is None,
    }
}

/// Whether a number of seconds is less than another, both taken as doubles.
pub open spec fn seconds_below(a: Num, b: Num) -> bool {
    match (number_double_bits(a), number_double_bits(b)) {
        (Some(x), Some(y)) => double_rank(x) < double_rank(y),
        _ => false,
    }
}

/// Whether the heartbeat that an object writes is less than the timeout
/// that it writes. Where it writes one of them as a path, or not at all,
/// there is nothing to compare.
pub open spec fn heartbeat_fits(json: Json) -> bool {
    match (json.field("HeartbeatSeconds"@), json.field("TimeoutSeconds"@)) {
        (Some(Json::Number(heartbeat)), Some(Json::Number(timeout))) => seconds_below(
            heartbeat,
            timeout,
        ),
        _ => true,
    }
}

/// Whether a number of seconds is less than another, both taken as doubles.
pub fn is_below(a: &JsonNumber, b: &JsonNumber) -> (res: bool)
    ensures
        res == seconds_below(a@, b@),
{
    match (a.double_bits(), b.double_bits()) {
        (Some(x), Some(y)) => double_less(x, y),
        _ => false,
    }
}

/// The timeout that the object of a task writes.
pub fn read_timeout(json: &JsonValue) -> (res: Result<Option<TimeoutSecondsOrPath>, DecodeError>)
    ensures
        res matches Ok(timeout) ==> timeout_decoded(timeout, json@),
        res is Err ==> forall|timeout: Option<TimeoutSecondsOrPath>| !timeout_decoded(timeout, json@),
{
    let seconds = json.field("TimeoutSeconds");
    let path = json.field("TimeoutSecondsPath");
    if seconds.is_some() && path.is_some() {
        return refuse("Expected only one of TimeoutSeconds and ", "TimeoutSecondsPath");
    }
    if seconds.is_some() {
        let n = require(read_number(seconds, "TimeoutSeconds")?, "TimeoutSeconds")?;
        Ok(Some(TimeoutSecondsOrPath::TimeoutSeconds(n)))
    } else if path.is_some() {
        let p = require(read_dynamic(path, "TimeoutSecondsPath")?, "TimeoutSecondsPath")?;
        Ok(Some(TimeoutSecondsOrPath::TimeoutSecondsPath(p)))
    } else {
        Ok(Some(TimeoutSecondsOrPath::default()))
    }
}

/// The heartbeat that the object of a task writes.
pub fn read_heartbeat(json: &JsonValue) -> (res: Result<Option<HeartbeatSecondsOrPath>, DecodeError>)
    ensures
        res matches Ok(heartbeat) ==> heartbeat_decoded(heartbeat, json@),
        res is Err ==> forall|heartbeat: Option<HeartbeatSecondsOrPath>|
            !heartbeat_decoded(heartbeat, json@),
{
    let seconds = json.field("HeartbeatSeconds");
    let path = json.field("HeartbeatSecondsPath");
    if seconds.is_some() && path.is_some() {
        return refuse("Expected only one of HeartbeatSeconds and ", "HeartbeatSecondsPath");
    }
    if seconds.is_some() {
        let n = require(read_count(seconds, "HeartbeatSeconds")?, "HeartbeatSeconds")?;
        Ok(Some(HeartbeatSecondsOrPath::HeartbeatSeconds(n)))
    } else if path.is_some() {
        let p = require(read_dynamic(path, "HeartbeatSecondsPath")?, "HeartbeatSecondsPath")?;
        Ok(Some(HeartbeatSecondsOrPath::HeartbeatSecondsPath(p)))
    } else {
        Ok(None)
    }
}

/// Whether the heartbeat that an object writes is less than the timeout
/// that it writes.
pub fn check_heartbeat(json: &JsonValue) -> (res: bool)
    ensures
        res == heartbeat_fits(json@),
{
    match (json.field("HeartbeatSeconds"), json.field("TimeoutSeconds")) {
        (Some(JsonValue::Number(heartbeat)), Some(JsonValue::Number(timeout))) => is_below(
            heartbeat,
            timeout,
        ),
        _ => true,
    }
}

impl Task {
    /// Whether the task is what an object says. `Resource` names the work;
    /// `Comment`, `InputPath`, `OutputPath`, `ResultPath`, `Credentials`,
    /// `Parameters`, `ResultSelector`, `Retry` and `Catch` hold what the
    /// fields of their names hold; the timeout and the heartbeat are each
    /// written as seconds or as a path, not both, and a heartbeat in seconds
    /// is less than a timeout in seconds; `End` or `Next` says what follows.
    pub open spec fn decoded_from(self, json: Json) -> bool {
        &&& json is Object
        &&& required(text_of(json.field("Resource"@))) == Some(self.resource@)
        &&& timeout_decoded(self.timeout, json)
        &&& heartbeat_decoded(self.heartbeat, json)
        &&& heartbeat_fits(json)
        &&& json.field("Credentials"@) == option_view(self.credentials)
        &&& text_of(json.field("Comment"@)) == Some(option_view(self.comment))
        &&& dynamic_of(json.field("InputPath"@)) == Some(option_view(self.input_path))
        &&& dynamic_of(json.field("OutputPath"@)) == Some(option_view(self.output_path))
        &&& EndOrNext::read(json) == Some(self.end_or_next@)
        &&& dynamic_of(json.field("ResultPath"@)) == Some(option_view(self.result_path))
        &&& json.field("Parameters"@) == option_view(self.parameters)
        &&& json.field("ResultSelector"@) == option_view(self.result_selector)
        &&& retriers_decoded(self.retry, json.field("Retry"@))
        &&& catchers_decoded(self.catch, json.field("Catch"@))
    }

    /// Reads a task from the object of a state.
    pub fn decode(json: &JsonValue) -> (res: Result<Task, DecodeError>)
        ensures
            res matches Ok(task) ==> task.decoded_from(json@),
            res is Err ==> forall|task: Task| !task.decoded_from(json@),
    {
        if !json.is_object() {
            return refuse("Expected an object for ", "a task");
        }
        let resource = require(read_text(json.field("Resource"), "Resource")?, "Resource")?;
        let timeout = read_timeout(json)?;
        let heartbeat = read_heartbeat(json)?;
        if !check_heartbeat(json) {
            return refuse("Expected HeartbeatSeconds below ", "TimeoutSeconds");
        }
        let credentials = read_value(json.field("Credentials"));
        let comment = read_text(json.field("Comment"), "Comment")?;
        let input_path = read_dynamic(json.field("InputPath"), "InputPath")?;
        let output_path = read_dynamic(json.field("OutputPath"), "OutputPath")?;
        let end_or_next = EndOrNext::decode(json)?;
        let result_path = read_dynamic(json.field("ResultPath"), "ResultPath")?;
        let parameters = read_value(json.field("Parameters"));
        let result_selector = read_value(json.field("ResultSelector"));
        let retry = read_retriers(json.field("Retry"))?;
        let catch = read_catchers(json.field("Catch"))?;
        Ok(
            Task {
                resource,
                timeout,
                heartbeat,
                credentials,
                comment,
                input_path,
                output_path,
                end_or_next,
                result_path,
                parameters,
                result_selector,
                retry,
                catch,
            },
        )
    }
}

} // verus!
