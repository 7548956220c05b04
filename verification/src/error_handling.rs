//! Error names, and the rules by which a task's failure is retried or
//! caught.

use crate::decode::{
    count_of, dynamic_of, found_json, names_of, number_of, option_view, or_default, read_count,
    read_dynamic, read_names, read_number, read_text, refuse, require, required, text_of,
    DecodeError,
};
use crate::json::{array_json, lemma_array_json, Json, JsonNumber, JsonValue, Num};
use crate::text::str_equal;
use crate::types::DynamicValue;
use vstd::prelude::*;

verus! {

/// How the pause before a retry is spread.
#[derive(Debug, PartialEq, Eq, Clone, Copy, Structural)]
pub enum JitterStrategy {
    /// A pause drawn evenly between nothing and the whole delay.
    FULL,
}

/// What an error name stands for in contracts.
pub enum ErrorName {
    StatesALL,
    StatesHeartbeatTimeout,
    StatesTimeout,
    StatesTaskFailed,
    StatesPermissions,
    StatesResultPathMatchFailure,
    StatesParameterPathFailure,
    StatesBranchFailed,
    StatesNoChoiceMatched,
    StatesIntrinsicFailure,
    StatesExceedToleratedFailureThreshold,
    StatesItemReaderFailed,
    StatesResultWriterFailed,
    Custom(Seq<char>),
}

/// The name of an error: one of the predefined names, or a name of the
/// definition's own.
#[derive(Debug, PartialEq, Eq)]
pub enum StateMachineExecutionPredefinedErrors {
    /// A wildcard which matches any error name.
    StatesALL,
    /// A task failed to send a heartbeat for longer than its heartbeat
    /// interval.
    StatesHeartbeatTimeout,
    /// A task ran longer than its timeout, or failed to send a heartbeat for
    /// longer than its heartbeat interval.
    StatesTimeout,
    /// A task failed while it ran.
    StatesTaskFailed,
    /// A task had insufficient privileges to run its code.
    StatesPermissions,
    /// A state's result path cannot be applied to the input it received.
    StatesResultPathMatchFailure,
    /// A parameter whose name ends in `.$` could not be replaced by the value
    /// at its path.
    StatesParameterPathFailure,
    /// A branch of a parallel state failed.
    StatesBranchFailed,
    /// A choice state found no rule that matches its input.
    StatesNoChoiceMatched,
    /// A call of an intrinsic function failed.
    StatesIntrinsicFailure,
    /// More items of a map state failed than it tolerates.
    StatesExceedToleratedFailureThreshold,
    /// A map state failed to read its items.
    StatesItemReaderFailed,
    /// A map state failed to write its results.
    StatesResultWriterFailed,
    /// A name of the definition's own.
    Custom(String),
}

impl View for StateMachineExecutionPredefinedErrors {
    type V = ErrorName;

    open spec fn view(&self) -> ErrorName {
        match self {
            StateMachineExecutionPredefinedErrors::StatesALL => ErrorName::StatesALL,
            StateMachineExecutionPredefinedErrors::StatesHeartbeatTimeout => ErrorName::StatesHeartbeatTimeout,
            StateMachineExecutionPredefinedErrors::StatesTimeout => ErrorName::StatesTimeout,
            StateMachineExecutionPredefinedErrors::StatesTaskFailed => ErrorName::StatesTaskFailed,
            StateMachineExecutionPredefinedErrors::StatesPermissions => ErrorName::StatesPermissions,
            StateMachineExecutionPredefinedErrors::StatesResultPathMatchFailure => ErrorName::StatesResultPathMatchFailure,
            StateMachineExecutionPredefinedErrors::StatesParameterPathFailure => ErrorName::StatesParameterPathFailure,
            StateMachineExecutionPredefinedErrors::StatesBranchFailed => ErrorName::StatesBranchFailed,
            StateMachineExecutionPredefinedErrors::StatesNoChoiceMatched => ErrorName::StatesNoChoiceMatched,
            StateMachineExecutionPredefinedErrors::StatesIntrinsicFailure => ErrorName::StatesIntrinsicFailure,
            StateMachineExecutionPredefinedErrors::StatesExceedToleratedFailureThreshold => ErrorName::StatesExceedToleratedFailureThreshold,
            StateMachineExecutionPredefinedErrors::StatesItemReaderFailed => ErrorName::StatesItemReaderFailed,
            StateMachineExecutionPredefinedErrors::StatesResultWriterFailed => ErrorName::StatesResultWriterFailed,
            StateMachineExecutionPredefinedErrors::Custom(name) => ErrorName::Custom(name@),
        }
    }
}

impl Clone for StateMachineExecutionPredefinedErrors {
    fn clone(&self) -> (res: Self)
        ensures
            res@ == self@,
    {
        match self {
            StateMachineExecutionPredefinedErrors::StatesALL => StateMachineExecutionPredefinedErrors::StatesALL,
            StateMachineExecutionPredefinedErrors::StatesHeartbeatTimeout => StateMachineExecutionPredefinedErrors::StatesHeartbeatTimeout,
            StateMachineExecutionPredefinedErrors::StatesTimeout => StateMachineExecutionPredefinedErrors::StatesTimeout,
            StateMachineExecutionPredefinedErrors::StatesTaskFailed => StateMachineExecutionPredefinedErrors::StatesTaskFailed,
            StateMachineExecutionPredefinedErrors::StatesPermissions => StateMachineExecutionPredefinedErrors::StatesPermissions,
            StateMachineExecutionPredefinedErrors::StatesResultPathMatchFailure => StateMachineExecutionPredefinedErrors::StatesResultPathMatchFailure,
            StateMachineExecutionPredefinedErrors::StatesParameterPathFailure => StateMachineExecutionPredefinedErrors::StatesParameterPathFailure,
            StateMachineExecutionPredefinedErrors::StatesBranchFailed => StateMachineExecutionPredefinedErrors::StatesBranchFailed,
            StateMachineExecutionPredefinedErrors::StatesNoChoiceMatched => StateMachineExecutionPredefinedErrors::StatesNoChoiceMatched,
            StateMachineExecutionPredefinedErrors::StatesIntrinsicFailure => StateMachineExecutionPredefinedErrors::StatesIntrinsicFailure,
            StateMachineExecutionPredefinedErrors::StatesExceedToleratedFailureThreshold => StateMachineExecutionPredefinedErrors::StatesExceedToleratedFailureThreshold,
            StateMachineExecutionPredefinedErrors::StatesItemReaderFailed => StateMachineExecutionPredefinedErrors::StatesItemReaderFailed,
            StateMachineExecutionPredefinedErrors::StatesResultWriterFailed => StateMachineExecutionPredefinedErrors::StatesResultWriterFailed,
            StateMachineExecutionPredefinedErrors::Custom(name) => StateMachineExecutionPredefinedErrors::Custom(name.clone()),
        }
    }
}

impl ErrorName {
    /// The text by which a definition writes the name.
    pub open spec fn canonical(self) -> Seq<char> {
        match self {
            ErrorName::StatesALL => "States.ALL"@,
            ErrorName::StatesHeartbeatTimeout => "States.HeartbeatTimeout"@,
            ErrorName::StatesTimeout => "States.Timeout"@,
            ErrorName::StatesTaskFailed => "States.TaskFailed"@,
            ErrorName::StatesPermissions => "States.Permissions"@,
            ErrorName::StatesResultPathMatchFailure => "States.ResultPathMatchFailure"@,
            ErrorName::StatesParameterPathFailure => "States.ParameterPathFailure"@,
            ErrorName::StatesBranchFailed => "States.BranchFailed"@,
            ErrorName::StatesNoChoiceMatched => "States.NoChoiceMatched"@,
            ErrorName::StatesIntrinsicFailure => "States.IntrinsicFailure"@,
            ErrorName::StatesExceedToleratedFailureThreshold => "States.ExceedToleratedFailureThreshold"@,
            ErrorName::StatesItemReaderFailed => "States.ItemReaderFailed"@,
            ErrorName::StatesResultWriterFailed => "States.ResultWriterFailed"@,
            ErrorName::Custom(name) => name,
        }
    }

    /// Whether an error that goes by `expected` falls under this name:
    /// `States.ALL` takes every error; any other name takes the errors that
    /// go by its own text.
    pub open spec fn matches(self, expected: Seq<char>) -> bool {
        self is StatesALL || self.canonical() == expected
    }

    /// Whether an error that goes by `expected` falls under one of `names`.
    pub open spec fn any_matches(names: Seq<ErrorName>, expected: Seq<char>) -> bool {
        exists|i: int| 0 <= i < names.len() && (#[trigger] names[i]).matches(expected)
    }
}

impl StateMachineExecutionPredefinedErrors {
    /// The text by which a definition writes the name.
    pub fn canonical_name(&self) -> (res: &str)
        ensures
            res@ == self@.canonical(),
    {
        match self {
            StateMachineExecutionPredefinedErrors::StatesALL => "States.ALL",
            StateMachineExecutionPredefinedErrors::StatesHeartbeatTimeout => "States.HeartbeatTimeout",
            StateMachineExecutionPredefinedErrors::StatesTimeout => "States.Timeout",
            StateMachineExecutionPredefinedErrors::StatesTaskFailed => "States.TaskFailed",
            StateMachineExecutionPredefinedErrors::StatesPermissions => "States.Permissions",
            StateMachineExecutionPredefinedErrors::StatesResultPathMatchFailure => "States.ResultPathMatchFailure",
            StateMachineExecutionPredefinedErrors::StatesParameterPathFailure => "States.ParameterPathFailure",
            StateMachineExecutionPredefinedErrors::StatesBranchFailed => "States.BranchFailed",
            StateMachineExecutionPredefinedErrors::StatesNoChoiceMatched => "States.NoChoiceMatched",
            StateMachineExecutionPredefinedErrors::StatesIntrinsicFailure => "States.IntrinsicFailure",
            StateMachineExecutionPredefinedErrors::StatesExceedToleratedFailureThreshold => "States.ExceedToleratedFailureThreshold",
            StateMachineExecutionPredefinedErrors::StatesItemReaderFailed => "States.ItemReaderFailed",
            StateMachineExecutionPredefinedErrors::StatesResultWriterFailed => "States.ResultWriterFailed",
            StateMachineExecutionPredefinedErrors::Custom(name) => name.as_str(),
        }
    }
}

/// Whether an error that goes by `expected_error` falls under the name
/// `catch`.
pub fn matches_error(expected_error: &str, catch: &StateMachineExecutionPredefinedErrors) -> (res:
    bool)
    ensures
        res == catch@.matches(expected_error@),
{
    match catch {
        StateMachineExecutionPredefinedErrors::StatesALL => true,
        name => str_equal(name.canonical_name(), expected_error),
    }
}

/// The names that a vector of error names stands for.
pub open spec fn names_view(names: Seq<StateMachineExecutionPredefinedErrors>) -> Seq<ErrorName> {
    Seq::new(names.len(), |i: int| names[i]@)
}

/// Whether an error that goes by `expected_error` falls under one of
/// `names`.
pub fn matches_any(expected_error: &str, names: &Vec<StateMachineExecutionPredefinedErrors>) -> (res:
    bool)
    ensures
        res == ErrorName::any_matches(names_view(names@), expected_error@),
{
    let mut i: usize = 0;
    while i < names.len()
        invariant
            i <= names.len(),
            forall|k: int| 0 <= k < i ==> !(#[trigger] names_view(names@)[k]).matches(expected_error@),
        decreases names.len() - i,
    {
        if matches_error(expected_error, &names[i]) {
            assert(names_view(names@)[i as int].matches(expected_error@));
            return true;
        }
        i += 1;
    }
    false
}

/// How often a retrier retries unless it says otherwise.
pub fn max_attempts_default() -> (res: u32)
    ensures
        res == 3,
{
    3
}

/// The seconds before a retrier's first retry unless it says otherwise.
pub fn interval_seconds_default() -> (res: JsonNumber)
    ensures
        res@ == Num::PosInt(1),
{
    JsonNumber::PosInt(1)
}

/// The factor by which a retrier's pause grows unless it says otherwise.
pub fn backoff_rate_default() -> (res: JsonNumber)
    ensures
        res@ == Num::Float("2.0"@),
{
    JsonNumber::Float("2.0".to_owned())
}

/// A rule for running a failed task again.
#[derive(Debug, PartialEq, Eq)]
pub struct Retrier {
    /// The errors that the rule is for.
    pub error_equals: Vec<StateMachineExecutionPredefinedErrors>,
    /// How often the rule may retry.
    pub max_attempts: u32,
    /// The seconds before the first retry.
    pub interval_seconds: JsonNumber,
    /// The longest pause, in seconds.
    pub max_delay_seconds: Option<JsonNumber>,
    /// The factor by which the pause grows with each retry.
    pub backoff_rate: JsonNumber,
    /// How the pause is spread.
    pub jitter_strategy: Option<JitterStrategy>,
}

impl Retrier {
    /// A retrier for `error_equals` with the default attempts, interval and
    /// backoff rate, no longest pause and no jitter.
    pub fn new(error_equals: Vec<StateMachineExecutionPredefinedErrors>) -> (res: Retrier)
        ensures
            res.error_equals == error_equals,
            res.max_attempts == 3,
            res.interval_seconds@ == Num::PosInt(1),
            res.max_delay_seconds is None,
            res.backoff_rate@ == Num::Float("2.0"@),
            res.jitter_strategy is None,
    {
        Retrier {
            error_equals,
            max_attempts: max_attempts_default(),
            interval_seconds: interval_seconds_default(),
            max_delay_seconds: None,
            backoff_rate: backoff_rate_default(),
            jitter_strategy: None,
        }
    }
}

/// A rule for leaving a failed task towards another state.
#[derive(Debug, PartialEq, Eq)]
pub struct Catcher {
    /// The errors that the rule is for.
    pub error_equals: Vec<StateMachineExecutionPredefinedErrors>,
    /// The state that takes over.
    pub next: String,
    /// Where the error is put in the input of that state.
    pub result_path: Option<DynamicValue>,
}

/// What a member that may be missing is read as, where it has to name a
/// jitter strategy.
pub open spec fn jitter_of(found: Option<Json>) -> Option<Option<JitterStrategy>> {
    match found {
        None => Some(None),
        Some(Json::String(text)) => if text == "FULL"@ {
            Some(Some(JitterStrategy::FULL))
        } else {
            None
        },
        Some(_) => None,
    }
}

impl Retrier {
    /// Whether the retrier is what an object says: `ErrorEquals` holds its
    /// error names; `MaxAttempts`, `IntervalSeconds` and `BackoffRate` hold
    /// its attempts, interval and rate, which are 3, 1 and 2.0 where the
    /// object is silent; `MaxDelaySeconds` and `JitterStrategy` hold the
    /// rest.
    pub open spec fn decoded_from(self, json: Json) -> bool {
        &&& json is Object
        &&& names_of(json.field("ErrorEquals"@)) == Some(names_view(self.error_equals@))
        &&& or_default(count_of(json.field("MaxAttempts"@)), 3u32) == Some(self.max_attempts)
        &&& or_default(number_of(json.field("IntervalSeconds"@)), Num::PosInt(1)) == Some(
            self.interval_seconds@,
        )
        &&& number_of(json.field("MaxDelaySeconds"@)) == Some(option_view(self.max_delay_seconds))
        &&& or_default(number_of(json.field("BackoffRate"@)), Num::Float("2.0"@)) == Some(
            self.backoff_rate@,
        )
        &&& jitter_of(json.field("JitterStrategy"@)) == Some(self.jitter_strategy)
    }

    /// Reads a retrier from an object.
    pub fn decode(json: &JsonValue) -> (res: Result<Retrier, DecodeError>)
        ensures
            res matches Ok(retrier) ==> retrier.decoded_from(json@),
            res is Err ==> forall|retrier: Retrier| !retrier.decoded_from(json@),
    {
        if !json.is_object() {
            return refuse("Expected an object for ", "a retrier");
        }
        let error_equals = read_names(json.field("ErrorEquals"), "ErrorEquals")?;
        let max_attempts = match read_count(json.field("MaxAttempts"), "MaxAttempts")? {
            Some(n) => n,
            None => max_attempts_default(),
        };
        let interval_seconds = match read_number(
            json.field("IntervalSeconds"),
            "IntervalSeconds",
        )? {
            Some(n) => n,
            None => interval_seconds_default(),
        };
        let max_delay_seconds = read_number(json.field("MaxDelaySeconds"), "MaxDelaySeconds")?;
        let backoff_rate = match read_number(json.field("BackoffRate"), "BackoffRate")? {
            Some(n) => n,
            None => backoff_rate_default(),
        };
        let jitter_strategy = match read_text(json.field("JitterStrategy"), "JitterStrategy")? {
            None => None,
            Some(text) => if str_equal(text.as_str(), "FULL") {
                Some(JitterStrategy::FULL)
            } else {
                return refuse("Unknown strategy in ", "JitterStrategy");
            },
        };
        Ok(
            Retrier {
                error_equals,
                max_attempts,
                interval_seconds,
                max_delay_seconds,
                backoff_rate,
                jitter_strategy,
            },
        )
    }
}

impl Catcher {
    /// Whether the catcher is what an object says: `ErrorEquals` holds its
    /// error names, `Next` the state that takes over, `ResultPath` the rest.
    pub open spec fn decoded_from(self, json: Json) -> bool {
        &&& json is Object
        &&& names_of(json.field("ErrorEquals"@)) == Some(names_view(self.error_equals@))
        &&& required(text_of(json.field("Next"@))) == Some(self.next@)
        &&& dynamic_of(json.field("ResultPath"@)) == Some(option_view(self.result_path))
    }

    /// Reads a catcher from an object.
    pub fn decode(json: &JsonValue) -> (res: Result<Catcher, DecodeError>)
        ensures
            res matches Ok(catcher) ==> catcher.decoded_from(json@),
            res is Err ==> forall|catcher: Catcher| !catcher.decoded_from(json@),
    {
        if !json.is_object() {
            return refuse("Expected an object for ", "a catcher");
        }
        let error_equals = read_names(json.field("ErrorEquals"), "ErrorEquals")?;
        let next = require(read_text(json.field("Next"), "Next")?, "Next")?;
        let result_path = read_dynamic(json.field("ResultPath"), "ResultPath")?;
        Ok(Catcher { error_equals, next, result_path })
    }
}

/// Whether retriers are what a member says that may be missing: it holds
/// an array with an object for each of them.
pub open spec fn retriers_decoded(retriers: Option<Vec<Retrier>>, found: Option<Json>) -> bool {
    match found {
        None => retriers is None,
        Some(Json::Array(items)) => retriers matches Some(list) && list@.len() == items.len()
            && forall|i: int| 0 <= i < items.len() ==> (#[trigger] list@[i]).decoded_from(items[i]),
        Some(_) => false,
    }
}

/// Whether catchers are what a member says that may be missing: it holds an
/// array with an object for each of them.
pub open spec fn catchers_decoded(catchers: Option<Vec<Catcher>>, found: Option<Json>) -> bool {
    match found {
        None => catchers is None,
        Some(Json::Array(items)) => catchers matches Some(list) && list@.len() == items.len()
            && forall|i: int| 0 <= i < items.len() ==> (#[trigger] list@[i]).decoded_from(items[i]),
        Some(_) => false,
    }
}

/// The retriers that the member `Retry` holds.
#[verifier::loop_isolation(false)]
pub fn read_retriers(found: Option<&JsonValue>) -> (res: Result<Option<Vec<Retrier>>, DecodeError>)
    ensures
        res matches Ok(retriers) ==> retriers_decoded(retriers, found_json(found)),
        res is Err ==> forall|retriers: Option<Vec<Retrier>>|
            !retriers_decoded(retriers, found_json(found)),
{
    match found {
        None => Ok(None),
        Some(JsonValue::Array(items)) => {
            let ghost all = array_json(items@);
            proof {
                lemma_array_json(items@);
            }
            let mut list: Vec<Retrier> = Vec::new();
            let mut i: usize = 0;
            while i < items.len()
                invariant
                    i <= items.len(),
                    list.len() == i,
                    forall|k: int| 0 <= k < i ==> (#[trigger] list@[k]).decoded_from(all[k]),
                decreases items.len() - i,
            {
                match Retrier::decode(&items[i]) {
                    Ok(retrier) => {
                        list.push(retrier);
                    },
                    Err(e) => {
                        proof {
                            assert forall|retriers: Option<Vec<Retrier>>|
                                !retriers_decoded(retriers, found_json(found)) by {
                                if retriers_decoded(retriers, found_json(found)) {
                                    assert(retriers->Some_0@[i as int].decoded_from(all[i as int]));
                                }
                            }
                        }
                        return Err(e);
                    },
                }
                i += 1;
            }
            Ok(Some(list))
        },
        Some(_) => refuse("Expected an array in ", "Retry"),
    }
}

/// The catchers that the member `Catch` holds.
#[verifier::loop_isolation(false)]
pub fn read_catchers(found: Option<&JsonValue>) -> (res: Result<Option<Vec<Catcher>>, DecodeError>)
    ensures
        res matches Ok(catchers) ==> catchers_decoded(catchers, found_json(found)),
        res is Err ==> forall|catchers: Option<Vec<Catcher>>|
            !catchers_decoded(catchers, found_json(found)),
{
    match found {
        None => Ok(None),
        Some(JsonValue::Array(items)) => {
            let ghost all = array_json(items@);
            proof {
                lemma_array_json(items@);
            }
            let mut list: Vec<Catcher> = Vec::new();
            let mut i: usize = 0;
            while i < items.len()
                invariant
                    i <= items.len(),
                    list.len() == i,
                    forall|k: int| 0 <= k < i ==> (#[trigger] list@[k]).decoded_from(all[k]),
                decreases items.len() - i,
            {
                match Catcher::decode(&items[i]) {
                    Ok(catcher) => {
                        list.push(catcher);
                    },
                    Err(e) => {
                        proof {
                            assert forall|catchers: Option<Vec<Catcher>>|
                                !catchers_decoded(catchers, found_json(found)) by {
                                if catchers_decoded(catchers, found_json(found)) {
                                    assert(catchers->Some_0@[i as int].decoded_from(all[i as int]));
                                }
                            }
                        }
                        return Err(e);
                    },
                }
                i += 1;
            }
            Ok(Some(list))
        },
        Some(_) => refuse("Expected an array in ", "Catch"),
    }
}

} // verus!
