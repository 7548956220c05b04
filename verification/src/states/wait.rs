//! The wait state: a pause.

use crate::decode::{
    dynamic_of, instant_of, number_of, option_view, read_dynamic, read_instant, read_number,
    read_text, refuse, require, text_of, DecodeError,
};
use crate::json::{Json, JsonNumber, JsonValue};
use crate::states::all_states::EndOrNext;
use crate::types::{DynamicValue, TimestampType};
use vstd::prelude::*;

verus! {

/// How long a wait state pauses: for a number of seconds or until an
/// instant, either written in the definition or found at a path.
#[derive(Debug, PartialEq, Eq)]
pub enum WaitDuration {
    Seconds(JsonNumber),
    SecondsPath(DynamicValue),
    Timestamp(TimestampType),
    TimestampPath(DynamicValue),
}

/// A state that pauses and then hands over.
#[derive(Debug, PartialEq, Eq)]
pub struct Wait {
    pub duration: WaitDuration,
    pub comment: Option<String>,
    pub input_path: Option<DynamicValue>,
    pub output_path: Option<DynamicValue>,
    pub end_or_next: EndOrNext,
}

/// One where a member is there, else nothing.
pub open spec fn written(found: Option<Json>) -> nat {
    if found is Some {
        1
    } else {
        0
    }
}

/// How many of the four members that say how long to wait an object has.
pub open spec fn durations_written(json: Json) -> nat {
    written(json.field("Seconds"@)) + written(json.field("SecondsPath"@)) + written(
        json.field("Timestamp"@),
    ) + written(json.field("TimestampPath"@))
}

impl WaitDuration {
    /// Whether the duration is what an object says, which has exactly one
    /// of the members `Seconds`, `SecondsPath`, `Timestamp` and
    /// `TimestampPath`: the member says which kind it is, and holds its
    /// number, path or instant.
    pub open spec fn decoded_from(self, json: Json) -> bool {
        &&& durations_written(json) == 1
        &&& match self {
            WaitDuration::Seconds(n) => number_of(json.field("Seconds"@)) == Some(Some(n@)),
            WaitDuration::SecondsPath(p) => dynamic_of(json.field("SecondsPath"@)) == Some(
                Some(p@),
            ),
            WaitDuration::Timestamp(t) => instant_of(json.field("Timestamp"@)) == Some(Some(t)),
            WaitDuration::TimestampPath(p) => dynamic_of(json.field("TimestampPath"@)) == Some(
                Some(p@),
            ),
        }
    }

    /// Reads how long to wait from the object of a wait state.
    pub fn decode(json: &JsonValue) -> (res: Result<WaitDuration, DecodeError>)
        ensures
            res matches Ok(duration) ==> duration.decoded_from(json@),
            res is Err ==> forall|duration: WaitDuration| !duration.decoded_from(json@),
    {
        let seconds = json.field("Seconds");
        let seconds_path = json.field("SecondsPath");
        let timestamp = json.field("Timestamp");
        let timestamp_path = json.field("TimestampPath");
        let mut written: u8 = 0;
        if seconds.is_some() {
            written += 1;
        }
        if seconds_path.is_some() {
            written += 1;
        }
        if timestamp.is_some() {
            written += 1;
        }
        if timestamp_path.is_some() {
            written += 1;
        }
        if written != 1 {
            return refuse(
                "Expected exactly one of Seconds, SecondsPath, Timestamp and ",
                "TimestampPath",
            );
        }
        if seconds.is_some() {
            let n = require(read_number(seconds, "Seconds")?, "Seconds")?;
            Ok(WaitDuration::Seconds(n))
        } else if seconds_path.is_some() {
            let p = require(read_dynamic(seconds_path, "SecondsPath")?, "SecondsPath")?;
            Ok(WaitDuration::SecondsPath(p))
        } else if timestamp.is_some() {
            let t = require(read_instant(timestamp, "Timestamp")?, "Timestamp")?;
            Ok(WaitDuration::Timestamp(t))
        } else {
            let p = require(read_dynamic(timestamp_path, "TimestampPath")?, "TimestampPath")?;
            Ok(WaitDuration::TimestampPath(p))
        }
    }
}

impl Wait {
    /// Whether the state is what an object says: one member says how long
    /// to wait; `Comment`, `InputPath` and `OutputPath` hold what the fields
    /// of their names hold; `End` or `Next` says what follows.
    pub open spec fn decoded_from(self, json: Json) -> bool {
        &&& json is Object
        &&& self.duration.decoded_from(json)
        &&& text_of(json.field("Comment"@)) == Some(option_view(self.comment))
        &&& dynamic_of(json.field("InputPath"@)) == Some(option_view(self.input_path))
        &&& dynamic_of(json.field("OutputPath"@)) == Some(option_view(self.output_path))
        &&& EndOrNext::read(json) == Some(self.end_or_next@)
    }

    /// Reads a wait state from the object of a state.
    pub fn decode(json: &JsonValue) -> (res: Result<Wait, DecodeError>)
        ensures
            res matches Ok(wait) ==> wait.decoded_from(json@),
            res is Err ==> forall|wait: Wait| !wait.decoded_from(json@),
    {
        if !json.is_object() {
            return refuse("Expected an object for ", "a wait state");
        }
        let duration = WaitDuration::decode(json)?;
        let comment = read_text(json.field("Comment"), "Comment")?;
        let input_path = read_dynamic(json.field("InputPath"), "InputPath")?;
        let output_path = read_dynamic(json.field("OutputPath"), "OutputPath")?;
        let end_or_next = EndOrNext::decode(json)?;
        Ok(Wait { duration, comment, input_path, output_path, end_or_next })
    }
}

} // verus!
