//! The wait state: the host pauses for a time, or until an instant.

use crate::execution::{pause_asked, Delay, DelayView, Execution, StateExecutionHandler};
use crate::handlers::{HandlerOutput, HandlerOutputView};
use crate::json::{json_text, Json, JsonNumber, JsonValue, Num};
use crate::states::wait::{Wait, WaitDuration};
use crate::text::join;
use crate::types::{DynamicValue, DynamicValueView, ExecutionInput, TimestampType};
use vstd::prelude::*;

verus! {

/// What a wait state's error stands for in contracts.
pub enum WaitErrorView {
    SecondsPathNotANumber(Json),
    TimestampPathNotAString(Json),
    MalformedTimestamp(Seq<char>),
}

/// Why a wait state failed.
#[derive(Debug, PartialEq, Eq)]
pub enum WaitStateExecutionError {
    /// The path to the seconds led to this value, which is no number.
    SecondsPathNotANumber(JsonValue),
    /// The path to the timestamp led to this value, which is no string.
    TimestampPathNotAString(JsonValue),
    /// The path to the timestamp led to a string that is no timestamp; what
    /// the reader of timestamps said of it.
    MalformedTimestamp(String),
}

impl View for WaitStateExecutionError {
    type V = WaitErrorView;

    open spec fn view(&self) -> WaitErrorView {
        match self {
            WaitStateExecutionError::SecondsPathNotANumber(value) => WaitErrorView::SecondsPathNotANumber(value@),
            WaitStateExecutionError::TimestampPathNotAString(value) => WaitErrorView::TimestampPathNotAString(value@),
            WaitStateExecutionError::MalformedTimestamp(message) => WaitErrorView::MalformedTimestamp(message@),
        }
    }
}

impl WaitErrorView {
    /// The error in words.
    pub open spec fn message(self) -> Seq<char> {
        match self {
            WaitErrorView::SecondsPathNotANumber(value) =>
                "SecondsPath evaluated to a value that is not a number. Got: "@ + json_text(value),
            WaitErrorView::TimestampPathNotAString(value) =>
                "TimestampPath evaluated to a value that is not a string. Got: "@ + json_text(value),
            WaitErrorView::MalformedTimestamp(message) =>
                "TimestampPath evaluated to a malformed timestamp string. Error: "@ + message,
        }
    }
}

impl WaitStateExecutionError {
    /// The error in words.
    pub fn message(&self) -> (res: String)
        ensures
            res@ == self@.message(),
    {
        match self {
            WaitStateExecutionError::SecondsPathNotANumber(value) => join(
                "SecondsPath evaluated to a value that is not a number. Got: ",
                value.to_text().as_str(),
            ),
            WaitStateExecutionError::TimestampPathNotAString(value) => join(
                "TimestampPath evaluated to a value that is not a string. Got: ",
                value.to_text().as_str(),
            ),
            WaitStateExecutionError::MalformedTimestamp(message) => join(
                "TimestampPath evaluated to a malformed timestamp string. Error: ",
                message.as_str(),
            ),
        }
    }
}

/// The value that a path of a wait state leads to: `null` where the path
/// leads nowhere or cannot be followed.
pub open spec fn path_value(path: DynamicValueView, value: Json, context: Json) -> Json {
    match path.evaluate(value, context) {
        Ok(Some(found)) => found,
        _ => Json::Null,
    }
}

/// The value that a path of a wait state leads to: `null` where the path
/// leads nowhere or cannot be followed.
pub fn evaluate_path(input: &ExecutionInput, path: &DynamicValue) -> (res: JsonValue)
    ensures
        res@ == path_value(path@, input.value@, input.context@),
{
    match path.evaluate(input) {
        Ok(Some(found)) => found,
        _ => JsonValue::Null,
    }
}

/// What a wait target stands for in contracts.
pub enum WaitTargetView {
    Seconds(Num),
    Until(TimestampType),
}

/// What a wait state waits for, before the clock is read.
#[derive(Debug, PartialEq, Eq)]
pub enum WaitTarget {
    /// A number of seconds.
    Seconds(JsonNumber),
    /// An instant.
    Until(TimestampType),
}

impl View for WaitTarget {
    type V = WaitTargetView;

    open spec fn view(&self) -> WaitTargetView {
        match self {
            WaitTarget::Seconds(seconds) => WaitTargetView::Seconds(seconds@),
            WaitTarget::Until(instant) => WaitTargetView::Until(*instant),
        }
    }
}

/// What the result of settling a wait target stands for.
pub open spec fn wait_target_view(res: Result<WaitTarget, WaitStateExecutionError>) -> Result<
    WaitTargetView,
    WaitErrorView,
> {
    match res {
        Ok(target) => Ok(target@),
        Err(e) => Err(e@),
    }
}

impl Wait {
    /// What the state waits for on an input: the seconds or the instant
    /// that it names, or that its path leads to. A path to seconds has to
    /// lead to a number, a path to an instant to a string that is an
    /// RFC 3339 timestamp.
    pub open spec fn target(self, value: Json, context: Json) -> Result<WaitTargetView, WaitErrorView> {
        match self.duration {
            WaitDuration::Seconds(seconds) => Ok(WaitTargetView::Seconds(seconds@)),
            WaitDuration::Timestamp(timestamp) => Ok(WaitTargetView::Until(timestamp)),
            WaitDuration::SecondsPath(path) => match path_value(path@, value, context) {
                Json::Number(seconds) => Ok(WaitTargetView::Seconds(seconds)),
                other => Err(WaitErrorView::SecondsPathNotANumber(other)),
            },
            WaitDuration::TimestampPath(path) => match path_value(path@, value, context) {
                Json::String(text) => match TimestampType::read(text) {
                    Ok(instant) => Ok(WaitTargetView::Until(instant)),
                    Err(message) => Err(WaitErrorView::MalformedTimestamp(message)),
                },
                other => Err(WaitErrorView::TimestampPathNotAString(other)),
            },
        }
    }

    /// The pause that the host is asked for where the clock shows `now`:
    /// the seconds, or the milliseconds that are left until the instant.
    pub open spec fn pause(target: WaitTargetView, now: TimestampType) -> DelayView {
        match target {
            WaitTargetView::Seconds(seconds) => DelayView::Seconds(seconds),
            WaitTargetView::Until(instant) => DelayView::Milliseconds(
                instant.spec_millis_until(now) as u64,
            ),
        }
    }

    /// The pause that the state asks for on an input where the clock shows
    /// `now`.
    pub open spec fn resolved(self, value: Json, context: Json, now: TimestampType) -> Result<
        DelayView,
        WaitErrorView,
    > {
        match self.target(value, context) {
            Ok(target) => Ok(Self::pause(target, now)),
            Err(e) => Err(e),
        }
    }

    /// What the state does on an input: it hands over with nothing yielded,
    /// or fails where it asks for no pause that can be read.
    pub open spec fn outcome(self, value: Json, context: Json) -> Result<
        HandlerOutputView,
        WaitErrorView,
    > {
        match self.target(value, context) {
            Ok(_) => Ok(HandlerOutputView { output: None, next_state: self.end_or_next@ }),
            Err(e) => Err(e),
        }
    }

    /// What the state waits for on `input`.
    pub fn settle(&self, input: &ExecutionInput) -> (res: Result<
        WaitTarget,
        WaitStateExecutionError,
    >)
        ensures
            wait_target_view(res) == self.target(input.value@, input.context@),
    {
        match &self.duration {
            WaitDuration::Seconds(seconds) => Ok(WaitTarget::Seconds(seconds.clone())),
            WaitDuration::Timestamp(timestamp) => Ok(WaitTarget::Until(*timestamp)),
            WaitDuration::SecondsPath(path) => {
                let value = evaluate_path(input, path);
                match value {
                    JsonValue::Number(seconds) => Ok(WaitTarget::Seconds(seconds)),
                    other => Err(WaitStateExecutionError::SecondsPathNotANumber(other)),
                }
            },
            WaitDuration::TimestampPath(path) => {
                let value = evaluate_path(input, path);
                match value {
                    JsonValue::String(text) => match TimestampType::from_str(text.as_str()) {
                        Ok(timestamp) => Ok(WaitTarget::Until(timestamp)),
                        Err(e) => Err(WaitStateExecutionError::MalformedTimestamp(e.message)),
                    },
                    other => Err(WaitStateExecutionError::TimestampPathNotAString(other)),
                }
            },
        }
    }

    /// The pause that the state asks for on `input` where the clock shows
    /// `now`.
    pub fn resolve(&self, input: &ExecutionInput, now: &TimestampType) -> (res: Result<
        Delay,
        WaitStateExecutionError,
    >)
        ensures
            wait_result_view(res) == self.resolved(input.value@, input.context@, *now),
    {
        match self.settle(input) {
            Ok(WaitTarget::Seconds(seconds)) => Ok(Delay::Seconds(seconds)),
            Ok(WaitTarget::Until(instant)) => Ok(Delay::Milliseconds(instant.millis_until(now))),
            Err(e) => Err(e),
        }
    }
}

/// What the result of resolving a pause stands for.
pub open spec fn wait_result_view(res: Result<Delay, WaitStateExecutionError>) -> Result<
    DelayView,
    WaitErrorView,
> {
    match res {
        Ok(delay) => Ok(delay@),
        Err(e) => Err(e@),
    }
}

/// What the result of a wait state stands for.
pub open spec fn wait_outcome_view(res: Result<HandlerOutput, WaitStateExecutionError>) -> Result<
    HandlerOutputView,
    WaitErrorView,
> {
    match res {
        Ok(output) => Ok(output@),
        Err(e) => Err(e@),
    }
}

/// Whether `host` was asked for the pause that `target` comes to: the
/// seconds themselves, or the milliseconds from some reading of the clock
/// until the instant.
pub open spec fn waited<H: StateExecutionHandler>(host: H, target: WaitTargetView) -> bool {
    exists|now: TimestampType|
        now.nanos < 1_000_000_000 && #[trigger] pause_asked(host, Wait::pause(target, now))
}

impl<'a, H: StateExecutionHandler> Execution<'a, H> {
    /// Runs a wait state: settles what the state waits for, has the host
    /// pause for it, and hands over with nothing yielded. The clock is read
    /// only where the state waits for an instant. Where the state asks for no
    /// pause that can be read, it fails and the host is not asked.
    pub fn handle_wait(&self, wait: &Wait, input: &ExecutionInput) -> (res: Result<
        HandlerOutput,
        WaitStateExecutionError,
    >)
        ensures
            wait_outcome_view(res) == wait.outcome(input.value@, input.context@),
            match wait.target(input.value@, input.context@) {
                Ok(target) => waited(self.host(), target),
                Err(_) => true,
            },
    {
        let ghost mut now = TimestampType { seconds: 0, nanos: 0 };
        let delay = match wait.settle(input) {
            Ok(WaitTarget::Seconds(seconds)) => Delay::Seconds(seconds),
            Ok(WaitTarget::Until(instant)) => {
                let read = TimestampType::now();
                proof {
                    now = read;
                }
                Delay::Milliseconds(instant.millis_until(&read))
            },
            Err(e) => {
                return Err(e);
            },
        };
        self.handler().wait(&delay);
        proof {
            let ghost target = wait.target(input.value@, input.context@)->Ok_0;
            assert(delay@ == Wait::pause(target, now));
            assert(pause_asked(self.host(), Wait::pause(target, now)));
        }
        Ok(HandlerOutput { output: None, next_state: wait.end_or_next.clone() })
    }
}

} // verus!
