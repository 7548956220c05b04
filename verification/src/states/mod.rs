//! The states of a definition.

use crate::error_handling::{Catcher, Retrier};
use crate::json::JsonValue;
use crate::states::choice::{Choice, ChoiceRule};
use crate::states::fail::{Fail, FailStateCauseField, FailStateErrorField};
use crate::states::map::{
    ItemBatcherConfiguration, MapState, MapStateIterator, ResultWriterConfiguration,
};
use crate::states::parallel::Parallel;
use crate::states::pass::Pass;
use crate::states::succeed::Succeed;
use crate::states::task::{HeartbeatSecondsOrPath, Task, TimeoutSecondsOrPath};
use crate::states::wait::{Wait, WaitDuration};
use crate::types::{
    DynamicValue, InvertedJsonPath, MyJsonPath, Parameters, Payload, ResultSelector,
};
use vstd::prelude::*;

pub mod all_states;
pub mod choice;
pub mod fail;
pub mod map;
pub mod parallel;
pub mod pass;
pub mod succeed;
pub mod task;
pub mod wait;

verus! {

/// What follows a state, as a definition writes it: `End` with a truth
/// value, or `Next` with the name of a state.
#[derive(Debug, PartialEq, Eq)]
pub enum EndOrNext {
    End(bool),
    Next(String),
}

impl EndOrNext {
    /// What follows the state: the end, whatever truth value `End` holds,
    /// or the state that `Next` names.
    pub open spec fn settled(self) -> all_states::EndOrNext {
        match self {
            EndOrNext::End(_) => all_states::EndOrNext::End,
            EndOrNext::Next(name) => all_states::EndOrNext::Next(name),
        }
    }

    /// What follows the state.
    pub fn settle(self) -> (res: all_states::EndOrNext)
        ensures
            res == self.settled(),
    {
        match self {
            EndOrNext::End(_) => all_states::EndOrNext::End,
            EndOrNext::Next(name) => all_states::EndOrNext::Next(name),
        }
    }
}

/// The dynamic value that a path into the input is.
pub open spec fn path_into_input(path: Option<MyJsonPath>) -> Option<DynamicValue> {
    match path {
        Some(p) => Some(DynamicValue::ValueJsonPath(p)),
        None => None,
    }
}

/// The dynamic value that a path into the input is.
pub fn as_input_path(path: Option<MyJsonPath>) -> (res: Option<DynamicValue>)
    ensures
        res == path_into_input(path),
{
    match path {
        Some(p) => Some(DynamicValue::ValueJsonPath(p)),
        None => None,
    }
}

/// A state with its fields written into the state itself, its paths being
/// paths into the input.
#[derive(Debug, PartialEq, Eq)]
pub enum State {
    Task {
        resource: String,
        timeout: Option<TimeoutSecondsOrPath>,
        heartbeat: Option<HeartbeatSecondsOrPath>,
        credentials: Option<JsonValue>,
        comment: Option<String>,
        input_path: Option<MyJsonPath>,
        output_path: Option<MyJsonPath>,
        end_or_next: EndOrNext,
        result_path: Option<MyJsonPath>,
        parameters: Option<Parameters>,
        result_selector: Option<ResultSelector>,
        retry: Option<Vec<Retrier>>,
        catch: Option<Vec<Catcher>>,
    },
    Parallel {
        comment: Option<String>,
        input_path: Option<MyJsonPath>,
        output_path: Option<MyJsonPath>,
        end_or_next: EndOrNext,
        result_path: Option<MyJsonPath>,
        parameters: Option<Parameters>,
        result_selector: Option<ResultSelector>,
        retry: Option<Vec<Retrier>>,
        catch: Option<Vec<Catcher>>,
    },
    MapState {
        max_concurrency: Option<u32>,
        item_processor: MapStateIterator,
        items_path: Option<MyJsonPath>,
        item_selector: Option<Vec<(InvertedJsonPath, MyJsonPath)>>,
        item_batcher: Option<ItemBatcherConfiguration>,
        result_writer: Option<ResultWriterConfiguration>,
        tolerated_failure_count: Option<u32>,
        tolerated_failure_percentage: Option<u32>,
        comment: Option<String>,
        input_path: Option<MyJsonPath>,
        output_path: Option<MyJsonPath>,
        end_or_next: EndOrNext,
        result_path: Option<MyJsonPath>,
        parameters: Option<Parameters>,
        result_selector: Option<ResultSelector>,
        retry: Option<Vec<Retrier>>,
        catch: Option<Vec<Catcher>>,
    },
    Pass {
        comment: Option<String>,
        input_path: Option<MyJsonPath>,
        output_path: Option<MyJsonPath>,
        end_or_next: EndOrNext,
        result_path: Option<MyJsonPath>,
        parameters: Option<Payload>,
    },
    Wait {
        duration: WaitDuration,
        comment: Option<String>,
        input_path: Option<MyJsonPath>,
        output_path: Option<MyJsonPath>,
        end_or_next: EndOrNext,
    },
    Choice {
        choices: Vec<ChoiceRule>,
        comment: Option<String>,
        input_path: Option<MyJsonPath>,
        output_path: Option<MyJsonPath>,
    },
    Succeed {
        comment: Option<String>,
        input_path: Option<MyJsonPath>,
        output_path: Option<MyJsonPath>,
    },
    Fail {
        error: Option<FailStateErrorField>,
        cause: Option<FailStateCauseField>,
        comment: Option<String>,
    },
}

impl State {
    /// The state as one of the sum of all states: each field goes where the
    /// field of its name is, and each path becomes a path into the input.
    pub open spec fn states(self) -> all_states::States {
        match self {
            State::Task { resource, timeout, heartbeat, credentials, comment, input_path, output_path, end_or_next, result_path, parameters, result_selector, retry, catch } => all_states::States::Task(
                Task {
                    resource,
                    timeout,
                    heartbeat,
                    credentials,
                    comment,
                    input_path: path_into_input(input_path),
                    output_path: path_into_input(output_path),
                    end_or_next: end_or_next.settled(),
                    result_path: path_into_input(result_path),
                    parameters,
                    result_selector,
                    retry,
                    catch,
                },
            ),
            State::Parallel { comment, input_path, output_path, end_or_next, result_path, parameters, result_selector, retry, catch } => all_states::States::Parallel(
                Parallel {
                    comment,
                    input_path: path_into_input(input_path),
                    output_path: path_into_input(output_path),
                    end_or_next: end_or_next.settled(),
                    result_path: path_into_input(result_path),
                    parameters,
                    result_selector,
                    retry,
                    catch,
                },
            ),
            State::MapState { max_concurrency, item_processor, items_path, item_selector, item_batcher, result_writer, tolerated_failure_count, tolerated_failure_percentage, comment, input_path, output_path, end_or_next, result_path, parameters, result_selector, retry, catch } => all_states::States::MapState(
                MapState {
                    max_concurrency,
                    item_processor,
                    items_path,
                    item_selector,
                    item_batcher,
                    result_writer,
                    tolerated_failure_count,
                    tolerated_failure_percentage,
                    comment,
                    input_path: path_into_input(input_path),
                    output_path: path_into_input(output_path),
                    end_or_next: end_or_next.settled(),
                    result_path: path_into_input(result_path),
                    parameters,
                    result_selector,
                    retry,
                    catch,
                },
            ),
            State::Pass { comment, input_path, output_path, end_or_next, result_path, parameters } => all_states::States::Pass(
                Pass {
                    comment,
                    input_path: path_into_input(input_path),
                    output_path: path_into_input(output_path),
                    end_or_next: end_or_next.settled(),
                    result_path: path_into_input(result_path),
                    parameters,
                },
            ),
            State::Wait { duration, comment, input_path, output_path, end_or_next } => all_states::States::Wait(
                Wait {
                    duration,
                    comment,
                    input_path: path_into_input(input_path),
                    output_path: path_into_input(output_path),
                    end_or_next: end_or_next.settled(),
                },
            ),
            State::Choice { choices, comment, input_path, output_path } => all_states::States::Choice(
                Choice {
                    choices,
                    comment,
                    input_path: path_into_input(input_path),
                    output_path: path_into_input(output_path),
                    default: None,
                },
            ),
            State::Succeed { comment, input_path, output_path } => all_states::States::Succeed(
                Succeed {
                    comment,
                    input_path: path_into_input(input_path),
                    output_path: path_into_input(output_path),
                },
            ),
            State::Fail { error, cause, comment } => all_states::States::Fail(
                Fail {
                    error,
                    cause,
                    comment,
                },
            ),
        }
    }

    /// The state as one of the sum of all states.
    pub fn into_states(self) -> (res: all_states::States)
        ensures
            res == self.states(),
    {
        match self {
            State::Task { resource, timeout, heartbeat, credentials, comment, input_path, output_path, end_or_next, result_path, parameters, result_selector, retry, catch } => all_states::States::Task(
                Task {
                    resource,
                    timeout,
                    heartbeat,
                    credentials,
                    comment,
                    input_path: as_input_path(input_path),
                    output_path: as_input_path(output_path),
                    end_or_next: end_or_next.settle(),
                    result_path: as_input_path(result_path),
                    parameters,
                    result_selector,
                    retry,
                    catch,
                },
            ),
            State::Parallel { comment, input_path, output_path, end_or_next, result_path, parameters, result_selector, retry, catch } => all_states::States::Parallel(
                Parallel {
                    comment,
                    input_path: as_input_path(input_path),
                    output_path: as_input_path(output_path),
                    end_or_next: end_or_next.settle(),
                    result_path: as_input_path(result_path),
                    parameters,
                    result_selector,
                    retry,
                    catch,
                },
            ),
            State::MapState { max_concurrency, item_processor, items_path, item_selector, item_batcher, result_writer, tolerated_failure_count, tolerated_failure_percentage, comment, input_path, output_path, end_or_next, result_path, parameters, result_selector, retry, catch } => all_states::States::MapState(
                MapState {
                    max_concurrency,
                    item_processor,
                    items_path,
                    item_selector,
                    item_batcher,
                    result_writer,
                    tolerated_failure_count,
                    tolerated_failure_percentage,
                    comment,
                    input_path: as_input_path(input_path),
                    output_path: as_input_path(output_path),
                    end_or_next: end_or_next.settle(),
                    result_path: as_input_path(result_path),
                    parameters,
                    result_selector,
                    retry,
                    catch,
                },
            ),
            State::Pass { comment, input_path, output_path, end_or_next, result_path, parameters } => all_states::States::Pass(
                Pass {
                    comment,
                    input_path: as_input_path(input_path),
                    output_path: as_input_path(output_path),
                    end_or_next: end_or_next.settle(),
                    result_path: as_input_path(result_path),
                    parameters,
                },
            ),
            State::Wait { duration, comment, input_path, output_path, end_or_next } => all_states::States::Wait(
                Wait {
                    duration,
                    comment,
                    input_path: as_input_path(input_path),
                    output_path: as_input_path(output_path),
                    end_or_next: end_or_next.settle(),
                },
            ),
            State::Choice { choices, comment, input_path, output_path } => all_states::States::Choice(
                Choice {
                    choices,
                    comment,
                    input_path: as_input_path(input_path),
                    output_path: as_input_path(output_path),
                    default: None,
                },
            ),
            State::Succeed { comment, input_path, output_path } => all_states::States::Succeed(
                Succeed {
                    comment,
                    input_path: as_input_path(input_path),
                    output_path: as_input_path(output_path),
                },
            ),
            State::Fail { error, cause, comment } => all_states::States::Fail(
                Fail {
                    error,
                    cause,
                    comment,
                },
            ),
        }
    }
}

} // verus!
