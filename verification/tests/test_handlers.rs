use asl::error_handling::{
    backoff_rate_default, interval_seconds_default, matches_any, matches_error,
    max_attempts_default, Retrier, StateMachineExecutionPredefinedErrors,
};
use asl::execution::{
    Delay, ExecutionStatus, StateExecutionHandler, StateMachineExecutionError,
};
use asl::handlers::choice_handler::ChoiceStateExecutionError;
use asl::handlers::fail_handler::{
    evaluate_path_as_string, FailStateExecutionError, FailStateOutput, HandlePathError,
};
use asl::handlers::task_handler::{TaskDecision, TaskStateExecutionError};
use asl::handlers::wait_handler::{WaitStateExecutionError, WaitTarget};
use asl::handlers::HandlerOutput;
use asl::itertools_utils::try_find;
use asl::json::{Json, JsonNumber, JsonValue};
use asl::payload::{fill, is_path_name, PayloadError};
use asl::state_machine::{StateMachine, StateMachineDefinition};
use asl::states::all_states::{EndOrNext, States};
use asl::states::choice::ChoiceEvaluationError;
use asl::states::fail::{Fail, FailStateCauseField, FailStateErrorField};
use asl::states::map::{MapState, MapStateIterator};
use asl::states::parallel::Parallel;
use asl::states::pass::Pass;
use asl::states::succeed::Succeed;
use asl::states::task::{Task, TimeoutSecondsOrPath};
use asl::states::wait::{Wait, WaitDuration};
use asl::types::{DynamicValue, EmptyContext, ExecutionInput, StateMachineContext, TimestampType};
use std::cell::RefCell;
use std::rc::Rc;

struct Recorder {
    waits: RefCell<Vec<Delay>>,
}

impl StateExecutionHandler for &Recorder {
    fn execute_task(
        &self,
        _resource: &str,
        input: &JsonValue,
        _credentials: &Option<JsonValue>,
    ) -> Result<Option<JsonValue>, String> {
        Ok(Some(input.clone()))
    }

    fn wait(&self, delay: &Delay) {
        self.waits.borrow_mut().push(delay.clone());
    }
}

struct FixedContext {
    value: JsonValue,
}

impl StateMachineContext for FixedContext {
    fn json(&self) -> Json {
        unreachable!("a document for proofs, which no program asks for")
    }

    fn as_value(&self) -> &JsonValue {
        &self.value
    }
}

fn text(value: &str) -> JsonValue {
    JsonValue::String(value.to_string())
}

fn json(source: &str) -> JsonValue {
    JsonValue::parse(source).unwrap()
}

fn dv(source: &str) -> DynamicValue {
    DynamicValue::from_str(source).unwrap()
}

fn input(source: &str) -> ExecutionInput {
    ExecutionInput { value: json(source), context: json(r#"{"user": "me"}"#) }
}

fn succeed() -> States {
    States::Succeed(Succeed { comment: None, input_path: None, output_path: None })
}

fn machine(start_at: &str, states: Vec<(&str, States)>) -> StateMachine {
    StateMachine::new(StateMachineDefinition {
        states: states.into_iter().map(|(name, state)| (name.to_string(), state)).collect(),
        comment: None,
        start_at: start_at.to_string(),
        version: None,
        timeout_seconds: None,
    })
    .unwrap()
}

fn wait_state(duration: WaitDuration) -> Wait {
    Wait { duration, comment: None, input_path: None, output_path: None, end_or_next: EndOrNext::End }
}

fn failed(error: StateMachineExecutionPredefinedErrors, cause: &str) -> ExecutionStatus {
    ExecutionStatus::FinishedWithFailure(StateMachineExecutionError {
        error,
        cause: Some(cause.to_string()),
    })
}

fn custom(name: &str) -> StateMachineExecutionPredefinedErrors {
    StateMachineExecutionPredefinedErrors::Custom(name.to_string())
}

#[test]
fn error_names_match() {
    assert!(matches_error("anything", &StateMachineExecutionPredefinedErrors::StatesALL));
    assert!(matches_error("X", &custom("X")));
    assert!(!matches_error("Y", &custom("X")));
    assert!(matches_error("States.Timeout", &StateMachineExecutionPredefinedErrors::StatesTimeout));
    assert!(!matches_error("States.Timeout", &StateMachineExecutionPredefinedErrors::StatesTaskFailed));
    assert!(matches_error(
        "States.ExceedToleratedFailureThreshold",
        &StateMachineExecutionPredefinedErrors::StatesExceedToleratedFailureThreshold
    ));
    assert!(matches_any("X", &vec![custom("A"), custom("X")]));
    assert!(!matches_any("X", &vec![custom("A"), custom("B")]));
    assert!(!matches_any("X", &vec![]));
    assert_eq!(custom("X").canonical_name(), "X");
    assert_eq!(
        StateMachineExecutionPredefinedErrors::StatesNoChoiceMatched.canonical_name(),
        "States.NoChoiceMatched"
    );
    assert_eq!(StateMachineExecutionPredefinedErrors::from_name("States.ALL"), StateMachineExecutionPredefinedErrors::StatesALL);
    assert_eq!(StateMachineExecutionPredefinedErrors::from_name("States.All"), custom("States.All"));
}

#[test]
fn retrier_defaults() {
    assert_eq!(max_attempts_default(), 3);
    assert_eq!(interval_seconds_default(), JsonNumber::PosInt(1));
    assert_eq!(backoff_rate_default(), JsonNumber::Float("2.0".to_string()));
    let retrier = Retrier::new(vec![custom("X")]);
    assert_eq!(retrier.max_attempts, 3);
    assert_eq!(retrier.interval_seconds, JsonNumber::PosInt(1));
    assert_eq!(retrier.backoff_rate, JsonNumber::Float("2.0".to_string()));
    assert_eq!(retrier.max_delay_seconds, None);
    assert_eq!(retrier.jitter_strategy, None);
    assert_eq!(
        TimeoutSecondsOrPath::default(),
        TimeoutSecondsOrPath::TimeoutSeconds(JsonNumber::PosInt(60))
    );
}

#[test]
fn end_or_next_gives_the_next_name() {
    assert_eq!(EndOrNext::End.into_next_state_name(), None);
    assert_eq!(EndOrNext::Next("A".to_string()).into_next_state_name(), Some("A".to_string()));
}

#[test]
fn try_find_finds_the_first_yes() {
    let items = vec![1, 2, 3, 4];
    let found: Result<Option<&i32>, String> = try_find(&items, |x: &i32| Ok(*x > 1));
    assert_eq!(found, Ok(Some(&2)));
    let found: Result<Option<&i32>, String> = try_find(&items, |x: &i32| Ok(*x > 4));
    assert_eq!(found, Ok(None));
    let found: Result<Option<&i32>, String> =
        try_find(&items, |x: &i32| if *x == 3 { Err("three".to_string()) } else { Ok(*x > 3) });
    assert_eq!(found, Err("three".to_string()));
    let found: Result<Option<&i32>, String> =
        try_find(&items, |x: &i32| if *x == 3 { Err("three".to_string()) } else { Ok(*x > 1) });
    assert_eq!(found, Ok(Some(&2)));
}

#[test]
fn task_decisions() {
    let mut task = Task::new("R".to_string(), EndOrNext::Next("N".to_string()));
    let mut first = Retrier::new(vec![custom("A")]);
    first.max_attempts = 1;
    let second = Retrier::new(vec![StateMachineExecutionPredefinedErrors::StatesALL]);
    task.retry = Some(vec![first, second]);
    assert_eq!(task.fresh_counters(), vec![0, 0]);
    assert_eq!(
        task.decide(&vec![0, 0], Ok(Some(text("out")))),
        TaskDecision::Finished(Ok(HandlerOutput {
            output: Some(text("out")),
            next_state: EndOrNext::Next("N".to_string()),
        }))
    );
    assert_eq!(task.find_retrier(&vec![0, 0], "A"), Some(0));
    assert_eq!(task.find_retrier(&vec![1, 0], "A"), Some(1));
    assert_eq!(task.find_retrier(&vec![1, 3], "A"), None);
    assert_eq!(task.find_retrier(&vec![0, 0], "B"), Some(1));
    match task.decide(&vec![1, 2], Err("A".to_string())) {
        TaskDecision::Retry { retrier, delay } => {
            assert_eq!(retrier, 1);
            assert_eq!(
                delay,
                Delay::Backoff {
                    interval_seconds: JsonNumber::PosInt(1),
                    backoff_rate: JsonNumber::Float("2.0".to_string()),
                    max_delay_seconds: None,
                    attempt: 2,
                    jitter_strategy: None,
                }
            );
        }
        other => panic!("no retry: {:?}", other),
    }
    assert_eq!(
        task.decide(&vec![1, 3], Err("A".to_string())),
        TaskDecision::Finished(Err(TaskStateExecutionError::NoCatchersAvailable))
    );
    assert_eq!(task.route_to_catch("A"), Err(TaskStateExecutionError::NoCatchersAvailable));
    assert_eq!(TaskStateExecutionError::NoCatcherMatched.message(), "No catcher matched");
    assert_eq!(TaskStateExecutionError::NoCatchersAvailable.message(), "No catcher available");
}

fn run_one(state: States, value: &JsonValue, recorder: &Recorder) -> ExecutionStatus {
    let state_machine = machine("S", vec![("S", state)]);
    let mut execution = state_machine.start(value, recorder, Rc::new(EmptyContext {}));
    let output = execution.next().unwrap();
    assert_eq!(&output.status, execution.status());
    assert_eq!(execution.next(), None);
    output.status
}

#[test]
fn wait_for_seconds() {
    let recorder = Recorder { waits: RefCell::new(Vec::new()) };
    let state = States::Wait(wait_state(WaitDuration::Seconds(JsonNumber::PosInt(5))));
    let status = run_one(state, &JsonValue::Null, &recorder);
    assert_eq!(status, ExecutionStatus::FinishedWithSuccess(None));
    assert_eq!(*recorder.waits.borrow(), vec![Delay::Seconds(JsonNumber::PosInt(5))]);
}

#[test]
fn wait_for_seconds_at_a_path() {
    let recorder = Recorder { waits: RefCell::new(Vec::new()) };
    let state = States::Wait(wait_state(WaitDuration::SecondsPath(dv("$.pause"))));
    let status = run_one(state, &json(r#"{"pause": 1.5}"#), &recorder);
    assert_eq!(status, ExecutionStatus::FinishedWithSuccess(None));
    assert_eq!(
        *recorder.waits.borrow(),
        vec![Delay::Seconds(JsonNumber::Float("1.5".to_string()))]
    );
}

#[test]
fn wait_for_seconds_that_are_no_number() {
    let recorder = Recorder { waits: RefCell::new(Vec::new()) };
    let state = States::Wait(wait_state(WaitDuration::SecondsPath(dv("$.pause"))));
    let status = run_one(state, &json(r#"{"pause": "long"}"#), &recorder);
    assert_eq!(
        status,
        failed(
            custom("Wait State failed"),
            "SecondsPath evaluated to a value that is not a number. Got: \"long\""
        )
    );
    assert!(recorder.waits.borrow().is_empty());
    let state = States::Wait(wait_state(WaitDuration::SecondsPath(dv("$.missing"))));
    let status = run_one(state, &json(r#"{"pause": "long"}"#), &recorder);
    assert_eq!(
        status,
        failed(
            custom("Wait State failed"),
            "SecondsPath evaluated to a value that is not a number. Got: null"
        )
    );
}

#[test]
fn wait_until_an_instant() {
    let recorder = Recorder { waits: RefCell::new(Vec::new()) };
    let past = TimestampType { seconds: 10, nanos: 0 };
    let state = States::Wait(wait_state(WaitDuration::Timestamp(past)));
    let status = run_one(state, &JsonValue::Null, &recorder);
    assert_eq!(status, ExecutionStatus::FinishedWithSuccess(None));
    assert_eq!(*recorder.waits.borrow(), vec![Delay::Milliseconds(0)]);
}

#[test]
fn wait_until_an_instant_at_a_path() {
    let recorder = Recorder { waits: RefCell::new(Vec::new()) };
    let state = States::Wait(wait_state(WaitDuration::TimestampPath(dv("$.at"))));
    let status = run_one(state, &json(r#"{"at": "2001-01-01T00:00:00Z"}"#), &recorder);
    assert_eq!(status, ExecutionStatus::FinishedWithSuccess(None));
    assert_eq!(*recorder.waits.borrow(), vec![Delay::Milliseconds(0)]);

    let state = States::Wait(wait_state(WaitDuration::TimestampPath(dv("$.at"))));
    let status = run_one(state, &json(r#"{"at": 5}"#), &recorder);
    assert_eq!(
        status,
        failed(
            custom("Wait State failed"),
            "TimestampPath evaluated to a value that is not a string. Got: 5"
        )
    );

    let state = States::Wait(wait_state(WaitDuration::TimestampPath(dv("$.at"))));
    let status = run_one(state, &json(r#"{"at": "soon"}"#), &recorder);
    match status {
        ExecutionStatus::FinishedWithFailure(e) => {
            assert_eq!(e.error, custom("Wait State failed"));
            assert!(e
                .cause
                .unwrap()
                .starts_with("TimestampPath evaluated to a malformed timestamp string. Error: "));
        }
        other => panic!("no failure: {:?}", other),
    }
}

#[test]
fn wait_resolves_against_a_given_clock() {
    let now = TimestampType { seconds: 100, nanos: 0 };
    let wait = wait_state(WaitDuration::Timestamp(TimestampType { seconds: 101, nanos: 500_000_000 }));
    assert_eq!(wait.resolve(&input("null"), &now), Ok(Delay::Milliseconds(1500)));
    let wait = wait_state(WaitDuration::TimestampPath(dv("$.at")));
    assert_eq!(
        wait.resolve(&input(r#"{"at": "1970-01-01T00:01:42Z"}"#), &now),
        Ok(Delay::Milliseconds(2000))
    );
    assert_eq!(
        wait.resolve(&input(r#"{"at": []}"#), &now),
        Err(WaitStateExecutionError::TimestampPathNotAString(json("[]")))
    );
}

#[test]
fn fail_with_written_error_and_cause() {
    let recorder = Recorder { waits: RefCell::new(Vec::new()) };
    let state = States::Fail(Fail {
        error: Some(FailStateErrorField::Error("ErrorA".to_string())),
        cause: Some(FailStateCauseField::Cause("Kaiju attack".to_string())),
        comment: None,
    });
    assert_eq!(run_one(state, &JsonValue::Null, &recorder), failed(custom("ErrorA"), "Kaiju attack"));
}

#[test]
fn fail_without_error_and_cause() {
    let recorder = Recorder { waits: RefCell::new(Vec::new()) };
    let state = States::Fail(Fail { error: None, cause: None, comment: None });
    assert_eq!(
        run_one(state, &JsonValue::Null, &recorder),
        ExecutionStatus::FinishedWithFailure(StateMachineExecutionError {
            error: custom("Reached Fail State"),
            cause: None,
        })
    );
}

#[test]
fn fail_with_paths() {
    let recorder = Recorder { waits: RefCell::new(Vec::new()) };
    let state = || {
        States::Fail(Fail {
            error: Some(FailStateErrorField::ErrorPath(dv("$.e"))),
            cause: Some(FailStateCauseField::CausePath(dv("$.c"))),
            comment: None,
        })
    };
    assert_eq!(
        run_one(state(), &json(r#"{"e": "E", "c": "C"}"#), &recorder),
        failed(custom("E"), "C")
    );
    assert_eq!(
        run_one(state(), &json(r#"{"e": "E"}"#), &recorder),
        failed(
            custom("Malformed Fail State"),
            "'CausePath' field evaluated value is not a valid string within the input."
        )
    );
    assert_eq!(
        run_one(state(), &json(r#"{"c": "C"}"#), &recorder),
        failed(
            custom("Malformed Fail State"),
            "'ErrorPath' field evaluated value is not a valid string within the input."
        )
    );
    assert_eq!(
        run_one(state(), &json(r#"{"e": 1, "c": "C"}"#), &recorder),
        failed(
            custom("Malformed Fail State"),
            "'ErrorPath' field evaluated value is not a valid string within the input."
        )
    );
    assert_eq!(
        run_one(state(), &json(r#"{"e": "E", "c": {"a": 1}}"#), &recorder),
        failed(
            custom("Malformed Fail State"),
            "'CausePath' field evaluated value is not a valid string within the input."
        )
    );
}

#[test]
fn paths_to_strings() {
    let on = input(r#"{"s": "text", "n": 1}"#);
    assert_eq!(evaluate_path_as_string(&on, &dv("$.s")), Ok(Some("text".to_string())));
    assert_eq!(evaluate_path_as_string(&on, &dv("$.missing")), Ok(None));
    assert_eq!(evaluate_path_as_string(&on, &dv("$$.user")), Ok(Some("me".to_string())));
    assert_eq!(evaluate_path_as_string(&on, &dv("literal")), Ok(Some("literal".to_string())));
    assert_eq!(
        evaluate_path_as_string(&on, &dv("$.n")),
        Err(HandlePathError::ValueDoesntPointToAString("1".to_string()))
    );
    assert_eq!(
        FailStateExecutionError::MalformedCausePath(HandlePathError::ValueDoesntPointToAString(
            "1".to_string()
        ))
        .message(),
        "Invalid 'CausePath' field due to Evaluated value is not a string. Got: 1"
    );
    let output = FailStateOutput { error: "E".to_string(), cause: None };
    assert_eq!(output.error, "E");
}

fn pass_state(parameters: Option<JsonValue>) -> States {
    States::Pass(Pass {
        comment: None,
        input_path: None,
        output_path: None,
        end_or_next: EndOrNext::End,
        result_path: None,
        parameters,
    })
}

#[test]
fn pass_hands_the_input_on() {
    let recorder = Recorder { waits: RefCell::new(Vec::new()) };
    let value = json(r#"{"a": [1, 2]}"#);
    assert_eq!(
        run_one(pass_state(None), &value, &recorder),
        ExecutionStatus::FinishedWithSuccess(Some(value.clone()))
    );
}

#[test]
fn pass_fills_in_its_parameters() {
    let recorder = Recorder { waits: RefCell::new(Vec::new()) };
    let value = json(r#"{"a": [1, 2], "name": "n"}"#);
    let parameters = json(r#"{"fixed": true, "first.$": "$.a[0]", "deep": [{"who.$": "$.name"}]}"#);
    assert_eq!(
        run_one(pass_state(Some(parameters)), &value, &recorder),
        ExecutionStatus::FinishedWithSuccess(Some(json(
            r#"{"fixed": true, "first": 1, "deep": [{"who": "n"}]}"#
        )))
    );
}

#[test]
fn pass_fails_where_a_parameter_cannot_be_filled_in() {
    let recorder = Recorder { waits: RefCell::new(Vec::new()) };
    let value = json(r#"{"a": 1}"#);
    assert_eq!(
        run_one(pass_state(Some(json(r#"{"x.$": "$.missing"}"#))), &value, &recorder),
        failed(
            StateMachineExecutionPredefinedErrors::StatesParameterPathFailure,
            "The path of the field 'x.$' leads nowhere"
        )
    );
    assert_eq!(
        run_one(pass_state(Some(json(r#"{"x.$": 5}"#))), &value, &recorder),
        failed(
            StateMachineExecutionPredefinedErrors::StatesParameterPathFailure,
            "The field 'x.$' holds no path but 5"
        )
    );
}

#[test]
fn payloads() {
    let on = input(r#"{"a": {"b": "c"}}"#);
    assert_eq!(fill(&json("[1, \"$.a\"]"), &on), Ok(json("[1, \"$.a\"]")));
    assert_eq!(fill(&json(r#"{"k.$": "$.a.b"}"#), &on), Ok(json(r#"{"k": "c"}"#)));
    assert_eq!(fill(&json(r#"{"k.$": "$$.user"}"#), &on), Ok(json(r#"{"k": "me"}"#)));
    assert_eq!(fill(&json(r#"{"k.$": "plain"}"#), &on), Ok(json(r#"{"k": "plain"}"#)));
    assert_eq!(fill(&json(r#"{".$": "$.a.b"}"#), &on), Ok(json(r#"{"": "c"}"#)));
    assert!(matches!(
        fill(&json(r#"{"k.$": "$.a["}"#), &on),
        Err(PayloadError::MalformedPath { .. })
    ));
    assert!(is_path_name("a.$"));
    assert!(is_path_name(".$"));
    assert!(!is_path_name("$"));
    assert!(!is_path_name("a.$b"));
    assert!(!is_path_name("a$"));
}

#[test]
fn parallel_and_map_hand_over() {
    let recorder = Recorder { waits: RefCell::new(Vec::new()) };
    let parallel = States::Parallel(Parallel {
        comment: None,
        input_path: None,
        output_path: None,
        end_or_next: EndOrNext::Next("M".to_string()),
        result_path: None,
        parameters: None,
        result_selector: None,
        retry: None,
        catch: None,
    });
    let map = States::MapState(MapState {
        max_concurrency: None,
        item_processor: MapStateIterator {
            start_at: "X".to_string(),
            states: vec![("X".to_string(), succeed())],
            processor_config: None,
        },
        items_path: None,
        item_selector: None,
        item_batcher: None,
        result_writer: None,
        tolerated_failure_count: None,
        tolerated_failure_percentage: None,
        comment: None,
        input_path: None,
        output_path: None,
        end_or_next: EndOrNext::End,
        result_path: None,
        parameters: None,
        result_selector: None,
        retry: None,
        catch: None,
    });
    let state_machine = machine("P", vec![("P", parallel), ("M", map)]);
    let mut execution = state_machine.start(&text("in"), &recorder, Rc::new(EmptyContext {}));
    let first = execution.next().unwrap();
    assert_eq!(first.status, ExecutionStatus::Executing);
    assert_eq!(first.state_name, Some("P".to_string()));
    assert_eq!(first.result, None);
    let second = execution.next().unwrap();
    assert_eq!(second.status, ExecutionStatus::FinishedWithSuccess(None));
    assert_eq!(second.state_name, Some("M".to_string()));
    assert_eq!(execution.next(), None);
}

#[test]
fn the_context_is_read_when_the_execution_starts() {
    let recorder = Recorder { waits: RefCell::new(Vec::new()) };
    let state = States::Fail(Fail {
        error: Some(FailStateErrorField::ErrorPath(dv("$$.code"))),
        cause: None,
        comment: None,
    });
    let state_machine = machine("F", vec![("F", state)]);
    let context = FixedContext { value: json(r#"{"code": "FromContext"}"#) };
    let mut execution = state_machine.start(&JsonValue::Null, &recorder, Rc::new(context));
    assert_eq!(
        execution.next().unwrap().status,
        ExecutionStatus::FinishedWithFailure(StateMachineExecutionError {
            error: custom("FromContext"),
            cause: None,
        })
    );
}

#[test]
fn messages_of_state_errors() {
    assert_eq!(ChoiceStateExecutionError::NoChoiceMatched.message(), "No choice matched");
    assert_eq!(
        ChoiceStateExecutionError::MalformedChoiceRule(ChoiceEvaluationError::ValueNotFound).message(),
        "Malformed choice due to: Value not found from input"
    );
    assert_eq!(
        StateMachineExecutionError::from(ChoiceStateExecutionError::NoChoiceMatched),
        StateMachineExecutionError {
            error: StateMachineExecutionPredefinedErrors::StatesNoChoiceMatched,
            cause: Some("No choice matched".to_string()),
        }
    );
    assert_eq!(
        StateMachineExecutionError::from(TaskStateExecutionError::NoCatcherMatched),
        StateMachineExecutionError {
            error: StateMachineExecutionPredefinedErrors::StatesTaskFailed,
            cause: Some("No catcher matched".to_string()),
        }
    );
    assert_eq!(
        StateMachineExecutionError::from(WaitStateExecutionError::MalformedTimestamp(
            "bad".to_string()
        )),
        StateMachineExecutionError {
            error: custom("Wait State failed"),
            cause: Some(
                "TimestampPath evaluated to a malformed timestamp string. Error: bad".to_string()
            ),
        }
    );
    assert_eq!(
        StateMachineExecutionError::from(FailStateExecutionError::ErrorPathIsNotAString),
        StateMachineExecutionError {
            error: custom("Malformed Fail State"),
            cause: Some(
                "'ErrorPath' field evaluated value is not a valid string within the input."
                    .to_string()
            ),
        }
    );
}

#[test]
fn fail_with_a_cause_path_that_leads_nowhere_is_an_error() {
    let recorder = Recorder { waits: RefCell::new(Vec::new()) };
    let state = States::Fail(Fail {
        error: Some(FailStateErrorField::Error("E".to_string())),
        cause: Some(FailStateCauseField::CausePath(dv("$.missing"))),
        comment: None,
    });
    assert_eq!(
        run_one(state, &json("{}"), &recorder),
        ExecutionStatus::FinishedWithFailure(StateMachineExecutionError::from(
            FailStateExecutionError::CausePathIsNotAString
        ))
    );
}

#[test]
fn fail_with_an_error_path_to_a_number_is_an_error() {
    let recorder = Recorder { waits: RefCell::new(Vec::new()) };
    let state = States::Fail(Fail {
        error: Some(FailStateErrorField::ErrorPath(dv("$.e"))),
        cause: None,
        comment: None,
    });
    assert_eq!(
        run_one(state, &json(r#"{"e": 1}"#), &recorder),
        ExecutionStatus::FinishedWithFailure(StateMachineExecutionError::from(
            FailStateExecutionError::ErrorPathIsNotAString
        ))
    );
}

#[test]
fn wait_for_written_seconds_needs_no_clock() {
    let wait = wait_state(WaitDuration::Seconds(JsonNumber::PosInt(3)));
    assert_eq!(wait.settle(&input("null")), Ok(WaitTarget::Seconds(JsonNumber::PosInt(3))));
    let wait = wait_state(WaitDuration::TimestampPath(dv("$.at")));
    assert_eq!(
        wait.settle(&input(r#"{"at": "1970-01-01T00:01:42Z"}"#)),
        Ok(WaitTarget::Until(TimestampType { seconds: 102, nanos: 0 }))
    );
}
