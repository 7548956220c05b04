use asl::error_handling::{Catcher, JitterStrategy, Retrier, StateMachineExecutionPredefinedErrors};
use asl::execution::{Delay, ExecutionStatus, StateExecutionHandler, StateMachineExecutionError};
use asl::json::{JsonNumber, JsonValue};
use asl::state_machine::{ParseError, StateMachine, StateMachineDefinition};
use asl::states::all_states::{EndOrNext, States};
use asl::states::choice::{Choice, ChoiceExpression, ChoiceRule, ComposedExpression, Operation};
use asl::states::fail::{Fail, FailStateCauseField, FailStateErrorField};
use asl::states::map::{ItemBatcherConfiguration, MapState, MaxItemsPerBatch, ResultWriterConfiguration};
use asl::states::task::{HeartbeatSecondsOrPath, Task, TimeoutSecondsOrPath};
use asl::states::wait::{Wait, WaitDuration};
use asl::types::{DynamicValue, EmptyContext, MyJsonPath, TimestampType};
use std::rc::Rc;

struct Echo {}

impl StateExecutionHandler for Echo {
    fn execute_task(
        &self,
        _resource: &str,
        input: &JsonValue,
        _credentials: &Option<JsonValue>,
    ) -> Result<Option<JsonValue>, String> {
        Ok(Some(input.clone()))
    }

    fn wait(&self, _delay: &Delay) {}
}

fn json(source: &str) -> JsonValue {
    JsonValue::parse(source).unwrap()
}

fn dv(source: &str) -> DynamicValue {
    DynamicValue::from_str(source).unwrap()
}

const HELLO_WORLD: &str = r#"
{
    "Comment": "A Hello World example of the Amazon States Language using a Task state",
    "StartAt": "Hello World",
    "States": {
        "Hello World": {
            "Type": "Task",
            "Resource": "Return",
            "End": true
        }
    }
}
"#;

fn end_or_next(source: &str) -> Result<EndOrNext, asl::decode::DecodeError> {
    EndOrNext::decode(&json(source))
}

#[test]
fn parse_end_or_next() {
    assert_eq!(end_or_next(r#"{"End": true}"#), Ok(EndOrNext::End));
    assert_eq!(end_or_next(r#"{"End": false}"#), Ok(EndOrNext::End));
    assert_eq!(end_or_next(r#"{"Next": "foo"}"#), Ok(EndOrNext::Next("foo".to_string())));
    assert_eq!(end_or_next(r#"{"End": true, "Next": "foo"}"#), Ok(EndOrNext::End));
    assert!(end_or_next(r#"{}"#).is_err());
    assert!(end_or_next(r#"{"End": "yes"}"#).is_err());
    assert!(end_or_next(r#"{"Next": 5}"#).is_err());
}

#[test]
fn parse_hello_world_state_machine() {
    let state_machine = StateMachine::parse(HELLO_WORLD).unwrap();
    let definition = state_machine.definition();
    let names: Vec<&str> = definition.states.iter().map(|s| s.0.as_str()).collect();
    assert_eq!(names, vec!["Hello World"]);
    assert_eq!(definition.start_at, "Hello World");
    assert_eq!(
        definition.comment.as_deref(),
        Some("A Hello World example of the Amazon States Language using a Task state")
    );
    let expected = Task::new("Return".to_string(), EndOrNext::End);
    assert_eq!(
        expected.timeout,
        Some(TimeoutSecondsOrPath::TimeoutSeconds(JsonNumber::PosInt(60)))
    );
    assert_eq!(definition.states[0].1, States::Task(expected));
}

#[test]
fn parse_then_run() {
    let state_machine = StateMachine::parse(HELLO_WORLD).unwrap();
    let input = json(r#""Hello world""#);
    let mut execution = state_machine.start(&input, Echo {}, Rc::new(EmptyContext {}));
    let output = execution.next().unwrap();
    assert_eq!(output.status, ExecutionStatus::FinishedWithSuccess(Some(input.clone())));
    assert_eq!(output.state_name, Some("Hello World".to_string()));
    assert_eq!(output.result, Some(input.clone()));
    assert_eq!(execution.next(), None);
}

#[test]
fn parse_refuses_what_is_not_json() {
    match StateMachine::parse("{") {
        Err(ParseError::MalformedInput(message)) => assert!(message.contains("EOF")),
        other => panic!("not refused as malformed: {:?}", other),
    }
}

#[test]
fn parse_refuses_a_missing_next_state() {
    let refused = StateMachine::parse(
        r#"{"StartAt": "A", "States": {"A": {"Type": "Pass", "Next": "B"}}}"#,
    );
    assert_eq!(
        refused,
        Err(ParseError::MalformedInput(
            "The state 'A' leads to the state 'B', which is not defined".to_string()
        ))
    );
}

#[test]
fn parse_refuses_a_missing_start_state() {
    let refused = StateMachine::parse(
        r#"{"StartAt": "Nowhere", "States": {"A": {"Type": "Succeed"}, "B": {"Type": "Succeed"}}}"#,
    );
    assert_eq!(
        refused,
        Err(ParseError::StartStateNotDefinedInListOfStates {
            starts_at: "Nowhere".to_string(),
            states: vec!["A".to_string(), "B".to_string()],
        })
    );
}

fn is_malformed(source: &str) -> bool {
    matches!(StateMachine::parse(source), Err(ParseError::MalformedInput(_)))
}

fn with_state(state: &str) -> String {
    format!(r#"{{"StartAt": "S", "States": {{"S": {}}}}}"#, state)
}

#[test]
fn parse_invalid_cases() {
    assert!(is_malformed("[]"));
    assert!(is_malformed(r#"{"States": {"S": {"Type": "Succeed"}}}"#));
    assert!(is_malformed(r#"{"StartAt": "S"}"#));
    assert!(is_malformed(r#"{"StartAt": "S", "States": {}}"#));
    assert!(is_malformed(r#"{"StartAt": "S", "States": []}"#));
    assert!(is_malformed(r#"{"StartAt": 5, "States": {"S": {"Type": "Succeed"}}}"#));
    assert!(is_malformed(&with_state(r#"{"Type": "Unknown"}"#)));
    assert!(is_malformed(&with_state(r#"{"Resource": "R", "End": true}"#)));
    assert!(is_malformed(&with_state(r#"{"Type": "Task", "End": true}"#)));
    assert!(is_malformed(&with_state(r#"{"Type": "Task", "Resource": "R"}"#)));
    assert!(is_malformed(&with_state(r#"{"Type": "Task", "Resource": 1, "End": true}"#)));
    assert!(is_malformed(&with_state(
        r#"{"Type": "Task", "Resource": "R", "End": true, "TimeoutSeconds": 5, "TimeoutSecondsPath": "$.t"}"#
    )));
    assert!(is_malformed(&with_state(
        r#"{"Type": "Task", "Resource": "R", "End": true, "HeartbeatSeconds": 5, "HeartbeatSecondsPath": "$.t"}"#
    )));
    assert!(is_malformed(&with_state(
        r#"{"Type": "Task", "Resource": "R", "End": true, "HeartbeatSeconds": 5, "TimeoutSeconds": 5}"#
    )));
    assert!(is_malformed(&with_state(
        r#"{"Type": "Task", "Resource": "R", "End": true, "InputPath": "$.a["}"#
    )));
    assert!(is_malformed(&with_state(
        r#"{"Type": "Task", "Resource": "R", "End": true, "Retry": [{"MaxAttempts": 2}]}"#
    )));
    assert!(is_malformed(&with_state(
        r#"{"Type": "Task", "Resource": "R", "End": true, "Retry": [{"ErrorEquals": ["A"], "JitterStrategy": "NONE"}]}"#
    )));
    assert!(is_malformed(&with_state(
        r#"{"Type": "Task", "Resource": "R", "End": true, "Retry": [{"ErrorEquals": ["A"], "MaxAttempts": -1}]}"#
    )));
    assert!(is_malformed(&with_state(
        r#"{"Type": "Task", "Resource": "R", "End": true, "Catch": [{"ErrorEquals": ["A"]}]}"#
    )));
    assert!(is_malformed(&with_state(r#"{"Type": "Fail", "Error": "E", "ErrorPath": "$.e"}"#)));
    assert!(is_malformed(&with_state(r#"{"Type": "Fail", "Cause": "C", "CausePath": "$.c"}"#)));
    assert!(is_malformed(&with_state(r#"{"Type": "Wait", "End": true}"#)));
    assert!(is_malformed(&with_state(
        r#"{"Type": "Wait", "Seconds": 1, "Timestamp": "2020-01-01T00:00:00Z", "End": true}"#
    )));
    assert!(is_malformed(&with_state(r#"{"Type": "Wait", "Timestamp": "noon", "End": true}"#)));
    assert!(is_malformed(&with_state(r#"{"Type": "Choice"}"#)));
    assert!(is_malformed(&with_state(r#"{"Type": "Choice", "Choices": [{"Variable": "$.a", "Next": "S"}]}"#)));
    assert!(is_malformed(&with_state(
        r#"{"Type": "Choice", "Choices": [{"Variable": "$.a", "IsNull": true, "IsString": true, "Next": "S"}]}"#
    )));
    assert!(is_malformed(&with_state(
        r#"{"Type": "Choice", "Choices": [{"Variable": "$.a", "IsNull": false, "Next": "S"}]}"#
    )));
    assert!(is_malformed(&with_state(
        r#"{"Type": "Choice", "Choices": [{"Variable": "$.a", "NumericEquals": "1", "Next": "S"}]}"#
    )));
    assert!(is_malformed(&with_state(
        r#"{"Type": "Choice", "Choices": [{"Variable": "$.a", "IsNull": true}]}"#
    )));
    assert!(is_malformed(&with_state(
        r#"{"Type": "Choice", "Choices": [{"Not": {"Variable": "$.a", "IsNull": true}, "And": [], "Next": "S"}]}"#
    )));
    assert!(is_malformed(&with_state(
        r#"{"Type": "Choice", "Choices": [{"And": {"Variable": "$.a", "IsNull": true}, "Next": "S"}]}"#
    )));
    assert!(is_malformed(&with_state(r#"{"Type": "Map", "End": true}"#)));
    assert!(is_malformed(&with_state(
        r#"{"Type": "Map", "End": true, "ItemProcessor": {"StartAt": "X", "States": {}}}"#
    )));
    assert!(is_malformed(&with_state(
        r#"{"Type": "Map", "End": true, "ItemProcessor": {"StartAt": "X", "States": {"X": {"Type": "Succeed"}}}, "MaxConcurrency": 4294967296}"#
    )));
}

fn only_state(source: &str) -> States {
    let state_machine = StateMachine::parse(&with_state(source)).unwrap();
    let definition: &StateMachineDefinition = state_machine.definition();
    assert_eq!(definition.states.len(), 1);
    StateMachine::parse(&with_state(source)).map(|_| ()).unwrap();
    let decoded = States::decode(&json(source)).unwrap();
    assert_eq!(&decoded, &definition.states[0].1);
    decoded
}

fn custom(name: &str) -> StateMachineExecutionPredefinedErrors {
    StateMachineExecutionPredefinedErrors::Custom(name.to_string())
}

#[test]
fn parse_a_task_with_everything() {
    let state = only_state(
        r#"{
            "Type": "Task",
            "Comment": "c",
            "Resource": "arn:work",
            "TimeoutSecondsPath": "$.timeout",
            "HeartbeatSeconds": 7,
            "Credentials": {"role": "r"},
            "InputPath": "$.in",
            "OutputPath": "$$.out",
            "ResultPath": "$.result",
            "Parameters": {"a.$": "$.b"},
            "ResultSelector": [1],
            "Retry": [
                {"ErrorEquals": ["States.Timeout", "Mine"]},
                {"ErrorEquals": ["States.ALL"], "MaxAttempts": 0, "IntervalSeconds": 2.5,
                 "MaxDelaySeconds": 10, "BackoffRate": 3, "JitterStrategy": "FULL"}
            ],
            "Catch": [{"ErrorEquals": ["States.TaskFailed"], "Next": "S", "ResultPath": "$.error"}],
            "Next": "S",
            "Unknown": 1
        }"#,
    );
    let expected = Task {
        resource: "arn:work".to_string(),
        timeout: Some(TimeoutSecondsOrPath::TimeoutSecondsPath(dv("$.timeout"))),
        heartbeat: Some(HeartbeatSecondsOrPath::HeartbeatSeconds(7)),
        credentials: Some(json(r#"{"role": "r"}"#)),
        comment: Some("c".to_string()),
        input_path: Some(dv("$.in")),
        output_path: Some(dv("$$.out")),
        end_or_next: EndOrNext::Next("S".to_string()),
        result_path: Some(dv("$.result")),
        parameters: Some(json(r#"{"a.$": "$.b"}"#)),
        result_selector: Some(json("[1]")),
        retry: Some(vec![
            Retrier::new(vec![StateMachineExecutionPredefinedErrors::StatesTimeout, custom("Mine")]),
            Retrier {
                error_equals: vec![StateMachineExecutionPredefinedErrors::StatesALL],
                max_attempts: 0,
                interval_seconds: JsonNumber::Float("2.5".to_string()),
                max_delay_seconds: Some(JsonNumber::PosInt(10)),
                backoff_rate: JsonNumber::PosInt(3),
                jitter_strategy: Some(JitterStrategy::FULL),
            },
        ]),
        catch: Some(vec![Catcher {
            error_equals: vec![StateMachineExecutionPredefinedErrors::StatesTaskFailed],
            next: "S".to_string(),
            result_path: Some(dv("$.error")),
        }]),
    };
    assert_eq!(state, States::Task(expected));
}

#[test]
fn parse_a_task_with_heartbeat_below_timeout() {
    let state = only_state(
        r#"{"Type": "Task", "Resource": "R", "End": true, "HeartbeatSeconds": 5, "TimeoutSeconds": 5.5,
            "Comment": null}"#,
    );
    match state {
        States::Task(task) => {
            assert_eq!(task.heartbeat, Some(HeartbeatSecondsOrPath::HeartbeatSeconds(5)));
            assert_eq!(
                task.timeout,
                Some(TimeoutSecondsOrPath::TimeoutSeconds(JsonNumber::Float("5.5".to_string())))
            );
            assert_eq!(task.comment, None);
        }
        other => panic!("no task: {:?}", other),
    }
}

#[test]
fn parse_wait_states() {
    let wait = |duration: WaitDuration| {
        States::Wait(Wait {
            duration,
            comment: None,
            input_path: None,
            output_path: None,
            end_or_next: EndOrNext::End,
        })
    };
    assert_eq!(
        only_state(r#"{"Type": "Wait", "Seconds": 10, "End": true}"#),
        wait(WaitDuration::Seconds(JsonNumber::PosInt(10)))
    );
    assert_eq!(
        only_state(r#"{"Type": "Wait", "SecondsPath": "$.s", "End": true}"#),
        wait(WaitDuration::SecondsPath(dv("$.s")))
    );
    assert_eq!(
        only_state(r#"{"Type": "Wait", "Timestamp": "1970-01-01T00:00:10Z", "End": true}"#),
        wait(WaitDuration::Timestamp(TimestampType { seconds: 10, nanos: 0 }))
    );
    assert_eq!(
        only_state(r#"{"Type": "Wait", "TimestampPath": "$.t", "End": true}"#),
        wait(WaitDuration::TimestampPath(dv("$.t")))
    );
}

#[test]
fn parse_a_fail_state() {
    assert_eq!(
        only_state(r#"{"Type": "Fail", "ErrorPath": "$.e", "Cause": "because"}"#),
        States::Fail(Fail {
            error: Some(FailStateErrorField::ErrorPath(dv("$.e"))),
            cause: Some(FailStateCauseField::Cause("because".to_string())),
            comment: None,
        })
    );
    assert_eq!(
        only_state(r#"{"Type": "Fail"}"#),
        States::Fail(Fail { error: None, cause: None, comment: None })
    );
}

#[test]
fn parse_a_choice_state() {
    let rule = |expression: ChoiceExpression, next: &str| ChoiceRule { expression, next: next.to_string() };
    let test = |path: &str, operation: Operation| ChoiceExpression::BooleanExpression {
        variable: dv(path),
        operation,
    };
    let state = only_state(
        r#"{
            "Type": "Choice",
            "Choices": [
                {"Variable": "$.foo", "NumericEquals": 1, "Next": "S"},
                {"Variable": "$.s", "StringMatches": "a*", "Next": "S"},
                {"Variable": "$.s", "StringLessThanEqualsPath": "$.t", "Next": "S"},
                {"Variable": "$.b", "BooleanEquals": false, "Next": "S"},
                {"Variable": "$.t", "TimestampGreaterThan": "1970-01-01T00:00:01Z", "Next": "S"},
                {"Variable": "$.p", "IsPresent": true, "Next": "S"},
                {"Not": {"Variable": "$.n", "IsNull": true}, "Next": "S"},
                {"And": [{"Variable": "$.a", "IsString": true},
                         {"Or": [{"Variable": "$.b", "IsNumeric": true}]}], "Next": "S"}
            ],
            "Default": "S"
        }"#,
    );
    let expected = Choice {
        choices: vec![
            rule(test("$.foo", Operation::NumericEquals(JsonNumber::PosInt(1))), "S"),
            rule(test("$.s", Operation::StringMatches("a*".to_string())), "S"),
            rule(test("$.s", Operation::StringLessThanEqualsPath(dv("$.t"))), "S"),
            rule(test("$.b", Operation::BooleanEquals(false)), "S"),
            rule(
                test("$.t", Operation::TimestampGreaterThan(TimestampType { seconds: 1, nanos: 0 })),
                "S",
            ),
            rule(test("$.p", Operation::IsPresent), "S"),
            rule(
                ChoiceExpression::ComposedExpression(ComposedExpression::Not(Box::new(test(
                    "$.n",
                    Operation::IsNull,
                )))),
                "S",
            ),
            rule(
                ChoiceExpression::ComposedExpression(ComposedExpression::And(vec![
                    Box::new(test("$.a", Operation::IsString)),
                    Box::new(ChoiceExpression::ComposedExpression(ComposedExpression::Or(vec![
                        Box::new(test("$.b", Operation::IsNumeric)),
                    ]))),
                ])),
                "S",
            ),
        ],
        default: Some("S".to_string()),
        comment: None,
        input_path: None,
        output_path: None,
    };
    assert_eq!(state, States::Choice(expected));
}

#[test]
fn parse_every_comparison() {
    let names = [
        ("StringEquals", r#""a""#),
        ("StringEqualsPath", r#""$.a""#),
        ("StringLessThan", r#""a""#),
        ("StringLessThanPath", r#""$.a""#),
        ("StringGreaterThan", r#""a""#),
        ("StringGreaterThanPath", r#""$.a""#),
        ("StringLessThanEquals", r#""a""#),
        ("StringLessThanEqualsPath", r#""$.a""#),
        ("StringGreaterThanEquals", r#""a""#),
        ("StringGreaterThanEqualsPath", r#""$.a""#),
        ("StringMatches", r#""a""#),
        ("NumericEquals", "1"),
        ("NumericEqualsPath", r#""$.a""#),
        ("NumericLessThan", "1"),
        ("NumericLessThanPath", r#""$.a""#),
        ("NumericGreaterThan", "1"),
        ("NumericGreaterThanPath", r#""$.a""#),
        ("NumericLessThanEquals", "1"),
        ("NumericLessThanEqualsPath", r#""$.a""#),
        ("NumericGreaterThanEquals", "1"),
        ("NumericGreaterThanEqualsPath", r#""$.a""#),
        ("BooleanEquals", "true"),
        ("TimestampEquals", r#""1970-01-01T00:00:01Z""#),
        ("TimestampEqualsPath", r#""$.a""#),
        ("TimestampLessThan", r#""1970-01-01T00:00:01Z""#),
        ("TimestampLessThanPath", r#""$.a""#),
        ("TimestampGreaterThan", r#""1970-01-01T00:00:01Z""#),
        ("TimestampGreaterThanPath", r#""$.a""#),
        ("TimestampLessThanEquals", r#""1970-01-01T00:00:01Z""#),
        ("TimestampLessThanEqualsPath", r#""$.a""#),
        ("TimestampGreaterThanEquals", r#""1970-01-01T00:00:01Z""#),
        ("TimestampGreaterThanEqualsPath", r#""$.a""#),
        ("IsNull", "true"),
        ("IsPresent", "true"),
        ("IsNumeric", "true"),
        ("IsString", "true"),
        ("IsBoolean", "true"),
        ("IsTimestamp", "true"),
    ];
    assert_eq!(names.len(), asl::states::choice::OPERATIONS);
    for (k, (name, operand)) in names.iter().enumerate() {
        assert_eq!(asl::states::choice::operation_name(k), *name);
        let source = format!(r#"{{"Variable": "$.v", "{}": {}}}"#, name, operand);
        let operation = Operation::decode(&json(&source)).unwrap();
        assert_eq!(format!("{:?}", operation).split('(').next().unwrap(), *name);
    }
}

#[test]
fn parse_a_map_state() {
    let state = only_state(
        r#"{
            "Type": "Map",
            "MaxConcurrency": 3,
            "Iterator": {"StartAt": "X", "States": {"X": {"Type": "Pass", "End": true}},
                         "ProcessorConfig": {"Mode": "INLINE"}},
            "ItemsPath": "$.items",
            "ItemSelector": {"value": "$.v"},
            "ItemBatcher": {"BatchInput": 1, "MaxItemsPerBatch": 10, "MaxInputBytesPerBatchPath": "$.b"},
            "ResultWriter": {},
            "ToleratedFailureCount": 1,
            "ToleratedFailurePercentage": 50,
            "End": true
        }"#,
    );
    match state {
        States::MapState(MapState {
            max_concurrency,
            item_processor,
            items_path,
            item_selector,
            item_batcher,
            result_writer,
            tolerated_failure_count,
            tolerated_failure_percentage,
            end_or_next,
            ..
        }) => {
            assert_eq!(max_concurrency, Some(3));
            assert_eq!(item_processor.start_at, "X");
            assert_eq!(item_processor.states.len(), 1);
            assert_eq!(item_processor.processor_config, Some(json(r#"{"Mode": "INLINE"}"#)));
            assert_eq!(items_path, Some(MyJsonPath::from_str("$.items").unwrap()));
            assert_eq!(
                item_selector,
                Some(vec![("value".to_string(), MyJsonPath::from_str("$.v").unwrap())])
            );
            let batcher: ItemBatcherConfiguration = item_batcher.unwrap();
            assert_eq!(batcher.batch_input, Some(json("1")));
            assert_eq!(batcher.max_items_per_batch, Some(MaxItemsPerBatch::MaxItemsPerBatch(10)));
            assert!(batcher.max_input_bytes_per_batch.is_some());
            assert_eq!(result_writer, Some(ResultWriterConfiguration {}));
            assert_eq!(tolerated_failure_count, Some(1));
            assert_eq!(tolerated_failure_percentage, Some(50));
            assert_eq!(end_or_next, EndOrNext::End);
        }
        other => panic!("no map state: {:?}", other),
    }
}

#[test]
fn parse_valid_cases() {
    let documents = [
        r#"{"StartAt": "A", "States": {"A": {"Type": "Pass", "Next": "B"}, "B": {"Type": "Succeed"}},
            "Version": "1.0", "TimeoutSeconds": 30}"#,
        r#"{"StartAt": "P", "States": {"P": {"Type": "Parallel", "Branches": [], "End": true,
            "Retry": [{"ErrorEquals": ["States.ALL"]}], "Catch": []}}}"#,
        r#"{"StartAt": "W", "States": {"W": {"Type": "Wait", "Seconds": 0.5, "Next": "F"},
            "F": {"Type": "Fail", "Error": "E", "Cause": "C"}}}"#,
    ];
    for document in documents {
        let state_machine = StateMachine::parse(document);
        assert!(state_machine.is_ok(), "{:?}", state_machine);
    }
    let definition = StateMachine::parse(documents[0]).unwrap();
    assert_eq!(definition.definition().version.as_deref(), Some("1.0"));
    assert_eq!(definition.definition().timeout_seconds, Some(JsonNumber::PosInt(30)));
}

#[test]
fn execute_all() {
    let document = r#"{
        "StartAt": "ChoiceState",
        "States": {
            "ChoiceState": {
                "Type": "Choice",
                "Choices": [
                    {"Variable": "$.foo", "NumericEquals": 1, "Next": "FirstMatchState"},
                    {"Variable": "$.foo", "NumericEquals": 2, "Next": "SecondMatchState"},
                    {"Variable": "$.foo", "NumericEquals": 3, "Next": "SecondMatchState"}
                ],
                "Default": "DefaultState"
            },
            "FirstMatchState": {"Type": "Task", "Resource": "OnFirstMatch", "Next": "NextState"},
            "SecondMatchState": {"Type": "Task", "Resource": "OnSecondMatch", "Next": "NextState"},
            "DefaultState": {"Type": "Fail", "Error": "DefaultStateError", "Cause": "No Matches!"},
            "NextState": {"Type": "Task", "Resource": "Next", "End": true}
        }
    }"#;
    let state_machine = StateMachine::parse(document).unwrap();
    let cases: [(&str, Vec<&str>, Option<(&str, &str)>); 4] = [
        (r#"{"foo": 1}"#, vec!["ChoiceState", "FirstMatchState", "NextState"], None),
        (r#"{"foo": 2}"#, vec!["ChoiceState", "SecondMatchState", "NextState"], None),
        (r#"{"foo": 3}"#, vec!["ChoiceState", "SecondMatchState", "NextState"], None),
        (
            r#"{"foo": 4}"#,
            vec!["ChoiceState", "DefaultState"],
            Some(("DefaultStateError", "No Matches!")),
        ),
    ];
    for (source, expected_states, failure) in cases {
        let input = json(source);
        let mut execution = state_machine.start(&input, Echo {}, Rc::new(EmptyContext {}));
        let mut states = Vec::new();
        let mut last = None;
        while let Some(output) = execution.next() {
            states.push(output.state_name.clone().unwrap());
            last = Some(output.status);
        }
        assert_eq!(states, expected_states);
        let expected_status = match failure {
            None => ExecutionStatus::FinishedWithSuccess(Some(input.clone())),
            Some((error, cause)) => ExecutionStatus::FinishedWithFailure(StateMachineExecutionError {
                error: custom(error),
                cause: Some(cause.to_string()),
            }),
        };
        assert_eq!(last, Some(expected_status));
    }
}

#[test]
fn a_flat_state_becomes_a_state_of_the_sum() {
    let flat = asl::states::State::Wait {
        duration: WaitDuration::Seconds(JsonNumber::PosInt(2)),
        comment: Some("c".to_string()),
        input_path: Some(MyJsonPath::from_str("$.in").unwrap()),
        output_path: None,
        end_or_next: asl::states::EndOrNext::End(false),
    };
    assert_eq!(
        flat.into_states(),
        States::Wait(Wait {
            duration: WaitDuration::Seconds(JsonNumber::PosInt(2)),
            comment: Some("c".to_string()),
            input_path: Some(dv("$.in")),
            output_path: None,
            end_or_next: EndOrNext::End,
        })
    );
    let flat = asl::states::State::Fail { error: None, cause: None, comment: None };
    assert_eq!(flat.into_states(), States::Fail(Fail { error: None, cause: None, comment: None }));
    assert_eq!(
        asl::states::EndOrNext::Next("N".to_string()).settle(),
        EndOrNext::Next("N".to_string())
    );
    assert_eq!(
        asl::states::as_input_path(Some(MyJsonPath::from_str("$").unwrap())),
        Some(dv("$"))
    );
    let context_path = asl::types::ContextJsonPath::Path(MyJsonPath::from_str("$.a").unwrap());
    assert_eq!(
        context_path,
        asl::types::ContextJsonPath::Path(MyJsonPath::from_str("$.a").unwrap())
    );
}

#[test]
fn parse_refuses_a_path_that_ends_inside_an_escape() {
    assert!(is_malformed(&with_state(
        "{\"Type\": \"Pass\", \"End\": true, \"InputPath\": \"$['\\\\u\"}"
    )));
}
