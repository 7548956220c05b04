use asl::intrinsic_functions::{IntrinsicFunction, IntrinsicFunctionParseError};
use asl::json::{JsonNumber, JsonValue};
use asl::types::{DynamicValue, ExecutionInput, MyJsonPath, TimestampType};

fn text(value: &str) -> JsonValue {
    JsonValue::String(value.to_string())
}

fn path(source: &str) -> MyJsonPath {
    MyJsonPath::from_str(source).unwrap()
}

fn execution_input() -> ExecutionInput {
    let value = JsonValue::parse(
        r#"
            {
                "path": "input object: path",
                "path-with-hyphens": "input object: path-with-hyphens",
                "array_of_numbers": [0, 1, 2, 3],
                "object": [
                    {"bar": "input object: bar1"},
                    {"length": 1, "bar": "input object: bar2"},
                    {"length": 1, "bar": "input object: bar3"}
                ]
            }
        "#,
    )
    .unwrap();
    let context = JsonValue::parse(
        r#"
            {
                "path": "context object: path",
                "path-with-hyphens": "context object: path-with-hyphens",
                "array_of_numbers": [0, 1, 2, 3]
            }
        "#,
    )
    .unwrap();
    ExecutionInput { value, context }
}

fn check_parse(input: &str, expected: DynamicValue) {
    assert_eq!(DynamicValue::from_str(input).unwrap(), expected);
}

#[test]
fn parse_dynamic_value() {
    check_parse("value", DynamicValue::Value(text("value")));
    check_parse("$", DynamicValue::ValueJsonPath(path("$")));
    check_parse("$.path", DynamicValue::ValueJsonPath(path("$.path")));
    check_parse("$$", DynamicValue::Context(path("$")));
    check_parse("$$.path", DynamicValue::Context(path("$.path")));
}

#[test]
fn parse_dynamic_value_classification() {
    check_parse("x", DynamicValue::Value(text("x")));
    check_parse("", DynamicValue::Value(text("")));
    check_parse("$$.a", DynamicValue::Context(path("$.a")));
    assert_eq!(path("$.a").as_str(), "$.a");
    match DynamicValue::from_str("$$.a").unwrap() {
        DynamicValue::Context(p) => assert_eq!(p.as_str(), "$.a"),
        other => panic!("not a context path: {:?}", other),
    }
}

#[test]
fn parse_dynamic_value_error() {
    for input in ["$.an [ in valid ]- json path", "$$.an [ in valid ]- json path"] {
        let actual = DynamicValue::from_str(input);
        assert!(actual.is_err(), "Expected an error, but got: {:?}", actual);
        assert!(!actual.unwrap_err().message.is_empty());
    }
}

fn check_evaluate(path_string: &str, expected: Option<&str>) {
    let input = execution_input();
    let path = DynamicValue::from_str(path_string).unwrap();
    let actual = path.evaluate(&input).unwrap();
    let expected_value = expected.map(|s| JsonValue::parse(s).unwrap());
    assert_eq!(actual, expected_value, "for {}", path_string);
}

#[test]
fn evaluate() {
    check_evaluate("value", Some(r#""value""#));
    check_evaluate("$.path", Some(r#""input object: path""#));
    check_evaluate(
        "$.object[?(@.length)].bar",
        Some(r#"["input object: bar2", "input object: bar3"]"#),
    );
    check_evaluate("$$.path", Some(r#""context object: path""#));
    check_evaluate("$.array_of_numbers", Some("[0, 1, 2, 3]"));
    check_evaluate("$.array_of_numbers[-1]", Some("3"));
    check_evaluate("$.array_of_numbers[*]", Some("[0, 1, 2, 3]"));
    check_evaluate("$.missing", None);
    check_evaluate("$$.missing", None);
}

#[test]
fn evaluate_root_yields_the_document_itself() {
    let input = execution_input();
    let root = DynamicValue::from_str("$").unwrap();
    assert_eq!(root.evaluate(&input).unwrap(), Some(input.value.clone()));
    let context_root = DynamicValue::from_str("$$").unwrap();
    assert_eq!(context_root.evaluate(&input).unwrap(), Some(input.context.clone()));
}

#[test]
fn evaluate_keeps_the_order_of_members() {
    let value = JsonValue::Object(vec![
        ("b".to_string(), JsonValue::Number(JsonNumber::PosInt(1))),
        ("a".to_string(), JsonValue::Number(JsonNumber::PosInt(2))),
    ]);
    let input = ExecutionInput { value: value.clone(), context: JsonValue::Null };
    let root = DynamicValue::from_str("$").unwrap();
    assert_eq!(root.evaluate(&input).unwrap(), Some(value));
}

#[test]
fn intrinsic_functions_are_unknown() {
    assert_eq!(
        IntrinsicFunction::try_from("States.Format('x')"),
        Err(IntrinsicFunctionParseError::Unknown("States.Format('x')".to_string()))
    );
    let call = DynamicValue::IntrinsicFunction(IntrinsicFunction::Unregistered("f()".to_string()));
    assert!(call.evaluate(&execution_input()).is_err());
}

#[test]
fn timestamps_are_read_from_rfc_3339() {
    assert_eq!(
        TimestampType::from_str("1970-01-01T00:00:01Z"),
        Ok(TimestampType { seconds: 1, nanos: 0 })
    );
    assert_eq!(
        TimestampType::from_str("2016-03-14T01:59:00.250+01:00"),
        Ok(TimestampType { seconds: 1457917140, nanos: 250_000_000 })
    );
    assert!(TimestampType::from_str("yesterday").is_err());
    assert!(!TimestampType::from_str("yesterday").unwrap_err().message.is_empty());
}

#[test]
fn millis_until_is_clamped_at_zero() {
    let now = TimestampType { seconds: 100, nanos: 500_000_000 };
    let past = TimestampType { seconds: 99, nanos: 0 };
    let future = TimestampType { seconds: 102, nanos: 750_000_000 };
    assert_eq!(past.millis_until(&now), 0);
    assert_eq!(now.millis_until(&now), 0);
    assert_eq!(future.millis_until(&now), 2250);
    let far = TimestampType { seconds: i64::MAX, nanos: 0 };
    let long_ago = TimestampType { seconds: i64::MIN, nanos: 0 };
    assert_eq!(far.millis_until(&long_ago), u64::MAX);
    assert_eq!(long_ago.millis_until(&far), 0);
}

#[test]
fn millis_to_now_of_a_past_instant_is_zero() {
    let past = TimestampType { seconds: 0, nanos: 0 };
    assert_eq!(past.millis_to_now(), 0);
    let now = TimestampType::now();
    assert!(now.seconds > 1_600_000_000);
    assert!(now.nanos < 1_000_000_000);
    let soon = TimestampType { seconds: now.seconds + 3600, nanos: 0 };
    let left = soon.millis_to_now();
    assert!(left > 3_500_000 && left <= 3_600_000);
}

#[test]
fn instants_are_ordered() {
    let a = TimestampType { seconds: 1, nanos: 5 };
    let b = TimestampType { seconds: 1, nanos: 6 };
    let c = TimestampType { seconds: 2, nanos: 0 };
    assert!(a.before(&b) && b.before(&c) && a.before(&c));
    assert!(!b.before(&a) && !a.before(&a));
}

#[test]
fn a_path_that_ends_inside_an_escape_is_refused() {
    for source in ["$['\\u", "$['\\uD", "$['\\ud", "$[\"a\\uD83D\\u", "$[\"a\\uD83D\\uD", "$$['\\u"] {
        let refused = DynamicValue::from_str(source);
        assert!(refused.is_err(), "{:?}", refused);
        assert_eq!(refused.unwrap_err().message, "the text ends inside an escape");
    }
    assert!(MyJsonPath::from_str("$['\\u").is_err());
    assert!(asl::types::ends_in_open_escape("\\u"));
    assert!(asl::types::ends_in_open_escape("x\\ud"));
    assert!(!asl::types::ends_in_open_escape("\\uE"));
    assert!(!asl::types::ends_in_open_escape("u"));
    assert_eq!(
        DynamicValue::from_str("$['\\u0041']").unwrap().evaluate(&ExecutionInput {
            value: JsonValue::parse(r#"{"A": 7}"#).unwrap(),
            context: JsonValue::Null,
        }),
        Ok(Some(JsonValue::Number(JsonNumber::PosInt(7))))
    );
}

#[test]
fn wildcards_follow_the_order_of_the_members() {
    let input = ExecutionInput {
        value: JsonValue::parse(r#"{"b": 1, "a": 2, "c": 3}"#).unwrap(),
        context: JsonValue::Null,
    };
    assert_eq!(
        DynamicValue::from_str("$.*").unwrap().evaluate(&input),
        Ok(Some(JsonValue::parse("[1, 2, 3]").unwrap()))
    );
    assert_eq!(input.value.to_text(), r#"{"b":1,"a":2,"c":3}"#);
}
