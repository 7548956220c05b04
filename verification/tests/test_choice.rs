use asl::json::{JsonNumber, JsonValue};
use asl::number::{double_equal, double_less, Comparison};
use asl::states::choice::{
    match_number, match_string, match_timestamp, ChoiceEvaluationError, ChoiceExpression,
    ChoiceRule, ComposedExpression, Operation,
};
use asl::types::{DynamicValue, DynamicValueEvaluateError, ExecutionInput, TimestampType};
use asl::intrinsic_functions::{IntrinsicFunction, IntrinsicFunctionExecutionError};

fn text(value: &str) -> JsonValue {
    JsonValue::String(value.to_string())
}

fn number(n: u64) -> JsonValue {
    JsonValue::Number(JsonNumber::PosInt(n))
}

fn input(source: &str) -> ExecutionInput {
    ExecutionInput { value: JsonValue::parse(source).unwrap(), context: JsonValue::Null }
}

fn check(operation: Operation, value: Option<JsonValue>) -> Result<bool, ChoiceEvaluationError> {
    operation.evaluate(value, &input(r#"{"s": "m", "n": 10, "t": "2020-01-01T00:00:00Z", "o": {}}"#))
}

fn dv(source: &str) -> DynamicValue {
    DynamicValue::from_str(source).unwrap()
}

#[test]
fn string_comparisons() {
    assert_eq!(check(Operation::StringEquals("a".into()), Some(text("a"))), Ok(true));
    assert_eq!(check(Operation::StringEquals("a".into()), Some(text("b"))), Ok(false));
    assert_eq!(check(Operation::StringLessThan("b".into()), Some(text("a"))), Ok(true));
    assert_eq!(check(Operation::StringLessThan("a".into()), Some(text("a"))), Ok(false));
    assert_eq!(check(Operation::StringGreaterThan("a".into()), Some(text("b"))), Ok(true));
    assert_eq!(check(Operation::StringGreaterThan("b".into()), Some(text("b"))), Ok(false));
    assert_eq!(check(Operation::StringLessThanEquals("a".into()), Some(text("a"))), Ok(true));
    assert_eq!(check(Operation::StringLessThanEquals("a".into()), Some(text("b"))), Ok(false));
    assert_eq!(check(Operation::StringGreaterThanEquals("a".into()), Some(text("a"))), Ok(true));
    assert_eq!(check(Operation::StringGreaterThanEquals("b".into()), Some(text("a"))), Ok(false));
}

#[test]
fn string_comparisons_with_paths() {
    assert_eq!(check(Operation::StringEqualsPath(dv("$.s")), Some(text("m"))), Ok(true));
    assert_eq!(check(Operation::StringLessThanPath(dv("$.s")), Some(text("a"))), Ok(true));
    assert_eq!(check(Operation::StringGreaterThanPath(dv("$.s")), Some(text("a"))), Ok(false));
    assert_eq!(check(Operation::StringLessThanEqualsPath(dv("$.s")), Some(text("m"))), Ok(true));
    assert_eq!(check(Operation::StringGreaterThanEqualsPath(dv("$.s")), Some(text("z"))), Ok(true));
    assert_eq!(
        check(Operation::StringEqualsPath(dv("$.missing")), Some(text("m"))),
        Err(ChoiceEvaluationError::ValueNotFound)
    );
    assert_eq!(
        check(Operation::StringEqualsPath(dv("$.n")), Some(text("m"))),
        Err(ChoiceEvaluationError::WrongType { val: number(10), expected_type: "string".into() })
    );
}

#[test]
fn string_matches() {
    assert_eq!(check(Operation::StringMatches("foo*.log".into()), Some(text("foo23.log"))), Ok(true));
    assert_eq!(check(Operation::StringMatches("foo*.log".into()), Some(text("bar.log"))), Ok(false));
    assert_eq!(
        check(Operation::StringMatches("foo\\".into()), Some(text("foo"))),
        Err(ChoiceEvaluationError::MalformedStringMatches("foo\\".into()))
    );
    assert_eq!(
        check(Operation::StringMatches("*".into()), Some(number(1))),
        Err(ChoiceEvaluationError::WrongType { val: number(1), expected_type: "string".into() })
    );
}

#[test]
fn numeric_comparisons() {
    let float = |t: &str| JsonValue::Number(JsonNumber::Float(t.to_string()));
    assert_eq!(check(Operation::NumericEquals(JsonNumber::PosInt(1)), Some(number(1))), Ok(true));
    assert_eq!(check(Operation::NumericEquals(JsonNumber::PosInt(1)), Some(float("1.0"))), Ok(true));
    assert_eq!(check(Operation::NumericEquals(JsonNumber::PosInt(1)), Some(number(2))), Ok(false));
    assert_eq!(check(Operation::NumericEquals(JsonNumber::PosInt(0)), Some(float("-0.0"))), Ok(true));
    assert_eq!(check(Operation::NumericLessThan(JsonNumber::PosInt(2)), Some(float("1.5"))), Ok(true));
    assert_eq!(
        check(Operation::NumericLessThan(JsonNumber::NegInt(-2)), Some(float("-1.5"))),
        Ok(false)
    );
    assert_eq!(
        check(Operation::NumericLessThan(JsonNumber::NegInt(-2)), Some(float("-2.5"))),
        Ok(true)
    );
    assert_eq!(
        check(Operation::NumericGreaterThan(JsonNumber::NegInt(-1)), Some(number(0))),
        Ok(true)
    );
    assert_eq!(check(Operation::NumericGreaterThan(JsonNumber::PosInt(3)), Some(number(3))), Ok(false));
    assert_eq!(
        check(Operation::NumericLessThanEquals(JsonNumber::PosInt(3)), Some(number(3))),
        Ok(true)
    );
    assert_eq!(
        check(Operation::NumericGreaterThanEquals(JsonNumber::PosInt(3)), Some(float("2.99"))),
        Ok(false)
    );
    assert_eq!(
        check(Operation::NumericGreaterThanEquals(JsonNumber::Float("1e3".into())), Some(number(1000))),
        Ok(true)
    );
    assert_eq!(
        check(Operation::NumericEquals(JsonNumber::PosInt(1)), Some(text("1"))),
        Err(ChoiceEvaluationError::WrongType { val: text("1"), expected_type: "number".into() })
    );
    assert_eq!(
        check(Operation::NumericEquals(JsonNumber::Float("x".into())), Some(number(1))),
        Err(ChoiceEvaluationError::WrongType { val: float("x"), expected_type: "f64".into() })
    );
}

#[test]
fn numeric_comparisons_with_paths() {
    assert_eq!(check(Operation::NumericEqualsPath(dv("$.n")), Some(number(10))), Ok(true));
    assert_eq!(check(Operation::NumericLessThanPath(dv("$.n")), Some(number(9))), Ok(true));
    assert_eq!(check(Operation::NumericGreaterThanPath(dv("$.n")), Some(number(9))), Ok(false));
    assert_eq!(check(Operation::NumericLessThanEqualsPath(dv("$.n")), Some(number(10))), Ok(true));
    assert_eq!(check(Operation::NumericGreaterThanEqualsPath(dv("$.n")), Some(number(11))), Ok(true));
    assert_eq!(
        check(Operation::NumericEqualsPath(dv("$.s")), Some(number(10))),
        Err(ChoiceEvaluationError::WrongType { val: text("m"), expected_type: "number".into() })
    );
}

#[test]
fn doubles_compare_by_their_bits() {
    let bits = |x: f64| x.to_bits();
    assert!(double_less(bits(-1.0), bits(0.0)));
    assert!(double_less(bits(-2.0), bits(-1.0)));
    assert!(double_less(bits(1.0), bits(1.5)));
    assert!(!double_less(bits(0.0), bits(-0.0)));
    assert!(double_equal(bits(0.0), bits(-0.0)));
    assert!(double_equal(bits(3.25), bits(3.25)));
    assert!(!double_equal(bits(3.25), bits(-3.25)));
    assert!(double_less(bits(f64::MIN), bits(f64::MAX)));
    assert!(double_less(bits(5e-324), bits(1e-300)));
}

#[test]
fn boolean_equals() {
    assert_eq!(check(Operation::BooleanEquals(true), Some(JsonValue::Bool(true))), Ok(true));
    assert_eq!(check(Operation::BooleanEquals(true), Some(JsonValue::Bool(false))), Ok(false));
    assert_eq!(
        check(Operation::BooleanEquals(true), Some(number(1))),
        Err(ChoiceEvaluationError::WrongType { val: number(1), expected_type: "boolean".into() })
    );
}

#[test]
fn timestamp_comparisons() {
    let at = |s: &str| TimestampType::from_str(s).unwrap();
    let noon = Some(text("2020-01-01T12:00:00Z"));
    assert_eq!(check(Operation::TimestampEquals(at("2020-01-01T13:00:00+01:00")), noon.clone()), Ok(true));
    assert_eq!(check(Operation::TimestampLessThan(at("2020-01-01T12:00:01Z")), noon.clone()), Ok(true));
    assert_eq!(check(Operation::TimestampGreaterThan(at("2020-01-01T12:00:00Z")), noon.clone()), Ok(false));
    assert_eq!(check(Operation::TimestampLessThanEquals(at("2020-01-01T12:00:00Z")), noon.clone()), Ok(true));
    assert_eq!(
        check(Operation::TimestampGreaterThanEquals(at("2020-01-01T12:00:00.001Z")), noon.clone()),
        Ok(false)
    );
    assert_eq!(check(Operation::TimestampGreaterThanPath(dv("$.t")), noon.clone()), Ok(true));
    assert_eq!(check(Operation::TimestampEqualsPath(dv("$.t")), noon.clone()), Ok(false));
    assert_eq!(check(Operation::TimestampLessThanPath(dv("$.t")), noon.clone()), Ok(false));
    assert_eq!(check(Operation::TimestampLessThanEqualsPath(dv("$.t")), noon.clone()), Ok(false));
    assert_eq!(check(Operation::TimestampGreaterThanEqualsPath(dv("$.t")), noon.clone()), Ok(true));
    assert_eq!(
        check(Operation::TimestampEquals(at("2020-01-01T12:00:00Z")), Some(text("noon"))),
        Err(ChoiceEvaluationError::WrongType { val: text("noon"), expected_type: "timestamp".into() })
    );
    assert!(matches!(
        check(Operation::TimestampEqualsPath(dv("$.s")), noon.clone()),
        Err(ChoiceEvaluationError::ParseTimestampError(_))
    ));
}

#[test]
fn tests_of_kind() {
    assert_eq!(check(Operation::IsNull, Some(JsonValue::Null)), Ok(true));
    assert_eq!(check(Operation::IsNull, Some(number(0))), Ok(false));
    assert_eq!(check(Operation::IsPresent, Some(JsonValue::Null)), Ok(true));
    assert_eq!(check(Operation::IsNumeric, Some(number(0))), Ok(true));
    assert_eq!(check(Operation::IsNumeric, Some(text("0"))), Ok(false));
    assert_eq!(check(Operation::IsString, Some(text("0"))), Ok(true));
    assert_eq!(check(Operation::IsString, Some(number(0))), Ok(false));
    assert_eq!(check(Operation::IsBoolean, Some(JsonValue::Bool(false))), Ok(true));
    assert_eq!(check(Operation::IsBoolean, Some(JsonValue::Null)), Ok(false));
    assert_eq!(check(Operation::IsTimestamp, Some(text("2020-01-01T12:00:00Z"))), Ok(true));
    assert_eq!(check(Operation::IsTimestamp, Some(text("noon"))), Ok(false));
    assert_eq!(check(Operation::IsTimestamp, Some(number(0))), Ok(false));
}

#[test]
fn missing_values() {
    for operation in [
        Operation::IsNull,
        Operation::IsPresent,
        Operation::IsNumeric,
        Operation::IsString,
        Operation::IsBoolean,
        Operation::IsTimestamp,
    ] {
        assert_eq!(check(operation, None), Ok(false));
    }
    assert_eq!(
        check(Operation::StringEquals("a".into()), None),
        Err(ChoiceEvaluationError::ValueNotFound)
    );
    assert_eq!(check(Operation::BooleanEquals(true), None), Err(ChoiceEvaluationError::ValueNotFound));
    assert_eq!(
        check(Operation::NumericEquals(JsonNumber::PosInt(1)), None),
        Err(ChoiceEvaluationError::ValueNotFound)
    );
}

fn variable(path: &str, operation: Operation) -> Box<ChoiceExpression> {
    Box::new(ChoiceExpression::BooleanExpression { variable: dv(path), operation })
}

fn is_string(path: &str) -> Box<ChoiceExpression> {
    variable(path, Operation::IsString)
}

fn errs() -> Box<ChoiceExpression> {
    variable("$.missing", Operation::StringEquals("x".into()))
}

#[test]
fn composed_expressions() {
    let on = input(r#"{"s": "m", "n": 10}"#);
    let not = ComposedExpression::Not(is_string("$.n"));
    assert_eq!(not.evaluate(&on), Ok(true));
    let and = ComposedExpression::And(vec![is_string("$.s"), is_string("$.n")]);
    assert_eq!(and.evaluate(&on), Ok(false));
    let and = ComposedExpression::And(vec![is_string("$.s"), is_string("$.s")]);
    assert_eq!(and.evaluate(&on), Ok(true));
    assert_eq!(ComposedExpression::And(vec![]).evaluate(&on), Ok(true));
    let or = ComposedExpression::Or(vec![is_string("$.n"), is_string("$.s")]);
    assert_eq!(or.evaluate(&on), Ok(true));
    let or = ComposedExpression::Or(vec![is_string("$.n"), is_string("$.n")]);
    assert_eq!(or.evaluate(&on), Ok(false));
    assert_eq!(ComposedExpression::Or(vec![]).evaluate(&on), Ok(false));
}

#[test]
fn composed_expressions_stop_at_the_first_answer() {
    let on = input(r#"{"s": "m", "n": 10}"#);
    let and = ComposedExpression::And(vec![is_string("$.n"), errs()]);
    assert_eq!(and.evaluate(&on), Ok(false));
    let and = ComposedExpression::And(vec![is_string("$.s"), errs()]);
    assert_eq!(and.evaluate(&on), Err(ChoiceEvaluationError::ValueNotFound));
    let or = ComposedExpression::Or(vec![is_string("$.s"), errs()]);
    assert_eq!(or.evaluate(&on), Ok(true));
    let or = ComposedExpression::Or(vec![errs(), is_string("$.s")]);
    assert_eq!(or.evaluate(&on), Err(ChoiceEvaluationError::ValueNotFound));
    let not = ComposedExpression::Not(errs());
    assert_eq!(not.evaluate(&on), Err(ChoiceEvaluationError::ValueNotFound));
}

#[test]
fn rules_and_expressions() {
    let on = input(r#"{"s": "m", "n": 10}"#);
    let rule = ChoiceRule {
        expression: ChoiceExpression::ComposedExpression(ComposedExpression::Not(is_string("$.n"))),
        next: "N".to_string(),
    };
    assert_eq!(rule.evaluate(&on), Ok(true));
    let call = ChoiceExpression::BooleanExpression {
        variable: DynamicValue::IntrinsicFunction(IntrinsicFunction::Unregistered("f()".into())),
        operation: Operation::IsPresent,
    };
    assert_eq!(
        call.evaluate(&on),
        Err(ChoiceEvaluationError::EvaluateError(
            DynamicValueEvaluateError::IntrinsicFunctionExecutionError(
                IntrinsicFunctionExecutionError::WrongArguments
            )
        ))
    );
}

#[test]
fn messages_of_choice_errors() {
    assert_eq!(ChoiceEvaluationError::ValueNotFound.message(), "Value not found from input");
    assert_eq!(
        ChoiceEvaluationError::WrongType { val: number(1), expected_type: "string".into() }.message(),
        "Wrong type for value 'Number(1)', expected a 'string'"
    );
    assert_eq!(
        ChoiceEvaluationError::ParseTimestampError("bad".into()).message(),
        "Can't parse the string into timestamp: bad"
    );
}

#[test]
fn match_string_and_number() {
    assert_eq!(match_string(Some(text("a")), "b", Comparison::LessThan), Ok(true));
    assert_eq!(match_string(Some(text("b")), "b", Comparison::GreaterThanEquals), Ok(true));
    assert_eq!(match_string(None, "b", Comparison::Equals), Err(ChoiceEvaluationError::ValueNotFound));
    assert_eq!(
        match_string(Some(number(1)), "b", Comparison::Equals),
        Err(ChoiceEvaluationError::WrongType { val: number(1), expected_type: "string".into() })
    );
    assert_eq!(match_number(Some(number(2)), JsonNumber::PosInt(3), Comparison::LessThan), Ok(true));
    assert_eq!(
        match_number(Some(number(3)), JsonNumber::Float("3.0".into()), Comparison::Equals),
        Ok(true)
    );
    assert_eq!(
        match_number(None, JsonNumber::PosInt(3), Comparison::Equals),
        Err(ChoiceEvaluationError::ValueNotFound)
    );
    assert_eq!(
        match_number(Some(text("3")), JsonNumber::PosInt(3), Comparison::Equals),
        Err(ChoiceEvaluationError::WrongType { val: text("3"), expected_type: "number".into() })
    );
    let epoch = TimestampType { seconds: 0, nanos: 0 };
    assert_eq!(
        match_timestamp(Some(text("1970-01-01T00:00:00Z")), &epoch, Comparison::Equals),
        Ok(true)
    );
    assert_eq!(
        match_timestamp(Some(text("1969-12-31T23:59:59Z")), &epoch, Comparison::LessThan),
        Ok(true)
    );
}
