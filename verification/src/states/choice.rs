//! The choice state: rules that pick the next state by the input.

use crate::decode::{
    dynamic_of, flag_of, found_json, instant_of, number_of, option_view, read_dynamic, read_flag,
    read_instant, read_number, read_text, refuse, require, required, text_of, DecodeError,
};
use crate::glob::{glob_match, string_matches};
use crate::json::{
    array_json, json_debug_text, lemma_array_json, lemma_item_smaller, lemma_member_smaller,
    number_double_bits, Json, JsonNumber, JsonValue, Num,
};
use crate::number::{double_equal, double_less, double_rank, Comparison};
use crate::text::{join, lex_less, str_equal, str_less};
use crate::types::{
    option_json, DynamicValue, DynamicValueEvaluateError, DynamicValueView, ExecutionInput,
    TimestampType,
};
use vstd::prelude::*;

verus! {

/// A test on one value. A test whose name ends in `Path` takes what it
/// compares with from the input or the context.
#[derive(Debug, PartialEq, Eq)]
pub enum Operation {
    StringEquals(String),
    StringEqualsPath(DynamicValue),
    StringLessThan(String),
    StringLessThanPath(DynamicValue),
    StringGreaterThan(String),
    StringGreaterThanPath(DynamicValue),
    StringLessThanEquals(String),
    StringLessThanEqualsPath(DynamicValue),
    StringGreaterThanEquals(String),
    StringGreaterThanEqualsPath(DynamicValue),
    /// A pattern in which `*` stands for any run of characters, `\*` for a
    /// star and `\\` for a backslash.
    StringMatches(String),
    NumericEquals(JsonNumber),
    NumericEqualsPath(DynamicValue),
    NumericLessThan(JsonNumber),
    NumericLessThanPath(DynamicValue),
    NumericGreaterThan(JsonNumber),
    NumericGreaterThanPath(DynamicValue),
    NumericLessThanEquals(JsonNumber),
    NumericLessThanEqualsPath(DynamicValue),
    NumericGreaterThanEquals(JsonNumber),
    NumericGreaterThanEqualsPath(DynamicValue),
    BooleanEquals(bool),
    TimestampEquals(TimestampType),
    TimestampEqualsPath(DynamicValue),
    TimestampLessThan(TimestampType),
    TimestampLessThanPath(DynamicValue),
    TimestampGreaterThan(TimestampType),
    TimestampGreaterThanPath(DynamicValue),
    TimestampLessThanEquals(TimestampType),
    TimestampLessThanEqualsPath(DynamicValue),
    TimestampGreaterThanEquals(TimestampType),
    TimestampGreaterThanEqualsPath(DynamicValue),
    IsNull,
    IsPresent,
    IsNumeric,
    IsString,
    IsBoolean,
    IsTimestamp,
}

/// A test made of other tests.
#[derive(Debug, PartialEq, Eq)]
pub enum ComposedExpression {
    Not(Box<ChoiceExpression>),
    And(Vec<Box<ChoiceExpression>>),
    Or(Vec<Box<ChoiceExpression>>),
}

/// A test on the input of a choice state.
#[derive(Debug, PartialEq, Eq)]
pub enum ChoiceExpression {
    /// A test on the value that `variable` yields.
    BooleanExpression { variable: DynamicValue, operation: Operation },
    ComposedExpression(ComposedExpression),
}

/// A test, and the state that follows where it holds.
#[derive(Debug, PartialEq, Eq)]
pub struct ChoiceRule {
    pub expression: ChoiceExpression,
    pub next: String,
}

/// A state that hands over to the state of the first rule that holds, or
/// to its default.
#[derive(Debug, PartialEq, Eq)]
pub struct Choice {
    pub choices: Vec<ChoiceRule>,
    pub default: Option<String>,
    pub comment: Option<String>,
    pub input_path: Option<DynamicValue>,
    pub output_path: Option<DynamicValue>,
}

/// What an error of a test stands for in contracts.
pub enum ChoiceErrorView {
    WrongType { val: Json, expected_type: Seq<char> },
    ParseTimestampError(Seq<char>),
    EvaluateError(DynamicValueEvaluateError),
    ValueNotFound,
    MalformedStringMatches(Seq<char>),
}

/// Why a test could not be made.
#[derive(Debug, PartialEq, Eq)]
pub enum ChoiceEvaluationError {
    /// The value is not of the type that the test is for.
    WrongType { val: JsonValue, expected_type: String },
    /// The string that a path leads to is no timestamp; what the reader of
    /// timestamps said of it.
    ParseTimestampError(String),
    /// A path cannot be followed.
    EvaluateError(DynamicValueEvaluateError),
    /// A path leads nowhere.
    ValueNotFound,
    /// The pattern ends in a backslash that escapes nothing.
    MalformedStringMatches(String),
}

impl View for ChoiceEvaluationError {
    type V = ChoiceErrorView;

    open spec fn view(&self) -> ChoiceErrorView {
        match self {
            ChoiceEvaluationError::WrongType { val, expected_type } => ChoiceErrorView::WrongType {
                val: val@,
                expected_type: expected_type@,
            },
            ChoiceEvaluationError::ParseTimestampError(message) => ChoiceErrorView::ParseTimestampError(message@),
            ChoiceEvaluationError::EvaluateError(e) => ChoiceErrorView::EvaluateError(*e),
            ChoiceEvaluationError::ValueNotFound => ChoiceErrorView::ValueNotFound,
            ChoiceEvaluationError::MalformedStringMatches(pattern) => ChoiceErrorView::MalformedStringMatches(pattern@),
        }
    }
}

impl ChoiceErrorView {
    /// The error in words.
    pub open spec fn message(self) -> Seq<char> {
        match self {
            ChoiceErrorView::WrongType { val, expected_type } => "Wrong type for value '"@
                + json_debug_text(val) + "', expected a '"@ + expected_type + "'"@,
            ChoiceErrorView::ParseTimestampError(message) =>
                "Can't parse the string into timestamp: "@ + message,
            ChoiceErrorView::EvaluateError(_) => "Evaluation error"@,
            ChoiceErrorView::ValueNotFound => "Value not found from input"@,
            ChoiceErrorView::MalformedStringMatches(pattern) => "Malformed pattern '"@ + pattern
                + "': it ends in a backslash"@,
        }
    }
}

impl ChoiceEvaluationError {
    /// The error in words.
    pub fn message(&self) -> (res: String)
        ensures
            res@ == self@.message(),
    {
        match self {
            ChoiceEvaluationError::WrongType { val, expected_type } => {
                let a = join("Wrong type for value '", val.to_debug_text().as_str());
                let b = join(a.as_str(), "', expected a '");
                let c = join(b.as_str(), expected_type.as_str());
                join(c.as_str(), "'")
            },
            ChoiceEvaluationError::ParseTimestampError(message) => join(
                "Can't parse the string into timestamp: ",
                message.as_str(),
            ),
            ChoiceEvaluationError::EvaluateError(_) => "Evaluation error".to_owned(),
            ChoiceEvaluationError::ValueNotFound => "Value not found from input".to_owned(),
            ChoiceEvaluationError::MalformedStringMatches(pattern) => {
                let a = join("Malformed pattern '", pattern.as_str());
                join(a.as_str(), "': it ends in a backslash")
            },
        }
    }
}

/// What the result of a test stands for.
pub open spec fn choice_result_view(res: Result<bool, ChoiceEvaluationError>) -> Result<
    bool,
    ChoiceErrorView,
> {
    match res {
        Ok(holds) => Ok(holds),
        Err(e) => Err(e@),
    }
}

/// That with which a test compares: a value of the definition, or the path
/// to one.
pub enum Operand<T> {
    Given(T),
    Path(DynamicValueView),
}

/// What a test does, apart from its name.
pub enum Test {
    /// Compares strings in the order of a dictionary.
    Text(Comparison, Operand<Seq<char>>),
    /// Compares numbers as doubles.
    Number(Comparison, Operand<Num>),
    /// Compares instants.
    Time(Comparison, Operand<TimestampType>),
    /// Holds a string against a pattern.
    Matches(Seq<char>),
    /// Compares with a truth value.
    Boolean(bool),
    IsNull,
    IsPresent,
    IsNumeric,
    IsString,
    IsBoolean,
    IsTimestamp,
}

/// The string with which a test compares on an input.
pub open spec fn text_operand(operand: Operand<Seq<char>>, value: Json, context: Json) -> Result<
    Seq<char>,
    ChoiceErrorView,
> {
    match operand {
        Operand::Given(text) => Ok(text),
        Operand::Path(path) => match path.evaluate(value, context) {
            Err(e) => Err(ChoiceErrorView::EvaluateError(e)),
            Ok(None) => Err(ChoiceErrorView::ValueNotFound),
            Ok(Some(Json::String(text))) => Ok(text),
            Ok(Some(other)) => Err(
                ChoiceErrorView::WrongType { val: other, expected_type: "string"@ },
            ),
        },
    }
}

/// The number with which a test compares on an input.
pub open spec fn number_operand(operand: Operand<Num>, value: Json, context: Json) -> Result<
    Num,
    ChoiceErrorView,
> {
    match operand {
        Operand::Given(number) => Ok(number),
        Operand::Path(path) => match path.evaluate(value, context) {
            Err(e) => Err(ChoiceErrorView::EvaluateError(e)),
            Ok(None) => Err(ChoiceErrorView::ValueNotFound),
            Ok(Some(Json::Number(number))) => Ok(number),
            Ok(Some(other)) => Err(
                ChoiceErrorView::WrongType { val: other, expected_type: "number"@ },
            ),
        },
    }
}

/// The instant with which a test compares on an input.
pub open spec fn time_operand(operand: Operand<TimestampType>, value: Json, context: Json) -> Result<
    TimestampType,
    ChoiceErrorView,
> {
    match operand {
        Operand::Given(instant) => Ok(instant),
        Operand::Path(path) => match path.evaluate(value, context) {
            Err(e) => Err(ChoiceErrorView::EvaluateError(e)),
            Ok(None) => Err(ChoiceErrorView::ValueNotFound),
            Ok(Some(Json::String(text))) => match TimestampType::read(text) {
                Ok(instant) => Ok(instant),
                Err(message) => Err(ChoiceErrorView::ParseTimestampError(message)),
            },
            Ok(Some(other)) => Err(
                ChoiceErrorView::WrongType { val: other, expected_type: "timestamp"@ },
            ),
        },
    }
}

/// Whether a comparison holds of two numbers, taken as doubles. A number
/// that is none as a double has the wrong type.
pub open spec fn compare_numbers(comparison: Comparison, a: Num, b: Num) -> Result<
    bool,
    ChoiceErrorView,
> {
    match number_double_bits(a) {
        None => Err(ChoiceErrorView::WrongType { val: Json::Number(a), expected_type: "f64"@ }),
        Some(x) => match number_double_bits(b) {
            None => Err(
                ChoiceErrorView::WrongType { val: Json::Number(b), expected_type: "f64"@ },
            ),
            Some(y) => Ok(
                comparison.holds(double_rank(x) < double_rank(y), double_rank(x) == double_rank(y)),
            ),
        },
    }
}

/// Whether a comparison holds of a value that has to be a string, and of
/// the string `expected`, in the order of a dictionary. It errs where there
/// is no value, or one that is no string.
pub open spec fn matched_string(found: Option<Json>, expected: Seq<char>, comparison: Comparison) -> Result<
    bool,
    ChoiceErrorView,
> {
    match found {
        None => Err(ChoiceErrorView::ValueNotFound),
        Some(Json::String(text)) => Ok(comparison.holds(lex_less(text, expected), text == expected)),
        Some(other) => Err(ChoiceErrorView::WrongType { val: other, expected_type: "string"@ }),
    }
}

/// Whether a comparison holds of a value that has to be a number, and of
/// the number `expected`, both taken as doubles. It errs where there is no
/// value, or one that is no number.
pub open spec fn matched_number(found: Option<Json>, expected: Num, comparison: Comparison) -> Result<
    bool,
    ChoiceErrorView,
> {
    match found {
        None => Err(ChoiceErrorView::ValueNotFound),
        Some(Json::Number(number)) => compare_numbers(comparison, number, expected),
        Some(other) => Err(ChoiceErrorView::WrongType { val: other, expected_type: "number"@ }),
    }
}

/// Whether a comparison holds of a value that has to be a string with an
/// RFC 3339 timestamp, and of the instant `expected`. It errs where there
/// is no value, or one that is no such string.
pub open spec fn matched_timestamp(
    found: Option<Json>,
    expected: TimestampType,
    comparison: Comparison,
) -> Result<bool, ChoiceErrorView> {
    match found {
        None => Err(ChoiceErrorView::ValueNotFound),
        Some(Json::String(text)) => match TimestampType::read(text) {
            Ok(instant) => Ok(comparison.holds(instant.spec_before(expected), instant == expected)),
            Err(_) => Err(
                ChoiceErrorView::WrongType {
                    val: Json::String(text),
                    expected_type: "timestamp"@,
                },
            ),
        },
        Some(other) => Err(ChoiceErrorView::WrongType { val: other, expected_type: "timestamp"@ }),
    }
}

impl Test {
    /// Whether the test asks only what kind of value there is, so that it
    /// fails, rather than errs, where there is none.
    pub open spec fn asks_kind(self) -> bool {
        self is IsNull || self is IsPresent || self is IsNumeric || self is IsString
            || self is IsBoolean || self is IsTimestamp
    }

    /// Whether the test holds of the value `found` on an input. Without a
    /// value a test of kind fails and any other test errs. A comparison
    /// first settles that with which it compares, and errs where that, or
    /// the value, is not of its type.
    pub open spec fn check(self, found: Option<Json>, value: Json, context: Json) -> Result<
        bool,
        ChoiceErrorView,
    > {
        match found {
            None => if self.asks_kind() {
                Ok(false)
            } else {
                Err(ChoiceErrorView::ValueNotFound)
            },
            Some(v) => match self {
                Test::IsPresent => Ok(true),
                Test::IsNull => Ok(v is Null),
                Test::IsNumeric => Ok(v is Number),
                Test::IsString => Ok(v is String),
                Test::IsBoolean => Ok(v is Bool),
                Test::IsTimestamp => Ok(v is String && TimestampType::read(v->String_0) is Ok),
                Test::Boolean(expected) => match v {
                    Json::Bool(b) => Ok(b == expected),
                    _ => Err(ChoiceErrorView::WrongType { val: v, expected_type: "boolean"@ }),
                },
                Test::Matches(pattern) => match v {
                    Json::String(text) => match string_matches(pattern, text) {
                        Some(holds) => Ok(holds),
                        None => Err(ChoiceErrorView::MalformedStringMatches(pattern)),
                    },
                    _ => Err(ChoiceErrorView::WrongType { val: v, expected_type: "string"@ }),
                },
                Test::Text(comparison, operand) => match text_operand(operand, value, context) {
                    Ok(expected) => matched_string(found, expected, comparison),
                    Err(e) => Err(e),
                },
                Test::Number(comparison, operand) => match number_operand(
                    operand,
                    value,
                    context,
                ) {
                    Ok(expected) => matched_number(found, expected, comparison),
                    Err(e) => Err(e),
                },
                Test::Time(comparison, operand) => match time_operand(operand, value, context) {
                    Ok(expected) => matched_timestamp(found, expected, comparison),
                    Err(e) => Err(e),
                },
            },
        }
    }
}

impl Operation {
    /// What the test does, apart from its name.
    pub open spec fn test(self) -> Test {
        match self {
            Operation::StringEquals(t) => Test::Text(Comparison::Equals, Operand::Given(t@)),
            Operation::StringEqualsPath(p) => Test::Text(Comparison::Equals, Operand::Path(p@)),
            Operation::StringLessThan(t) => Test::Text(Comparison::LessThan, Operand::Given(t@)),
            Operation::StringLessThanPath(p) => Test::Text(Comparison::LessThan, Operand::Path(p@)),
            Operation::StringGreaterThan(t) => Test::Text(Comparison::GreaterThan, Operand::Given(t@)),
            Operation::StringGreaterThanPath(p) => Test::Text(Comparison::GreaterThan, Operand::Path(p@)),
            Operation::StringLessThanEquals(t) => Test::Text(Comparison::LessThanEquals, Operand::Given(t@)),
            Operation::StringLessThanEqualsPath(p) => Test::Text(Comparison::LessThanEquals, Operand::Path(p@)),
            Operation::StringGreaterThanEquals(t) => Test::Text(Comparison::GreaterThanEquals, Operand::Given(t@)),
            Operation::StringGreaterThanEqualsPath(p) => Test::Text(Comparison::GreaterThanEquals, Operand::Path(p@)),
            Operation::StringMatches(pattern) => Test::Matches(pattern@),
            Operation::NumericEquals(n) => Test::Number(Comparison::Equals, Operand::Given(n@)),
            Operation::NumericEqualsPath(p) => Test::Number(Comparison::Equals, Operand::Path(p@)),
            Operation::NumericLessThan(n) => Test::Number(Comparison::LessThan, Operand::Given(n@)),
            Operation::NumericLessThanPath(p) => Test::Number(Comparison::LessThan, Operand::Path(p@)),
            Operation::NumericGreaterThan(n) => Test::Number(Comparison::GreaterThan, Operand::Given(n@)),
            Operation::NumericGreaterThanPath(p) => Test::Number(Comparison::GreaterThan, Operand::Path(p@)),
            Operation::NumericLessThanEquals(n) => Test::Number(Comparison::LessThanEquals, Operand::Given(n@)),
            Operation::NumericLessThanEqualsPath(p) => Test::Number(Comparison::LessThanEquals, Operand::Path(p@)),
            Operation::NumericGreaterThanEquals(n) => Test::Number(Comparison::GreaterThanEquals, Operand::Given(n@)),
            Operation::NumericGreaterThanEqualsPath(p) => Test::Number(Comparison::GreaterThanEquals, Operand::Path(p@)),
            Operation::BooleanEquals(b) => Test::Boolean(b),
            Operation::TimestampEquals(t) => Test::Time(Comparison::Equals, Operand::Given(t)),
            Operation::TimestampEqualsPath(p) => Test::Time(Comparison::Equals, Operand::Path(p@)),
            Operation::TimestampLessThan(t) => Test::Time(Comparison::LessThan, Operand::Given(t)),
            Operation::TimestampLessThanPath(p) => Test::Time(Comparison::LessThan, Operand::Path(p@)),
            Operation::TimestampGreaterThan(t) => Test::Time(Comparison::GreaterThan, Operand::Given(t)),
            Operation::TimestampGreaterThanPath(p) => Test::Time(Comparison::GreaterThan, Operand::Path(p@)),
            Operation::TimestampLessThanEquals(t) => Test::Time(Comparison::LessThanEquals, Operand::Given(t)),
            Operation::TimestampLessThanEqualsPath(p) => Test::Time(Comparison::LessThanEquals, Operand::Path(p@)),
            Operation::TimestampGreaterThanEquals(t) => Test::Time(Comparison::GreaterThanEquals, Operand::Given(t)),
            Operation::TimestampGreaterThanEqualsPath(p) => Test::Time(Comparison::GreaterThanEquals, Operand::Path(p@)),
            Operation::IsNull => Test::IsNull,
            Operation::IsPresent => Test::IsPresent,
            Operation::IsNumeric => Test::IsNumeric,
            Operation::IsString => Test::IsString,
            Operation::IsBoolean => Test::IsBoolean,
            Operation::IsTimestamp => Test::IsTimestamp,
        }
    }
}

/// That with which a test compares, as the definition holds it.
pub enum OperandRef<'a, T> {
    Given(&'a T),
    Path(&'a DynamicValue),
}

/// What a test does, as the definition holds it.
pub enum TestRef<'a> {
    Text(Comparison, OperandRef<'a, String>),
    Number(Comparison, OperandRef<'a, JsonNumber>),
    Time(Comparison, OperandRef<'a, TimestampType>),
    Matches(&'a String),
    Boolean(bool),
    IsNull,
    IsPresent,
    IsNumeric,
    IsString,
    IsBoolean,
    IsTimestamp,
}

impl<'a> View for TestRef<'a> {
    type V = Test;

    open spec fn view(&self) -> Test {
        match self {
            TestRef::Text(c, OperandRef::Given(t)) => Test::Text(*c, Operand::Given(t@)),
            TestRef::Text(c, OperandRef::Path(p)) => Test::Text(*c, Operand::Path(p@)),
            TestRef::Number(c, OperandRef::Given(n)) => Test::Number(*c, Operand::Given(n@)),
            TestRef::Number(c, OperandRef::Path(p)) => Test::Number(*c, Operand::Path(p@)),
            TestRef::Time(c, OperandRef::Given(t)) => Test::Time(*c, Operand::Given(**t)),
            TestRef::Time(c, OperandRef::Path(p)) => Test::Time(*c, Operand::Path(p@)),
            TestRef::Matches(pattern) => Test::Matches(pattern@),
            TestRef::Boolean(b) => Test::Boolean(*b),
            TestRef::IsNull => Test::IsNull,
            TestRef::IsPresent => Test::IsPresent,
            TestRef::IsNumeric => Test::IsNumeric,
            TestRef::IsString => Test::IsString,
            TestRef::IsBoolean => Test::IsBoolean,
            TestRef::IsTimestamp => Test::IsTimestamp,
        }
    }
}

/// An error of the wrong type for `val`.
fn wrong_type(val: JsonValue, expected_type: &str) -> (res: ChoiceEvaluationError)
    ensures
        res@ == (ChoiceErrorView::WrongType { val: val@, expected_type: expected_type@ }),
{
    ChoiceEvaluationError::WrongType { val, expected_type: expected_type.to_owned() }
}

/// The value that a path of a test leads to on `input`.
fn operand_value(path: &DynamicValue, input: &ExecutionInput) -> (res: Result<
    JsonValue,
    ChoiceEvaluationError,
>)
    ensures
        match path@.evaluate(input.value@, input.context@) {
            Err(e) => res matches Err(err) && err@ == ChoiceErrorView::EvaluateError(e),
            Ok(None) => res matches Err(err) && err@ == ChoiceErrorView::ValueNotFound,
            Ok(Some(found)) => res matches Ok(v) && v@ == found,
        },
{
    match path.evaluate(input) {
        Err(e) => Err(ChoiceEvaluationError::EvaluateError(e)),
        Ok(None) => Err(ChoiceEvaluationError::ValueNotFound),
        Ok(Some(found)) => Ok(found),
    }
}

/// What the result of settling an operand stands for.
pub open spec fn operand_view<T: View>(res: Result<T, ChoiceEvaluationError>) -> Result<
    T::V,
    ChoiceErrorView,
> {
    match res {
        Ok(value) => Ok(value@),
        Err(e) => Err(e@),
    }
}

/// Whether a comparison holds of a value that has to be a string, and of
/// the string `expected`.
pub fn match_string(value: Option<JsonValue>, expected: &str, comparison: Comparison) -> (res: Result<
    bool,
    ChoiceEvaluationError,
>)
    ensures
        choice_result_view(res) == matched_string(option_json(value), expected@, comparison),
{
    match value {
        None => Err(ChoiceEvaluationError::ValueNotFound),
        Some(JsonValue::String(text)) => Ok(
            comparison.decide(str_less(text.as_str(), expected), str_equal(text.as_str(), expected)),
        ),
        Some(other) => Err(wrong_type(other, "string")),
    }
}

/// Whether a comparison holds of a value that has to be a number, and of
/// the number `expected`, both taken as doubles.
pub fn match_number(value: Option<JsonValue>, expected: JsonNumber, comparison: Comparison) -> (res:
    Result<bool, ChoiceEvaluationError>)
    ensures
        choice_result_view(res) == matched_number(option_json(value), expected@, comparison),
{
    match value {
        None => Err(ChoiceEvaluationError::ValueNotFound),
        Some(JsonValue::Number(number)) => match number.double_bits() {
            None => Err(wrong_type(JsonValue::Number(number), "f64")),
            Some(x) => match expected.double_bits() {
                None => Err(wrong_type(JsonValue::Number(expected), "f64")),
                Some(y) => Ok(comparison.decide(double_less(x, y), double_equal(x, y))),
            },
        },
        Some(other) => Err(wrong_type(other, "number")),
    }
}

/// Whether a comparison holds of a value that has to be a string with an
/// RFC 3339 timestamp, and of the instant `expected`.
pub fn match_timestamp(
    value: Option<JsonValue>,
    expected: &TimestampType,
    comparison: Comparison,
) -> (res: Result<bool, ChoiceEvaluationError>)
    ensures
        choice_result_view(res) == matched_timestamp(option_json(value), *expected, comparison),
{
    match value {
        None => Err(ChoiceEvaluationError::ValueNotFound),
        Some(JsonValue::String(text)) => match TimestampType::from_str(text.as_str()) {
            Ok(instant) => Ok(comparison.decide(instant.before(expected), instant == *expected)),
            Err(_) => Err(wrong_type(JsonValue::String(text), "timestamp")),
        },
        Some(other) => Err(wrong_type(other, "timestamp")),
    }
}

impl<'a> TestRef<'a> {
    /// The string with which the test compares on `input`.
    fn text_operand(operand: &OperandRef<'a, String>, input: &ExecutionInput) -> (res: Result<
        String,
        ChoiceEvaluationError,
    >)
        ensures
            operand_view(res) == text_operand(
                match operand {
                    OperandRef::Given(t) => Operand::Given(t@),
                    OperandRef::Path(p) => Operand::Path(p@),
                },
                input.value@,
                input.context@,
            ),
    {
        match operand {
            OperandRef::Given(text) => Ok((*text).clone()),
            OperandRef::Path(path) => match operand_value(path, input) {
                Err(e) => Err(e),
                Ok(JsonValue::String(text)) => Ok(text),
                Ok(other) => Err(wrong_type(other, "string")),
            },
        }
    }

    /// The number with which the test compares on `input`.
    fn number_operand(operand: &OperandRef<'a, JsonNumber>, input: &ExecutionInput) -> (res:
        Result<JsonNumber, ChoiceEvaluationError>)
        ensures
            operand_view(res) == number_operand(
                match operand {
                    OperandRef::Given(n) => Operand::Given(n@),
                    OperandRef::Path(p) => Operand::Path(p@),
                },
                input.value@,
                input.context@,
            ),
    {
        match operand {
            OperandRef::Given(number) => Ok((*number).clone()),
            OperandRef::Path(path) => match operand_value(path, input) {
                Err(e) => Err(e),
                Ok(JsonValue::Number(number)) => Ok(number),
                Ok(other) => Err(wrong_type(other, "number")),
            },
        }
    }

    /// The instant with which the test compares on `input`.
    fn time_operand(operand: &OperandRef<'a, TimestampType>, input: &ExecutionInput) -> (res:
        Result<TimestampType, ChoiceEvaluationError>)
        ensures
            match time_operand(
                match operand {
                    OperandRef::Given(t) => Operand::Given(**t),
                    OperandRef::Path(p) => Operand::Path(p@),
                },
                input.value@,
                input.context@,
            ) {
                Ok(instant) => res == Ok::<TimestampType, ChoiceEvaluationError>(instant),
                Err(e) => res matches Err(err) && err@ == e,
            },
    {
        match operand {
            OperandRef::Given(instant) => Ok(**instant),
            OperandRef::Path(path) => match operand_value(path, input) {
                Err(e) => Err(e),
                Ok(JsonValue::String(text)) => match TimestampType::from_str(text.as_str()) {
                    Ok(instant) => Ok(instant),
                    Err(e) => Err(ChoiceEvaluationError::ParseTimestampError(e.message)),
                },
                Ok(other) => Err(wrong_type(other, "timestamp")),
            },
        }
    }

    /// Whether the test holds of the value `found` on `input`.
    pub fn check(&self, found: Option<JsonValue>, input: &ExecutionInput) -> (res: Result<
        bool,
        ChoiceEvaluationError,
    >)
        ensures
            choice_result_view(res) == self@.check(
                option_json(found),
                input.value@,
                input.context@,
            ),
    {
        match found {
            None => match self {
                TestRef::IsNull | TestRef::IsPresent | TestRef::IsNumeric | TestRef::IsString
                | TestRef::IsBoolean | TestRef::IsTimestamp => Ok(false),
                _ => Err(ChoiceEvaluationError::ValueNotFound),
            },
            Some(v) => match self {
                TestRef::IsPresent => Ok(true),
                TestRef::IsNull => Ok(v.is_null()),
                TestRef::IsNumeric => Ok(v.as_number().is_some()),
                TestRef::IsString => Ok(v.as_str().is_some()),
                TestRef::IsBoolean => Ok(v.as_bool().is_some()),
                TestRef::IsTimestamp => match v.as_str() {
                    Some(text) => Ok(TimestampType::from_str(text.as_str()).is_ok()),
                    None => Ok(false),
                },
                TestRef::Boolean(expected) => match v {
                    JsonValue::Bool(b) => Ok(b == *expected),
                    other => Err(wrong_type(other, "boolean")),
                },
                TestRef::Matches(pattern) => match v {
                    JsonValue::String(text) => match glob_match(pattern.as_str(), text.as_str()) {
                        Some(holds) => Ok(holds),
                        None => Err(
                            ChoiceEvaluationError::MalformedStringMatches((*pattern).clone()),
                        ),
                    },
                    other => Err(wrong_type(other, "string")),
                },
                TestRef::Text(comparison, operand) => match Self::text_operand(operand, input) {
                    Ok(expected) => match_string(Some(v), expected.as_str(), *comparison),
                    Err(e) => Err(e),
                },
                TestRef::Number(comparison, operand) => match Self::number_operand(operand, input) {
                    Ok(expected) => match_number(Some(v), expected, *comparison),
                    Err(e) => Err(e),
                },
                TestRef::Time(comparison, operand) => match Self::time_operand(operand, input) {
                    Ok(expected) => match_timestamp(Some(v), &expected, *comparison),
                    Err(e) => Err(e),
                },
            },
        }
    }
}

impl Operation {
    /// What the test does, apart from its name.
    pub fn as_test(&self) -> (res: TestRef<'_>)
        ensures
            res@ == self.test(),
    {
        match self {
            Operation::StringEquals(t) => TestRef::Text(Comparison::Equals, OperandRef::Given(t)),
            Operation::StringEqualsPath(p) => TestRef::Text(Comparison::Equals, OperandRef::Path(p)),
            Operation::StringLessThan(t) => TestRef::Text(Comparison::LessThan, OperandRef::Given(t)),
            Operation::StringLessThanPath(p) => TestRef::Text(Comparison::LessThan, OperandRef::Path(p)),
            Operation::StringGreaterThan(t) => TestRef::Text(Comparison::GreaterThan, OperandRef::Given(t)),
            Operation::StringGreaterThanPath(p) => TestRef::Text(Comparison::GreaterThan, OperandRef::Path(p)),
            Operation::StringLessThanEquals(t) => TestRef::Text(Comparison::LessThanEquals, OperandRef::Given(t)),
            Operation::StringLessThanEqualsPath(p) => TestRef::Text(Comparison::LessThanEquals, OperandRef::Path(p)),
            Operation::StringGreaterThanEquals(t) => TestRef::Text(Comparison::GreaterThanEquals, OperandRef::Given(t)),
            Operation::StringGreaterThanEqualsPath(p) => TestRef::Text(Comparison::GreaterThanEquals, OperandRef::Path(p)),
            Operation::StringMatches(pattern) => TestRef::Matches(pattern),
            Operation::NumericEquals(n) => TestRef::Number(Comparison::Equals, OperandRef::Given(n)),
            Operation::NumericEqualsPath(p) => TestRef::Number(Comparison::Equals, OperandRef::Path(p)),
            Operation::NumericLessThan(n) => TestRef::Number(Comparison::LessThan, OperandRef::Given(n)),
            Operation::NumericLessThanPath(p) => TestRef::Number(Comparison::LessThan, OperandRef::Path(p)),
            Operation::NumericGreaterThan(n) => TestRef::Number(Comparison::GreaterThan, OperandRef::Given(n)),
            Operation::NumericGreaterThanPath(p) => TestRef::Number(Comparison::GreaterThan, OperandRef::Path(p)),
            Operation::NumericLessThanEquals(n) => TestRef::Number(Comparison::LessThanEquals, OperandRef::Given(n)),
            Operation::NumericLessThanEqualsPath(p) => TestRef::Number(Comparison::LessThanEquals, OperandRef::Path(p)),
            Operation::NumericGreaterThanEquals(n) => TestRef::Number(Comparison::GreaterThanEquals, OperandRef::Given(n)),
            Operation::NumericGreaterThanEqualsPath(p) => TestRef::Number(Comparison::GreaterThanEquals, OperandRef::Path(p)),
            Operation::BooleanEquals(b) => TestRef::Boolean(*b),
            Operation::TimestampEquals(t) => TestRef::Time(Comparison::Equals, OperandRef::Given(t)),
            Operation::TimestampEqualsPath(p) => TestRef::Time(Comparison::Equals, OperandRef::Path(p)),
            Operation::TimestampLessThan(t) => TestRef::Time(Comparison::LessThan, OperandRef::Given(t)),
            Operation::TimestampLessThanPath(p) => TestRef::Time(Comparison::LessThan, OperandRef::Path(p)),
            Operation::TimestampGreaterThan(t) => TestRef::Time(Comparison::GreaterThan, OperandRef::Given(t)),
            Operation::TimestampGreaterThanPath(p) => TestRef::Time(Comparison::GreaterThan, OperandRef::Path(p)),
            Operation::TimestampLessThanEquals(t) => TestRef::Time(Comparison::LessThanEquals, OperandRef::Given(t)),
            Operation::TimestampLessThanEqualsPath(p) => TestRef::Time(Comparison::LessThanEquals, OperandRef::Path(p)),
            Operation::TimestampGreaterThanEquals(t) => TestRef::Time(Comparison::GreaterThanEquals, OperandRef::Given(t)),
            Operation::TimestampGreaterThanEqualsPath(p) => TestRef::Time(Comparison::GreaterThanEquals, OperandRef::Path(p)),
            Operation::IsNull => TestRef::IsNull,
            Operation::IsPresent => TestRef::IsPresent,
            Operation::IsNumeric => TestRef::IsNumeric,
            Operation::IsString => TestRef::IsString,
            Operation::IsBoolean => TestRef::IsBoolean,
            Operation::IsTimestamp => TestRef::IsTimestamp,
        }
    }

    /// Whether the test holds of `value`, which a variable yielded on
    /// `input`.
    pub fn evaluate(&self, value: Option<JsonValue>, input: &ExecutionInput) -> (res: Result<
        bool,
        ChoiceEvaluationError,
    >)
        ensures
            choice_result_view(res) == self.test().check(
                option_json(value),
                input.value@,
                input.context@,
            ),
    {
        self.as_test().check(value, input)
    }
}

/// Whether all of `expressions` hold on an input, asked in order up to the
/// first that fails or errs.
pub open spec fn all_hold(expressions: Seq<Box<ChoiceExpression>>, value: Json, context: Json) -> Result<
    bool,
    ChoiceErrorView,
>
    decreases expressions,
{
    if expressions.len() == 0 {
        Ok(true)
    } else {
        match expressions[0].holds(value, context) {
            Err(e) => Err(e),
            Ok(false) => Ok(false),
            Ok(true) => all_hold(expressions.drop_first(), value, context),
        }
    }
}

/// Whether one of `expressions` holds on an input, asked in order up to the
/// first that holds or errs.
pub open spec fn any_holds(expressions: Seq<Box<ChoiceExpression>>, value: Json, context: Json) -> Result<
    bool,
    ChoiceErrorView,
>
    decreases expressions,
{
    if expressions.len() == 0 {
        Ok(false)
    } else {
        match expressions[0].holds(value, context) {
            Err(e) => Err(e),
            Ok(true) => Ok(true),
            Ok(false) => any_holds(expressions.drop_first(), value, context),
        }
    }
}

impl ComposedExpression {
    /// Whether the test holds on an input.
    pub open spec fn holds(self, value: Json, context: Json) -> Result<bool, ChoiceErrorView>
        decreases self,
    {
        match self {
            ComposedExpression::Not(expression) => match expression.holds(value, context) {
                Ok(holds) => Ok(!holds),
                Err(e) => Err(e),
            },
            ComposedExpression::And(expressions) => all_hold(expressions@, value, context),
            ComposedExpression::Or(expressions) => any_holds(expressions@, value, context),
        }
    }

    /// Whether the test holds on `input`: `Not` turns its test around, `And`
    /// holds where all of its tests hold, `Or` where one of them does. `And`
    /// asks no test behind the first that fails, `Or` none behind the first
    /// that holds.
    #[verifier::loop_isolation(false)]
    pub fn evaluate(&self, input: &ExecutionInput) -> (res: Result<bool, ChoiceEvaluationError>)
        ensures
            choice_result_view(res) == self.holds(input.value@, input.context@),
        decreases self,
    {
        match self {
            ComposedExpression::Not(expression) => match expression.evaluate(input) {
                Ok(holds) => Ok(!holds),
                Err(e) => Err(e),
            },
            ComposedExpression::And(expressions) => {
                let mut i: usize = 0;
                assert(expressions@.skip(0) =~= expressions@);
                while i < expressions.len()
                    invariant
                        i <= expressions.len(),
                        all_hold(expressions@, input.value@, input.context@) == all_hold(
                            expressions@.skip(i as int),
                            input.value@,
                            input.context@,
                        ),
                    decreases expressions.len() - i,
                {
                    assert(expressions@.skip(i as int)[0] == expressions@[i as int]);
                    assert(expressions@.skip(i as int).drop_first() =~= expressions@.skip(i + 1));
                    match expressions[i].evaluate(input) {
                        Err(e) => {
                            return Err(e);
                        },
                        Ok(false) => {
                            return Ok(false);
                        },
                        Ok(true) => {},
                    }
                    i += 1;
                }
                Ok(true)
            },
            ComposedExpression::Or(expressions) => {
                let mut i: usize = 0;
                assert(expressions@.skip(0) =~= expressions@);
                while i < expressions.len()
                    invariant
                        i <= expressions.len(),
                        any_holds(expressions@, input.value@, input.context@) == any_holds(
                            expressions@.skip(i as int),
                            input.value@,
                            input.context@,
                        ),
                    decreases expressions.len() - i,
                {
                    assert(expressions@.skip(i as int)[0] == expressions@[i as int]);
                    assert(expressions@.skip(i as int).drop_first() =~= expressions@.skip(i + 1));
                    match expressions[i].evaluate(input) {
                        Err(e) => {
                            return Err(e);
                        },
                        Ok(true) => {
                            return Ok(true);
                        },
                        Ok(false) => {},
                    }
                    i += 1;
                }
                Ok(false)
            },
        }
    }
}

impl ChoiceExpression {
    /// Whether the test holds on an input.
    pub open spec fn holds(self, value: Json, context: Json) -> Result<bool, ChoiceErrorView>
        decreases self,
    {
        match self {
            ChoiceExpression::BooleanExpression { variable, operation } => match variable@.evaluate(
                value,
                context,
            ) {
                Err(e) => Err(ChoiceErrorView::EvaluateError(e)),
                Ok(found) => operation.test().check(found, value, context),
            },
            ChoiceExpression::ComposedExpression(expression) => expression.holds(value, context),
        }
    }

    /// Whether the test holds on `input`.
    pub fn evaluate(&self, input: &ExecutionInput) -> (res: Result<bool, ChoiceEvaluationError>)
        ensures
            choice_result_view(res) == self.holds(input.value@, input.context@),
        decreases self,
    {
        match self {
            ChoiceExpression::BooleanExpression { variable, operation } => match variable.evaluate(
                input,
            ) {
                Err(e) => Err(ChoiceEvaluationError::EvaluateError(e)),
                Ok(found) => operation.evaluate(found, input),
            },
            ChoiceExpression::ComposedExpression(expression) => expression.evaluate(input),
        }
    }
}

impl ChoiceRule {
    /// Whether the rule's test holds on an input.
    pub open spec fn holds(self, value: Json, context: Json) -> Result<bool, ChoiceErrorView> {
        self.expression.holds(value, context)
    }

    /// Whether the rule's test holds on `input`.
    pub fn evaluate(&self, input: &ExecutionInput) -> (res: Result<bool, ChoiceEvaluationError>)
        ensures
            choice_result_view(res) == self.holds(input.value@, input.context@),
    {
        self.expression.evaluate(input)
    }
}

/// How many tests on one value there are.
pub const OPERATIONS: usize = 38;

/// The name under which an object writes the test of place `k`.
pub open spec fn operation_name_at(k: int) -> Seq<char> {
    if k == 0 {
        "StringEquals"@
    } else if k == 1 {
        "StringEqualsPath"@
    } else if k == 2 {
        "StringLessThan"@
    } else if k == 3 {
        "StringLessThanPath"@
    } else if k == 4 {
        "StringGreaterThan"@
    } else if k == 5 {
        "StringGreaterThanPath"@
    } else if k == 6 {
        "StringLessThanEquals"@
    } else if k == 7 {
        "StringLessThanEqualsPath"@
    } else if k == 8 {
        "StringGreaterThanEquals"@
    } else if k == 9 {
        "StringGreaterThanEqualsPath"@
    } else if k == 10 {
        "StringMatches"@
    } else if k == 11 {
        "NumericEquals"@
    } else if k == 12 {
        "NumericEqualsPath"@
    } else if k == 13 {
        "NumericLessThan"@
    } else if k == 14 {
        "NumericLessThanPath"@
    } else if k == 15 {
        "NumericGreaterThan"@
    } else if k == 16 {
        "NumericGreaterThanPath"@
    } else if k == 17 {
        "NumericLessThanEquals"@
    } else if k == 18 {
        "NumericLessThanEqualsPath"@
    } else if k == 19 {
        "NumericGreaterThanEquals"@
    } else if k == 20 {
        "NumericGreaterThanEqualsPath"@
    } else if k == 21 {
        "BooleanEquals"@
    } else if k == 22 {
        "TimestampEquals"@
    } else if k == 23 {
        "TimestampEqualsPath"@
    } else if k == 24 {
        "TimestampLessThan"@
    } else if k == 25 {
        "TimestampLessThanPath"@
    } else if k == 26 {
        "TimestampGreaterThan"@
    } else if k == 27 {
        "TimestampGreaterThanPath"@
    } else if k == 28 {
        "TimestampLessThanEquals"@
    } else if k == 29 {
        "TimestampLessThanEqualsPath"@
    } else if k == 30 {
        "TimestampGreaterThanEquals"@
    } else if k == 31 {
        "TimestampGreaterThanEqualsPath"@
    } else if k == 32 {
        "IsNull"@
    } else if k == 33 {
        "IsPresent"@
    } else if k == 34 {
        "IsNumeric"@
    } else if k == 35 {
        "IsString"@
    } else if k == 36 {
        "IsBoolean"@
    } else {
        "IsTimestamp"@
    }
}

/// The name under which an object writes the test of place `k`.
pub fn operation_name(k: usize) -> (res: &'static str)
    requires
        k < OPERATIONS,
    ensures
        res@ == operation_name_at(k as int),
{
    if k == 0 {
        "StringEquals"
    } else if k == 1 {
        "StringEqualsPath"
    } else if k == 2 {
        "StringLessThan"
    } else if k == 3 {
        "StringLessThanPath"
    } else if k == 4 {
        "StringGreaterThan"
    } else if k == 5 {
        "StringGreaterThanPath"
    } else if k == 6 {
        "StringLessThanEquals"
    } else if k == 7 {
        "StringLessThanEqualsPath"
    } else if k == 8 {
        "StringGreaterThanEquals"
    } else if k == 9 {
        "StringGreaterThanEqualsPath"
    } else if k == 10 {
        "StringMatches"
    } else if k == 11 {
        "NumericEquals"
    } else if k == 12 {
        "NumericEqualsPath"
    } else if k == 13 {
        "NumericLessThan"
    } else if k == 14 {
        "NumericLessThanPath"
    } else if k == 15 {
        "NumericGreaterThan"
    } else if k == 16 {
        "NumericGreaterThanPath"
    } else if k == 17 {
        "NumericLessThanEquals"
    } else if k == 18 {
        "NumericLessThanEqualsPath"
    } else if k == 19 {
        "NumericGreaterThanEquals"
    } else if k == 20 {
        "NumericGreaterThanEqualsPath"
    } else if k == 21 {
        "BooleanEquals"
    } else if k == 22 {
        "TimestampEquals"
    } else if k == 23 {
        "TimestampEqualsPath"
    } else if k == 24 {
        "TimestampLessThan"
    } else if k == 25 {
        "TimestampLessThanPath"
    } else if k == 26 {
        "TimestampGreaterThan"
    } else if k == 27 {
        "TimestampGreaterThanPath"
    } else if k == 28 {
        "TimestampLessThanEquals"
    } else if k == 29 {
        "TimestampLessThanEqualsPath"
    } else if k == 30 {
        "TimestampGreaterThanEquals"
    } else if k == 31 {
        "TimestampGreaterThanEqualsPath"
    } else if k == 32 {
        "IsNull"
    } else if k == 33 {
        "IsPresent"
    } else if k == 34 {
        "IsNumeric"
    } else if k == 35 {
        "IsString"
    } else if k == 36 {
        "IsBoolean"
    } else {
        "IsTimestamp"
    }
}

impl Operation {
    /// The place of the test among all tests.
    pub open spec fn index(self) -> int {
        match self {
            Operation::StringEquals(_) => 0,
            Operation::StringEqualsPath(_) => 1,
            Operation::StringLessThan(_) => 2,
            Operation::StringLessThanPath(_) => 3,
            Operation::StringGreaterThan(_) => 4,
            Operation::StringGreaterThanPath(_) => 5,
            Operation::StringLessThanEquals(_) => 6,
            Operation::StringLessThanEqualsPath(_) => 7,
            Operation::StringGreaterThanEquals(_) => 8,
            Operation::StringGreaterThanEqualsPath(_) => 9,
            Operation::StringMatches(_) => 10,
            Operation::NumericEquals(_) => 11,
            Operation::NumericEqualsPath(_) => 12,
            Operation::NumericLessThan(_) => 13,
            Operation::NumericLessThanPath(_) => 14,
            Operation::NumericGreaterThan(_) => 15,
            Operation::NumericGreaterThanPath(_) => 16,
            Operation::NumericLessThanEquals(_) => 17,
            Operation::NumericLessThanEqualsPath(_) => 18,
            Operation::NumericGreaterThanEquals(_) => 19,
            Operation::NumericGreaterThanEqualsPath(_) => 20,
            Operation::BooleanEquals(_) => 21,
            Operation::TimestampEquals(_) => 22,
            Operation::TimestampEqualsPath(_) => 23,
            Operation::TimestampLessThan(_) => 24,
            Operation::TimestampLessThanPath(_) => 25,
            Operation::TimestampGreaterThan(_) => 26,
            Operation::TimestampGreaterThanPath(_) => 27,
            Operation::TimestampLessThanEquals(_) => 28,
            Operation::TimestampLessThanEqualsPath(_) => 29,
            Operation::TimestampGreaterThanEquals(_) => 30,
            Operation::TimestampGreaterThanEqualsPath(_) => 31,
            Operation::IsNull => 32,
            Operation::IsPresent => 33,
            Operation::IsNumeric => 34,
            Operation::IsString => 35,
            Operation::IsBoolean => 36,
            Operation::IsTimestamp => 37,
        }
    }

    /// Whether that with which the test compares is what a member holds: a
    /// string, a number, a truth value or a timestamp for a test that
    /// compares with one, the text of a path for a test whose name ends in
    /// `Path`, and `true` for a test that only asks what kind of value there
    /// is.
    pub open spec fn operand_decoded(self, held: Json) -> bool {
        match self {
            Operation::StringEquals(t) => text_of(Some(held)) == Some(Some(t@)),
            Operation::StringEqualsPath(p) => dynamic_of(Some(held)) == Some(Some(p@)),
            Operation::StringLessThan(t) => text_of(Some(held)) == Some(Some(t@)),
            Operation::StringLessThanPath(p) => dynamic_of(Some(held)) == Some(Some(p@)),
            Operation::StringGreaterThan(t) => text_of(Some(held)) == Some(Some(t@)),
            Operation::StringGreaterThanPath(p) => dynamic_of(Some(held)) == Some(Some(p@)),
            Operation::StringLessThanEquals(t) => text_of(Some(held)) == Some(Some(t@)),
            Operation::StringLessThanEqualsPath(p) => dynamic_of(Some(held)) == Some(Some(p@)),
            Operation::StringGreaterThanEquals(t) => text_of(Some(held)) == Some(Some(t@)),
            Operation::StringGreaterThanEqualsPath(p) => dynamic_of(Some(held)) == Some(Some(p@)),
            Operation::StringMatches(t) => text_of(Some(held)) == Some(Some(t@)),
            Operation::NumericEquals(n) => number_of(Some(held)) == Some(Some(n@)),
            Operation::NumericEqualsPath(p) => dynamic_of(Some(held)) == Some(Some(p@)),
            Operation::NumericLessThan(n) => number_of(Some(held)) == Some(Some(n@)),
            Operation::NumericLessThanPath(p) => dynamic_of(Some(held)) == Some(Some(p@)),
            Operation::NumericGreaterThan(n) => number_of(Some(held)) == Some(Some(n@)),
            Operation::NumericGreaterThanPath(p) => dynamic_of(Some(held)) == Some(Some(p@)),
            Operation::NumericLessThanEquals(n) => number_of(Some(held)) == Some(Some(n@)),
            Operation::NumericLessThanEqualsPath(p) => dynamic_of(Some(held)) == Some(Some(p@)),
            Operation::NumericGreaterThanEquals(n) => number_of(Some(held)) == Some(Some(n@)),
            Operation::NumericGreaterThanEqualsPath(p) => dynamic_of(Some(held)) == Some(Some(p@)),
            Operation::BooleanEquals(b) => flag_of(Some(held)) == Some(Some(b)),
            Operation::TimestampEquals(t) => instant_of(Some(held)) == Some(Some(t)),
            Operation::TimestampEqualsPath(p) => dynamic_of(Some(held)) == Some(Some(p@)),
            Operation::TimestampLessThan(t) => instant_of(Some(held)) == Some(Some(t)),
            Operation::TimestampLessThanPath(p) => dynamic_of(Some(held)) == Some(Some(p@)),
            Operation::TimestampGreaterThan(t) => instant_of(Some(held)) == Some(Some(t)),
            Operation::TimestampGreaterThanPath(p) => dynamic_of(Some(held)) == Some(Some(p@)),
            Operation::TimestampLessThanEquals(t) => instant_of(Some(held)) == Some(Some(t)),
            Operation::TimestampLessThanEqualsPath(p) => dynamic_of(Some(held)) == Some(Some(p@)),
            Operation::TimestampGreaterThanEquals(t) => instant_of(Some(held)) == Some(Some(t)),
            Operation::TimestampGreaterThanEqualsPath(p) => dynamic_of(Some(held)) == Some(Some(p@)),
            Operation::IsNull => held == Json::Bool(true),
            Operation::IsPresent => held == Json::Bool(true),
            Operation::IsNumeric => held == Json::Bool(true),
            Operation::IsString => held == Json::Bool(true),
            Operation::IsBoolean => held == Json::Bool(true),
            Operation::IsTimestamp => held == Json::Bool(true),
        }
    }

    /// Whether the test is what an object says, which writes exactly one
    /// test: the member of the test's name holds that with which it
    /// compares, and no other test is written.
    pub open spec fn decoded_from(self, json: Json) -> bool {
        &&& json.field(operation_name_at(self.index())) matches Some(held) && self.operand_decoded(
            held,
        )
        &&& forall|k: int|
            0 <= k < OPERATIONS && k != self.index() ==> (#[trigger] json.field(
                operation_name_at(k),
            )) is None
    }

    /// The test of place `k` that compares with what `held` holds.
    pub fn build(k: usize, held: &JsonValue) -> (res: Result<Operation, DecodeError>)
        requires
            k < OPERATIONS,
        ensures
            res matches Ok(operation) ==> operation.index() == k && operation.operand_decoded(held@),
            res is Err ==> forall|operation: Operation|
                operation.index() == k ==> !operation.operand_decoded(held@),
    {
        let name = operation_name(k);
        if k == 0 {
            Ok(Operation::StringEquals(require(read_text(Some(held), name)?, name)?))
        } else if k == 1 {
            Ok(Operation::StringEqualsPath(require(read_dynamic(Some(held), name)?, name)?))
        } else if k == 2 {
            Ok(Operation::StringLessThan(require(read_text(Some(held), name)?, name)?))
        } else if k == 3 {
            Ok(Operation::StringLessThanPath(require(read_dynamic(Some(held), name)?, name)?))
        } else if k == 4 {
            Ok(Operation::StringGreaterThan(require(read_text(Some(held), name)?, name)?))
        } else if k == 5 {
            Ok(Operation::StringGreaterThanPath(require(read_dynamic(Some(held), name)?, name)?))
        } else if k == 6 {
            Ok(Operation::StringLessThanEquals(require(read_text(Some(held), name)?, name)?))
        } else if k == 7 {
            Ok(Operation::StringLessThanEqualsPath(require(read_dynamic(Some(held), name)?, name)?))
        } else if k == 8 {
            Ok(Operation::StringGreaterThanEquals(require(read_text(Some(held), name)?, name)?))
        } else if k == 9 {
            Ok(Operation::StringGreaterThanEqualsPath(require(read_dynamic(Some(held), name)?, name)?))
        } else if k == 10 {
            Ok(Operation::StringMatches(require(read_text(Some(held), name)?, name)?))
        } else if k == 11 {
            Ok(Operation::NumericEquals(require(read_number(Some(held), name)?, name)?))
        } else if k == 12 {
            Ok(Operation::NumericEqualsPath(require(read_dynamic(Some(held), name)?, name)?))
        } else if k == 13 {
            Ok(Operation::NumericLessThan(require(read_number(Some(held), name)?, name)?))
        } else if k == 14 {
            Ok(Operation::NumericLessThanPath(require(read_dynamic(Some(held), name)?, name)?))
        } else if k == 15 {
            Ok(Operation::NumericGreaterThan(require(read_number(Some(held), name)?, name)?))
        } else if k == 16 {
            Ok(Operation::NumericGreaterThanPath(require(read_dynamic(Some(held), name)?, name)?))
        } else if k == 17 {
            Ok(Operation::NumericLessThanEquals(require(read_number(Some(held), name)?, name)?))
        } else if k == 18 {
            Ok(Operation::NumericLessThanEqualsPath(require(read_dynamic(Some(held), name)?, name)?))
        } else if k == 19 {
            Ok(Operation::NumericGreaterThanEquals(require(read_number(Some(held), name)?, name)?))
        } else if k == 20 {
            Ok(Operation::NumericGreaterThanEqualsPath(require(read_dynamic(Some(held), name)?, name)?))
        } else if k == 21 {
            Ok(Operation::BooleanEquals(require(read_flag(Some(held), name)?, name)?))
        } else if k == 22 {
            Ok(Operation::TimestampEquals(require(read_instant(Some(held), name)?, name)?))
        } else if k == 23 {
            Ok(Operation::TimestampEqualsPath(require(read_dynamic(Some(held), name)?, name)?))
        } else if k == 24 {
            Ok(Operation::TimestampLessThan(require(read_instant(Some(held), name)?, name)?))
        } else if k == 25 {
            Ok(Operation::TimestampLessThanPath(require(read_dynamic(Some(held), name)?, name)?))
        } else if k == 26 {
            Ok(Operation::TimestampGreaterThan(require(read_instant(Some(held), name)?, name)?))
        } else if k == 27 {
            Ok(Operation::TimestampGreaterThanPath(require(read_dynamic(Some(held), name)?, name)?))
        } else if k == 28 {
            Ok(Operation::TimestampLessThanEquals(require(read_instant(Some(held), name)?, name)?))
        } else if k == 29 {
            Ok(Operation::TimestampLessThanEqualsPath(require(read_dynamic(Some(held), name)?, name)?))
        } else if k == 30 {
            Ok(Operation::TimestampGreaterThanEquals(require(read_instant(Some(held), name)?, name)?))
        } else if k == 31 {
            Ok(Operation::TimestampGreaterThanEqualsPath(require(read_dynamic(Some(held), name)?, name)?))
        } else if k == 32 {
            match held {
                JsonValue::Bool(true) => Ok(Operation::IsNull),
                _ => refuse("Expected true in ", name),
            }
        } else if k == 33 {
            match held {
                JsonValue::Bool(true) => Ok(Operation::IsPresent),
                _ => refuse("Expected true in ", name),
            }
        } else if k == 34 {
            match held {
                JsonValue::Bool(true) => Ok(Operation::IsNumeric),
                _ => refuse("Expected true in ", name),
            }
        } else if k == 35 {
            match held {
                JsonValue::Bool(true) => Ok(Operation::IsString),
                _ => refuse("Expected true in ", name),
            }
        } else if k == 36 {
            match held {
                JsonValue::Bool(true) => Ok(Operation::IsBoolean),
                _ => refuse("Expected true in ", name),
            }
        } else {
            match held {
                JsonValue::Bool(true) => Ok(Operation::IsTimestamp),
                _ => refuse("Expected true in ", name),
            }
        }
    }

    /// Reads the test that the object of a rule writes.
    pub fn decode(json: &JsonValue) -> (res: Result<Operation, DecodeError>)
        ensures
            res matches Ok(operation) ==> operation.decoded_from(json@),
            res is Err ==> forall|operation: Operation| !operation.decoded_from(json@),
    {
        let mut found: Option<usize> = None;
        let mut k: usize = 0;
        while k < OPERATIONS
            invariant
                k <= OPERATIONS,
                match found {
                    Some(f) => f < k && json@.field(operation_name_at(f as int)) is Some
                        && forall|j: int|
                        0 <= j < k && j != f ==> (#[trigger] json@.field(operation_name_at(j)))
                            is None,
                    None => forall|j: int|
                        0 <= j < k ==> (#[trigger] json@.field(operation_name_at(j))) is None,
                },
            decreases OPERATIONS - k,
        {
            if json.field(operation_name(k)).is_some() {
                match found {
                    Some(f) => {
                        proof {
                            assert forall|operation: Operation| !operation.decoded_from(json@) by {
                                if operation.index() != f {
                                    assert(json@.field(operation_name_at(f as int)) is Some);
                                } else {
                                    assert(json@.field(operation_name_at(k as int)) is Some);
                                }
                            }
                        }
                        return refuse("Expected one comparison, found a second: ", operation_name(k));
                    },
                    None => {
                        found = Some(k);
                    },
                }
            }
            k += 1;
        }
        match found {
            None => {
                proof {
                    assert forall|operation: Operation| !operation.decoded_from(json@) by {
                        assert(0 <= operation.index() < OPERATIONS);
                        assert(json@.field(operation_name_at(operation.index())) is None);
                    }
                }
                refuse("Expected a comparison in ", "a choice rule")
            },
            Some(f) => match json.field(operation_name(f)) {
                None => refuse("Expected a comparison in ", "a choice rule"),
                Some(held) => {
                    let built = Operation::build(f, held);
                    proof {
                        if built is Err {
                            assert forall|operation: Operation| !operation.decoded_from(json@) by {
                                if operation.index() != f {
                                    assert(json@.field(operation_name_at(f as int)) is Some);
                                }
                            }
                        }
                    }
                    built
                },
            },
        }
    }
}

/// Whether tests are what the items of an array say, one for one.
pub open spec fn expressions_decoded(expressions: Seq<Box<ChoiceExpression>>, items: Seq<Json>) -> bool
    decreases expressions,
{
    &&& expressions.len() == items.len()
    &&& forall|i: int|
        0 <= i < expressions.len() ==> (#[trigger] expressions[i]).decoded_from(items[i])
}

impl ComposedExpression {
    /// Whether the test is what an object says, which has exactly one of the
    /// members `Not`, `And` and `Or`: `Not` holds the object of the test
    /// that is turned around, `And` and `Or` an array of the objects of their
    /// tests.
    pub open spec fn decoded_from(self, json: Json) -> bool
        decreases self,
    {
        match self {
            ComposedExpression::Not(expression) => {
                &&& json.field("Not"@) matches Some(held) && expression.decoded_from(held)
                &&& json.field("And"@) is None
                &&& json.field("Or"@) is None
            },
            ComposedExpression::And(expressions) => {
                &&& json.field("Not"@) is None
                &&& json.field("And"@) matches Some(Json::Array(items)) && expressions_decoded(
                    expressions@,
                    items,
                )
                &&& json.field("Or"@) is None
            },
            ComposedExpression::Or(expressions) => {
                &&& json.field("Not"@) is None
                &&& json.field("And"@) is None
                &&& json.field("Or"@) matches Some(Json::Array(items)) && expressions_decoded(
                    expressions@,
                    items,
                )
            },
        }
    }

    /// Reads the tests that the member `name` of a composed test holds.
    #[verifier::loop_isolation(false)]
    fn decode_list(held: &JsonValue, name: &str) -> (res: Result<
        Vec<Box<ChoiceExpression>>,
        DecodeError,
    >)
        ensures
            res matches Ok(list) ==> held@ is Array && expressions_decoded(list@, held@->Array_0),
            res is Err ==> !(held@ is Array) || forall|list: Seq<Box<ChoiceExpression>>|
                !expressions_decoded(list, held@->Array_0),
        decreases held@, 0int,
    {
        match held {
            JsonValue::Array(items) => {
                let ghost all = array_json(items@);
                proof {
                    lemma_array_json(items@);
                }
                let mut list: Vec<Box<ChoiceExpression>> = Vec::new();
                let mut i: usize = 0;
                while i < items.len()
                    invariant
                        i <= items.len(),
                        list.len() == i,
                        forall|k: int| 0 <= k < i ==> (#[trigger] list@[k]).decoded_from(all[k]),
                    decreases items.len() - i,
                {
                    proof {
                        lemma_item_smaller(held@, i as int);
                    }
                    match ChoiceExpression::decode(&items[i]) {
                        Ok(expression) => {
                            list.push(Box::new(expression));
                        },
                        Err(e) => {
                            proof {
                                assert forall|other: Seq<Box<ChoiceExpression>>|
                                    !expressions_decoded(other, all) by {
                                    if expressions_decoded(other, all) {
                                        assert(other[i as int].decoded_from(all[i as int]));
                                    }
                                }
                            }
                            return Err(e);
                        },
                    }
                    i += 1;
                }
                Ok(list)
            },
            _ => refuse("Expected an array in ", name),
        }
    }

    /// Reads a composed test from an object.
    pub fn decode(json: &JsonValue) -> (res: Result<ComposedExpression, DecodeError>)
        ensures
            res matches Ok(expression) ==> expression.decoded_from(json@),
            res is Err ==> forall|expression: ComposedExpression| !expression.decoded_from(json@),
        decreases json@, 1int,
    {
        let not = json.field("Not");
        let and = json.field("And");
        let or = json.field("Or");
        proof {
            lemma_member_smaller(json@, "Not"@);
            lemma_member_smaller(json@, "And"@);
            lemma_member_smaller(json@, "Or"@);
        }
        match (not, and, or) {
            (Some(held), None, None) => match ChoiceExpression::decode(held) {
                Ok(expression) => Ok(ComposedExpression::Not(Box::new(expression))),
                Err(e) => {
                    proof {
                        assert forall|other: ComposedExpression| !other.decoded_from(json@) by {
                            if let ComposedExpression::Not(inner) = other {
                                assert(!(*inner).decoded_from(held@));
                            }
                        }
                    }
                    Err(e)
                },
            },
            (None, Some(held), None) => match Self::decode_list(held, "And") {
                Ok(list) => Ok(ComposedExpression::And(list)),
                Err(e) => {
                    proof {
                        assert forall|other: ComposedExpression| !other.decoded_from(json@) by {
                            if let ComposedExpression::And(inner) = other {
                                if held@ is Array {
                                    assert(!expressions_decoded(inner@, held@->Array_0));
                                }
                            }
                        }
                    }
                    Err(e)
                },
            },
            (None, None, Some(held)) => match Self::decode_list(held, "Or") {
                Ok(list) => Ok(ComposedExpression::Or(list)),
                Err(e) => {
                    proof {
                        assert forall|other: ComposedExpression| !other.decoded_from(json@) by {
                            if let ComposedExpression::Or(inner) = other {
                                if held@ is Array {
                                    assert(!expressions_decoded(inner@, held@->Array_0));
                                }
                            }
                        }
                    }
                    Err(e)
                },
            },
            _ => refuse("Expected exactly one of Variable, Not, And and ", "Or"),
        }
    }
}

impl ChoiceExpression {
    /// Whether the test is what an object says: an object with a member
    /// `Variable` is a test on the value of that variable, and writes exactly
    /// one such test; any other object is a composed test.
    pub open spec fn decoded_from(self, json: Json) -> bool
        decreases self,
    {
        &&& json is Object
        &&& match self {
            ChoiceExpression::BooleanExpression { variable, operation } => {
                &&& required(dynamic_of(json.field("Variable"@))) == Some(variable@)
                &&& operation.decoded_from(json)
            },
            ChoiceExpression::ComposedExpression(expression) => {
                &&& json.field("Variable"@) is None
                &&& expression.decoded_from(json)
            },
        }
    }

    /// Reads a test from an object.
    pub fn decode(json: &JsonValue) -> (res: Result<ChoiceExpression, DecodeError>)
        ensures
            res matches Ok(expression) ==> expression.decoded_from(json@),
            res is Err ==> forall|expression: ChoiceExpression| !expression.decoded_from(json@),
        decreases json@, 2int,
    {
        if !json.is_object() {
            return refuse("Expected an object for ", "a choice rule");
        }
        let variable = json.field("Variable");
        if variable.is_some() {
            let variable = require(read_dynamic(variable, "Variable")?, "Variable")?;
            let operation = Operation::decode(json)?;
            Ok(ChoiceExpression::BooleanExpression { variable, operation })
        } else {
            match ComposedExpression::decode(json) {
                Ok(expression) => Ok(ChoiceExpression::ComposedExpression(expression)),
                Err(e) => {
                    proof {
                        assert forall|other: ChoiceExpression| !other.decoded_from(json@) by {
                            if let ChoiceExpression::ComposedExpression(inner) = other {
                                assert(!inner.decoded_from(json@));
                            }
                        }
                    }
                    Err(e)
                },
            }
        }
    }
}

impl ChoiceRule {
    /// Whether the rule is what an object says: the object writes the test,
    /// and its member `Next` names the state that follows where it holds.
    pub open spec fn decoded_from(self, json: Json) -> bool {
        &&& self.expression.decoded_from(json)
        &&& required(text_of(json.field("Next"@))) == Some(self.next@)
    }

    /// Reads a rule from an object.
    pub fn decode(json: &JsonValue) -> (res: Result<ChoiceRule, DecodeError>)
        ensures
            res matches Ok(rule) ==> rule.decoded_from(json@),
            res is Err ==> forall|rule: ChoiceRule| !rule.decoded_from(json@),
    {
        let expression = ChoiceExpression::decode(json)?;
        let next = require(read_text(json.field("Next"), "Next")?, "Next")?;
        Ok(ChoiceRule { expression, next })
    }
}

/// Whether rules are what the member `Choices` says, which has to hold an
/// array with an object for each of them.
pub open spec fn rules_decoded(rules: Seq<ChoiceRule>, found: Option<Json>) -> bool {
    found matches Some(Json::Array(items)) && rules.len() == items.len() && forall|i: int|
        0 <= i < items.len() ==> (#[trigger] rules[i]).decoded_from(items[i])
}

/// The rules that the member `Choices` holds.
#[verifier::loop_isolation(false)]
pub fn read_rules(found: Option<&JsonValue>) -> (res: Result<Vec<ChoiceRule>, DecodeError>)
    ensures
        res matches Ok(rules) ==> rules_decoded(rules@, found_json(found)),
        res is Err ==> forall|rules: Seq<ChoiceRule>| !rules_decoded(rules, found_json(found)),
{
    match found {
        Some(JsonValue::Array(items)) => {
            let ghost all = array_json(items@);
            proof {
                lemma_array_json(items@);
            }
            let mut list: Vec<ChoiceRule> = Vec::new();
            let mut i: usize = 0;
            while i < items.len()
                invariant
                    i <= items.len(),
                    list.len() == i,
                    forall|k: int| 0 <= k < i ==> (#[trigger] list@[k]).decoded_from(all[k]),
                decreases items.len() - i,
            {
                match ChoiceRule::decode(&items[i]) {
                    Ok(rule) => {
                        list.push(rule);
                    },
                    Err(e) => {
                        proof {
                            assert forall|rules: Seq<ChoiceRule>|
                                !rules_decoded(rules, found_json(found)) by {
                                if rules_decoded(rules, found_json(found)) {
                                    assert(rules[i as int].decoded_from(all[i as int]));
                                }
                            }
                        }
                        return Err(e);
                    },
                }
                i += 1;
            }
            Ok(list)
        },
        _ => refuse("Expected an array in ", "Choices"),
    }
}

impl Choice {
    /// Whether the state is what an object says: `Choices` holds its rules,
    /// `Default` the name of its default, and `Comment`, `InputPath` and
    /// `OutputPath` what the fields of their names hold.
    pub open spec fn decoded_from(self, json: Json) -> bool {
        &&& json is Object
        &&& rules_decoded(self.choices@, json.field("Choices"@))
        &&& text_of(json.field("Default"@)) == Some(option_view(self.default))
        &&& text_of(json.field("Comment"@)) == Some(option_view(self.comment))
        &&& dynamic_of(json.field("InputPath"@)) == Some(option_view(self.input_path))
        &&& dynamic_of(json.field("OutputPath"@)) == Some(option_view(self.output_path))
    }

    /// Reads a choice state from the object of a state.
    pub fn decode(json: &JsonValue) -> (res: Result<Choice, DecodeError>)
        ensures
            res matches Ok(choice) ==> choice.decoded_from(json@),
            res is Err ==> forall|choice: Choice| !choice.decoded_from(json@),
    {
        if !json.is_object() {
            return refuse("Expected an object for ", "a choice state");
        }
        let choices = read_rules(json.field("Choices"))?;
        let default = read_text(json.field("Default"), "Default")?;
        let comment = read_text(json.field("Comment"), "Comment")?;
        let input_path = read_dynamic(json.field("InputPath"), "InputPath")?;
        let output_path = read_dynamic(json.field("OutputPath"), "OutputPath")?;
        Ok(Choice { choices, default, comment, input_path, output_path })
    }
}

} // verus!
