//! Values that a definition leaves open until a state runs: paths into the
//! input or the context, literal values, timestamps.

use crate::intrinsic_functions::{IntrinsicFunction, IntrinsicFunctionExecutionError};
use crate::json::{
    array_json, lemma_array_json, steps_view, to_outside, Json, JsonValue, PathStep, Step,
};
use crate::text::chars_of;
use serde_json_path::{JsonPath, PathElement};
use vstd::prelude::*;
use vstd::string::StrSliceExecFns;

verus! {

/// What `chrono` reads an RFC 3339 text as: the instant that it names, in
/// whole seconds since the start of 1970 in UTC and the nanoseconds after
/// them, or what `chrono` says of a text that names none.
pub uninterp spec fn rfc3339_read(text: Seq<char>) -> Result<(i64, u32), Seq<char>>;

/// What `serde_json_path` makes of a text: a JSONPath query, or what it says
/// of a text that is none.
pub uninterp spec fn json_path_read(text: Seq<char>) -> Result<(), Seq<char>>;

/// Whether a text ends inside a `\u` escape: in a backslash and `u`, or in
/// a backslash, `u` and `D` or `d`. No JSONPath query ends so, since a
/// backslash stands only inside a quoted name, behind which the closing
/// quote has to follow; and `serde_json_path` does not return from such a
/// text, so none is handed to it.
pub open spec fn open_escape(text: Seq<char>) -> bool {
    let n = text.len() as int;
    ||| n >= 2 && text[n - 2] == '\\' && text[n - 1] == 'u'
    ||| n >= 3 && text[n - 3] == '\\' && text[n - 2] == 'u' && (text[n - 1] == 'D' || text[n - 1]
        == 'd')
}

/// What a text is read as where a JSONPath query is asked for: a text that
/// ends inside a `\u` escape is refused at once; of any other text
/// `serde_json_path` says whether it is a query.
pub open spec fn path_read(text: Seq<char>) -> Result<(), Seq<char>> {
    if open_escape(text) {
        Err("the text ends inside an escape"@)
    } else {
        json_path_read(text)
    }
}

/// Whether a text is a JSONPath query.
pub open spec fn json_path_valid(text: Seq<char>) -> bool {
    path_read(text) is Ok
}

/// What the result of reading a text stands for.
pub open spec fn read_view<T>(res: Result<T, String>) -> Result<T, Seq<char>> {
    match res {
        Ok(value) => Ok(value),
        Err(message) => Err(message@),
    }
}

/// The places of the nodes that the JSONPath query `path` selects in
/// `document`, in the order in which `serde_json_path` finds them, each as
/// the steps from the root.
pub uninterp spec fn json_path_locations(path: Seq<char>, document: Json) -> Seq<Seq<Step>>;

/// `chrono::DateTime::parse_from_rfc3339`, then `timestamp` and
/// `timestamp_subsec_nanos` of what it read, or the text of its error.
#[verifier::external_body]
fn read_rfc3339(text: &str) -> (res: Result<(i64, u32), String>)
    ensures
        read_view(res) == rfc3339_read(text@),
{
    chrono::DateTime::parse_from_rfc3339(text).map(
        |t| (t.timestamp(), t.timestamp_subsec_nanos()),
    ).map_err(|e| e.to_string())
}

/// `chrono::Utc::now`, then `timestamp` and `timestamp_subsec_nanos` of it.
/// Of the clock only this is known: `Utc::now` makes the instant from the
/// time that has passed since the start of 1970, as whole seconds and the
/// part of a second behind them, so its nanoseconds never reach a whole
/// second and never stand for a leap second.
#[verifier::external_body]
fn read_clock() -> (res: (i64, u32))
    ensures
        res.1 < 1_000_000_000,
{
    let now = chrono::Utc::now();
    (now.timestamp(), now.timestamp_subsec_nanos())
}

/// `serde_json_path::JsonPath::parse`: whether the text is a query, and the
/// text of the error where it is none. A text that ends inside a `\u`
/// escape is kept from it: on such a text its parser asks for more input,
/// which `parse` answers by a panic.
#[verifier::external_body]
fn check_json_path(text: &str) -> (res: Result<(), String>)
    requires
        !open_escape(text@),
    ensures
        read_view(res) == json_path_read(text@),
{
    JsonPath::parse(text).map(|_| ()).map_err(|e| e.to_string())
}

/// `serde_json_path::JsonPath::query_located` on the document, then the
/// `locations` of what it found, each element of a location turned into a
/// `PathStep`. The text is compiled by `JsonPath::parse`, which is given
/// only a text that it has accepted before.
#[verifier::external_body]
fn locate(path: &str, document: &JsonValue) -> (res: Vec<Vec<PathStep>>)
    requires
        !open_escape(path@),
        json_path_read(path@) is Ok,
    ensures
        locations_view(res@) == json_path_locations(path@, document@),
{
    let outside = to_outside(document);
    JsonPath::parse(path).map_or(Vec::new(), |p| p.query_located(&outside).locations().map(|l|
        l.iter().map(|e| match e {
            PathElement::Name(name) => PathStep::Key(name.to_string()),
            PathElement::Index(index) => PathStep::Index(*index),
        }).collect()
    ).collect())
}

/// The places that a vector of locations stands for.
pub open spec fn locations_view(locations: Seq<Vec<PathStep>>) -> Seq<Seq<Step>> {
    Seq::new(locations.len(), |i: int| steps_view(locations[i]@))
}

/// An instant in UTC: whole seconds since the start of 1970, and the
/// nanoseconds after them. A leap second is written as a count of
/// nanoseconds of a thousand million or more.
#[derive(Debug, PartialEq, Eq, Clone, Copy, Structural)]
pub struct TimestampType {
    pub seconds: i64,
    pub nanos: u32,
}

/// Why a text is no timestamp.
#[derive(Debug, PartialEq, Eq)]
pub struct DateTimeParseError {
    /// What the reader of timestamps said of the text.
    pub message: String,
}

impl TimestampType {
    /// The nanoseconds from the start of 1970 to the instant.
    pub open spec fn total_nanos(self) -> int {
        self.seconds * 1_000_000_000 + self.nanos
    }

    /// The whole milliseconds from `now` until the instant: none where the
    /// instant is not after `now`, and no more than a `u64` holds.
    pub open spec fn spec_millis_until(self, now: TimestampType) -> int {
        let nanos = self.total_nanos() - now.total_nanos();
        if nanos <= 0 {
            0
        } else if nanos / 1_000_000 > u64::MAX {
            u64::MAX as int
        } else {
            nanos / 1_000_000
        }
    }

    /// Whether the instant comes before `other`.
    pub open spec fn spec_before(self, other: TimestampType) -> bool {
        self.seconds < other.seconds || (self.seconds == other.seconds && self.nanos < other.nanos)
    }

    /// What an RFC 3339 text is read as: the instant that it names, or why
    /// it names none.
    pub open spec fn read(text: Seq<char>) -> Result<TimestampType, Seq<char>> {
        match rfc3339_read(text) {
            Ok(instant) => Ok(TimestampType { seconds: instant.0, nanos: instant.1 }),
            Err(message) => Err(message),
        }
    }

    /// The instant that an RFC 3339 text names.
    pub fn from_str(s: &str) -> (res: Result<TimestampType, DateTimeParseError>)
        ensures
            match Self::read(s@) {
                Ok(instant) => res == Ok::<TimestampType, DateTimeParseError>(instant),
                Err(message) => res matches Err(e) && e.message@ == message,
            },
    {
        match read_rfc3339(s) {
            Ok(instant) => Ok(TimestampType { seconds: instant.0, nanos: instant.1 }),
            Err(message) => Err(DateTimeParseError { message }),
        }
    }

    /// The instant that the clock shows. The clock counts no leap seconds:
    /// the nanoseconds of the instant are fewer than a second holds.
    pub fn now() -> (res: TimestampType)
        ensures
            res.nanos < 1_000_000_000,
    {
        let instant = read_clock();
        TimestampType { seconds: instant.0, nanos: instant.1 }
    }

    /// The whole milliseconds from `now` until the instant, none where the
    /// instant has passed.
    pub fn millis_until(&self, now: &TimestampType) -> (res: u64)
        ensures
            res == self.spec_millis_until(*now),
    {
        let target: i128 = self.seconds as i128 * 1_000_000_000 + self.nanos as i128;
        let start: i128 = now.seconds as i128 * 1_000_000_000 + now.nanos as i128;
        let nanos: i128 = target - start;
        if nanos <= 0 {
            0
        } else {
            let millis: i128 = nanos / 1_000_000;
            if millis > u64::MAX as i128 {
                u64::MAX
            } else {
                millis as u64
            }
        }
    }

    /// The whole milliseconds from the instant that the clock shows until
    /// this one, none where this one has passed.
    pub fn millis_to_now(&self) -> (res: u64)
        ensures
            exists|now: TimestampType|
                now.nanos < 1_000_000_000 && res == #[trigger] self.spec_millis_until(now),
    {
        let now = TimestampType::now();
        self.millis_until(&now)
    }

    /// Whether the instant comes before `other`.
    pub fn before(&self, other: &TimestampType) -> (res: bool)
        ensures
            res == self.spec_before(*other),
    {
        self.seconds < other.seconds || (self.seconds == other.seconds && self.nanos < other.nanos)
    }
}

/// An instant that has come waits for nothing: where the instant is not
/// after `now`, no millisecond is left until it; and whatever the two
/// instants, the wait is not negative.
pub proof fn lemma_past_instant_waits_nothing(t: TimestampType, now: TimestampType)
    ensures
        t.spec_millis_until(now) >= 0,
        t.total_nanos() <= now.total_nanos() ==> t.spec_millis_until(now) == 0,
{
}

/// Why a text is no JSONPath query.
#[derive(Debug, PartialEq, Eq)]
pub struct JsonPathParseError {
    /// What the reader of queries said of the text.
    pub message: String,
}

/// A JSONPath query that was checked when it was read.
#[derive(Debug, PartialEq, Eq)]
pub struct MyJsonPath {
    path: String,
}

impl View for MyJsonPath {
    type V = Seq<char>;

    /// The text of the query.
    closed spec fn view(&self) -> Seq<char> {
        self.path@
    }
}

/// What a query returns for the nodes that it selected: nothing for none,
/// the node itself for one, and for more an array of them.
pub open spec fn wrap_results(nodes: Seq<Json>) -> Option<Json> {
    if nodes.len() == 0 {
        None
    } else if nodes.len() == 1 {
        Some(nodes[0])
    } else {
        Some(Json::Array(nodes))
    }
}

/// The nodes of `document` at `locations`; a location that leads nowhere
/// adds none.
pub open spec fn nodes_at(document: Json, locations: Seq<Seq<Step>>) -> Seq<Json>
    decreases locations.len(),
{
    if locations.len() == 0 {
        Seq::empty()
    } else {
        let rest = nodes_at(document, locations.drop_last());
        match document.at(locations.last()) {
            Some(node) => rest.push(node),
            None => rest,
        }
    }
}

/// What the JSONPath query `path` returns on `document`.
pub open spec fn path_result(path: Seq<char>, document: Json) -> Option<Json> {
    wrap_results(nodes_at(document, json_path_locations(path, document)))
}

/// The document that an optional value stands for.
pub open spec fn option_json(value: Option<JsonValue>) -> Option<Json> {
    match value {
        Some(v) => Some(v@),
        None => None,
    }
}

/// Whether a text ends inside a `\u` escape.
pub fn ends_in_open_escape(text: &str) -> (res: bool)
    ensures
        res == open_escape(text@),
{
    let chars = chars_of(text);
    let n = chars.len();
    (n >= 2 && chars[n - 2] == '\\' && chars[n - 1] == 'u') || (n >= 3 && chars[n - 3] == '\\'
        && chars[n - 2] == 'u' && (chars[n - 1] == 'D' || chars[n - 1] == 'd'))
}

impl MyJsonPath {
    /// Every path is a query: its text was accepted when it was read.
    #[verifier::type_invariant]
    spec fn accepted(self) -> bool {
        path_read(self.path@) is Ok
    }

    /// Reads a JSONPath query, and refuses a text that is none.
    pub fn from_str(s: &str) -> (res: Result<MyJsonPath, JsonPathParseError>)
        ensures
            match path_read(s@) {
                Ok(_) => res matches Ok(path) && path@ == s@,
                Err(message) => res matches Err(e) && e.message@ == message,
            },
    {
        if ends_in_open_escape(s) {
            return Err(JsonPathParseError { message: "the text ends inside an escape".to_owned() });
        }
        match check_json_path(s) {
            Ok(_) => Ok(MyJsonPath { path: s.to_owned() }),
            Err(message) => Err(JsonPathParseError { message }),
        }
    }

    /// The text of the query.
    pub fn as_str(&self) -> (res: &str)
        ensures
            res@ == self@,
            path_read(res@) is Ok,
    {
        proof {
            use_type_invariant(self);
        }
        self.path.as_str()
    }

    /// What the query returns on `value`: nothing where it selects no node,
    /// the node where it selects one, an array of the nodes where it selects
    /// more.
    pub fn evaluate(&self, value: &JsonValue) -> (res: Option<JsonValue>)
        ensures
            option_json(res) == path_result(self@, value@),
    {
        proof {
            use_type_invariant(self);
        }
        let locations = locate(self.path.as_str(), value);
        let nodes = collect_nodes(value, &locations);
        wrap_nodes(nodes)
    }
}

/// Copies of the nodes of `document` at `locations`; a location that leads
/// nowhere adds none.
pub fn collect_nodes(document: &JsonValue, locations: &Vec<Vec<PathStep>>) -> (res: Vec<JsonValue>)
    ensures
        array_json(res@) == nodes_at(document@, locations_view(locations@)),
{
    let ghost all = locations_view(locations@);
    let mut nodes: Vec<JsonValue> = Vec::new();
    let mut i: usize = 0;
    proof {
        lemma_array_json(nodes@);
        assert(all.take(0) =~= Seq::empty());
    }
    while i < locations.len()
        invariant
            i <= locations.len(),
            all == locations_view(locations@),
            array_json(nodes@) == nodes_at(document@, all.take(i as int)),
        decreases locations.len() - i,
    {
        let ghost before = nodes@;
        let found = document.descend(&locations[i]);
        proof {
            assert(all.take(i + 1).drop_last() =~= all.take(i as int));
            assert(all.take(i + 1).last() == steps_view(locations@[i as int]@));
        }
        match found {
            Some(node) => {
                nodes.push(node.clone());
                proof {
                    lemma_array_json(before);
                    lemma_array_json(nodes@);
                    assert(array_json(nodes@) =~= array_json(
                        before,
                    ).push(node@));
                }
            },
            None => {},
        }
        i += 1;
    }
    assert(all.take(i as int) =~= all);
    nodes
}

/// What a query returns for the nodes that it selected: nothing for none,
/// the node itself for one, and for more an array of them.
pub fn wrap_nodes(nodes: Vec<JsonValue>) -> (res: Option<JsonValue>)
    ensures
        option_json(res) == wrap_results(array_json(nodes@)),
{
    let mut nodes = nodes;
    proof {
        lemma_array_json(nodes@);
    }
    if nodes.len() > 1 {
        Some(JsonValue::Array(nodes))
    } else {
        match nodes.pop() {
            Some(node) => Some(node),
            None => None,
        }
    }
}

/// Why a dynamic value has no value.
#[derive(Debug, PartialEq, Eq, Clone, Copy, Structural)]
pub enum DynamicValueEvaluateError {
    /// A call of an intrinsic function failed.
    IntrinsicFunctionExecutionError(IntrinsicFunctionExecutionError),
}

impl DynamicValueEvaluateError {
    /// The error in words.
    pub open spec fn spec_message(self) -> Seq<char> {
        "error is IntrinsicFunctionExecutionError"@
    }

    /// The error in words.
    pub fn message(&self) -> (res: String)
        ensures
            res@ == self.spec_message(),
    {
        "error is IntrinsicFunctionExecutionError".to_owned()
    }
}

/// A path into the context object.
#[derive(Debug, PartialEq, Eq)]
pub enum ContextJsonPath {
    /// The path, written from the root of the context object.
    Path(MyJsonPath),
}

/// The source of the state machine's context object. The object is never
/// changed: a context shows the same document whenever it is asked.
pub trait StateMachineContext {
    /// The context object as a document.
    spec fn json(&self) -> Json;

    /// The context object.
    fn as_value(&self) -> (value: &JsonValue)
        ensures
            value@ == self.json(),
    ;
}

/// A context that holds `null`, for machines that need none.
pub struct EmptyContext {}

impl StateMachineContext for EmptyContext {
    open spec fn json(&self) -> Json {
        Json::Null
    }

    fn as_value(&self) -> (value: &JsonValue) {
        &JsonValue::Null
    }
}

/// What a state works on: the input value and the context object.
#[derive(Debug, PartialEq, Eq)]
pub struct ExecutionInput {
    pub value: JsonValue,
    pub context: JsonValue,
}

/// What a dynamic value stands for in contracts.
pub enum DynamicValueView {
    ValueJsonPath(Seq<char>),
    Context(Seq<char>),
    Value(Json),
    IntrinsicFunction(Seq<char>),
}

/// A value that is settled when a state runs.
#[derive(Debug, PartialEq, Eq)]
pub enum DynamicValue {
    /// A path into the input.
    ValueJsonPath(MyJsonPath),
    /// A path into the context object.
    Context(MyJsonPath),
    /// A literal value.
    Value(JsonValue),
    /// A call of an intrinsic function.
    IntrinsicFunction(IntrinsicFunction),
}

impl View for DynamicValue {
    type V = DynamicValueView;

    open spec fn view(&self) -> DynamicValueView {
        match self {
            DynamicValue::ValueJsonPath(path) => DynamicValueView::ValueJsonPath(path@),
            DynamicValue::Context(path) => DynamicValueView::Context(path@),
            DynamicValue::Value(value) => DynamicValueView::Value(value@),
            DynamicValue::IntrinsicFunction(IntrinsicFunction::Unregistered(text)) => DynamicValueView::IntrinsicFunction(text@),
        }
    }
}

impl DynamicValueView {
    /// What a text is read as: a text that begins with `$$` is a path into
    /// the context, written from its second character on; any other that
    /// begins with `$` is a path into the input; any other is a call of an
    /// intrinsic function where the registry knows it, and else a literal
    /// string. A path that is no JSONPath query is refused, with what the
    /// reader of queries says of it.
    pub open spec fn classify(text: Seq<char>) -> Result<DynamicValueView, Seq<char>> {
        if text.len() >= 2 && text[0] == '$' && text[1] == '$' {
            match path_read(text.skip(1)) {
                Ok(_) => Ok(DynamicValueView::Context(text.skip(1))),
                Err(message) => Err(message),
            }
        } else if text.len() >= 1 && text[0] == '$' {
            match path_read(text) {
                Ok(_) => Ok(DynamicValueView::ValueJsonPath(text)),
                Err(message) => Err(message),
            }
        } else if IntrinsicFunction::recognized(text) {
            Ok(DynamicValueView::IntrinsicFunction(text))
        } else {
            Ok(DynamicValueView::Value(Json::String(text)))
        }
    }

    /// The value on an input and a context: what the path returns on its
    /// document, or the literal; a call of an intrinsic function fails.
    pub open spec fn evaluate(self, value: Json, context: Json) -> Result<
        Option<Json>,
        DynamicValueEvaluateError,
    > {
        match self {
            DynamicValueView::ValueJsonPath(path) => Ok(path_result(path, value)),
            DynamicValueView::Context(path) => Ok(path_result(path, context)),
            DynamicValueView::Value(literal) => Ok(Some(literal)),
            DynamicValueView::IntrinsicFunction(_) => Err(
                DynamicValueEvaluateError::IntrinsicFunctionExecutionError(
                    IntrinsicFunctionExecutionError::WrongArguments,
                ),
            ),
        }
    }
}

/// What the result of evaluating a dynamic value stands for.
pub open spec fn evaluated_view(res: Result<Option<JsonValue>, DynamicValueEvaluateError>) -> Result<
    Option<Json>,
    DynamicValueEvaluateError,
> {
    match res {
        Ok(value) => Ok(option_json(value)),
        Err(e) => Err(e),
    }
}

impl DynamicValue {
    /// Reads a dynamic value from the text of a definition.
    pub fn from_str(s: &str) -> (res: Result<DynamicValue, JsonPathParseError>)
        ensures
            match DynamicValueView::classify(s@) {
                Ok(kind) => res matches Ok(value) && value@ == kind,
                Err(message) => res matches Err(e) && e.message@ == message,
            },
    {
        let chars = chars_of(s);
        if chars.len() >= 2 && chars[0] == '$' && chars[1] == '$' {
            let rest = s.substring_char(1, chars.len());
            assert(rest@ =~= s@.skip(1));
            match MyJsonPath::from_str(rest) {
                Ok(path) => Ok(DynamicValue::Context(path)),
                Err(e) => Err(e),
            }
        } else if chars.len() >= 1 && chars[0] == '$' {
            match MyJsonPath::from_str(s) {
                Ok(path) => Ok(DynamicValue::ValueJsonPath(path)),
                Err(e) => Err(e),
            }
        } else {
            match IntrinsicFunction::try_from(s) {
                Ok(function) => Ok(DynamicValue::IntrinsicFunction(function)),
                Err(_) => Ok(DynamicValue::Value(JsonValue::String(s.to_owned()))),
            }
        }
    }

    /// The value on `input`.
    pub fn evaluate(&self, input: &ExecutionInput) -> (res: Result<
        Option<JsonValue>,
        DynamicValueEvaluateError,
    >)
        ensures
            evaluated_view(res) == self@.evaluate(input.value@, input.context@),
    {
        match self {
            DynamicValue::ValueJsonPath(path) => Ok(path.evaluate(&input.value)),
            DynamicValue::Context(path) => Ok(path.evaluate(&input.context)),
            DynamicValue::Value(value) => Ok(Some(value.clone())),
            DynamicValue::IntrinsicFunction(function) => match function.evaluate(&input.value) {
                Ok(value) => Ok(value),
                Err(e) => Err(DynamicValueEvaluateError::IntrinsicFunctionExecutionError(e)),
            },
        }
    }
}

/// Every text is read as at most one kind of dynamic value, and the text
/// alone says which: `$$…` a path into the context, written from its second
/// character on, `$…` a path into the input, any other a literal string with
/// the same characters. A text is refused only where it begins with `$` and
/// its path is no JSONPath query.
pub proof fn lemma_classification(text: Seq<char>)
    ensures
        DynamicValueView::classify(text) is Err ==> text.len() >= 1 && text[0] == '$',
        DynamicValueView::classify(text) matches Ok(kind) ==> {
            &&& kind is Context <==> text.len() >= 2 && text[0] == '$' && text[1] == '$'
            &&& kind is ValueJsonPath <==> text.len() >= 1 && text[0] == '$' && !(text.len() >= 2
                && text[1] == '$')
            &&& kind is Value <==> !(text.len() >= 1 && text[0] == '$')
            &&& !(kind is IntrinsicFunction)
            &&& kind is Context ==> kind == DynamicValueView::Context(text.skip(1))
            &&& kind is ValueJsonPath ==> kind == DynamicValueView::ValueJsonPath(text)
            &&& kind is Value ==> kind == DynamicValueView::Value(Json::String(text))
        },
{
}

/// A path that selects one node and yields it unchanged.
pub type ReferenceJsonPath = String;

/// A path that names the place of a value rather than the value.
pub type InvertedJsonPath = String;

/// A document in which a name that ends in `.$` stands for a path.
pub type Payload = JsonValue;

/// The parameters of a state.
pub type Parameters = Payload;

/// The selector that shapes a state's result.
pub type ResultSelector = Payload;

} // verus!
