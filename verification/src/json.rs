//! JSON documents as plain data.
//!
//! `JsonValue` is the value that flows through a state machine: inputs,
//! task results, contexts. Its view, `Json`, is the mathematical document
//! that every contract in this crate speaks of.

use crate::text::str_equal;
use serde_json::Value;
use vstd::prelude::*;

verus! {

/// `serde_json::Value`, of which nothing is known here: a document is
/// turned into one only to be handed to `serde_json` or `serde_json_path`.
#[verifier::external_type_specification]
#[verifier::external_body]
pub struct ExValue(Value);

/// What a `JsonNumber` stands for in contracts.
pub enum Num {
    PosInt(u64),
    NegInt(i64),
    Float(Seq<char>),
}

/// A JSON number: a non-negative integer, a negative integer, or any other
/// number, held as the decimal text in which it is written.
#[derive(Debug, PartialEq, Eq)]
pub enum JsonNumber {
    PosInt(u64),
    NegInt(i64),
    Float(String),
}

impl View for JsonNumber {
    type V = Num;

    open spec fn view(&self) -> Num {
        match self {
            JsonNumber::PosInt(n) => Num::PosInt(*n),
            JsonNumber::NegInt(n) => Num::NegInt(*n),
            JsonNumber::Float(text) => Num::Float(text@),
        }
    }
}

impl Clone for JsonNumber {
    fn clone(&self) -> (res: Self)
        ensures
            res@ == self@,
    {
        match self {
            JsonNumber::PosInt(n) => JsonNumber::PosInt(*n),
            JsonNumber::NegInt(n) => JsonNumber::NegInt(*n),
            JsonNumber::Float(text) => JsonNumber::Float(text.clone()),
        }
    }
}

/// What a `JsonValue` stands for in contracts. The members of an object keep
/// the order in which they were written.
pub enum Json {
    Null,
    Bool(bool),
    Number(Num),
    String(Seq<char>),
    Array(Seq<Json>),
    Object(Seq<(Seq<char>, Json)>),
}

/// One step from a document into one of its children.
pub enum Step {
    Key(Seq<char>),
    Index(nat),
}

impl Json {
    /// The position of the member that `key` names: where a key is written
    /// more than once, the last one counts.
    pub open spec fn member_index(members: Seq<(Seq<char>, Json)>, key: Seq<char>) -> Option<int>
        decreases members.len(),
    {
        if members.len() == 0 {
            None
        } else if members.last().0 == key {
            Some(members.len() - 1)
        } else {
            Self::member_index(members.drop_last(), key)
        }
    }

    /// The member of an object that `key` names.
    pub open spec fn member(self, key: Seq<char>) -> Option<Json> {
        match self {
            Json::Object(members) => match Self::member_index(members, key) {
                Some(i) => Some(members[i].1),
                None => None,
            },
            _ => None,
        }
    }

    /// The element of an array at position `index`.
    pub open spec fn element(self, index: nat) -> Option<Json> {
        match self {
            Json::Array(items) => if index < items.len() {
                Some(items[index as int])
            } else {
                None
            },
            _ => None,
        }
    }

    /// The child that one step leads to.
    pub open spec fn child(self, step: Step) -> Option<Json> {
        match step {
            Step::Key(key) => self.member(key),
            Step::Index(index) => self.element(index),
        }
    }

    /// The node that a sequence of steps leads to, starting here.
    pub open spec fn at(self, steps: Seq<Step>) -> Option<Json>
        decreases steps.len(),
    {
        if steps.len() == 0 {
            Some(self)
        } else {
            match self.child(steps[0]) {
                Some(next) => next.at(steps.drop_first()),
                None => None,
            }
        }
    }
}

/// A member of an object is smaller than the object.
pub proof fn lemma_member_smaller(json: Json, key: Seq<char>)
    ensures
        json.member(key) matches Some(found) ==> decreases_to!(json => found),
{
    if let Json::Object(members) = json {
        lemma_member_index(members, key);
        if let Some(i) = Json::member_index(members, key) {
            assert(decreases_to!(members => members[i]));
        }
    }
}

/// The place that `member_index` gives lies within the members.
pub proof fn lemma_member_index(members: Seq<(Seq<char>, Json)>, key: Seq<char>)
    ensures
        Json::member_index(members, key) matches Some(i) ==> 0 <= i < members.len() && members[i].0
            == key,
    decreases members.len(),
{
    if members.len() > 0 && members.last().0 != key {
        lemma_member_index(members.drop_last(), key);
    }
}

/// An item of an array is smaller than the array.
pub proof fn lemma_item_smaller(json: Json, i: int)
    ensures
        json matches Json::Array(items) ==> (0 <= i < items.len() ==> decreases_to!(json => items[i])),
{
    if let Json::Array(items) = json {
        if 0 <= i < items.len() {
            assert(decreases_to!(items => items[i]));
        }
    }
}

/// The value of a member of an object is smaller than the object.
pub proof fn lemma_entry_smaller(json: Json, i: int)
    ensures
        json matches Json::Object(members) ==> (0 <= i < members.len() ==> decreases_to!(json => members[i].1)),
{
    if let Json::Object(members) = json {
        if 0 <= i < members.len() {
            assert(decreases_to!(members => members[i]));
        }
    }
}

/// A JSON document.
#[derive(Debug, PartialEq, Eq)]
pub enum JsonValue {
    Null,
    Bool(bool),
    Number(JsonNumber),
    String(String),
    Array(Vec<JsonValue>),
    Object(Vec<(String, JsonValue)>),
}

/// One step from a document into one of its children.
#[derive(Debug, PartialEq, Eq)]
pub enum PathStep {
    Key(String),
    Index(usize),
}

impl View for PathStep {
    type V = Step;

    open spec fn view(&self) -> Step {
        match self {
            PathStep::Key(key) => Step::Key(key@),
            PathStep::Index(index) => Step::Index(*index as nat),
        }
    }
}

/// The number that an optional number stands for.
pub open spec fn option_num(number: Option<JsonNumber>) -> Option<Num> {
    match number {
        Some(n) => Some(n@),
        None => None,
    }
}

/// The steps that a vector of `PathStep` stands for.
pub open spec fn steps_view(steps: Seq<PathStep>) -> Seq<Step> {
    Seq::new(steps.len(), |i: int| steps[i]@)
}

/// The documents that a sequence of values stands for, one for one.
pub open spec fn array_json(items: Seq<JsonValue>) -> Seq<Json>
    decreases items,
{
    if items.len() == 0 {
        Seq::empty()
    } else {
        array_json(items.drop_last()).push(items.last().json())
    }
}

/// The members that a sequence of named values stands for, one for one.
pub open spec fn object_json(members: Seq<(String, JsonValue)>) -> Seq<(Seq<char>, Json)>
    decreases members,
{
    if members.len() == 0 {
        Seq::empty()
    } else {
        object_json(members.drop_last()).push((members.last().0@, members.last().1.json()))
    }
}

impl JsonValue {
    /// The document that a value stands for.
    pub open spec fn json(self) -> Json
        decreases self,
    {
        match self {
            JsonValue::Null => Json::Null,
            JsonValue::Bool(b) => Json::Bool(b),
            JsonValue::Number(n) => Json::Number(n@),
            JsonValue::String(s) => Json::String(s@),
            JsonValue::Array(items) => Json::Array(array_json(items@)),
            JsonValue::Object(members) => Json::Object(object_json(members@)),
        }
    }
}

impl View for JsonValue {
    type V = Json;

    open spec fn view(&self) -> Json {
        self.json()
    }
}

/// `array_json` keeps the length and maps each value to its document.
pub proof fn lemma_array_json(items: Seq<JsonValue>)
    ensures
        array_json(items).len() == items.len(),
        forall|i: int| 0 <= i < items.len() ==> (#[trigger] array_json(items)[i]) == items[i]@,
    decreases items.len(),
{
    if items.len() > 0 {
        lemma_array_json(items.drop_last());
    }
}

/// `object_json` keeps the length and maps each member to its key's text and
/// its value's document.
pub proof fn lemma_object_json(members: Seq<(String, JsonValue)>)
    ensures
        object_json(members).len() == members.len(),
        forall|i: int|
            0 <= i < members.len() ==> (#[trigger] object_json(members)[i]) == (
                members[i].0@,
                members[i].1@,
            ),
    decreases members.len(),
{
    if members.len() > 0 {
        lemma_object_json(members.drop_last());
    }
}

impl Clone for JsonValue {
    #[verifier::loop_isolation(false)]
    fn clone(&self) -> (res: Self)
        ensures
            res@ == self@,
        decreases self,
    {
        match self {
            JsonValue::Null => JsonValue::Null,
            JsonValue::Bool(b) => JsonValue::Bool(*b),
            JsonValue::Number(n) => JsonValue::Number(n.clone()),
            JsonValue::String(s) => JsonValue::String(s.clone()),
            JsonValue::Array(items) => {
                let mut copy: Vec<JsonValue> = Vec::new();
                let mut i: usize = 0;
                while i < items.len()
                    invariant
                        i <= items.len(),
                        copy.len() == i,
                        forall|k: int| 0 <= k < i ==> copy@[k]@ == items@[k]@,
                    decreases items.len() - i,
                {
                    copy.push(items[i].clone());
                    i += 1;
                }
                proof {
                    lemma_array_json(items@);
                    lemma_array_json(copy@);
                }
                assert(array_json(copy@) =~= array_json(items@));
                JsonValue::Array(copy)
            },
            JsonValue::Object(members) => {
                let mut copy: Vec<(String, JsonValue)> = Vec::new();
                let mut i: usize = 0;
                while i < members.len()
                    invariant
                        i <= members.len(),
                        copy.len() == i,
                        forall|k: int|
                            0 <= k < i ==> copy@[k].0@ == members@[k].0@ && copy@[k].1@
                                == members@[k].1@,
                    decreases members.len() - i,
                {
                    copy.push((members[i].0.clone(), members[i].1.clone()));
                    i += 1;
                }
                proof {
                    lemma_object_json(members@);
                    lemma_object_json(copy@);
                }
                assert(object_json(copy@) =~= object_json(members@));
                JsonValue::Object(copy)
            },
        }
    }
}

impl JsonValue {
    /// The text of a string; nothing for any other document.
    pub fn as_str(&self) -> (res: Option<&String>)
        ensures
            match self@ {
                Json::String(text) => res matches Some(s) && s@ == text,
                _ => res is None,
            },
    {
        match self {
            JsonValue::String(s) => Some(s),
            _ => None,
        }
    }

    /// The number that the document is; nothing for any other document.
    pub fn as_number(&self) -> (res: Option<&JsonNumber>)
        ensures
            match self@ {
                Json::Number(n) => res matches Some(m) && m@ == n,
                _ => res is None,
            },
    {
        match self {
            JsonValue::Number(n) => Some(n),
            _ => None,
        }
    }

    /// The truth value that the document is; nothing for any other document.
    pub fn as_bool(&self) -> (res: Option<bool>)
        ensures
            match self@ {
                Json::Bool(b) => res == Some(b),
                _ => res is None,
            },
    {
        match self {
            JsonValue::Bool(b) => Some(*b),
            _ => None,
        }
    }

    /// Whether the document is `null`.
    pub fn is_null(&self) -> (res: bool)
        ensures
            res == (self@ is Null),
    {
        match self {
            JsonValue::Null => true,
            _ => false,
        }
    }

    /// The member of an object that `key` names: the last one, where the key
    /// is written more than once.
    pub fn get(&self, key: &str) -> (res: Option<&JsonValue>)
        ensures
            match self@.member(key@) {
                Some(found) => res matches Some(v) && v@ == found,
                None => res is None,
            },
    {
        match self {
            JsonValue::Object(members) => {
                let ghost all = object_json(members@);
                proof {
                    lemma_object_json(members@);
                    assert(all.take(all.len() as int) =~= all);
                }
                let mut i: usize = members.len();
                while i > 0
                    invariant
                        i <= members.len(),
                        self@ == Json::Object(all),
                        all.len() == members.len(),
                        forall|k: int|
                            0 <= k < members.len() ==> (#[trigger] all[k]) == (
                                members@[k].0@,
                                members@[k].1@,
                            ),
                        Json::member_index(all, key@) == Json::member_index(
                            all.take(i as int),
                            key@,
                        ),
                    decreases i,
                {
                    let ghost prefix = all.take(i as int);
                    assert(prefix.last() == all[i - 1]);
                    assert(prefix.drop_last() =~= all.take(i - 1));
                    i -= 1;
                    if str_equal(members[i].0.as_str(), key) {
                        return Some(&members[i].1);
                    }
                }
                assert(all.take(0).len() == 0);
                None
            },
            _ => None,
        }
    }

    /// The element of an array at position `index`.
    pub fn element(&self, index: usize) -> (res: Option<&JsonValue>)
        ensures
            match self@.element(index as nat) {
                Some(found) => res matches Some(v) && v@ == found,
                None => res is None,
            },
    {
        match self {
            JsonValue::Array(items) => {
                proof {
                    lemma_array_json(items@);
                }
                if index < items.len() {
                    Some(&items[index])
                } else {
                    None
                }
            },
            _ => None,
        }
    }

    /// The node that `steps` lead to, starting at this document.
    pub fn descend(&self, steps: &Vec<PathStep>) -> (res: Option<&JsonValue>)
        ensures
            match self@.at(steps_view(steps@)) {
                Some(found) => res matches Some(v) && v@ == found,
                None => res is None,
            },
    {
        let mut node: &JsonValue = self;
        let mut i: usize = 0;
        assert(steps_view(steps@).skip(0) =~= steps_view(steps@));
        while i < steps.len()
            invariant
                i <= steps.len(),
                self@.at(steps_view(steps@)) == node@.at(steps_view(steps@).skip(i as int)),
            decreases steps.len() - i,
        {
            let ghost rest = steps_view(steps@).skip(i as int);
            assert(rest[0] == steps@[i as int]@);
            assert(rest.drop_first() =~= steps_view(steps@).skip(i + 1));
            let next = match &steps[i] {
                PathStep::Key(key) => node.get(key.as_str()),
                PathStep::Index(index) => node.element(*index),
            };
            match next {
                Some(child) => {
                    node = child;
                },
                None => {
                    return None;
                },
            }
            i += 1;
        }
        assert(steps_view(steps@).skip(i as int).len() == 0);
        Some(node)
    }
}

/// The compact JSON text of a document, as `serde_json` writes it.
pub uninterp spec fn json_text(document: Json) -> Seq<char>;

/// The text in which `serde_json` shows a document for debugging: the
/// `Debug` form of its `Value`.
pub uninterp spec fn json_debug_text(document: Json) -> Seq<char>;

/// What `serde_json` reads a text as: the document that it holds, or what
/// `serde_json` says of a text that is not JSON.
pub uninterp spec fn json_read(text: Seq<char>) -> Result<Json, Seq<char>>;

/// The bit pattern of the double that a number is read as by `serde_json`;
/// nothing where the text of a `Float` is not a number.
pub uninterp spec fn number_double_bits(number: Num) -> Option<u64>;

/// Builds the `serde_json::Value` that holds the same document. Integers go
/// through `Value::from`, the text of a `Float` through `str::parse` for
/// `serde_json::Number` (`null` where it is no number), arrays and objects
/// through `collect`, which keeps the members in their order; of two
/// members with one key the first keeps its place and the later its value.
/// Nothing is claimed of the result: it is only handed on to `serde_json`
/// and `serde_json_path`.
#[verifier::external_body]
pub(crate) fn to_outside(value: &JsonValue) -> Value {
    match value {
        JsonValue::Null => Value::Null,
        JsonValue::Bool(b) => Value::Bool(*b),
        JsonValue::Number(JsonNumber::PosInt(n)) => Value::from(*n),
        JsonValue::Number(JsonNumber::NegInt(n)) => Value::from(*n),
        JsonValue::Number(JsonNumber::Float(t)) => t.parse().map_or(Value::Null, Value::Number),
        JsonValue::String(s) => Value::from(s.as_str()),
        JsonValue::Array(items) => items.iter().map(to_outside).collect(),
        JsonValue::Object(members) => members.iter().map(|m| (m.0.clone(), to_outside(&m.1))).collect(),
    }
}

/// Reads a `serde_json::Value` into a `JsonValue`, variant by variant. A
/// number that `as_u64` or `as_i64` gives is an integer; any other is a
/// `Float` with the text that `serde_json` prints for it. Nothing is claimed
/// of the result.
#[verifier::external_body]
pub(crate) fn from_outside(value: &Value) -> JsonValue {
    match value {
        Value::Null => JsonValue::Null,
        Value::Bool(b) => JsonValue::Bool(*b),
        Value::Number(n) => JsonValue::Number(match (n.as_u64(), n.as_i64()) {
            (Some(u), _) => JsonNumber::PosInt(u),
            (_, Some(i)) => JsonNumber::NegInt(i),
            _ => JsonNumber::Float(n.to_string()),
        }),
        Value::String(s) => JsonValue::String(s.clone()),
        Value::Array(items) => JsonValue::Array(items.iter().map(from_outside).collect()),
        Value::Object(map) => JsonValue::Object(map.iter().map(|m| (m.0.clone(), from_outside(m.1))).collect()),
    }
}

/// `serde_json::Value`'s `to_string`: the compact JSON text of the document.
#[verifier::external_body]
fn render(value: &JsonValue) -> (text: String)
    ensures
        text@ == json_text(value@),
{
    to_outside(value).to_string()
}

/// `Debug` of `serde_json::Value`, through `format`: the text in which the
/// document is shown for debugging.
#[verifier::external_body]
fn render_debug(value: &JsonValue) -> (text: String)
    ensures
        text@ == json_debug_text(value@),
{
    format!("{:?}", to_outside(value))
}

/// `serde_json::from_str` for a `serde_json::Value`: the document that the
/// text holds, or the text of the error that `serde_json` reports.
#[verifier::external_body]
fn read(text: &str) -> (res: Result<JsonValue, String>)
    ensures
        match json_read(text@) {
            Ok(document) => res matches Ok(value) && value@ == document,
            Err(message) => res matches Err(said) && said@ == message,
        },
{
    serde_json::from_str::<Value>(text).map(|v| from_outside(&v)).map_err(|e| e.to_string())
}

/// `serde_json::Value::as_f64` on the number, then `to_bits`: the bit
/// pattern of the double that stands for the number.
#[verifier::external_body]
fn double_bits(number: &JsonNumber) -> (res: Option<u64>)
    ensures
        res == number_double_bits(number@),
{
    to_outside(&JsonValue::Number(number.clone())).as_f64().map(|x| x.to_bits())
}

impl JsonValue {
    /// The compact JSON text of the document.
    pub fn to_text(&self) -> (text: String)
        ensures
            text@ == json_text(self@),
    {
        render(self)
    }

    /// The text in which the document is shown for debugging.
    pub fn to_debug_text(&self) -> (text: String)
        ensures
            text@ == json_debug_text(self@),
    {
        render_debug(self)
    }

    /// The document that a JSON text holds, or why the text is not JSON.
    pub fn parse(text: &str) -> (res: Result<JsonValue, String>)
        ensures
            match json_read(text@) {
                Ok(document) => res matches Ok(value) && value@ == document,
                Err(message) => res matches Err(said) && said@ == message,
            },
    {
        read(text)
    }
}

impl JsonNumber {
    /// The bit pattern of the double that stands for the number; nothing
    /// where the text of a `Float` is not a number.
    pub fn double_bits(&self) -> (res: Option<u64>)
        ensures
            res == number_double_bits(self@),
    {
        double_bits(self)
    }
}

} // verus!
