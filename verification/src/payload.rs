//! Payload templates: documents in which a member whose name ends in `.$`
//! stands for the value that its path leads to.

use crate::json::{
    array_json, json_text, lemma_array_json, lemma_object_json, object_json, Json, JsonValue,
};
use crate::text::{chars_of, join};
use crate::types::{DynamicValue, DynamicValueEvaluateError, DynamicValueView, ExecutionInput};
use vstd::prelude::*;
use vstd::string::StrSliceExecFns;

verus! {

/// What a payload error stands for in contracts.
pub enum PayloadErrorView {
    NotAPath { name: Seq<char>, value: Json },
    MalformedPath { name: Seq<char>, message: Seq<char> },
    PathLeadsNowhere { name: Seq<char> },
    EvaluateError { name: Seq<char>, error: DynamicValueEvaluateError },
}

/// Why a member whose name ends in `.$` could not be replaced.
#[derive(Debug, PartialEq, Eq)]
pub enum PayloadError {
    /// The member holds this value, which is no string.
    NotAPath { name: String, value: JsonValue },
    /// The member holds a string that begins with `$` and is no path; what
    /// the reader of paths said of it.
    MalformedPath { name: String, message: String },
    /// The path of the member leads nowhere.
    PathLeadsNowhere { name: String },
    /// The path of the member cannot be followed.
    EvaluateError { name: String, error: DynamicValueEvaluateError },
}

impl View for PayloadError {
    type V = PayloadErrorView;

    open spec fn view(&self) -> PayloadErrorView {
        match self {
            PayloadError::NotAPath { name, value } => PayloadErrorView::NotAPath {
                name: name@,
                value: value@,
            },
            PayloadError::MalformedPath { name, message } => PayloadErrorView::MalformedPath {
                name: name@,
                message: message@,
            },
            PayloadError::PathLeadsNowhere { name } => PayloadErrorView::PathLeadsNowhere {
                name: name@,
            },
            PayloadError::EvaluateError { name, error } => PayloadErrorView::EvaluateError {
                name: name@,
                error: *error,
            },
        }
    }
}

impl PayloadErrorView {
    /// The error in words.
    pub open spec fn message(self) -> Seq<char> {
        match self {
            PayloadErrorView::NotAPath { name, value } => "The field '"@ + name
                + "' holds no path but "@ + json_text(value),
            PayloadErrorView::MalformedPath { name, message } => "The field '"@ + name
                + "' holds a malformed path: "@ + message,
            PayloadErrorView::PathLeadsNowhere { name } => "The path of the field '"@ + name
                + "' leads nowhere"@,
            PayloadErrorView::EvaluateError { name, error } => "The path of the field '"@ + name
                + "' cannot be followed: "@ + error.spec_message(),
        }
    }
}

impl PayloadError {
    /// The error in words.
    pub fn message(&self) -> (res: String)
        ensures
            res@ == self@.message(),
    {
        match self {
            PayloadError::NotAPath { name, value } => {
                let a = join("The field '", name.as_str());
                let b = join(a.as_str(), "' holds no path but ");
                join(b.as_str(), value.to_text().as_str())
            },
            PayloadError::MalformedPath { name, message } => {
                let a = join("The field '", name.as_str());
                let b = join(a.as_str(), "' holds a malformed path: ");
                join(b.as_str(), message.as_str())
            },
            PayloadError::PathLeadsNowhere { name } => {
                let a = join("The path of the field '", name.as_str());
                join(a.as_str(), "' leads nowhere")
            },
            PayloadError::EvaluateError { name, error } => {
                let a = join("The path of the field '", name.as_str());
                let b = join(a.as_str(), "' cannot be followed: ");
                join(b.as_str(), error.message().as_str())
            },
        }
    }
}

/// Whether a name marks its member as a path: it ends in `.$`.
pub open spec fn names_path(name: Seq<char>) -> bool {
    name.len() >= 2 && name[name.len() - 2] == '.' && name[name.len() - 1] == '$'
}

/// The member that takes the place of one whose name ends in `.$`: its name
/// is the name without `.$`, its value what the path leads to on an input.
pub open spec fn replaced(name: Seq<char>, held: Json, value: Json, context: Json) -> Result<
    (Seq<char>, Json),
    PayloadErrorView,
> {
    match held {
        Json::String(text) => match DynamicValueView::classify(text) {
            Err(message) => Err(PayloadErrorView::MalformedPath { name, message }),
            Ok(path) => match path.evaluate(value, context) {
                Err(error) => Err(PayloadErrorView::EvaluateError { name, error }),
                Ok(None) => Err(PayloadErrorView::PathLeadsNowhere { name }),
                Ok(Some(found)) => Ok((name.take(name.len() - 2), found)),
            },
        },
        other => Err(PayloadErrorView::NotAPath { name, value: other }),
    }
}

/// The members of a template with every path replaced, in order; the error
/// of the first member that cannot be replaced.
pub open spec fn filled_members(
    members: Seq<(Seq<char>, Json)>,
    value: Json,
    context: Json,
) -> Result<Seq<(Seq<char>, Json)>, PayloadErrorView>
    decreases members,
{
    if members.len() == 0 {
        Ok(Seq::empty())
    } else {
        let first = if names_path(members[0].0) {
            replaced(members[0].0, members[0].1, value, context)
        } else {
            match members[0].1.filled(value, context) {
                Ok(inner) => Ok((members[0].0, inner)),
                Err(e) => Err(e),
            }
        };
        match first {
            Err(e) => Err(e),
            Ok(member) => match filled_members(members.drop_first(), value, context) {
                Err(e) => Err(e),
                Ok(rest) => Ok(seq![member] + rest),
            },
        }
    }
}

/// The items of a template with every path replaced, in order; the error of
/// the first item that holds a member that cannot be replaced.
pub open spec fn filled_items(items: Seq<Json>, value: Json, context: Json) -> Result<
    Seq<Json>,
    PayloadErrorView,
>
    decreases items,
{
    if items.len() == 0 {
        Ok(Seq::empty())
    } else {
        match items[0].filled(value, context) {
            Err(e) => Err(e),
            Ok(first) => match filled_items(items.drop_first(), value, context) {
                Err(e) => Err(e),
                Ok(rest) => Ok(seq![first] + rest),
            },
        }
    }
}

impl Json {
    /// The document that a template stands for on an input: every member
    /// whose name ends in `.$`, at any depth, is replaced by a member
    /// without the `.$` that holds what its path leads to; all else stays.
    pub open spec fn filled(self, value: Json, context: Json) -> Result<Json, PayloadErrorView>
        decreases self,
    {
        match self {
            Json::Object(members) => match filled_members(members, value, context) {
                Ok(filled) => Ok(Json::Object(filled)),
                Err(e) => Err(e),
            },
            Json::Array(items) => match filled_items(items, value, context) {
                Ok(filled) => Ok(Json::Array(filled)),
                Err(e) => Err(e),
            },
            other => Ok(other),
        }
    }
}

/// What the result of filling a template stands for.
pub open spec fn payload_view(res: Result<JsonValue, PayloadError>) -> Result<Json, PayloadErrorView> {
    match res {
        Ok(value) => Ok(value@),
        Err(e) => Err(e@),
    }
}

/// The member that takes the place of one whose name ends in `.$`.
fn replace_member(name: &String, held: &JsonValue, input: &ExecutionInput) -> (res: Result<
    (String, JsonValue),
    PayloadError,
>)
    requires
        names_path(name@),
    ensures
        match replaced(name@, held@, input.value@, input.context@) {
            Ok(member) => res matches Ok(found) && found.0@ == member.0 && found.1@ == member.1,
            Err(e) => res matches Err(err) && err@ == e,
        },
{
    match held {
        JsonValue::String(text) => match DynamicValue::from_str(text.as_str()) {
            Err(e) => Err(PayloadError::MalformedPath { name: name.clone(), message: e.message }),
            Ok(path) => match path.evaluate(input) {
                Err(error) => Err(PayloadError::EvaluateError { name: name.clone(), error }),
                Ok(None) => Err(PayloadError::PathLeadsNowhere { name: name.clone() }),
                Ok(Some(found)) => {
                    let length = name.as_str().unicode_len();
                    let short = name.as_str().substring_char(0, length - 2);
                    Ok((short.to_owned(), found))
                },
            },
        },
        other => Err(PayloadError::NotAPath { name: name.clone(), value: other.clone() }),
    }
}

/// Whether a name marks its member as a path: it ends in `.$`.
pub fn is_path_name(name: &str) -> (res: bool)
    ensures
        res == names_path(name@),
{
    let chars = chars_of(name);
    let n = chars.len();
    n >= 2 && chars[n - 2] == '.' && chars[n - 1] == '$'
}

/// The document that `template` stands for on `input`.
#[verifier::loop_isolation(false)]
pub fn fill(template: &JsonValue, input: &ExecutionInput) -> (res: Result<JsonValue, PayloadError>)
    ensures
        payload_view(res) == template@.filled(input.value@, input.context@),
    decreases template,
{
    let ghost value = input.value@;
    let ghost context = input.context@;
    match template {
        JsonValue::Object(members) => {
            let ghost all = object_json(members@);
            let mut filled: Vec<(String, JsonValue)> = Vec::new();
            let mut i: usize = 0;
            proof {
                lemma_object_json(members@);
                lemma_object_json(filled@);
                assert(all.skip(0) =~= all);
            }
            while i < members.len()
                invariant
                    i <= members.len(),
                    all == object_json(members@),
                    all.len() == members.len(),
                    filled_members(all, value, context) == match filled_members(
                        all.skip(i as int),
                        value,
                        context,
                    ) {
                        Ok(rest) => Ok(object_json(filled@) + rest),
                        Err(e) => Err(e),
                    },
                decreases members.len() - i,
            {
                let ghost before = filled@;
                let ghost tail = all.skip(i as int);
                proof {
                    lemma_object_json(members@);
                    assert(tail[0] == all[i as int]);
                    assert(tail.drop_first() =~= all.skip(i + 1));
                }
                let member = if is_path_name(members[i].0.as_str()) {
                    replace_member(&members[i].0, &members[i].1, input)
                } else {
                    match fill(&members[i].1, input) {
                        Ok(inner) => Ok((members[i].0.clone(), inner)),
                        Err(e) => Err(e),
                    }
                };
                match member {
                    Err(e) => {
                        return Err(e);
                    },
                    Ok(member) => {
                        let ghost m = (member.0@, member.1@);
                        filled.push(member);
                        proof {
                            lemma_object_json(before);
                            lemma_object_json(filled@);
                            assert(object_json(filled@) =~= object_json(before).push(m));
                            assert forall|rest: Seq<(Seq<char>, Json)>| #[trigger]
                                (object_json(before) + (seq![m] + rest)) == object_json(filled@)
                                    + rest by {
                                assert(object_json(before) + (seq![m] + rest) =~= object_json(
                                    filled@,
                                ) + rest);
                            }
                        }
                    },
                }
                i += 1;
            }
            proof {
                assert(object_json(filled@) + Seq::<(Seq<char>, Json)>::empty() =~= object_json(
                    filled@,
                ));
            }
            Ok(JsonValue::Object(filled))
        },
        JsonValue::Array(items) => {
            let ghost all = array_json(items@);
            let mut filled: Vec<JsonValue> = Vec::new();
            let mut i: usize = 0;
            proof {
                lemma_array_json(items@);
                lemma_array_json(filled@);
                assert(all.skip(0) =~= all);
            }
            while i < items.len()
                invariant
                    i <= items.len(),
                    all == array_json(items@),
                    all.len() == items.len(),
                    filled_items(all, value, context) == match filled_items(
                        all.skip(i as int),
                        value,
                        context,
                    ) {
                        Ok(rest) => Ok(array_json(filled@) + rest),
                        Err(e) => Err(e),
                    },
                decreases items.len() - i,
            {
                let ghost before = filled@;
                let ghost tail = all.skip(i as int);
                proof {
                    lemma_array_json(items@);
                    assert(tail[0] == all[i as int]);
                    assert(tail.drop_first() =~= all.skip(i + 1));
                }
                match fill(&items[i], input) {
                    Err(e) => {
                        return Err(e);
                    },
                    Ok(item) => {
                        let ghost m = item@;
                        filled.push(item);
                        proof {
                            lemma_array_json(before);
                            lemma_array_json(filled@);
                            assert(array_json(filled@) =~= array_json(before).push(m));
                            assert forall|rest: Seq<Json>| #[trigger]
                                (array_json(before) + (seq![m] + rest)) == array_json(filled@)
                                    + rest by {
                                assert(array_json(before) + (seq![m] + rest) =~= array_json(
                                    filled@,
                                ) + rest);
                            }
                        }
                    },
                }
                i += 1;
            }
            proof {
                assert(array_json(filled@) + Seq::<Json>::empty() =~= array_json(filled@));
            }
            Ok(JsonValue::Array(filled))
        },
        other => Ok(other.clone()),
    }
}

} // verus!
