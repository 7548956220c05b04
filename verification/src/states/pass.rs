//! The pass state: input handed on.

use crate::decode::{
    dynamic_of, option_view, read_dynamic, read_text, read_value, refuse, text_of, DecodeError,
};
use crate::json::{Json, JsonValue};
use crate::states::all_states::EndOrNext;
use crate::types::{DynamicValue, Payload};
use vstd::prelude::*;

verus! {

/// A state that does no work: it yields its parameters, or its input where
/// it has none, and hands over.
#[derive(Debug, PartialEq, Eq)]
pub struct Pass {
    pub comment: Option<String>,
    pub input_path: Option<DynamicValue>,
    pub output_path: Option<DynamicValue>,
    pub end_or_next: EndOrNext,
    pub result_path: Option<DynamicValue>,
    pub parameters: Option<Payload>,
}

impl Pass {
    /// Whether the state is what an object says: `Comment`, `InputPath`,
    /// `OutputPath`, `ResultPath` and `Parameters` hold what the fields of
    /// their names hold, and `End` or `Next` says what follows.
    pub open spec fn decoded_from(self, json: Json) -> bool {
        &&& json is Object
        &&& text_of(json.field("Comment"@)) == Some(option_view(self.comment))
        &&& dynamic_of(json.field("InputPath"@)) == Some(option_view(self.input_path))
        &&& dynamic_of(json.field("OutputPath"@)) == Some(option_view(self.output_path))
        &&& EndOrNext::read(json) == Some(self.end_or_next@)
        &&& dynamic_of(json.field("ResultPath"@)) == Some(option_view(self.result_path))
        &&& json.field("Parameters"@) == option_view(self.parameters)
    }

    /// Reads a pass state from the object of a state.
    pub fn decode(json: &JsonValue) -> (res: Result<Pass, DecodeError>)
        ensures
            res matches Ok(pass) ==> pass.decoded_from(json@),
            res is Err ==> forall|pass: Pass| !pass.decoded_from(json@),
    {
        if !json.is_object() {
            return refuse("Expected an object for ", "a pass state");
        }
        let comment = read_text(json.field("Comment"), "Comment")?;
        let input_path = read_dynamic(json.field("InputPath"), "InputPath")?;
        let output_path = read_dynamic(json.field("OutputPath"), "OutputPath")?;
        let end_or_next = EndOrNext::decode(json)?;
        let result_path = read_dynamic(json.field("ResultPath"), "ResultPath")?;
        let parameters = read_value(json.field("Parameters"));
        Ok(Pass { comment, input_path, output_path, end_or_next, result_path, parameters })
    }
}

} // verus!
