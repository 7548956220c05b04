//! The succeed state: the end of an execution in success.

use crate::decode::{dynamic_of, option_view, read_dynamic, read_text, refuse, text_of, DecodeError};
use crate::json::{Json, JsonValue};
use crate::types::DynamicValue;
use vstd::prelude::*;

verus! {

/// A state that ends the execution in success, with its input as the
/// result.
#[derive(Debug, PartialEq, Eq)]
pub struct Succeed {
    pub comment: Option<String>,
    pub input_path: Option<DynamicValue>,
    pub output_path: Option<DynamicValue>,
}

impl Succeed {
    /// Whether the state is what an object says: `Comment`, `InputPath` and
    /// `OutputPath` hold what the fields of their names hold.
    pub open spec fn decoded_from(self, json: Json) -> bool {
        &&& json is Object
        &&& text_of(json.field("Comment"@)) == Some(option_view(self.comment))
        &&& dynamic_of(json.field("InputPath"@)) == Some(option_view(self.input_path))
        &&& dynamic_of(json.field("OutputPath"@)) == Some(option_view(self.output_path))
    }

    /// Reads a succeed state from the object of a state.
    pub fn decode(json: &JsonValue) -> (res: Result<Succeed, DecodeError>)
        ensures
            res matches Ok(succeed) ==> succeed.decoded_from(json@),
            res is Err ==> forall|succeed: Succeed| !succeed.decoded_from(json@),
    {
        if !json.is_object() {
            return refuse("Expected an object for ", "a succeed state");
        }
        let comment = read_text(json.field("Comment"), "Comment")?;
        let input_path = read_dynamic(json.field("InputPath"), "InputPath")?;
        let output_path = read_dynamic(json.field("OutputPath"), "OutputPath")?;
        Ok(Succeed { comment, input_path, output_path })
    }
}

} // verus!
