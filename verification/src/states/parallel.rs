//! The parallel state: branches that run side by side.

use crate::decode::{
    dynamic_of, option_view, read_dynamic, read_text, read_value, refuse, text_of, DecodeError,
};
use crate::error_handling::{
    catchers_decoded, read_catchers, read_retriers, retriers_decoded, Catcher, Retrier,
};
use crate::json::{Json, JsonValue};
use crate::states::all_states::EndOrNext;
use crate::types::{DynamicValue, Parameters, ResultSelector};
use vstd::prelude::*;

verus! {

/// A state that hands over without running its branches.
#[derive(Debug, PartialEq, Eq)]
pub struct Parallel {
    pub comment: Option<String>,
    pub input_path: Option<DynamicValue>,
    pub output_path: Option<DynamicValue>,
    pub end_or_next: EndOrNext,
    pub result_path: Option<DynamicValue>,
    pub parameters: Option<Parameters>,
    pub result_selector: Option<ResultSelector>,
    pub retry: Option<Vec<Retrier>>,
    pub catch: Option<Vec<Catcher>>,
}

impl Parallel {
    /// Whether the state is what an object says: `Comment`, `InputPath`,
    /// `OutputPath`, `ResultPath`, `Parameters`, `ResultSelector`, `Retry`
    /// and `Catch` hold what the fields of their names hold, and `End` or
    /// `Next` says what follows.
    pub open spec fn decoded_from(self, json: Json) -> bool {
        &&& json is Object
        &&& text_of(json.field("Comment"@)) == Some(option_view(self.comment))
        &&& dynamic_of(json.field("InputPath"@)) == Some(option_view(self.input_path))
        &&& dynamic_of(json.field("OutputPath"@)) == Some(option_view(self.output_path))
        &&& EndOrNext::read(json) == Some(self.end_or_next@)
        &&& dynamic_of(json.field("ResultPath"@)) == Some(option_view(self.result_path))
        &&& json.field("Parameters"@) == option_view(self.parameters)
        &&& json.field("ResultSelector"@) == option_view(self.result_selector)
        &&& retriers_decoded(self.retry, json.field("Retry"@))
        &&& catchers_decoded(self.catch, json.field("Catch"@))
    }

    /// Reads a parallel state from the object of a state.
    pub fn decode(json: &JsonValue) -> (res: Result<Parallel, DecodeError>)
        ensures
            res matches Ok(parallel) ==> parallel.decoded_from(json@),
            res is Err ==> forall|parallel: Parallel| !parallel.decoded_from(json@),
    {
        if !json.is_object() {
            return refuse("Expected an object for ", "a parallel state");
        }
        let comment = read_text(json.field("Comment"), "Comment")?;
        let input_path = read_dynamic(json.field("InputPath"), "InputPath")?;
        let output_path = read_dynamic(json.field("OutputPath"), "OutputPath")?;
        let end_or_next = EndOrNext::decode(json)?;
        let result_path = read_dynamic(json.field("ResultPath"), "ResultPath")?;
        let parameters = read_value(json.field("Parameters"));
        let result_selector = read_value(json.field("ResultSelector"));
        let retry = read_retriers(json.field("Retry"))?;
        let catch = read_catchers(json.field("Catch"))?;
        Ok(
            Parallel {
                comment,
                input_path,
                output_path,
                end_or_next,
                result_path,
                parameters,
                result_selector,
                retry,
                catch,
            },
        )
    }
}

} // verus!
