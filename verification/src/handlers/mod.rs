//! What each kind of state does when an execution reaches it.

use crate::json::{Json, JsonValue};
use crate::states::all_states::EndOrNext;
use crate::types::option_json;
use vstd::prelude::*;

pub mod choice_handler;
pub mod fail_handler;
pub mod task_handler;
pub mod wait_handler;

verus! {

/// What a handler's result stands for in contracts.
pub struct HandlerOutputView {
    pub output: Option<Json>,
    pub next_state: Option<Seq<char>>,
}

/// What a state yields, and what follows it.
#[derive(Debug, PartialEq, Eq)]
pub struct HandlerOutput {
    pub output: Option<JsonValue>,
    pub next_state: EndOrNext,
}

impl View for HandlerOutput {
    type V = HandlerOutputView;

    open spec fn view(&self) -> HandlerOutputView {
        HandlerOutputView { output: option_json(self.output), next_state: self.next_state@ }
    }
}

} // verus!
