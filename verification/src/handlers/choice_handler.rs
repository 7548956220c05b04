//! The choice state: the first rule that holds of the input picks the next
//! state.

use crate::execution::{Execution, StateExecutionHandler};
use crate::handlers::{HandlerOutput, HandlerOutputView};
use crate::itertools_utils::try_find;
use crate::json::Json;
use crate::states::all_states::EndOrNext;
use crate::states::choice::{
    choice_result_view, Choice, ChoiceErrorView, ChoiceEvaluationError, ChoiceRule,
};
use crate::text::join;
use crate::types::ExecutionInput;
use vstd::prelude::*;

verus! {

/// What a choice state's error stands for in contracts.
pub enum ChoiceStateErrorView {
    NoChoiceMatched,
    MalformedChoiceRule(ChoiceErrorView),
}

/// Why a choice state failed.
#[derive(Debug, PartialEq, Eq)]
pub enum ChoiceStateExecutionError {
    /// No rule holds, and the state has no default.
    NoChoiceMatched,
    /// The test of a rule could not be made.
    MalformedChoiceRule(ChoiceEvaluationError),
}

impl View for ChoiceStateExecutionError {
    type V = ChoiceStateErrorView;

    open spec fn view(&self) -> ChoiceStateErrorView {
        match self {
            ChoiceStateExecutionError::NoChoiceMatched => ChoiceStateErrorView::NoChoiceMatched,
            ChoiceStateExecutionError::MalformedChoiceRule(e) => ChoiceStateErrorView::MalformedChoiceRule(e@),
        }
    }
}

impl ChoiceStateErrorView {
    /// The error in words.
    pub open spec fn message(self) -> Seq<char> {
        match self {
            ChoiceStateErrorView::NoChoiceMatched => "No choice matched"@,
            ChoiceStateErrorView::MalformedChoiceRule(e) => "Malformed choice due to: "@
                + e.message(),
        }
    }
}

impl ChoiceStateExecutionError {
    /// The error in words.
    pub fn message(&self) -> (res: String)
        ensures
            res@ == self@.message(),
    {
        match self {
            ChoiceStateExecutionError::NoChoiceMatched => "No choice matched".to_owned(),
            ChoiceStateExecutionError::MalformedChoiceRule(e) => join(
                "Malformed choice due to: ",
                e.message().as_str(),
            ),
        }
    }
}

/// The place of the first rule at or after `from` whose test holds on an
/// input; none where no test holds. The search errs where a test cannot be
/// made before one holds.
pub open spec fn first_match_from(choices: Seq<ChoiceRule>, value: Json, context: Json, from: int) -> Result<
    Option<int>,
    ChoiceErrorView,
>
    decreases choices.len() - from,
{
    if from < 0 || from >= choices.len() {
        Ok(None)
    } else {
        match choices[from].holds(value, context) {
            Err(e) => Err(e),
            Ok(true) => Ok(Some(from)),
            Ok(false) => first_match_from(choices, value, context, from + 1),
        }
    }
}

/// Behind rules whose tests fail, the search goes on as from the start.
pub proof fn lemma_first_match_skips(choices: Seq<ChoiceRule>, value: Json, context: Json, i: int)
    requires
        0 <= i <= choices.len(),
        forall|j: int| 0 <= j < i ==> (#[trigger] choices[j]).holds(value, context) == Ok::<bool, ChoiceErrorView>(false),
    ensures
        first_match_from(choices, value, context, 0) == first_match_from(choices, value, context, i),
    decreases i,
{
    if i > 0 {
        lemma_first_match_skips(choices, value, context, i - 1);
        assert(choices[i - 1].holds(value, context) == Ok::<bool, ChoiceErrorView>(false));
    }
}

impl Choice {
    /// What the state does on an input: it hands over to the state of the
    /// first rule whose test holds, or to its default where no test holds,
    /// and yields nothing. It fails where no test holds and it has no
    /// default, and where a test cannot be made before one holds.
    pub open spec fn outcome(self, value: Json, context: Json) -> Result<
        HandlerOutputView,
        ChoiceStateErrorView,
    > {
        match first_match_from(self.choices@, value, context, 0) {
            Err(e) => Err(ChoiceStateErrorView::MalformedChoiceRule(e)),
            Ok(Some(i)) => Ok(
                HandlerOutputView { output: None, next_state: Some(self.choices@[i].next@) },
            ),
            Ok(None) => match self.default {
                Some(name) => Ok(HandlerOutputView { output: None, next_state: Some(name@) }),
                None => Err(ChoiceStateErrorView::NoChoiceMatched),
            },
        }
    }
}

/// What the result of a choice state stands for.
pub open spec fn choice_outcome_view(res: Result<HandlerOutput, ChoiceStateExecutionError>) -> Result<
    HandlerOutputView,
    ChoiceStateErrorView,
> {
    match res {
        Ok(output) => Ok(output@),
        Err(e) => Err(e@),
    }
}

impl<'a, H: StateExecutionHandler> Execution<'a, H> {
    /// Runs a choice state: hands over to the state of the first rule whose
    /// test holds of the input, or to the default.
    pub fn handle_choice(&self, choice: &Choice, input: &ExecutionInput) -> (res: Result<
        HandlerOutput,
        ChoiceStateExecutionError,
    >)
        ensures
            choice_outcome_view(res) == choice.outcome(input.value@, input.context@),
    {
        let judge = |rule: &ChoiceRule| -> (res: Result<bool, ChoiceEvaluationError>)
            ensures
                choice_result_view(res) == rule.holds(input.value@, input.context@),
            { rule.evaluate(input) };
        let ghost rules = choice.choices@;
        let ghost value = input.value@;
        let ghost context = input.context@;
        match try_find(&choice.choices, judge) {
            Err(e) => {
                proof {
                    let i = choose|i: int|
                        0 <= i < rules.len() && call_ensures(
                            judge,
                            (&#[trigger] rules[i],),
                            Err::<bool, ChoiceEvaluationError>(e),
                        ) && forall|j: int|
                            0 <= j < i ==> call_ensures(
                                judge,
                                (&#[trigger] rules[j],),
                                Ok::<bool, ChoiceEvaluationError>(false),
                            );
                    assert forall|j: int| 0 <= j < i implies (#[trigger] rules[j]).holds(
                        value,
                        context,
                    ) == Ok::<bool, ChoiceErrorView>(false) by {
                        assert(call_ensures(
                            judge,
                            (&rules[j],),
                            Ok::<bool, ChoiceEvaluationError>(false),
                        ));
                    }
                    lemma_first_match_skips(rules, value, context, i);
                }
                Err(ChoiceStateExecutionError::MalformedChoiceRule(e))
            },
            Ok(Some(rule)) => {
                proof {
                    let i = choose|i: int|
                        0 <= i < rules.len() && *rule == #[trigger] rules[i] && call_ensures(
                            judge,
                            (&rules[i],),
                            Ok::<bool, ChoiceEvaluationError>(true),
                        ) && forall|j: int|
                            0 <= j < i ==> call_ensures(
                                judge,
                                (&#[trigger] rules[j],),
                                Ok::<bool, ChoiceEvaluationError>(false),
                            );
                    assert forall|j: int| 0 <= j < i implies (#[trigger] rules[j]).holds(
                        value,
                        context,
                    ) == Ok::<bool, ChoiceErrorView>(false) by {
                        assert(call_ensures(
                            judge,
                            (&rules[j],),
                            Ok::<bool, ChoiceEvaluationError>(false),
                        ));
                    }
                    lemma_first_match_skips(rules, value, context, i);
                }
                Ok(HandlerOutput { output: None, next_state: EndOrNext::Next(rule.next.clone()) })
            },
            Ok(None) => {
                proof {
                    assert forall|j: int| 0 <= j < rules.len() implies (#[trigger] rules[j]).holds(
                        value,
                        context,
                    ) == Ok::<bool, ChoiceErrorView>(false) by {
                        assert(call_ensures(
                            judge,
                            (&rules[j],),
                            Ok::<bool, ChoiceEvaluationError>(false),
                        ));
                    }
                    lemma_first_match_skips(rules, value, context, rules.len() as int);
                }
                match &choice.default {
                    Some(name) => Ok(
                        HandlerOutput { output: None, next_state: EndOrNext::Next(name.clone()) },
                    ),
                    None => Err(ChoiceStateExecutionError::NoChoiceMatched),
                }
            },
        }
    }
}

/// What the search for the first rule that holds comes to: the place of a
/// rule that holds behind rules that all fail; or no place, where all rules
/// fail; or the error of a rule whose test cannot be made, behind rules that
/// all fail.
pub proof fn lemma_first_match(choices: Seq<ChoiceRule>, value: Json, context: Json, from: int)
    requires
        0 <= from <= choices.len(),
    ensures
        match first_match_from(choices, value, context, from) {
            Ok(Some(i)) => from <= i < choices.len() && choices[i].holds(value, context) == Ok::<
                bool,
                ChoiceErrorView,
            >(true) && forall|j: int|
                from <= j < i ==> (#[trigger] choices[j]).holds(value, context) == Ok::<
                    bool,
                    ChoiceErrorView,
                >(false),
            Ok(None) => forall|j: int|
                from <= j < choices.len() ==> (#[trigger] choices[j]).holds(value, context) == Ok::<
                    bool,
                    ChoiceErrorView,
                >(false),
            Err(e) => exists|i: int|
                from <= i < choices.len() && (#[trigger] choices[i]).holds(value, context) == Err::<
                    bool,
                    ChoiceErrorView,
                >(e) && forall|j: int|
                    from <= j < i ==> (#[trigger] choices[j]).holds(value, context) == Ok::<
                        bool,
                        ChoiceErrorView,
                    >(false),
        },
    decreases choices.len() - from,
{
    if from < choices.len() {
        match choices[from].holds(value, context) {
            Err(e) => {},
            Ok(true) => {},
            Ok(false) => {
                lemma_first_match(choices, value, context, from + 1);
                match first_match_from(choices, value, context, from + 1) {
                    Err(e) => {
                        let i = choose|i: int|
                            from + 1 <= i < choices.len() && (#[trigger] choices[i]).holds(
                                value,
                                context,
                            ) == Err::<bool, ChoiceErrorView>(e) && forall|j: int|
                                from + 1 <= j < i ==> (#[trigger] choices[j]).holds(value, context)
                                    == Ok::<bool, ChoiceErrorView>(false);
                        assert(from <= i < choices.len() && choices[i].holds(value, context) == Err::<
                            bool,
                            ChoiceErrorView,
                        >(e));
                    },
                    _ => {},
                }
            },
        }
    }
}

/// A choice state comes to exactly one thing on an input: to the state of
/// the first rule that holds, all rules before it failing; where no rule
/// holds, to its default; where it has none, to the error that no choice
/// matched. The one other case is the error of a rule whose test cannot be
/// made before any rule holds.
pub proof fn lemma_choice_complete(choice: Choice, value: Json, context: Json)
    ensures
        match first_match_from(choice.choices@, value, context, 0) {
            Ok(Some(i)) => {
                &&& 0 <= i < choice.choices@.len()
                &&& choice.choices@[i].holds(value, context) == Ok::<bool, ChoiceErrorView>(true)
                &&& forall|j: int|
                    0 <= j < i ==> (#[trigger] choice.choices@[j]).holds(value, context) == Ok::<
                        bool,
                        ChoiceErrorView,
                    >(false)
                &&& choice.outcome(value, context) == Ok::<HandlerOutputView, ChoiceStateErrorView>(
                    HandlerOutputView { output: None, next_state: Some(choice.choices@[i].next@) },
                )
            },
            Ok(None) => {
                &&& forall|j: int|
                    0 <= j < choice.choices@.len() ==> (#[trigger] choice.choices@[j]).holds(
                        value,
                        context,
                    ) == Ok::<bool, ChoiceErrorView>(false)
                &&& choice.outcome(value, context) == match choice.default {
                    Some(name) => Ok::<HandlerOutputView, ChoiceStateErrorView>(
                        HandlerOutputView { output: None, next_state: Some(name@) },
                    ),
                    None => Err::<HandlerOutputView, ChoiceStateErrorView>(
                        ChoiceStateErrorView::NoChoiceMatched,
                    ),
                }
            },
            Err(e) => choice.outcome(value, context) == Err::<
                HandlerOutputView,
                ChoiceStateErrorView,
            >(ChoiceStateErrorView::MalformedChoiceRule(e)),
        },
{
    lemma_first_match(choice.choices@, value, context, 0);
}

} // verus!
