//! One run of a state machine, a state at a time.

use crate::error_handling::{ErrorName, JitterStrategy, StateMachineExecutionPredefinedErrors};
use crate::handlers::choice_handler::{
    lemma_first_match, ChoiceStateErrorView, ChoiceStateExecutionError,
};
use crate::handlers::fail_handler::{FailErrorView, FailStateExecutionError};
use crate::handlers::task_handler::{
    alike, answers_view, lemma_catcher_from, lemma_task_is_determined, task_hosted, task_ran,
    task_result_view, HostAnswer, RawAnswer, TaskStateExecutionError,
};
use crate::handlers::wait_handler::{waited, WaitErrorView, WaitStateExecutionError};
use crate::handlers::{HandlerOutput, HandlerOutputView};
use crate::json::{option_num, Json, JsonNumber, JsonValue, Num};
use crate::payload::{fill, PayloadError, PayloadErrorView};
use crate::state_machine::{find_state, lemma_state_index, state_index, StateMachineDefinition};
use crate::states::all_states::{EndOrNext, States};
use crate::types::{option_json, ExecutionInput};
use vstd::prelude::*;
use vstd::std_specs::convert::FromSpecImpl;

verus! {

/// What a pause stands for in contracts.
pub enum DelayView {
    Seconds(Num),
    Milliseconds(u64),
    Backoff {
        interval_seconds: Num,
        backoff_rate: Num,
        max_delay_seconds: Option<Num>,
        attempt: u32,
        jitter_strategy: Option<JitterStrategy>,
    },
}

/// A pause that the host is asked for.
#[derive(Debug, PartialEq, Eq)]
pub enum Delay {
    /// A number of seconds.
    Seconds(JsonNumber),
    /// A number of milliseconds.
    Milliseconds(u64),
    /// The pause before a retry: `interval_seconds` times `backoff_rate` to
    /// the power of `attempt`, the number of retries made before, but no
    /// more than `max_delay_seconds`, and spread as `jitter_strategy` says.
    Backoff {
        interval_seconds: JsonNumber,
        backoff_rate: JsonNumber,
        max_delay_seconds: Option<JsonNumber>,
        attempt: u32,
        jitter_strategy: Option<JitterStrategy>,
    },
}

impl View for Delay {
    type V = DelayView;

    open spec fn view(&self) -> DelayView {
        match self {
            Delay::Seconds(seconds) => DelayView::Seconds(seconds@),
            Delay::Milliseconds(millis) => DelayView::Milliseconds(*millis),
            Delay::Backoff {
                interval_seconds,
                backoff_rate,
                max_delay_seconds,
                attempt,
                jitter_strategy,
            } => DelayView::Backoff {
                interval_seconds: interval_seconds@,
                backoff_rate: backoff_rate@,
                max_delay_seconds: option_num(*max_delay_seconds),
                attempt: *attempt,
                jitter_strategy: *jitter_strategy,
            },
        }
    }
}

impl Clone for Delay {
    fn clone(&self) -> (res: Self)
        ensures
            res@ == self@,
    {
        match self {
            Delay::Seconds(seconds) => Delay::Seconds(seconds.clone()),
            Delay::Milliseconds(millis) => Delay::Milliseconds(*millis),
            Delay::Backoff {
                interval_seconds,
                backoff_rate,
                max_delay_seconds,
                attempt,
                jitter_strategy,
            } => Delay::Backoff {
                interval_seconds: interval_seconds.clone(),
                backoff_rate: backoff_rate.clone(),
                max_delay_seconds: match max_delay_seconds {
                    Some(seconds) => Some(seconds.clone()),
                    None => None,
                },
                attempt: *attempt,
                jitter_strategy: *jitter_strategy,
            },
        }
    }
}

/// The host of an execution: it carries out tasks and pauses.
pub trait StateExecutionHandler {
    /// Carries out the work that `resource` names on `input`, and returns
    /// what the work yields, or the name of the error in which it failed.
    fn execute_task(
        &self,
        resource: &str,
        input: &JsonValue,
        credentials: &Option<JsonValue>,
    ) -> Result<Option<JsonValue>, String>;

    /// Pauses for `delay`.
    fn wait(&self, delay: &Delay);
}

/// Whether `host` was asked for the pause `delay`.
pub open spec fn pause_asked<H: StateExecutionHandler>(host: H, delay: DelayView) -> bool {
    exists|asked: Delay| asked@ == delay && #[trigger] call_ensures(H::wait, (&host, &asked), ())
}

/// What an execution error stands for in contracts.
pub struct ExecutionErrorView {
    pub error: ErrorName,
    pub cause: Option<Seq<char>>,
}

/// The error in which an execution failed.
#[derive(Debug, PartialEq, Eq)]
pub struct StateMachineExecutionError {
    pub error: StateMachineExecutionPredefinedErrors,
    pub cause: Option<String>,
}

/// The text that an optional string stands for.
pub open spec fn option_text(text: Option<String>) -> Option<Seq<char>> {
    match text {
        Some(t) => Some(t@),
        None => None,
    }
}

impl View for StateMachineExecutionError {
    type V = ExecutionErrorView;

    open spec fn view(&self) -> ExecutionErrorView {
        ExecutionErrorView { error: self.error@, cause: option_text(self.cause) }
    }
}

impl Clone for StateMachineExecutionError {
    fn clone(&self) -> (res: Self)
        ensures
            res@ == self@,
    {
        StateMachineExecutionError {
            error: self.error.clone(),
            cause: match &self.cause {
                Some(cause) => Some(cause.clone()),
                None => None,
            },
        }
    }
}

/// What a status stands for in contracts.
pub enum StatusView {
    Executing,
    FinishedWithSuccess(Option<Json>),
    FinishedWithFailure(ExecutionErrorView),
}

/// How far an execution has come.
#[derive(Debug, PartialEq, Eq)]
pub enum ExecutionStatus {
    /// A state is still to run.
    Executing,
    /// The execution has ended, and yielded this.
    FinishedWithSuccess(Option<JsonValue>),
    /// The execution has ended in this error.
    FinishedWithFailure(StateMachineExecutionError),
}

impl View for ExecutionStatus {
    type V = StatusView;

    open spec fn view(&self) -> StatusView {
        match self {
            ExecutionStatus::Executing => StatusView::Executing,
            ExecutionStatus::FinishedWithSuccess(output) => StatusView::FinishedWithSuccess(
                option_json(*output),
            ),
            ExecutionStatus::FinishedWithFailure(error) => StatusView::FinishedWithFailure(error@),
        }
    }
}

impl Clone for ExecutionStatus {
    fn clone(&self) -> (res: Self)
        ensures
            res@ == self@,
    {
        match self {
            ExecutionStatus::Executing => ExecutionStatus::Executing,
            ExecutionStatus::FinishedWithSuccess(output) => ExecutionStatus::FinishedWithSuccess(
                match output {
                    Some(value) => Some(value.clone()),
                    None => None,
                },
            ),
            ExecutionStatus::FinishedWithFailure(error) => ExecutionStatus::FinishedWithFailure(
                error.clone(),
            ),
        }
    }
}

/// What the report of a step stands for in contracts.
pub struct StepView {
    pub status: StatusView,
    pub state_name: Option<Seq<char>>,
    pub result: Option<Json>,
}

/// The report of one step: the status after it, the state that ran, and
/// what the state yielded.
#[derive(Debug, PartialEq, Eq)]
pub struct StateExecutionOutput {
    pub status: ExecutionStatus,
    pub state_name: Option<String>,
    pub result: Option<JsonValue>,
}

impl View for StateExecutionOutput {
    type V = StepView;

    open spec fn view(&self) -> StepView {
        StepView {
            status: self.status@,
            state_name: option_text(self.state_name),
            result: option_json(self.result),
        }
    }
}

/// One run of a state machine on one input.
pub struct Execution<'a, H> where H: StateExecutionHandler {
    pub(crate) definition: &'a StateMachineDefinition,
    pub(crate) next_state_name: Option<String>,
    pub(crate) state_execution_handler: H,
    pub(crate) input: JsonValue,
    pub(crate) status: ExecutionStatus,
    pub(crate) context: JsonValue,
}

impl ExecutionErrorView {
    /// The error of a task that failed: `States.TaskFailed`, with the
    /// failure in words as its cause.
    pub open spec fn of_task(e: TaskStateExecutionError) -> ExecutionErrorView {
        ExecutionErrorView { error: ErrorName::StatesTaskFailed, cause: Some(e.spec_message()) }
    }

    /// The error of a choice state that failed: `States.NoChoiceMatched`,
    /// with the failure in words as its cause.
    pub open spec fn of_choice(e: ChoiceStateErrorView) -> ExecutionErrorView {
        ExecutionErrorView { error: ErrorName::StatesNoChoiceMatched, cause: Some(e.message()) }
    }

    /// The error of a fail state that could not name its error: `Malformed
    /// Fail State`, with the failure in words as its cause.
    pub open spec fn of_fail(e: FailErrorView) -> ExecutionErrorView {
        ExecutionErrorView {
            error: ErrorName::Custom("Malformed Fail State"@),
            cause: Some(e.message()),
        }
    }

    /// The error of a wait state that failed: `Wait State failed`, with the
    /// failure in words as its cause.
    pub open spec fn of_wait(e: WaitErrorView) -> ExecutionErrorView {
        ExecutionErrorView { error: ErrorName::Custom("Wait State failed"@), cause: Some(e.message()) }
    }

    /// The error of parameters that could not be filled in:
    /// `States.ParameterPathFailure`, with the failure in words as its cause.
    pub open spec fn of_payload(e: PayloadErrorView) -> ExecutionErrorView {
        ExecutionErrorView {
            error: ErrorName::StatesParameterPathFailure,
            cause: Some(e.message()),
        }
    }

}

impl From<TaskStateExecutionError> for StateMachineExecutionError {
    /// The error of a task that failed.
    fn from(value: TaskStateExecutionError) -> (res: StateMachineExecutionError)
        ensures
            res@ == ExecutionErrorView::of_task(value),
    {
        StateMachineExecutionError {
            error: StateMachineExecutionPredefinedErrors::StatesTaskFailed,
            cause: Some(value.message()),
        }
    }
}

impl From<ChoiceStateExecutionError> for StateMachineExecutionError {
    /// The error of a choice state that failed.
    fn from(value: ChoiceStateExecutionError) -> (res: StateMachineExecutionError)
        ensures
            res@ == ExecutionErrorView::of_choice(value@),
    {
        StateMachineExecutionError {
            error: StateMachineExecutionPredefinedErrors::StatesNoChoiceMatched,
            cause: Some(value.message()),
        }
    }
}

impl From<FailStateExecutionError> for StateMachineExecutionError {
    /// The error of a fail state that could not name its error.
    fn from(value: FailStateExecutionError) -> (res: StateMachineExecutionError)
        ensures
            res@ == ExecutionErrorView::of_fail(value@),
    {
        StateMachineExecutionError {
            error: StateMachineExecutionPredefinedErrors::Custom("Malformed Fail State".to_owned()),
            cause: Some(value.message()),
        }
    }
}

impl From<WaitStateExecutionError> for StateMachineExecutionError {
    /// The error of a wait state that failed.
    fn from(value: WaitStateExecutionError) -> (res: StateMachineExecutionError)
        ensures
            res@ == ExecutionErrorView::of_wait(value@),
    {
        StateMachineExecutionError {
            error: StateMachineExecutionPredefinedErrors::Custom("Wait State failed".to_owned()),
            cause: Some(value.message()),
        }
    }
}

impl From<PayloadError> for StateMachineExecutionError {
    /// The error of parameters that could not be filled in.
    fn from(value: PayloadError) -> (res: StateMachineExecutionError)
        ensures
            res@ == ExecutionErrorView::of_payload(value@),
    {
        StateMachineExecutionError {
            error: StateMachineExecutionPredefinedErrors::StatesParameterPathFailure,
            cause: Some(value.message()),
        }
    }
}

impl FromSpecImpl<TaskStateExecutionError> for StateMachineExecutionError {
    /// The conversion is stated over views, by the contract of `from`.
    open spec fn obeys_from_spec() -> bool {
        false
    }

    open spec fn from_spec(v: TaskStateExecutionError) -> Self {
        arbitrary()
    }
}

impl FromSpecImpl<ChoiceStateExecutionError> for StateMachineExecutionError {
    /// The conversion is stated over views, by the contract of `from`.
    open spec fn obeys_from_spec() -> bool {
        false
    }

    open spec fn from_spec(v: ChoiceStateExecutionError) -> Self {
        arbitrary()
    }
}

impl FromSpecImpl<FailStateExecutionError> for StateMachineExecutionError {
    /// The conversion is stated over views, by the contract of `from`.
    open spec fn obeys_from_spec() -> bool {
        false
    }

    open spec fn from_spec(v: FailStateExecutionError) -> Self {
        arbitrary()
    }
}

impl FromSpecImpl<WaitStateExecutionError> for StateMachineExecutionError {
    /// The conversion is stated over views, by the contract of `from`.
    open spec fn obeys_from_spec() -> bool {
        false
    }

    open spec fn from_spec(v: WaitStateExecutionError) -> Self {
        arbitrary()
    }
}

impl FromSpecImpl<PayloadError> for StateMachineExecutionError {
    /// The conversion is stated over views, by the contract of `from`.
    open spec fn obeys_from_spec() -> bool {
        false
    }

    open spec fn from_spec(v: PayloadError) -> Self {
        arbitrary()
    }
}

/// What running one state comes to: what it yields and what follows it, or
/// the error in which the execution fails.
pub type StateResult = Result<HandlerOutputView, ExecutionErrorView>;

/// What the result of running a state stands for.
pub open spec fn state_result_view(res: Result<HandlerOutput, StateMachineExecutionError>) -> StateResult {
    match res {
        Ok(output) => Ok(output@),
        Err(e) => Err(e@),
    }
}

impl States {
    /// What running the state on an input comes to, where the host gave
    /// `answers` to the runs of its work. Only a task has the host work: any
    /// other state has one result, with no answers. Nothing where the answers
    /// are not those of one whole run of the state.
    pub open spec fn outcome(self, value: Json, context: Json, answers: Seq<HostAnswer>) -> Option<
        StateResult,
    > {
        match self {
            States::Task(task) => match task.outcome(answers) {
                Some(Ok(output)) => Some(Ok(output)),
                Some(Err(e)) => Some(Err(ExecutionErrorView::of_task(e))),
                None => None,
            },
            other => if answers.len() == 0 {
                Some(other.settled(value, context))
            } else {
                None
            },
        }
    }

    /// Whether `raws` is what `host` handed over in a run of the state on
    /// `input`, and whether the host was asked for what the state has it do.
    /// A task has the host work and pause; a wait state that settles what it
    /// waits for has the host pause for it; no other state is handed
    /// anything by the host.
    pub open spec fn hosted<H: StateExecutionHandler>(
        self,
        host: H,
        input: ExecutionInput,
        raws: Seq<RawAnswer>,
    ) -> bool {
        match self {
            States::Task(task) => task_hosted(host, task, input.value, raws),
            States::Wait(wait) => raws.len() == 0 && match wait.target(
                input.value@,
                input.context@,
            ) {
                Ok(target) => waited(host, target),
                Err(_) => true,
            },
            _ => raws.len() == 0,
        }
    }

    /// Whether `raws` is what `host` handed over in one whole run of the
    /// state on `input`, and `result` what the run came to.
    pub open spec fn ran<H: StateExecutionHandler>(
        self,
        host: H,
        input: ExecutionInput,
        raws: Seq<RawAnswer>,
        result: StateResult,
    ) -> bool {
        &&& self.hosted(host, input, raws)
        &&& self.outcome(input.value@, input.context@, answers_view(raws)) == Some(result)
    }

    /// What running a state other than a task comes to on an input. A
    /// parallel and a map state yield nothing and hand over; a pass state
    /// yields its parameters, filled in from the input, or the input where it
    /// has none, and hands over; a succeed state ends the execution with the
    /// input as its yield; a fail state ends it in the error that it names.
    pub open spec fn settled(self, value: Json, context: Json) -> StateResult {
        match self {
            States::Task(task) => Ok(
                HandlerOutputView { output: None, next_state: task.end_or_next@ },
            ),
            States::Parallel(parallel) => Ok(
                HandlerOutputView { output: None, next_state: parallel.end_or_next@ },
            ),
            States::MapState(map) => Ok(
                HandlerOutputView { output: None, next_state: map.end_or_next@ },
            ),
            States::Pass(pass) => match pass.parameters {
                None => Ok(HandlerOutputView { output: Some(value), next_state: pass.end_or_next@ }),
                Some(parameters) => match parameters@.filled(value, context) {
                    Ok(output) => Ok(
                        HandlerOutputView { output: Some(output), next_state: pass.end_or_next@ },
                    ),
                    Err(e) => Err(ExecutionErrorView::of_payload(e)),
                },
            },
            States::Wait(wait) => match wait.outcome(value, context) {
                Ok(output) => Ok(output),
                Err(e) => Err(ExecutionErrorView::of_wait(e)),
            },
            States::Choice(choice) => match choice.outcome(value, context) {
                Ok(output) => Ok(output),
                Err(e) => Err(ExecutionErrorView::of_choice(e)),
            },
            States::Succeed(_) => Ok(HandlerOutputView { output: Some(value), next_state: None }),
            States::Fail(fail) => match fail.outcome(value, context) {
                Ok(output) => Err(
                    ExecutionErrorView { error: ErrorName::Custom(output.error), cause: output.cause },
                ),
                Err(e) => Err(ExecutionErrorView::of_fail(e)),
            },
        }
    }
}

/// The status after a state has run: the execution goes on where a state
/// follows, has succeeded with what the state yielded where none follows,
/// and has failed where the state failed.
pub open spec fn status_after(result: StateResult) -> StatusView {
    match result {
        Ok(output) => match output.next_state {
            Some(_) => StatusView::Executing,
            None => StatusView::FinishedWithSuccess(output.output),
        },
        Err(e) => StatusView::FinishedWithFailure(e),
    }
}

/// The name of the state that runs next after a state has run, if any.
pub open spec fn next_after(result: StateResult) -> Option<Seq<char>> {
    match result {
        Ok(output) => output.next_state,
        Err(_) => None,
    }
}

/// What the state that ran yielded: nothing where it failed.
pub open spec fn yield_of(result: StateResult) -> Option<Json> {
    match result {
        Ok(output) => output.output,
        Err(_) => None,
    }
}

/// What an execution stands for in contracts: all of it but the host.
pub struct ExecutionView {
    pub definition: StateMachineDefinition,
    pub next_state_name: Option<Seq<char>>,
    pub input: Json,
    pub status: StatusView,
    pub context: Json,
}

impl ExecutionView {
    /// Whether no step is left: the execution has ended, or no state is to
    /// run.
    pub open spec fn finished(self) -> bool {
        !(self.status is Executing) || self.next_state_name is None
    }

    /// Whether the state that is to run, if any, is a state of the
    /// definition, and so is every state to which a state may hand over.
    pub open spec fn sound(self) -> bool {
        &&& self.definition.closed()
        &&& self.next_state_name matches Some(name) ==> state_index(
            self.definition.states@,
            name,
        ) is Some
    }

    /// What the state that is to run comes to, where the host gave
    /// `answers`. Nothing where no state of the definition is to run.
    pub open spec fn result(self, answers: Seq<HostAnswer>) -> Option<StateResult> {
        match self.next_state_name {
            Some(name) => match state_index(self.definition.states@, name) {
                Some(i) => self.definition.states@[i].1.outcome(self.input, self.context, answers),
                None => None,
            },
            None => None,
        }
    }

    /// The execution after a step in which the state that ran came to
    /// `result`.
    pub open spec fn after(self, result: StateResult) -> ExecutionView {
        ExecutionView {
            definition: self.definition,
            next_state_name: next_after(result),
            input: self.input,
            status: status_after(result),
            context: self.context,
        }
    }

    /// The execution after a step in which the host gives `answers`, and
    /// the report of the step. Nothing where the answers are not those of
    /// one whole run of the state that is to run.
    pub open spec fn step(self, answers: Seq<HostAnswer>) -> Option<(ExecutionView, StepView)> {
        match self.result(answers) {
            Some(result) => Some((self.after(result), self.report(result))),
            None => None,
        }
    }

    /// The report of a step in which the state that ran came to `result`.
    pub open spec fn report(self, result: StateResult) -> StepView {
        StepView {
            status: status_after(result),
            state_name: self.next_state_name,
            result: yield_of(result),
        }
    }

    /// Whether the execution made a step with `host` that left it as `after`
    /// and reported `report`: the state that was to run ran on `input`, which
    /// holds the input and the context of the execution; `raws` is what the
    /// host handed over in that run; and the step is that of those answers.
    pub open spec fn stepped<H: StateExecutionHandler>(
        self,
        host: H,
        input: ExecutionInput,
        raws: Seq<RawAnswer>,
        after: ExecutionView,
        report: StepView,
    ) -> bool {
        &&& input.value@ == self.input
        &&& input.context@ == self.context
        &&& self.next_state_name matches Some(name)
        &&& state_index(self.definition.states@, name) matches Some(i)
        &&& self.definition.states@[i].1.hosted(host, input, raws)
        &&& self.step(answers_view(raws)) == Some((after, report))
    }
}

impl<'a, H: StateExecutionHandler> View for Execution<'a, H> {
    type V = ExecutionView;

    closed spec fn view(&self) -> ExecutionView {
        ExecutionView {
            definition: *self.definition,
            next_state_name: option_text(self.next_state_name),
            input: self.input@,
            status: self.status@,
            context: self.context@,
        }
    }
}

impl<'a, H: StateExecutionHandler> Execution<'a, H> {
    /// What holds of every execution: it never looks for a state in vain.
    #[verifier::type_invariant]
    spec fn kept(self) -> bool {
        self@.sound()
    }

    /// The host of the execution.
    pub closed spec fn host(&self) -> H {
        self.state_execution_handler
    }

    /// The host of the execution, to ask it for work or for a pause.
    pub fn handler(&self) -> (res: &H)
        ensures
            *res == self.host(),
    {
        &self.state_execution_handler
    }

    /// An execution of a definition that can be run, at its start state,
    /// before any step.
    pub(crate) fn begin(
        definition: &'a StateMachineDefinition,
        state_execution_handler: H,
        input: JsonValue,
        context: JsonValue,
    ) -> (res: Execution<'a, H>)
        requires
            definition.runnable(),
        ensures
            res@ == (ExecutionView {
                definition: *definition,
                next_state_name: Some(definition.start_at@),
                input: input@,
                status: StatusView::Executing,
                context: context@,
            }),
            res.host() == state_execution_handler,
    {
        Execution {
            definition,
            next_state_name: Some(definition.start_at.clone()),
            state_execution_handler,
            input,
            status: ExecutionStatus::Executing,
            context,
        }
    }

    /// How far the execution has come.
    pub fn status(&self) -> (res: &ExecutionStatus)
        ensures
            res@ == self@.status,
            self@.sound(),
    {
        proof {
            use_type_invariant(self);
        }
        &self.status
    }

    /// The input, the name and the state of the step that is to come; none
    /// where no state is to run. The state is there: an execution holds no
    /// name that its definition does not hold.
    pub fn fetch_next_state(&self) -> (res: Option<(ExecutionInput, String, &'a States)>)
        ensures
            match self@.next_state_name {
                None => res is None,
                Some(name) => {
                    &&& res matches Some(found)
                    &&& found.0.value@ == self@.input
                    &&& found.0.context@ == self@.context
                    &&& found.1@ == name
                    &&& state_index(self@.definition.states@, name) matches Some(i)
                    &&& found.2 == &self@.definition.states@[i].1
                },
            },
    {
        proof {
            use_type_invariant(self);
        }
        match &self.next_state_name {
            None => None,
            Some(name) => {
                let input = ExecutionInput {
                    value: self.input.clone(),
                    context: self.context.clone(),
                };
                match find_state(&self.definition.states, name.as_str()) {
                    Some(state) => Some((input, name.clone(), state)),
                    None => None,
                }
            },
        }
    }

    /// The name of the state that runs next after a state has run, if any.
    pub fn decide_next_state(
        state_execution_result: &Result<HandlerOutput, StateMachineExecutionError>,
    ) -> (res: Option<String>)
        ensures
            option_text(res) == next_after(state_result_view(*state_execution_result)),
    {
        match state_execution_result {
            Ok(handler_output) => match &handler_output.next_state {
                EndOrNext::End => None,
                EndOrNext::Next(next_state_name) => Some(next_state_name.clone()),
            },
            Err(_) => None,
        }
    }

    /// The status after a state has run.
    pub fn calculate_status(
        state_execution_result: &Result<HandlerOutput, StateMachineExecutionError>,
    ) -> (res: ExecutionStatus)
        ensures
            res@ == status_after(state_result_view(*state_execution_result)),
    {
        match state_execution_result {
            Ok(handler_output) => match &handler_output.next_state {
                EndOrNext::End => ExecutionStatus::FinishedWithSuccess(
                    match &handler_output.output {
                        Some(value) => Some(value.clone()),
                        None => None,
                    },
                ),
                EndOrNext::Next(_) => ExecutionStatus::Executing,
            },
            Err(err) => ExecutionStatus::FinishedWithFailure(err.clone()),
        }
    }

    /// Runs one state on its input, and has the host do what the state asks
    /// of it. The result is that of the answers that the host gave.
    pub fn execute_state(&self, state_input: &ExecutionInput, state_to_execute: &States) -> (res:
        Result<HandlerOutput, StateMachineExecutionError>)
        ensures
            exists|raws: Seq<RawAnswer>|
                state_to_execute.ran(self.host(), *state_input, raws, state_result_view(res)),
    {
        let ghost none: Seq<RawAnswer> = Seq::empty();
        let ghost host = self.host();
        proof {
            assert(answers_view(none) =~= Seq::<HostAnswer>::empty());
        }
        match state_to_execute {
            States::Task(task) => {
                let handled = self.handle_task(task, state_input);
                let ghost task_result = task_result_view(handled);
                let res = match handled {
                    Ok(output) => Ok(output),
                    Err(e) => Err(StateMachineExecutionError::from(e)),
                };
                proof {
                    let raws = choose|raws: Seq<RawAnswer>|
                        task_ran(host, *task, state_input.value, raws, task_result);
                    assert(state_to_execute.ran(host, *state_input, raws, state_result_view(res)));
                }
                res
            },
            States::Parallel(parallel) => {
                let res = Ok(
                    HandlerOutput { output: None, next_state: parallel.end_or_next.clone() },
                );
                assert(state_to_execute.ran(host, *state_input, none, state_result_view(res)));
                res
            },
            States::MapState(map) => {
                let res = Ok(HandlerOutput { output: None, next_state: map.end_or_next.clone() });
                assert(state_to_execute.ran(host, *state_input, none, state_result_view(res)));
                res
            },
            States::Pass(pass) => {
                let output = match &pass.parameters {
                    Some(parameters) => fill(parameters, state_input),
                    None => Ok(state_input.value.clone()),
                };
                let res = match output {
                    Ok(output) => Ok(
                        HandlerOutput { output: Some(output), next_state: pass.end_or_next.clone() },
                    ),
                    Err(e) => Err(StateMachineExecutionError::from(e)),
                };
                assert(state_to_execute.ran(host, *state_input, none, state_result_view(res)));
                res
            },
            States::Wait(wait) => {
                let res = match self.handle_wait(wait, state_input) {
                    Ok(output) => Ok(output),
                    Err(e) => Err(StateMachineExecutionError::from(e)),
                };
                assert(state_to_execute.ran(host, *state_input, none, state_result_view(res)));
                res
            },
            States::Choice(choice) => {
                let res = match self.handle_choice(choice, state_input) {
                    Ok(output) => Ok(output),
                    Err(e) => Err(StateMachineExecutionError::from(e)),
                };
                assert(state_to_execute.ran(host, *state_input, none, state_result_view(res)));
                res
            },
            States::Succeed(_) => {
                let res = Ok(
                    HandlerOutput {
                        output: Some(state_input.value.clone()),
                        next_state: EndOrNext::End,
                    },
                );
                assert(state_to_execute.ran(host, *state_input, none, state_result_view(res)));
                res
            },
            States::Fail(fail) => {
                let res = match self.handle_fail(fail, state_input) {
                    Ok(output) => Err(
                        StateMachineExecutionError {
                            error: StateMachineExecutionPredefinedErrors::Custom(output.error),
                            cause: output.cause,
                        },
                    ),
                    Err(e) => Err(StateMachineExecutionError::from(e)),
                };
                assert(state_to_execute.ran(host, *state_input, none, state_result_view(res)));
                res
            },
        }
    }

    /// Makes one step: runs the state that is to run on the input of the
    /// execution, has the host do what the state asks of it, and reports
    /// what the state came to. No step is made, and nothing changes, where
    /// the execution has ended or no state is to run. After a step the
    /// execution goes on exactly where a state is to run next.
    pub fn next(&mut self) -> (res: Option<StateExecutionOutput>)
        ensures
            old(self)@.finished() ==> res is None && *final(self) == *old(self),
            !old(self)@.finished() ==> (res is Some && exists|
                input: ExecutionInput,
                raws: Seq<RawAnswer>,
            |
                old(self)@.stepped(old(self).host(), input, raws, final(self)@, res->Some_0@)),
            res is Some ==> (final(self)@.status is Executing <==> final(self)@.next_state_name
                is Some),
            final(self).host() == old(self).host(),
            final(self)@.sound(),
    {
        proof {
            use_type_invariant(&*self);
        }
        match &self.status {
            ExecutionStatus::Executing => {},
            _ => {
                return None;
            },
        }
        let (state_input, state_name, state) = match self.fetch_next_state() {
            None => {
                return None;
            },
            Some(found) => found,
        };
        let ghost before = self@;
        let ghost host = self.host();
        assert(before == old(self)@);
        let state_execution_result = self.execute_state(&state_input, state);
        let ghost result = state_result_view(state_execution_result);
        let ghost raws: Seq<RawAnswer> = choose|raws: Seq<RawAnswer>|
            state.ran(host, state_input, raws, result);
        let ghost answers = answers_view(raws);
        assert(before.result(answers) == Some(result));
        let status = Self::calculate_status(&state_execution_result);
        let next_state_name = Self::decide_next_state(&state_execution_result);
        proof {
            lemma_closed_definition_finds_its_states(before, answers);
        }
        self.status = status;
        self.next_state_name = next_state_name;
        let result_value = match state_execution_result {
            Ok(output) => output.output,
            Err(_) => None,
        };
        let report = StateExecutionOutput {
            status: self.status.clone(),
            state_name: Some(state_name),
            result: result_value,
        };
        assert(self@ == before.after(result));
        assert(report@ == before.report(result));
        let res = Some(report);
        assert(old(self)@.stepped(old(self).host(), state_input, raws, self@, res->Some_0@));
        res
    }
}

impl ExecutionView {
    /// The reports of the steps that the execution makes where the host
    /// gives `answers`, one run of answers for each step: the steps go on
    /// until the execution is finished, the answers are used up, or a run of
    /// answers is not that of one whole run of the state that is to run.
    pub open spec fn run(self, answers: Seq<Seq<HostAnswer>>) -> Seq<StepView>
        decreases answers.len(),
    {
        if self.finished() || answers.len() == 0 {
            Seq::empty()
        } else {
            match self.step(answers[0]) {
                Some((after, report)) => seq![report] + after.run(answers.drop_first()),
                None => Seq::empty(),
            }
        }
    }
}

impl ExecutionView {
    /// Whether the execution made the steps that `reports` reports, one
    /// after the other, with `host`: step by step, the state that was to run
    /// ran on the input of `inputs`, and the host handed over the answers of
    /// `raws`.
    pub open spec fn walked<H: StateExecutionHandler>(
        self,
        host: H,
        inputs: Seq<ExecutionInput>,
        raws: Seq<Seq<RawAnswer>>,
        reports: Seq<StepView>,
    ) -> bool
        decreases reports.len(),
    {
        if reports.len() == 0 {
            true
        } else if inputs.len() != reports.len() || raws.len() != reports.len() {
            false
        } else {
            match self.step(answers_view(raws[0])) {
                Some((after, report)) => {
                    &&& report == reports[0]
                    &&& self.stepped(host, inputs[0], raws[0], after, report)
                    &&& after.walked(
                        host,
                        inputs.drop_first(),
                        raws.drop_first(),
                        reports.drop_first(),
                    )
                },
                None => false,
            }
        }
    }
}

/// A step is settled by the execution and the behaviour of the host: two
/// steps of one execution, each with its host, leave the same execution and
/// report the same where the hosts behave alike.
pub proof fn lemma_step_is_determined<G: StateExecutionHandler, H: StateExecutionHandler>(
    e: ExecutionView,
    g: G,
    h: H,
    input_g: ExecutionInput,
    input_h: ExecutionInput,
    raws_g: Seq<RawAnswer>,
    raws_h: Seq<RawAnswer>,
    after_g: ExecutionView,
    after_h: ExecutionView,
    report_g: StepView,
    report_h: StepView,
)
    requires
        alike(g, h),
        e.stepped(g, input_g, raws_g, after_g, report_g),
        e.stepped(h, input_h, raws_h, after_h, report_h),
    ensures
        answers_view(raws_g) == answers_view(raws_h),
        after_g == after_h,
        report_g == report_h,
{
    let i = state_index(e.definition.states@, e.next_state_name->Some_0)->Some_0;
    match e.definition.states@[i].1 {
        States::Task(task) => {
            let result_g = task.outcome(answers_view(raws_g))->Some_0;
            let result_h = task.outcome(answers_view(raws_h))->Some_0;
            lemma_task_is_determined(
                g,
                h,
                task,
                input_g.value,
                input_h.value,
                raws_g,
                raws_h,
                result_g,
                result_h,
            );
        },
        _ => {
            assert(answers_view(raws_g) =~= answers_view(raws_h));
        },
    }
}

/// The reports of an execution are settled by the definition, the input, the
/// context and the behaviour of the host: of two runs of steps that one
/// execution makes, each with its host, each step reports the same as long
/// as both go on, where the hosts behave alike.
pub proof fn lemma_reports_are_determined<G: StateExecutionHandler, H: StateExecutionHandler>(
    e: ExecutionView,
    g: G,
    h: H,
    inputs_g: Seq<ExecutionInput>,
    inputs_h: Seq<ExecutionInput>,
    raws_g: Seq<Seq<RawAnswer>>,
    raws_h: Seq<Seq<RawAnswer>>,
    reports_g: Seq<StepView>,
    reports_h: Seq<StepView>,
)
    requires
        alike(g, h),
        e.walked(g, inputs_g, raws_g, reports_g),
        e.walked(h, inputs_h, raws_h, reports_h),
    ensures
        forall|i: int|
            0 <= i < reports_g.len() && i < reports_h.len() ==> reports_g[i] == reports_h[i],
        reports_g.len() == reports_h.len() ==> reports_g == reports_h,
    decreases reports_g.len(),
{
    if reports_g.len() > 0 && reports_h.len() > 0 {
        let (after_g, report_g) = e.step(answers_view(raws_g[0]))->Some_0;
        let (after_h, report_h) = e.step(answers_view(raws_h[0]))->Some_0;
        lemma_step_is_determined(
            e,
            g,
            h,
            inputs_g[0],
            inputs_h[0],
            raws_g[0],
            raws_h[0],
            after_g,
            after_h,
            report_g,
            report_h,
        );
        lemma_reports_are_determined(
            after_g,
            g,
            h,
            inputs_g.drop_first(),
            inputs_h.drop_first(),
            raws_g.drop_first(),
            raws_h.drop_first(),
            reports_g.drop_first(),
            reports_h.drop_first(),
        );
        assert forall|i: int| 0 <= i < reports_g.len() && i < reports_h.len() implies reports_g[i]
            == reports_h[i] by {
            if i > 0 {
                assert(reports_g[i] == reports_g.drop_first()[i - 1]);
                assert(reports_h[i] == reports_h.drop_first()[i - 1]);
            }
        }
    }
    if reports_g.len() == reports_h.len() {
        assert(reports_g =~= reports_h);
    }
}

/// The reports of a run are settled by the definition, the input, the
/// context, the state at which the run starts and the answers of the host:
/// two executions that agree in these make the same steps.
pub proof fn lemma_run_is_determined(
    a: ExecutionView,
    b: ExecutionView,
    answers_a: Seq<Seq<HostAnswer>>,
    answers_b: Seq<Seq<HostAnswer>>,
)
    requires
        a.definition == b.definition,
        a.input == b.input,
        a.context == b.context,
        a.next_state_name == b.next_state_name,
        a.status == b.status,
        answers_a == answers_b,
    ensures
        a.run(answers_a) == b.run(answers_b),
{
}

/// Only a task asks the host: a step that runs any other state takes no
/// answer, and so comes to the same whatever the host would do.
pub proof fn lemma_only_tasks_ask_the_host(e: ExecutionView, answers: Seq<HostAnswer>)
    requires
        e.step(answers) is Some,
        !(e.definition.states@[state_index(
            e.definition.states@,
            e.next_state_name->Some_0,
        )->Some_0].1 is Task),
    ensures
        answers.len() == 0,
{
}

/// Every step advances or ends the execution: after it the status is
/// `Executing` exactly where a state is to run next, the report shows the
/// status in which the step left the execution, and it names the state that
/// ran.
pub proof fn lemma_step_advances_or_ends(e: ExecutionView, answers: Seq<HostAnswer>)
    requires
        e.step(answers) is Some,
    ensures
        ({
            let (after, report) = e.step(answers)->Some_0;
            &&& after.status is Executing <==> after.next_state_name is Some
            &&& report.status == after.status
            &&& report.state_name == e.next_state_name
            &&& after.definition == e.definition
            &&& after.input == e.input
            &&& after.context == e.context
        }),
{
}

/// An execution that has ended stays as it is: once the status is not
/// `Executing`, the execution is finished, it is still finished after any
/// step that led there, and a run from it reports nothing.
pub proof fn lemma_finished_stays_finished(e: ExecutionView, answers: Seq<Seq<HostAnswer>>)
    requires
        !(e.status is Executing),
    ensures
        e.finished(),
        e.run(answers) == Seq::<StepView>::empty(),
{
}

/// A step that ends the execution leaves it finished.
pub proof fn lemma_ending_step_finishes(e: ExecutionView, answers: Seq<HostAnswer>)
    requires
        e.step(answers) is Some,
        !(e.step(answers)->Some_0.0.status is Executing),
    ensures
        e.step(answers)->Some_0.0.finished(),
        e.step(answers)->Some_0.0.next_state_name is None,
{
}

/// A state hands over only to the states that it names: where running a
/// state comes to a state that follows, the state leads to that state.
pub proof fn lemma_outcome_leads(
    state: States,
    value: Json,
    context: Json,
    answers: Seq<HostAnswer>,
)
    ensures
        state.outcome(value, context, answers) matches Some(Ok(output)) ==> (output.next_state
            matches Some(name) ==> state.leads_to(name)),
{
    match state {
        States::Task(task) => {
            if let Some(Ok(output)) = task.outcome(answers) {
                if let Err(error) = answers.last() {
                    if let Some(catchers) = task.catch {
                        lemma_catcher_from(catchers@, error, 0);
                    }
                }
            }
        },
        States::Choice(choice) => {
            lemma_first_match(choice.choices@, value, context, 0);
        },
        _ => {},
    }
}

/// An execution of a definition that holds every state to which a state may
/// hand over never looks for a state in vain: where the state that is to run
/// is a state of the definition, so is the state that is to run after any
/// step.
pub proof fn lemma_closed_definition_finds_its_states(e: ExecutionView, answers: Seq<HostAnswer>)
    requires
        e.definition.closed(),
        e.next_state_name matches Some(name) && state_index(e.definition.states@, name) is Some,
        e.step(answers) is Some,
    ensures
        e.step(answers)->Some_0.0.next_state_name matches Some(next) ==> state_index(
            e.definition.states@,
            next,
        ) is Some,
{
    let name = e.next_state_name->Some_0;
    lemma_state_index(e.definition.states@, name, 0);
    let i = state_index(e.definition.states@, name)->Some_0;
    let state = e.definition.states@[i].1;
    lemma_outcome_leads(state, e.input, e.context, answers);
    let after = e.step(answers)->Some_0.0;
    if let Some(next) = after.next_state_name {
        assert(state.leads_to(next));
        assert(!e.definition.dangles(i, next));
    }
}

} // verus!
