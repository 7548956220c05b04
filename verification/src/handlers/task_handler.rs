//! The task state: the host carries out the work; an error is retried,
//! caught, or fails the execution.

use crate::error_handling::{matches_any, names_view, Catcher, ErrorName, Retrier};
use crate::execution::{pause_asked, Delay, DelayView, Execution, StateExecutionHandler};
use crate::handlers::{HandlerOutput, HandlerOutputView};
use crate::json::{Json, JsonValue};
use crate::states::all_states::EndOrNext;
use crate::states::task::Task;
use crate::types::{option_json, ExecutionInput};
use vstd::prelude::*;

verus! {

/// Why a task failed the execution.
#[derive(Debug, PartialEq, Eq, Clone, Copy, Structural)]
pub enum TaskStateExecutionError {
    /// The task has catchers, and none is for the error.
    NoCatcherMatched,
    /// The task has no catchers.
    NoCatchersAvailable,
}

impl TaskStateExecutionError {
    /// The error in words.
    pub open spec fn spec_message(self) -> Seq<char> {
        match self {
            TaskStateExecutionError::NoCatcherMatched => "No catcher matched"@,
            TaskStateExecutionError::NoCatchersAvailable => "No catcher available"@,
        }
    }

    /// The error in words.
    pub fn message(&self) -> (res: String)
        ensures
            res@ == self.spec_message(),
    {
        match self {
            TaskStateExecutionError::NoCatcherMatched => "No catcher matched".to_owned(),
            TaskStateExecutionError::NoCatchersAvailable => "No catcher available".to_owned(),
        }
    }
}

/// What the host answers to one run of a task: what the work yields, or the
/// name of its error.
pub type HostAnswer = Result<Option<Json>, Seq<char>>;

/// The answer that a host's result stands for.
pub open spec fn answer_view(answer: Result<Option<JsonValue>, String>) -> HostAnswer {
    match answer {
        Ok(output) => Ok(option_json(output)),
        Err(name) => Err(name@),
    }
}

/// What the host answers to one run of a task, as the host hands it over.
pub type RawAnswer = Result<Option<JsonValue>, String>;

/// The answers that what the host handed over stands for, one for one.
pub open spec fn answers_view(raws: Seq<RawAnswer>) -> Seq<HostAnswer> {
    Seq::new(raws.len(), |i: int| answer_view(raws[i]))
}

/// Whether `raw` is an answer of `host` to being asked for the work of a
/// task on an input: the host was handed the resource of the task, the
/// input itself, and the credentials of the task.
pub open spec fn task_asked<H: StateExecutionHandler>(
    host: H,
    task: Task,
    input: JsonValue,
    raw: RawAnswer,
) -> bool {
    exists|name: &str|
        name@ == task.resource@ && #[trigger] call_ensures(
            H::execute_task,
            (&host, name, &input, &task.credentials),
            raw,
        )
}

/// Whether, in a run of a task in which the host gave `answers`, the answer
/// at place `i` had the task run again, and the host was asked for the pause
/// of the retrier that took it.
pub open spec fn retried<H: StateExecutionHandler>(
    host: H,
    task: Task,
    answers: Seq<HostAnswer>,
    i: int,
) -> bool {
    match task.used_after(answers.take(i)) {
        Some(used) => match task.decision(used, answers[i]) {
            TaskDecisionView::Retry { delay, .. } => pause_asked(host, delay),
            TaskDecisionView::Finished(_) => false,
        },
        None => false,
    }
}

/// Whether `raws` is what `host` handed over in a run of a task on an
/// input: each answer is an answer of the host to being asked for the work
/// of the task on the input, and behind each answer but the last the task
/// ran again, after the host was asked for the pause of the retrier that
/// took the answer.
pub open spec fn task_hosted<H: StateExecutionHandler>(
    host: H,
    task: Task,
    input: JsonValue,
    raws: Seq<RawAnswer>,
) -> bool {
    &&& forall|i: int| 0 <= i < raws.len() ==> task_asked(host, task, input, #[trigger] raws[i])
    &&& forall|i: int|
        0 <= i < raws.len() - 1 ==> #[trigger] retried(host, task, answers_view(raws), i)
}

/// Whether `raws` is what `host` handed over in one whole run of a task on
/// an input, and `result` what the run came to: the result of the answers.
pub open spec fn task_ran<H: StateExecutionHandler>(
    host: H,
    task: Task,
    input: JsonValue,
    raws: Seq<RawAnswer>,
    result: Result<HandlerOutputView, TaskStateExecutionError>,
) -> bool {
    &&& task_hosted(host, task, input, raws)
    &&& task.outcome(answers_view(raws)) == Some(result)
}

/// Whether, in a run of a task in which the host gave `answers`, the answer
/// at place `i` had the task run again.
pub open spec fn ran_again(task: Task, answers: Seq<HostAnswer>, i: int) -> bool {
    match task.used_after(answers.take(i)) {
        Some(used) => task.decision(used, answers[i]) is Retry,
        None => false,
    }
}

/// Whether two hosts behave alike: asked for the same work on the same
/// input with the same credentials, they give the same answer. A host that
/// is like itself gives one answer to one question.
pub open spec fn alike<G: StateExecutionHandler, H: StateExecutionHandler>(g: G, h: H) -> bool {
    forall|
        name_g: &str,
        name_h: &str,
        input_g: JsonValue,
        input_h: JsonValue,
        credentials: Option<JsonValue>,
        raw_g: RawAnswer,
        raw_h: RawAnswer,
    |
        name_g@ == name_h@ && input_g@ == input_h@ && #[trigger] call_ensures(
            G::execute_task,
            (&g, name_g, &input_g, &credentials),
            raw_g,
        ) && #[trigger] call_ensures(
            H::execute_task,
            (&h, name_h, &input_h, &credentials),
            raw_h,
        ) ==> answer_view(raw_g) == answer_view(raw_h)
}

/// Two whole runs of a task in which every answer is the same are one run:
/// the task runs again after the same answers, and ends on the same answer.
pub proof fn lemma_same_answers_same_run(task: Task, a: Seq<HostAnswer>, b: Seq<HostAnswer>)
    requires
        forall|i: int, j: int| 0 <= i < a.len() && 0 <= j < b.len() ==> a[i] == b[j],
        forall|i: int| 0 <= i < a.len() - 1 ==> #[trigger] ran_again(task, a, i),
        forall|i: int| 0 <= i < b.len() - 1 ==> #[trigger] ran_again(task, b, i),
        task.outcome(a) is Some,
        task.outcome(b) is Some,
    ensures
        a == b,
{
    if a.len() < b.len() {
        let n = a.len() as int;
        assert(ran_again(task, b, n - 1));
        assert(a.drop_last() =~= b.take(n - 1));
        assert(a.last() == b[n - 1]);
    } else if b.len() < a.len() {
        let n = b.len() as int;
        assert(ran_again(task, a, n - 1));
        assert(b.drop_last() =~= a.take(n - 1));
        assert(b.last() == a[n - 1]);
    } else {
        assert(a =~= b);
    }
}

/// A task comes to the same with hosts that behave alike: two whole runs of
/// it on the same input, each with its host, see the same answers and have
/// the same result.
pub proof fn lemma_task_is_determined<G: StateExecutionHandler, H: StateExecutionHandler>(
    g: G,
    h: H,
    task: Task,
    input_g: JsonValue,
    input_h: JsonValue,
    raws_g: Seq<RawAnswer>,
    raws_h: Seq<RawAnswer>,
    result_g: Result<HandlerOutputView, TaskStateExecutionError>,
    result_h: Result<HandlerOutputView, TaskStateExecutionError>,
)
    requires
        alike(g, h),
        input_g@ == input_h@,
        task_ran(g, task, input_g, raws_g, result_g),
        task_ran(h, task, input_h, raws_h, result_h),
    ensures
        answers_view(raws_g) == answers_view(raws_h),
        result_g == result_h,
{
    let a = answers_view(raws_g);
    let b = answers_view(raws_h);
    assert forall|i: int, j: int| 0 <= i < a.len() && 0 <= j < b.len() implies a[i] == b[j] by {
        assert(task_asked(g, task, input_g, raws_g[i]));
        assert(task_asked(h, task, input_h, raws_h[j]));
        let name_g = choose|name: &str|
            name@ == task.resource@ && #[trigger] call_ensures(
                G::execute_task,
                (&g, name, &input_g, &task.credentials),
                raws_g[i],
            );
        let name_h = choose|name: &str|
            name@ == task.resource@ && #[trigger] call_ensures(
                H::execute_task,
                (&h, name, &input_h, &task.credentials),
                raws_h[j],
            );
        assert(answer_view(raws_g[i]) == answer_view(raws_h[j]));
    }
    assert forall|i: int| 0 <= i < a.len() - 1 implies #[trigger] ran_again(task, a, i) by {
        assert(retried(g, task, a, i));
    }
    assert forall|i: int| 0 <= i < b.len() - 1 implies #[trigger] ran_again(task, b, i) by {
        assert(retried(h, task, b, i));
    }
    lemma_same_answers_same_run(task, a, b);
}

/// An answer more leaves what came before as it was.
pub proof fn lemma_retried_before<H: StateExecutionHandler>(
    host: H,
    task: Task,
    raws: Seq<RawAnswer>,
    raw: RawAnswer,
    i: int,
)
    requires
        0 <= i < raws.len(),
    ensures
        retried(host, task, answers_view(raws.push(raw)), i) == retried(
            host,
            task,
            answers_view(raws),
            i,
        ),
{
    assert(answers_view(raws.push(raw)).take(i) =~= answers_view(raws).take(i));
    assert(answers_view(raws.push(raw))[i] == answers_view(raws)[i]);
}

/// What the result of a task stands for.
pub open spec fn task_result_view(res: Result<HandlerOutput, TaskStateExecutionError>) -> Result<
    HandlerOutputView,
    TaskStateExecutionError,
> {
    match res {
        Ok(output) => Ok(output@),
        Err(e) => Err(e),
    }
}

impl Retrier {
    /// Whether the retrier takes an error: it is for the error, and has
    /// retried `used` times, fewer than it may.
    pub open spec fn takes(self, used: u32, error: Seq<char>) -> bool {
        ErrorName::any_matches(names_view(self.error_equals@), error) && used < self.max_attempts
    }

    /// How often the retrier may still retry.
    pub open spec fn left(self, used: u32) -> nat {
        if used < self.max_attempts {
            (self.max_attempts - used) as nat
        } else {
            0
        }
    }

    /// The pause before the retry that follows `used` others.
    pub open spec fn backoff(self, used: u32) -> DelayView {
        DelayView::Backoff {
            interval_seconds: self.interval_seconds@,
            backoff_rate: self.backoff_rate@,
            max_delay_seconds: match self.max_delay_seconds {
                Some(seconds) => Some(seconds@),
                None => None,
            },
            attempt: used,
            jitter_strategy: self.jitter_strategy,
        }
    }
}

impl Catcher {
    /// Whether the catcher is for an error.
    pub open spec fn takes(self, error: Seq<char>) -> bool {
        ErrorName::any_matches(names_view(self.error_equals@), error)
    }
}

/// The place of the first retrier at or after `from` that takes the error,
/// `used` holding how often each has retried.
pub open spec fn retrier_from(retriers: Seq<Retrier>, used: Seq<u32>, error: Seq<char>, from: int) -> Option<int>
    decreases retriers.len() - from,
{
    if from < 0 || from >= retriers.len() || from >= used.len() {
        None
    } else if retriers[from].takes(used[from], error) {
        Some(from)
    } else {
        retrier_from(retriers, used, error, from + 1)
    }
}

/// The place of the first catcher at or after `from` that is for the error.
pub open spec fn catcher_from(catchers: Seq<Catcher>, error: Seq<char>, from: int) -> Option<int>
    decreases catchers.len() - from,
{
    if from < 0 || from >= catchers.len() {
        None
    } else if catchers[from].takes(error) {
        Some(from)
    } else {
        catcher_from(catchers, error, from + 1)
    }
}

/// How many retries all retriers together may still make.
pub open spec fn budget(retriers: Seq<Retrier>, used: Seq<u32>) -> nat
    decreases retriers.len(),
{
    if retriers.len() == 0 || used.len() != retriers.len() {
        0
    } else {
        budget(retriers.drop_last(), used.drop_last()) + retriers.last().left(used.last())
    }
}

/// One more retry of a retrier that may still retry takes one from the
/// budget.
pub proof fn lemma_budget_step(retriers: Seq<Retrier>, used: Seq<u32>, i: int)
    requires
        used.len() == retriers.len(),
        0 <= i < retriers.len(),
        used[i] < retriers[i].max_attempts,
    ensures
        budget(retriers, used.update(i, (used[i] + 1) as u32)) + 1 == budget(retriers, used),
    decreases retriers.len(),
{
    let next = used.update(i, (used[i] + 1) as u32);
    if i == retriers.len() - 1 {
        assert(next.drop_last() =~= used.drop_last());
    } else {
        lemma_budget_step(retriers.drop_last(), used.drop_last(), i);
        assert(next.drop_last() =~= used.drop_last().update(i, (used[i] + 1) as u32));
    }
}

/// What is done after one answer of the host.
#[derive(Debug, PartialEq, Eq)]
pub enum TaskDecision {
    /// The task is over, with this result.
    Finished(Result<HandlerOutput, TaskStateExecutionError>),
    /// The task runs again after `delay`, by the retrier at place `retrier`.
    Retry { retrier: usize, delay: Delay },
}

/// What a decision stands for in contracts.
pub enum TaskDecisionView {
    Finished(Result<HandlerOutputView, TaskStateExecutionError>),
    Retry { retrier: int, delay: DelayView },
}

impl View for TaskDecision {
    type V = TaskDecisionView;

    open spec fn view(&self) -> TaskDecisionView {
        match self {
            TaskDecision::Finished(res) => TaskDecisionView::Finished(task_result_view(*res)),
            TaskDecision::Retry { retrier, delay } => TaskDecisionView::Retry {
                retrier: *retrier as int,
                delay: delay@,
            },
        }
    }
}

/// As many zeros as there are retriers.
pub open spec fn unused(retriers: Seq<Retrier>) -> Seq<u32> {
    Seq::new(retriers.len(), |i: int| 0u32)
}

impl Task {
    /// The retriers of the task, in order.
    pub open spec fn retriers(self) -> Seq<Retrier> {
        match self.retry {
            Some(retriers) => retriers@,
            None => Seq::empty(),
        }
    }

    /// Where an error leads that no retrier takes: to the state of the first
    /// catcher that is for it, with nothing yielded. Without such a catcher
    /// the task fails.
    pub open spec fn caught(self, error: Seq<char>) -> Result<
        HandlerOutputView,
        TaskStateExecutionError,
    > {
        match self.catch {
            None => Err(TaskStateExecutionError::NoCatchersAvailable),
            Some(catchers) => match catcher_from(catchers@, error, 0) {
                Some(i) => Ok(
                    HandlerOutputView { output: None, next_state: Some(catchers@[i].next@) },
                ),
                None => Err(TaskStateExecutionError::NoCatcherMatched),
            },
        }
    }

    /// What is done after the host's answer, `used` holding how often each
    /// retrier has retried. Work that succeeds ends the task with what it
    /// yields, and the task hands over as it says. An error goes to the
    /// first retrier that takes it, which runs the task again; an error that
    /// no retrier takes is caught or fails the task.
    pub open spec fn decision(self, used: Seq<u32>, answer: HostAnswer) -> TaskDecisionView {
        match answer {
            Ok(output) => TaskDecisionView::Finished(
                Ok(HandlerOutputView { output, next_state: self.end_or_next@ }),
            ),
            Err(error) => match retrier_from(self.retriers(), used, error, 0) {
                Some(i) => TaskDecisionView::Retry {
                    retrier: i,
                    delay: self.retriers()[i].backoff(used[i]),
                },
                None => TaskDecisionView::Finished(self.caught(error)),
            },
        }
    }

    /// How often each retrier has retried after the host gave `answers`,
    /// each of which had the task run again. Nothing where one of them ended
    /// the task.
    pub open spec fn used_after(self, answers: Seq<HostAnswer>) -> Option<Seq<u32>>
        decreases answers.len(),
    {
        if answers.len() == 0 {
            Some(unused(self.retriers()))
        } else {
            match self.used_after(answers.drop_last()) {
                Some(used) => match self.decision(used, answers.last()) {
                    TaskDecisionView::Retry { retrier, .. } => Some(
                        used.update(retrier, (used[retrier] + 1) as u32),
                    ),
                    TaskDecisionView::Finished(_) => None,
                },
                None => None,
            }
        }
    }

    /// The result of the task where the host gave `answers`, one for each
    /// run of the work. Nothing where the answers are not those of one whole
    /// run of the task: where the last does not end it, or an earlier one
    /// does.
    pub open spec fn outcome(self, answers: Seq<HostAnswer>) -> Option<
        Result<HandlerOutputView, TaskStateExecutionError>,
    > {
        if answers.len() == 0 {
            None
        } else {
            match self.used_after(answers.drop_last()) {
                Some(used) => match self.decision(used, answers.last()) {
                    TaskDecisionView::Finished(res) => Some(res),
                    TaskDecisionView::Retry { .. } => None,
                },
                None => None,
            }
        }
    }

    /// Where an error leads that no retrier takes.
    #[verifier::loop_isolation(false)]
    pub fn route_to_catch(&self, error: &str) -> (res: Result<
        HandlerOutput,
        TaskStateExecutionError,
    >)
        ensures
            task_result_view(res) == self.caught(error@),
    {
        match &self.catch {
            None => Err(TaskStateExecutionError::NoCatchersAvailable),
            Some(catchers) => {
                let mut i: usize = 0;
                while i < catchers.len()
                    invariant
                        i <= catchers.len(),
                        catcher_from(catchers@, error@, 0) == catcher_from(
                            catchers@,
                            error@,
                            i as int,
                        ),
                    decreases catchers.len() - i,
                {
                    if matches_any(error, &catchers[i].error_equals) {
                        return Ok(
                            HandlerOutput {
                                output: None,
                                next_state: EndOrNext::Next(catchers[i].next.clone()),
                            },
                        );
                    }
                    i += 1;
                }
                Err(TaskStateExecutionError::NoCatcherMatched)
            },
        }
    }

    /// The place of the first retrier that takes the error.
    #[verifier::loop_isolation(false)]
    pub fn find_retrier(&self, used: &Vec<u32>, error: &str) -> (res: Option<usize>)
        requires
            used@.len() == self.retriers().len(),
        ensures
            retrier_from(self.retriers(), used@, error@, 0) == match res {
                Some(i) => Some(i as int),
                None => None,
            },
            res matches Some(i) ==> i < used@.len(),
    {
        match &self.retry {
            None => None,
            Some(retriers) => {
                let mut i: usize = 0;
                while i < retriers.len()
                    invariant
                        i <= retriers.len(),
                        used@.len() == retriers@.len(),
                        retrier_from(retriers@, used@, error@, 0) == retrier_from(
                            retriers@,
                            used@,
                            error@,
                            i as int,
                        ),
                    decreases retriers.len() - i,
                {
                    if used[i] < retriers[i].max_attempts && matches_any(
                        error,
                        &retriers[i].error_equals,
                    ) {
                        return Some(i);
                    }
                    i += 1;
                }
                None
            },
        }
    }

    /// What is done after the host's answer, `used` holding how often each
    /// retrier has retried.
    pub fn decide(&self, used: &Vec<u32>, answer: Result<Option<JsonValue>, String>) -> (res:
        TaskDecision)
        requires
            used@.len() == self.retriers().len(),
        ensures
            res@ == self.decision(used@, answer_view(answer)),
    {
        match answer {
            Ok(output) => TaskDecision::Finished(
                Ok(HandlerOutput { output, next_state: self.end_or_next.clone() }),
            ),
            Err(error) => match self.find_retrier(used, error.as_str()) {
                Some(i) => match &self.retry {
                    Some(retriers) => {
                        proof {
                            lemma_retrier_from_takes(self.retriers(), used@, error@, 0);
                        }
                        TaskDecision::Retry {
                            retrier: i,
                            delay: Delay::Backoff {
                                interval_seconds: retriers[i].interval_seconds.clone(),
                                backoff_rate: retriers[i].backoff_rate.clone(),
                                max_delay_seconds: match &retriers[i].max_delay_seconds {
                                    Some(seconds) => Some(seconds.clone()),
                                    None => None,
                                },
                                attempt: used[i],
                                jitter_strategy: retriers[i].jitter_strategy,
                            },
                        }
                    },
                    None => TaskDecision::Finished(self.route_to_catch(error.as_str())),
                },
                None => TaskDecision::Finished(self.route_to_catch(error.as_str())),
            },
        }
    }

    /// A counter at zero for each retrier.
    pub fn fresh_counters(&self) -> (res: Vec<u32>)
        ensures
            res@ == unused(self.retriers()),
    {
        let mut used: Vec<u32> = Vec::new();
        let n: usize = match &self.retry {
            Some(retriers) => retriers.len(),
            None => 0,
        };
        while used.len() < n
            invariant
                n == self.retriers().len(),
                used.len() <= n,
                forall|k: int| 0 <= k < used.len() ==> used@[k] == 0,
            decreases n - used.len(),
        {
            used.push(0);
        }
        assert(used@ =~= unused(self.retriers()));
        used
    }
}

impl<'a, H: StateExecutionHandler> Execution<'a, H> {
    /// Runs a task: has the host carry out the work that the task names on
    /// the input, with the credentials of the task; again after each error
    /// that a retrier takes, and after the pause that the retrier asks for,
    /// for which the host is asked; until the work succeeds or an error is
    /// caught or fails the task. The result is that of the answers that the
    /// host gave.
    pub fn handle_task(&self, task: &Task, input: &ExecutionInput) -> (res: Result<
        HandlerOutput,
        TaskStateExecutionError,
    >)
        ensures
            exists|raws: Seq<RawAnswer>|
                task_ran(self.host(), *task, input.value, raws, task_result_view(res)),
    {
        let mut used = task.fresh_counters();
        let ghost mut raws: Seq<RawAnswer> = Seq::empty();
        let ghost host = self.host();
        proof {
            assert(answers_view(raws) =~= Seq::<HostAnswer>::empty());
        }
        loop
            invariant
                host == self.host(),
                used@.len() == task.retriers().len(),
                task.used_after(answers_view(raws)) == Some(used@),
                forall|i: int|
                    0 <= i < raws.len() ==> task_asked(host, *task, input.value, #[trigger] raws[i]),
                forall|i: int|
                    0 <= i < raws.len() ==> #[trigger] retried(host, *task, answers_view(raws), i),
            decreases budget(task.retriers(), used@),
        {
            let answer = self.handler().execute_task(
                task.resource.as_str(),
                &input.value,
                &task.credentials,
            );
            let ghost raw = answer;
            let ghost a = answer_view(answer);
            let ghost before = used@;
            let ghost earlier = raws;
            let ghost all = raws.push(raw);
            proof {
                assert(task_asked(host, *task, input.value, raw));
                assert(answers_view(all).drop_last() =~= answers_view(earlier));
                assert(answers_view(all).take(earlier.len() as int) =~= answers_view(earlier));
                assert(answers_view(all).last() == a);
                assert forall|i: int| 0 <= i < earlier.len() implies #[trigger] retried(
                    host,
                    *task,
                    answers_view(all),
                    i,
                ) by {
                    lemma_retried_before(host, *task, earlier, raw, i);
                }
            }
            match task.decide(&used, answer) {
                TaskDecision::Finished(res) => {
                    proof {
                        assert(task.outcome(answers_view(all)) == Some(task_result_view(res)));
                        assert(task_ran(host, *task, input.value, all, task_result_view(res)));
                    }
                    return res;
                },
                TaskDecision::Retry { retrier, delay } => {
                    self.handler().wait(&delay);
                    proof {
                        assert(pause_asked(host, delay@));
                        assert(retried(host, *task, answers_view(all), earlier.len() as int));
                        lemma_retrier_from_takes(task.retriers(), before, a->Err_0, 0);
                        lemma_budget_step(task.retriers(), before, retrier as int);
                    }
                    let count: u32 = used[retrier];
                    used.set(retrier, count + 1);
                    proof {
                        raws = all;
                    }
                },
            }
        }
    }
}

/// The place that `catcher_from` gives lies within the catchers, at or
/// after `from`.
pub proof fn lemma_catcher_from(catchers: Seq<Catcher>, error: Seq<char>, from: int)
    ensures
        catcher_from(catchers, error, from) matches Some(i) ==> from <= i < catchers.len() && 0
            <= i,
    decreases catchers.len() - from,
{
    if 0 <= from < catchers.len() && !catchers[from].takes(error) {
        lemma_catcher_from(catchers, error, from + 1);
    }
}

/// The retrier that `retrier_from` finds takes the error.
pub proof fn lemma_retrier_from_takes(retriers: Seq<Retrier>, used: Seq<u32>, error: Seq<char>, from: int)
    ensures
        retrier_from(retriers, used, error, from) matches Some(i) ==> from <= i < retriers.len() && i
            < used.len() && retriers[i].takes(used[i], error),
    decreases retriers.len() - from,
{
    if from < 0 || from >= retriers.len() || from >= used.len() {
    } else if retriers[from].takes(used[from], error) {
    } else {
        lemma_retrier_from_takes(retriers, used, error, from + 1);
    }
}

} // verus!
