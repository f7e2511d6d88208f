//! What holds of every execution: the shape of the run's record while its
//! steps are in progress and once it has ended.

use crate::connector::webhook::method_named;
use crate::json::JsonView;
use crate::schemas::common::{StepStatus, WorkflowStatus};
use crate::schemas::run::WorkflowRunView;
use crate::schemas::workflow::{
    output_json,
    StepResultView,
    WorkflowDefinitionView,
    WorkflowStepView,
};
use crate::services::workflow::{
    dispatch,
    failed,
    initial_context,
    next,
    run_failed,
    run_succeeded,
    run_with_result,
    started,
    step_outcome,
    step_request,
    succeeded,
    EngineActionView,
    EngineEventView,
    ExecutionView,
    Loaded,
};
use crate::string_map::{distinct, keys_of, lemma_find_is, lemma_put, lookup, put};
use crate::text::uppercase;
use vstd::prelude::*;

verus! {

/// The first `count` step results are Success.
pub open spec fn all_succeeded(results: Seq<(Seq<char>, StepResultView)>, count: int) -> bool {
    forall|j: int| 0 <= j < count ==> (#[trigger] results[j]).1.status == StepStatus::Success
}

/// The run while the first `done` steps of `workflow` are done and the
/// rest is still to come: it is Running, and its step results are those
/// of the steps done, in order, each Success.
pub open spec fn in_progress(
    workflow: WorkflowDefinitionView,
    run: WorkflowRunView,
    done: int,
) -> bool {
    &&& 0 <= done <= workflow.steps.len()
    &&& run.status == WorkflowStatus::Running
    &&& keys_of(run.step_results) == workflow.step_names().take(done)
    &&& all_succeeded(run.step_results, done)
}

/// The run after every step succeeded: Success, completed, with exactly
/// one result per step, each Success.
pub open spec fn ended_in_success(workflow: WorkflowDefinitionView, run: WorkflowRunView) -> bool {
    &&& run.status == WorkflowStatus::Success
    &&& run.completed_at is Some
    &&& run.step_results.len() == workflow.steps.len()
    &&& keys_of(run.step_results) == workflow.step_names()
    &&& all_succeeded(run.step_results, workflow.steps.len() as int)
}

/// The run after its step number `k`, counted from 1, failed: Failed,
/// completed, with exactly `k` results, the first `k - 1` Success and the
/// last one Failed with the error that the run carries.
pub open spec fn ended_in_failure_at(
    workflow: WorkflowDefinitionView,
    run: WorkflowRunView,
    k: int,
) -> bool {
    &&& 1 <= k <= workflow.steps.len()
    &&& run.status == WorkflowStatus::Failed
    &&& run.completed_at is Some
    &&& run.step_results.len() == k
    &&& keys_of(run.step_results) == workflow.step_names().take(k)
    &&& all_succeeded(run.step_results, k - 1)
    &&& run.step_results[k - 1].1.status == StepStatus::Failed
    &&& run.error is Some
    &&& run.step_results[k - 1].1.error == run.error
}

/// The accounting that an execution of `workflow` keeps, state by state.
/// It speaks of the states from the moment the run is marked Running.
pub open spec fn accounted(workflow: WorkflowDefinitionView, state: ExecutionView) -> bool {
    match state {
        ExecutionView::LoadingRun { .. } => false,
        ExecutionView::LoadingWorkflow { .. } => false,
        ExecutionView::MarkingRunning { run, workflow: held } => held == workflow && in_progress(
            workflow,
            run,
            0,
        ),
        ExecutionView::RunningStep { run, workflow: held, index, .. } => held == workflow && index
            < workflow.steps.len() && in_progress(workflow, run, index),
        ExecutionView::Saving { run } => ended_in_success(workflow, run) || ended_in_failure_at(
            workflow,
            run,
            run.step_results.len() as int,
        ),
        ExecutionView::Done => true,
    }
}

/// Whether the step's connector has a request for it, whatever the
/// context holds.
pub open spec fn can_start(step: WorkflowStepView) -> bool {
    match step {
        WorkflowStepView::Delay { .. } => true,
        WorkflowStepView::Webhook { config, .. } => method_named(uppercase(config.method)) is Some,
    }
}

/// Whether a step gets a request does not depend on the context.
pub proof fn lemma_can_start(step: WorkflowStepView, context: Seq<(Seq<char>, JsonView)>)
    ensures
        step_request(step, context) is Ok <==> can_start(step),
{
}

/// The record of step `done` is added at the end of the results of the
/// steps before it, which stay as they are: among distinct step names
/// the step's name is not yet a key.
proof fn lemma_recorded(
    workflow: WorkflowDefinitionView,
    run: WorkflowRunView,
    done: int,
    record: StepResultView,
)
    requires
        workflow.well_formed(),
        in_progress(workflow, run, done),
        done < workflow.steps.len(),
    ensures
        ({
            let name = workflow.steps[done].name();
            let results = put(run.step_results, name, record);
            &&& results == run.step_results.push((name, record))
            &&& results.len() == done + 1
            &&& keys_of(results) == workflow.step_names().take(done + 1)
            &&& all_succeeded(results, done)
            &&& record.status == StepStatus::Success ==> all_succeeded(results, done + 1)
        }),
{
    let names = workflow.step_names();
    let keys = keys_of(run.step_results);
    let name = workflow.steps[done].name();
    let results = put(run.step_results, name, record);
    assert(names[done] == name);
    assert(keys.len() == done);
    assert forall|j: int| 0 <= j < done implies keys[j] != name by {
        assert(keys[j] == names.take(done)[j]);
        assert(names[j] != names[done]);
    }
    lemma_find_is(keys, name, done);
    lemma_put(run.step_results, name, record);
    assert(keys.push(name) =~= names.take(done + 1));
    assert forall|j: int| 0 <= j < done implies (#[trigger] results[j]).1.status
        == StepStatus::Success by {
        assert(results[j] == run.step_results[j]);
    }
}

/// After step `done` succeeded, the steps up to and with it are done.
proof fn lemma_step_succeeded(
    workflow: WorkflowDefinitionView,
    run: WorkflowRunView,
    done: int,
    record: StepResultView,
)
    requires
        workflow.well_formed(),
        in_progress(workflow, run, done),
        done < workflow.steps.len(),
        record.status == StepStatus::Success,
    ensures
        in_progress(workflow, run_with_result(run, workflow.steps[done].name(), record), done + 1),
        run_with_result(run, workflow.steps[done].name(), record).error == run.error,
{
    lemma_recorded(workflow, run, done, record);
}

/// After step `done` failed, the run has ended in failure at that step,
/// with the step's error.
proof fn lemma_step_failed(
    workflow: WorkflowDefinitionView,
    run: WorkflowRunView,
    done: int,
    result: StepResultView,
    error: Seq<char>,
    now: Seq<char>,
)
    requires
        workflow.well_formed(),
        in_progress(workflow, run, done),
        done < workflow.steps.len(),
    ensures
        ended_in_failure_at(
            workflow,
            run_failed(run, workflow.steps[done].name(), result, error, now),
            done + 1,
        ),
        run_failed(run, workflow.steps[done].name(), result, error, now).error == Some(error),
{
    lemma_recorded(workflow, run, done, failed(result, error, now));
}

/// Where step `index` begins after the steps before it are done: it is
/// in progress if it gets a request, the run has ended in failure at it
/// if it gets none, and the run has ended in success if no step is left.
proof fn lemma_dispatch(
    workflow: WorkflowDefinitionView,
    run: WorkflowRunView,
    context: Seq<(Seq<char>, JsonView)>,
    index: int,
    now: Seq<char>,
)
    requires
        workflow.well_formed(),
        in_progress(workflow, run, index),
    ensures
        ({
            let begun = dispatch(run, workflow, context, index, now).0;
            &&& accounted(workflow, begun)
            &&& index == workflow.steps.len() ==> begun == (ExecutionView::Saving {
                run: run_succeeded(run, now),
            }) && ended_in_success(workflow, run_succeeded(run, now))
            &&& index < workflow.steps.len() && can_start(workflow.steps[index]) ==> begun
                == (ExecutionView::RunningStep {
                run,
                workflow,
                context,
                index,
                result: started(workflow.steps[index], now),
            })
            &&& index < workflow.steps.len() && !can_start(workflow.steps[index]) ==> begun is Saving
                && ended_in_failure_at(workflow, begun->Saving_run, index + 1)
                && step_request(workflow.steps[index], context) is Err
                && begun->Saving_run.error == Some(
                step_request(workflow.steps[index], context)->Err_0,
            )
        }),
{
    if index < workflow.steps.len() {
        let step = workflow.steps[index];
        lemma_can_start(step, context);
        if let Err(error) = step_request(step, context) {
            lemma_step_failed(workflow, run, index, started(step, now), error, now);
        }
    } else {
        assert(workflow.step_names().take(index) =~= workflow.step_names());
        assert(run.step_results.len() == keys_of(run.step_results).len());
    }
}

/// What follows the reply to the step in progress. If the reply gives an
/// output, the step's record is Success and the next step begins as
/// `lemma_dispatch` says, with the output added to the context; if it
/// gives an error, the run has ended in failure at this step with that
/// error.
proof fn lemma_reply(
    workflow: WorkflowDefinitionView,
    state: ExecutionView,
    event: EngineEventView,
    now: Seq<char>,
)
    requires
        workflow.well_formed(),
        accounted(workflow, state),
        state is RunningStep,
        event is Replied,
    ensures
        ({
            let run = state->RunningStep_run;
            let context = state->RunningStep_context;
            let index = state->RunningStep_index;
            let result = state->RunningStep_result;
            let step = workflow.steps[index];
            let following = next(state, event, now).0;
            match step_outcome(step, event->Replied_0) {
                Ok(output) => {
                    let after = run_with_result(run, step.name(), succeeded(result, output, now));
                    &&& in_progress(workflow, after, index + 1)
                    &&& after.error == run.error
                    &&& following == dispatch(
                        after,
                        workflow,
                        put(context, step.name(), output_json(output)),
                        index + 1,
                        now,
                    ).0
                },
                Err(error) => {
                    &&& following is Saving
                    &&& ended_in_failure_at(workflow, following->Saving_run, index + 1)
                    &&& following->Saving_run.error == Some(error)
                },
            }
        }),
{
    let run = state->RunningStep_run;
    let index = state->RunningStep_index;
    let result = state->RunningStep_result;
    let step = workflow.steps[index];
    match step_outcome(step, event->Replied_0) {
        Ok(output) => {
            lemma_step_succeeded(workflow, run, index, succeeded(result, output, now));
        },
        Err(error) => {
            lemma_step_failed(workflow, run, index, result, error, now);
        },
    }
}

/// The accounting before a run's first step: it begins with a run that
/// has no step results yet, as every triggered run has.
pub proof fn lemma_accounting_begins(
    run: WorkflowRunView,
    workflow: WorkflowDefinitionView,
    now: Seq<char>,
)
    requires
        run.step_results.len() == 0,
    ensures
        accounted(
            workflow,
            next(
                ExecutionView::LoadingWorkflow { run },
                EngineEventView::WorkflowLoaded(Loaded::Found(workflow)),
                now,
            ).0,
        ),
{
    let marked = WorkflowRunView { status: WorkflowStatus::Running, ..run };
    assert(keys_of(marked.step_results) =~= workflow.step_names().take(0));
}

/// Every transition keeps the accounting. So a run that ends Success has
/// exactly one result per step, each Success, and a run that ends Failed
/// has results for the steps up to the one that failed and for no other,
/// and carries that step's error.
pub proof fn lemma_accounting_kept(
    workflow: WorkflowDefinitionView,
    state: ExecutionView,
    event: EngineEventView,
    now: Seq<char>,
)
    requires
        workflow.well_formed(),
        accounted(workflow, state),
    ensures
        accounted(workflow, next(state, event, now).0),
{
    match state {
        ExecutionView::MarkingRunning { run, .. } => {
            if event is Saved {
                lemma_dispatch(workflow, run, initial_context(run), 0, now);
            }
        },
        ExecutionView::RunningStep { run, context, index, result, .. } => {
            if event is Replied {
                lemma_reply(workflow, state, event, now);
                let step = workflow.steps[index];
                if let Ok(output) = step_outcome(step, event->Replied_0) {
                    lemma_dispatch(
                        workflow,
                        run_with_result(run, step.name(), succeeded(result, output, now)),
                        put(context, step.name(), output_json(output)),
                        index + 1,
                        now,
                    );
                }
            }
        },
        _ => {},
    }
}

/// A run that has not ended: no terminal status and no completion time.
pub open spec fn unfinished(run: WorkflowRunView) -> bool {
    !run.status.terminal() && run.completed_at is None
}

/// The status that the run has in each state: Running exactly while its
/// steps are being executed, terminal exactly while the end is being
/// written, and the completion time set exactly with a terminal status.
pub open spec fn status_in_step(state: ExecutionView) -> bool {
    match state {
        ExecutionView::LoadingRun { .. } => true,
        ExecutionView::LoadingWorkflow { run } => unfinished(run),
        ExecutionView::MarkingRunning { run, .. } => run.status == WorkflowStatus::Running
            && run.completed_at is None,
        ExecutionView::RunningStep { run, .. } => run.status == WorkflowStatus::Running
            && run.completed_at is None,
        ExecutionView::Saving { run } => run.status.terminal() && run.completed_at is Some && (
        run.status == WorkflowStatus::Failed ==> run.error is Some),
        ExecutionView::Done => true,
    }
}

/// Where the run that is loaded has not ended, every state that follows
/// holds a run whose completion time is set exactly when its status is
/// terminal; a run is Success or Failed only once the engine has stopped
/// executing steps, and a Failed run carries an error.
pub proof fn lemma_status_in_step(state: ExecutionView, event: EngineEventView, now: Seq<char>)
    requires
        status_in_step(state),
        event matches EngineEventView::RunLoaded(Loaded::Found(run)) ==> unfinished(run),
    ensures
        status_in_step(next(state, event, now).0),
        next(state, event, now).0.run() matches Some(run) ==> run.settled(),
{
}

/// No key occurs twice among the run's step results, nor in the context
/// of the step in progress.
pub open spec fn keyed(state: ExecutionView) -> bool {
    match state {
        ExecutionView::RunningStep { run, context, .. } => distinct(keys_of(run.step_results))
            && distinct(keys_of(context)),
        _ => match state.run() {
            Some(run) => distinct(keys_of(run.step_results)),
            None => true,
        },
    }
}

/// Where the run that is loaded has no step name twice among its
/// results, no transition brings a key in twice: a step's result and
/// output replace what was stored under the step's name.
pub proof fn lemma_keyed(state: ExecutionView, event: EngineEventView, now: Seq<char>)
    requires
        keyed(state),
        event matches EngineEventView::RunLoaded(Loaded::Found(run)) ==> distinct(
            keys_of(run.step_results),
        ),
    ensures
        keyed(next(state, event, now).0),
{
    match state {
        ExecutionView::MarkingRunning { run, workflow } => {
            if event is Saved {
                lemma_keyed_dispatch(run, workflow, initial_context(run), 0, now);
            }
        },
        ExecutionView::RunningStep { run, workflow, context, index, result } => {
            if event is Replied && 0 <= index < workflow.steps.len() {
                let step = workflow.steps[index];
                match step_outcome(step, event->Replied_0) {
                    Ok(output) => {
                        let record = succeeded(result, output, now);
                        lemma_put(run.step_results, step.name(), record);
                        lemma_put(context, step.name(), output_json(output));
                        lemma_keyed_dispatch(
                            run_with_result(run, step.name(), record),
                            workflow,
                            put(context, step.name(), output_json(output)),
                            index + 1,
                            now,
                        );
                    },
                    Err(error) => {
                        lemma_put(run.step_results, step.name(), failed(result, error, now));
                    },
                }
            }
        },
        _ => {},
    }
}

/// Beginning a step brings no key in twice.
proof fn lemma_keyed_dispatch(
    run: WorkflowRunView,
    workflow: WorkflowDefinitionView,
    context: Seq<(Seq<char>, JsonView)>,
    index: int,
    now: Seq<char>,
)
    requires
        distinct(keys_of(run.step_results)),
        distinct(keys_of(context)),
    ensures
        keyed(dispatch(run, workflow, context, index, now).0),
{
    if 0 <= index < workflow.steps.len() {
        let step = workflow.steps[index];
        if let Err(error) = step_request(step, context) {
            lemma_put(run.step_results, step.name(), failed(started(step, now), error, now));
        }
    }
}

/// The context after the first `done` steps of `workflow`: it holds the
/// output of each of them under the step's name, as a structured value,
/// and the run's payload under `payload` unless one of those steps is
/// itself named `payload`. So the context can be rebuilt from the run's
/// payload and step results.
pub open spec fn context_follows(
    workflow: WorkflowDefinitionView,
    run: WorkflowRunView,
    context: Seq<(Seq<char>, JsonView)>,
    done: int,
) -> bool {
    &&& forall|j: int|
        0 <= j < done ==> (#[trigger] run.step_results[j]).1.output is Some && lookup(
            context,
            workflow.steps[j].name(),
        ) == Some(output_json(run.step_results[j].1.output->0))
    &&& (forall|j: int| 0 <= j < done ==> (#[trigger] workflow.steps[j]).name() != "payload"@)
        ==> lookup(context, "payload"@) == Some(JsonView::Object(run.payload))
}

/// The context that the step in progress sees is the one that the steps
/// before it left.
pub open spec fn threaded(workflow: WorkflowDefinitionView, state: ExecutionView) -> bool {
    match state {
        ExecutionView::RunningStep { run, context, index, .. } => context_follows(
            workflow,
            run,
            context,
            index,
        ),
        _ => true,
    }
}

/// Every transition keeps the context in step with the run: each step
/// sees the payload and the outputs of the steps before it, and nothing
/// is taken out of the context.
pub proof fn lemma_context_kept(
    workflow: WorkflowDefinitionView,
    state: ExecutionView,
    event: EngineEventView,
    now: Seq<char>,
)
    requires
        workflow.well_formed(),
        accounted(workflow, state),
        threaded(workflow, state),
    ensures
        threaded(workflow, next(state, event, now).0),
{
    match state {
        ExecutionView::MarkingRunning { run, .. } => {
            if event is Saved {
                lemma_find_is(keys_of(initial_context(run)), "payload"@, 0);
            }
        },
        ExecutionView::RunningStep { run, context, index, result, .. } => {
            if event is Replied {
                let step = workflow.steps[index];
                if let Ok(output) = step_outcome(step, event->Replied_0) {
                    let record = succeeded(result, output, now);
                    lemma_recorded(workflow, run, index, record);
                    let after = run_with_result(run, step.name(), record);
                    let value = output_json(output);
                    let context_after = put(context, step.name(), value);
                    lemma_put(context, step.name(), value);
                    let names = workflow.step_names();
                    assert(names[index] == step.name());
                    assert forall|j: int| 0 <= j < index + 1 implies (
                    #[trigger] after.step_results[j]).1.output is Some && lookup(
                        context_after,
                        workflow.steps[j].name(),
                    ) == Some(output_json(after.step_results[j].1.output->0)) by {
                        if j < index {
                            assert(after.step_results[j] == run.step_results[j]);
                            assert(names[j] == workflow.steps[j].name());
                            assert(names[j] != names[index]);
                        }
                    }
                    if forall|j: int|
                        0 <= j < index + 1 ==> (#[trigger] workflow.steps[j]).name() != "payload"@ {
                        assert(workflow.steps[index].name() != "payload"@);
                        assert forall|j: int| 0 <= j < index implies (
                        #[trigger] workflow.steps[j]).name() != "payload"@ by {}
                    }
                    assert(context_follows(workflow, after, context_after, index + 1));
                }
            }
        },
        _ => {},
    }
}

/// Once a run's terminal status is being written, nothing more is asked
/// for: no later step runs.
pub proof fn lemma_nothing_after_the_end(
    state: ExecutionView,
    event: EngineEventView,
    now: Seq<char>,
)
    requires
        state is Saving || state is Done,
    ensures
        next(state, event, now) == (ExecutionView::Done, EngineActionView::Finished),
{
}

/// The state after the events have arrived in order, each at its time.
pub open spec fn replay(
    state: ExecutionView,
    events: Seq<(EngineEventView, Seq<char>)>,
) -> ExecutionView
    decreases events.len(),
{
    if events.len() == 0 {
        state
    } else {
        replay(next(state, events[0].0, events[0].1).0, events.drop_first())
    }
}

/// The accounting holds after any sequence of events.
pub proof fn lemma_accounting_over_events(
    workflow: WorkflowDefinitionView,
    state: ExecutionView,
    events: Seq<(EngineEventView, Seq<char>)>,
)
    requires
        workflow.well_formed(),
        accounted(workflow, state),
    ensures
        accounted(workflow, replay(state, events)),
    decreases events.len(),
{
    if events.len() > 0 {
        lemma_accounting_kept(workflow, state, events[0].0, events[0].1);
        lemma_accounting_over_events(
            workflow,
            next(state, events[0].0, events[0].1).0,
            events.drop_first(),
        );
    }
}

/// Replaying a first event and then the rest is replaying them all.
pub proof fn lemma_replay_first(
    state: ExecutionView,
    first: (EngineEventView, Seq<char>),
    rest: Seq<(EngineEventView, Seq<char>)>,
)
    ensures
        replay(state, seq![first] + rest) == replay(next(state, first.0, first.1).0, rest),
{
    assert((seq![first] + rest).drop_first() =~= rest);
}

/// Each of the events is a connector's reply, and the reply at position
/// `j` lets the step at `from + j` succeed.
pub open spec fn replies_succeed(
    workflow: WorkflowDefinitionView,
    from: int,
    events: Seq<(EngineEventView, Seq<char>)>,
) -> bool {
    forall|j: int|
        0 <= j < events.len() ==> (#[trigger] events[j]).0 is Replied && 0 <= from + j
            < workflow.steps.len() && step_outcome(
            workflow.steps[from + j],
            events[j].0->Replied_0,
        ) is Ok
}

/// Every step with an index in `[from, to)` gets a request.
pub open spec fn steps_can_start(workflow: WorkflowDefinitionView, from: int, to: int) -> bool {
    forall|i: int|
        from <= i < to && 0 <= i < workflow.steps.len() ==> can_start(
            #[trigger] workflow.steps[i],
        )
}

/// The events that take a run from its start to its first step: the run
/// is loaded, its workflow is loaded, and the run is written as Running.
pub open spec fn opening(
    run: WorkflowRunView,
    workflow: WorkflowDefinitionView,
    times: (Seq<char>, Seq<char>, Seq<char>),
) -> Seq<(EngineEventView, Seq<char>)> {
    seq![
        (EngineEventView::RunLoaded(Loaded::Found(run)), times.0),
        (EngineEventView::WorkflowLoaded(Loaded::Found(workflow)), times.1),
        (EngineEventView::Saved, times.2),
    ]
}

/// After the opening the first step begins, with the run marked Running
/// and otherwise as it was loaded.
proof fn lemma_opening(
    run_id: Seq<char>,
    run: WorkflowRunView,
    workflow: WorkflowDefinitionView,
    times: (Seq<char>, Seq<char>, Seq<char>),
    rest: Seq<(EngineEventView, Seq<char>)>,
)
    requires
        workflow.well_formed(),
        run.step_results.len() == 0,
    ensures
        ({
            let marked = WorkflowRunView { status: WorkflowStatus::Running, ..run };
            let begun = dispatch(marked, workflow, initial_context(marked), 0, times.2).0;
            &&& replay(ExecutionView::LoadingRun { run_id }, opening(run, workflow, times) + rest)
                == replay(begun, rest)
            &&& in_progress(workflow, marked, 0)
            &&& accounted(workflow, begun)
        }),
{
    let e0 = (EngineEventView::RunLoaded(Loaded::Found(run)), times.0);
    let e1 = (EngineEventView::WorkflowLoaded(Loaded::Found(workflow)), times.1);
    let e2 = (EngineEventView::Saved, times.2);
    let s0 = ExecutionView::LoadingRun { run_id };
    assert(opening(run, workflow, times) + rest =~= seq![e0] + (seq![e1] + (seq![e2] + rest)));
    lemma_replay_first(s0, e0, seq![e1] + (seq![e2] + rest));
    let s1 = next(s0, e0.0, e0.1).0;
    lemma_replay_first(s1, e1, seq![e2] + rest);
    let s2 = next(s1, e1.0, e1.1).0;
    lemma_replay_first(s2, e2, rest);
    let marked = WorkflowRunView { status: WorkflowStatus::Running, ..run };
    assert(keys_of(marked.step_results) =~= workflow.step_names().take(0));
    lemma_dispatch(workflow, marked, initial_context(marked), 0, times.2);
}

/// How a run of replies ends that begins at the step in progress. All
/// replies but the last let their steps succeed, and every step after
/// the first gets a request, but for the step after the last reply, if
/// there is one. Then:
/// - if the last reply fails its step, the run has ended in failure there
///   with the reply's error;
/// - if it lets its step succeed and that was the workflow's last step,
///   the run has ended in success, with the error it carried before;
/// - if it lets its step succeed and the next step gets no request, the
///   run has ended in failure at that next step.
proof fn lemma_replies(
    workflow: WorkflowDefinitionView,
    state: ExecutionView,
    events: Seq<(EngineEventView, Seq<char>)>,
)
    requires
        workflow.well_formed(),
        accounted(workflow, state),
        state is RunningStep,
        events.len() >= 1,
        state->RunningStep_index + events.len() <= workflow.steps.len(),
        replies_succeed(workflow, state->RunningStep_index, events.drop_last()),
        events.last().0 is Replied,
        steps_can_start(
            workflow,
            state->RunningStep_index + 1,
            state->RunningStep_index + events.len(),
        ),
    ensures
        ({
            let last = state->RunningStep_index + events.len() - 1;
            let end = replay(state, events);
            match step_outcome(workflow.steps[last], events.last().0->Replied_0) {
                Err(error) => {
                    &&& end is Saving
                    &&& ended_in_failure_at(workflow, end->Saving_run, last + 1)
                    &&& end->Saving_run.error == Some(error)
                },
                Ok(_) => {
                    &&& last + 1 == workflow.steps.len() ==> end is Saving && ended_in_success(
                        workflow,
                        end->Saving_run,
                    ) && end->Saving_run.error == state->RunningStep_run.error
                    &&& last + 1 < workflow.steps.len() && !can_start(workflow.steps[last + 1])
                        ==> end is Saving && ended_in_failure_at(
                        workflow,
                        end->Saving_run,
                        last + 2,
                    )
                },
            }
        }),
    decreases events.len(),
{
    let run = state->RunningStep_run;
    let context = state->RunningStep_context;
    let index = state->RunningStep_index;
    let result = state->RunningStep_result;
    let step = workflow.steps[index];
    let first = events[0];
    let rest = events.drop_first();
    let following = next(state, first.0, first.1).0;
    assert(replay(state, events) == replay(following, rest));
    if events.len() == 1 {
        assert(first == events.last());
        assert(replay(following, rest) == following);
        lemma_reply(workflow, state, first.0, first.1);
        if let Ok(output) = step_outcome(step, first.0->Replied_0) {
            lemma_dispatch(
                workflow,
                run_with_result(run, step.name(), succeeded(result, output, first.1)),
                put(context, step.name(), output_json(output)),
                index + 1,
                first.1,
            );
        }
    } else {
        let before_last = rest.drop_last();
        assert(first == events.drop_last()[0]);
        assert(rest.last() == events.last());
        assert forall|j: int| 0 <= j < before_last.len() implies (
        #[trigger] before_last[j]).0 is Replied && 0 <= index + 1 + j < workflow.steps.len()
            && step_outcome(workflow.steps[index + 1 + j], before_last[j].0->Replied_0) is Ok by {
            assert(before_last[j] == events.drop_last()[j + 1]);
        }
        lemma_reply(workflow, state, first.0, first.1);
        let output = step_outcome(step, first.0->Replied_0)->Ok_0;
        let after = run_with_result(run, step.name(), succeeded(result, output, first.1));
        assert(can_start(workflow.steps[index + 1]));
        lemma_dispatch(
            workflow,
            after,
            put(context, step.name(), output_json(output)),
            index + 1,
            first.1,
        );
        assert(following is RunningStep && following->RunningStep_index == index + 1);
        assert(following->RunningStep_run.error == run.error);
        lemma_replies(workflow, following, rest);
    }
}

/// A triggered run of a workflow in which no step fails ends in Success,
/// with exactly one step result per step, each Success, and with its
/// completion time set. A step does not fail when its connector has a
/// request for it and the reply to that request gives an output. The
/// run keeps the error it was loaded with: a run that carried none, as
/// every triggered run, ends without one.
pub proof fn lemma_run_without_failure(
    run_id: Seq<char>,
    run: WorkflowRunView,
    workflow: WorkflowDefinitionView,
    times: (Seq<char>, Seq<char>, Seq<char>),
    replies: Seq<(EngineEventView, Seq<char>)>,
)
    requires
        run.step_results.len() == 0,
        workflow.well_formed(),
        replies.len() == workflow.steps.len(),
        steps_can_start(workflow, 0, workflow.steps.len() as int),
        replies_succeed(workflow, 0, replies),
    ensures
        ({
            let end = replay(
                ExecutionView::LoadingRun { run_id },
                opening(run, workflow, times) + replies,
            );
            &&& end is Saving
            &&& ended_in_success(workflow, end->Saving_run)
            &&& end->Saving_run.step_results.len() == workflow.steps.len()
            &&& end->Saving_run.completed_at is Some
            &&& end->Saving_run.error == run.error
        }),
{
    lemma_opening(run_id, run, workflow, times, replies);
    if workflow.steps.len() > 0 {
        let marked = WorkflowRunView { status: WorkflowStatus::Running, ..run };
        let begun = dispatch(marked, workflow, initial_context(marked), 0, times.2).0;
        assert(can_start(workflow.steps[0]));
        assert(replies.last() == replies[replies.len() - 1]);
        assert forall|j: int| 0 <= j < replies.drop_last().len() implies (
        #[trigger] replies.drop_last()[j]).0 is Replied && 0 <= j < workflow.steps.len()
            && step_outcome(workflow.steps[j], replies.drop_last()[j].0->Replied_0) is Ok by {
            assert(replies.drop_last()[j] == replies[j]);
        }
        lemma_replies(workflow, begun, replies);
    }
}

/// If step number `k`, counted from 1, is the first to fail, by the reply
/// to its request, the run ends Failed with exactly `k` step results, so
/// that no later step has run, and with that step's error. The events
/// hold the replies for the steps up to step `k`.
pub proof fn lemma_run_with_failing_step(
    run_id: Seq<char>,
    run: WorkflowRunView,
    workflow: WorkflowDefinitionView,
    times: (Seq<char>, Seq<char>, Seq<char>),
    replies: Seq<(EngineEventView, Seq<char>)>,
    k: int,
)
    requires
        run.step_results.len() == 0,
        workflow.well_formed(),
        1 <= k <= workflow.steps.len(),
        replies.len() == k,
        steps_can_start(workflow, 0, k),
        replies_succeed(workflow, 0, replies.drop_last()),
        replies.last().0 is Replied,
        step_outcome(workflow.steps[k - 1], replies.last().0->Replied_0) is Err,
    ensures
        ({
            let end = replay(
                ExecutionView::LoadingRun { run_id },
                opening(run, workflow, times) + replies,
            );
            &&& end is Saving
            &&& ended_in_failure_at(workflow, end->Saving_run, k)
            &&& end->Saving_run.step_results.len() == k
            &&& end->Saving_run.error == Some(
                step_outcome(workflow.steps[k - 1], replies.last().0->Replied_0)->Err_0,
            )
        }),
{
    lemma_opening(run_id, run, workflow, times, replies);
    let marked = WorkflowRunView { status: WorkflowStatus::Running, ..run };
    let begun = dispatch(marked, workflow, initial_context(marked), 0, times.2).0;
    assert(can_start(workflow.steps[0]));
    lemma_replies(workflow, begun, replies);
}

/// If step number `k`, counted from 1, is the first to fail, because its
/// connector has no request for it, the run ends Failed with exactly `k`
/// step results. The events hold the replies for the steps before
/// step `k`: nothing was asked for step `k` itself.
pub proof fn lemma_run_with_unstartable_step(
    run_id: Seq<char>,
    run: WorkflowRunView,
    workflow: WorkflowDefinitionView,
    times: (Seq<char>, Seq<char>, Seq<char>),
    replies: Seq<(EngineEventView, Seq<char>)>,
    k: int,
)
    requires
        run.step_results.len() == 0,
        workflow.well_formed(),
        1 <= k <= workflow.steps.len(),
        replies.len() == k - 1,
        steps_can_start(workflow, 0, k - 1),
        !can_start(workflow.steps[k - 1]),
        replies_succeed(workflow, 0, replies),
    ensures
        ({
            let end = replay(
                ExecutionView::LoadingRun { run_id },
                opening(run, workflow, times) + replies,
            );
            &&& end is Saving
            &&& ended_in_failure_at(workflow, end->Saving_run, k)
            &&& end->Saving_run.step_results.len() == k
        }),
{
    lemma_opening(run_id, run, workflow, times, replies);
    if k > 1 {
        let marked = WorkflowRunView { status: WorkflowStatus::Running, ..run };
        let begun = dispatch(marked, workflow, initial_context(marked), 0, times.2).0;
        assert(can_start(workflow.steps[0]));
        assert forall|j: int| 0 <= j < replies.drop_last().len() implies (
        #[trigger] replies.drop_last()[j]).0 is Replied && 0 <= j < workflow.steps.len()
            && step_outcome(workflow.steps[j], replies.drop_last()[j].0->Replied_0) is Ok by {
            assert(replies.drop_last()[j] == replies[j]);
        }
        assert(replies.last() == replies[k - 2]);
        lemma_replies(workflow, begun, replies);
    }
}

} // verus!
