//! The execution engine: the life of one workflow run as a state machine.
//!
//! The engine performs no storage access, no waiting and no HTTP itself.
//! Each transition takes what the outside world answered and returns the
//! next state together with the one thing to do next. The caller does that
//! thing and comes back with the answer.

use crate::clock::now_rfc3339;
use crate::connector::base::{
    result_view,
    Connector,
    ConnectorReply,
    ConnectorReplyView,
    ConnectorRequest,
    ConnectorRequestView,
};
use crate::connector::factory::{outcome_by, request_by, ConnectorFactory};
use crate::json::{object_of, JsonValue, JsonView};
use crate::schemas::common::{StepStatus, WorkflowStatus};
use crate::schemas::run::{WorkflowRun, WorkflowRunView};
use crate::schemas::workflow::{
    output_json,
    StepResult,
    StepResultView,
    WorkflowDefinition,
    WorkflowDefinitionView,
    WorkflowStep,
    WorkflowStepResponse,
    WorkflowStepResponseView,
    WorkflowStepView,
};
use crate::storage::base::StorageError;
use crate::string_map::{lemma_deep_view_put, put, StringMap};
use vstd::prelude::*;

verus! {

/// What a read from storage gave.
pub enum Loaded<T> {
    Found(T),
    Missing,
    Failed,
}

/// A storage read as the engine sees it: the error's content plays no part.
pub open spec fn loaded_view<T: DeepView>(loaded: Result<Option<T>, StorageError>) -> Loaded<T::V> {
    match loaded {
        Ok(Some(item)) => Loaded::Found(item.deep_view()),
        Ok(None) => Loaded::Missing,
        Err(_) => Loaded::Failed,
    }
}

/// What the outside world answered.
#[derive(Debug, PartialEq)]
pub enum EngineEvent {
    /// The answer to `EngineAction::LoadRun`.
    RunLoaded(Result<Option<WorkflowRun>, StorageError>),
    /// The answer to `EngineAction::LoadWorkflow`.
    WorkflowLoaded(Result<Option<WorkflowDefinition>, StorageError>),
    /// The write asked for by `EngineAction::SaveRun` was attempted.
    /// Whether it succeeded does not matter to the engine.
    Saved,
    /// The answer to `EngineAction::Perform`.
    Replied(ConnectorReply),
}

pub enum EngineEventView {
    RunLoaded(Loaded<WorkflowRunView>),
    WorkflowLoaded(Loaded<WorkflowDefinitionView>),
    Saved,
    Replied(ConnectorReplyView),
}

impl View for EngineEvent {
    type V = EngineEventView;

    open spec fn view(&self) -> EngineEventView {
        match self {
            EngineEvent::RunLoaded(loaded) => EngineEventView::RunLoaded(loaded_view(*loaded)),
            EngineEvent::WorkflowLoaded(loaded) => EngineEventView::WorkflowLoaded(
                loaded_view(*loaded),
            ),
            EngineEvent::Saved => EngineEventView::Saved,
            EngineEvent::Replied(reply) => EngineEventView::Replied(reply@),
        }
    }
}

/// The one thing to do next.
#[derive(Clone, Debug, PartialEq)]
pub enum EngineAction {
    /// Read the run with this id; answer with `EngineEvent::RunLoaded`.
    LoadRun { run_id: String },
    /// Read the workflow definition with this id; answer with
    /// `EngineEvent::WorkflowLoaded`.
    LoadWorkflow { workflow_id: String },
    /// Write the run that the new state holds; answer with
    /// `EngineEvent::Saved` whether or not the write succeeded.
    SaveRun,
    /// Carry out the connector's request; answer with
    /// `EngineEvent::Replied`.
    Perform(ConnectorRequest),
    /// Nothing is left to do.
    Finished,
}

pub enum EngineActionView {
    LoadRun { run_id: Seq<char> },
    LoadWorkflow { workflow_id: Seq<char> },
    SaveRun,
    Perform(ConnectorRequestView),
    Finished,
}

impl View for EngineAction {
    type V = EngineActionView;

    open spec fn view(&self) -> EngineActionView {
        match self {
            EngineAction::LoadRun { run_id } => EngineActionView::LoadRun { run_id: run_id@ },
            EngineAction::LoadWorkflow { workflow_id } => EngineActionView::LoadWorkflow {
                workflow_id: workflow_id@,
            },
            EngineAction::SaveRun => EngineActionView::SaveRun,
            EngineAction::Perform(request) => EngineActionView::Perform(request@),
            EngineAction::Finished => EngineActionView::Finished,
        }
    }
}

/// Where the execution of one run stands.
#[derive(Clone, Debug, PartialEq)]
pub enum Execution {
    /// The run has been asked for.
    LoadingRun { run_id: String },
    /// The run is here; its workflow definition has been asked for.
    LoadingWorkflow { run: WorkflowRun },
    /// The run is marked Running and that is being written.
    MarkingRunning { run: WorkflowRun, workflow: WorkflowDefinition },
    /// The step at `index` has entered Running, `result` is its record so
    /// far, and its connector's request is being carried out. The steps
    /// before it are done and in the run's step results.
    RunningStep {
        run: WorkflowRun,
        workflow: WorkflowDefinition,
        context: StringMap<JsonValue>,
        index: usize,
        result: StepResult,
    },
    /// The run has reached a terminal status and that is being written.
    Saving { run: WorkflowRun },
    /// The execution is over.
    Done,
}

pub enum ExecutionView {
    LoadingRun { run_id: Seq<char> },
    LoadingWorkflow { run: WorkflowRunView },
    MarkingRunning { run: WorkflowRunView, workflow: WorkflowDefinitionView },
    RunningStep {
        run: WorkflowRunView,
        workflow: WorkflowDefinitionView,
        context: Seq<(Seq<char>, JsonView)>,
        index: int,
        result: StepResultView,
    },
    Saving { run: WorkflowRunView },
    Done,
}

impl ExecutionView {
    /// The run that the state holds.
    pub open spec fn run(self) -> Option<WorkflowRunView> {
        match self {
            ExecutionView::LoadingWorkflow { run } => Some(run),
            ExecutionView::MarkingRunning { run, .. } => Some(run),
            ExecutionView::RunningStep { run, .. } => Some(run),
            ExecutionView::Saving { run } => Some(run),
            _ => None,
        }
    }
}

impl View for Execution {
    type V = ExecutionView;

    open spec fn view(&self) -> ExecutionView {
        match self {
            Execution::LoadingRun { run_id } => ExecutionView::LoadingRun { run_id: run_id@ },
            Execution::LoadingWorkflow { run } => ExecutionView::LoadingWorkflow { run: run@ },
            Execution::MarkingRunning { run, workflow } => ExecutionView::MarkingRunning {
                run: run@,
                workflow: workflow@,
            },
            Execution::RunningStep {
                run,
                workflow,
                context,
                index,
                result,
            } => ExecutionView::RunningStep {
                run: run@,
                workflow: workflow@,
                context: context.deep_view(),
                index: *index as int,
                result: result@,
            },
            Execution::Saving { run } => ExecutionView::Saving { run: run@ },
            Execution::Done => ExecutionView::Done,
        }
    }
}

/// The context that an execution starts with: the run's payload under
/// the key `payload`.
pub open spec fn initial_context(run: WorkflowRunView) -> Seq<(Seq<char>, JsonView)> {
    seq![("payload"@, JsonView::Object(run.payload))]
}

/// What the step's connector asks for.
pub open spec fn step_request(
    step: WorkflowStepView,
    context: Seq<(Seq<char>, JsonView)>,
) -> Result<ConnectorRequestView, Seq<char>> {
    request_by(step.connector_type(), step, context)
}

/// What the step's connector makes of a reply.
pub open spec fn step_outcome(step: WorkflowStepView, reply: ConnectorReplyView) -> Result<
    WorkflowStepResponseView,
    Seq<char>,
> {
    outcome_by(step.connector_type(), step, reply)
}

/// The record of a step as it enters Running.
pub open spec fn started(step: WorkflowStepView, now: Seq<char>) -> StepResultView {
    StepResultView {
        step_name: step.name(),
        status: StepStatus::Running,
        started_at: now,
        completed_at: None,
        output: None,
        error: None,
    }
}

/// The record of a step that gave `output`.
pub open spec fn succeeded(
    result: StepResultView,
    output: WorkflowStepResponseView,
    now: Seq<char>,
) -> StepResultView {
    StepResultView {
        status: StepStatus::Success,
        output: Some(output),
        completed_at: Some(now),
        ..result
    }
}

/// The record of a step that failed with `error`.
pub open spec fn failed(
    result: StepResultView,
    error: Seq<char>,
    now: Seq<char>,
) -> StepResultView {
    StepResultView {
        status: StepStatus::Failed,
        error: Some(error),
        completed_at: Some(now),
        ..result
    }
}

/// The run after the step named `name` succeeded with `result`.
pub open spec fn run_with_result(
    run: WorkflowRunView,
    name: Seq<char>,
    result: StepResultView,
) -> WorkflowRunView {
    WorkflowRunView { step_results: put(run.step_results, name, result), ..run }
}

/// The run after the step named `name` failed: the run is Failed with the
/// step's error, and the step's record is among its results.
pub open spec fn run_failed(
    run: WorkflowRunView,
    name: Seq<char>,
    result: StepResultView,
    error: Seq<char>,
    now: Seq<char>,
) -> WorkflowRunView {
    WorkflowRunView {
        status: WorkflowStatus::Failed,
        error: Some(error),
        completed_at: Some(now),
        step_results: put(run.step_results, name, failed(result, error, now)),
        ..run
    }
}

/// The run after its last step succeeded.
pub open spec fn run_succeeded(run: WorkflowRunView, now: Seq<char>) -> WorkflowRunView {
    WorkflowRunView { status: WorkflowStatus::Success, completed_at: Some(now), ..run }
}

/// The error of a run whose workflow definition does not exist.
pub open spec fn workflow_missing_error() -> Seq<char> {
    "workflow not found"@
}

/// The run after its workflow definition was found missing.
pub open spec fn run_without_workflow(run: WorkflowRunView, now: Seq<char>) -> WorkflowRunView {
    WorkflowRunView {
        status: WorkflowStatus::Failed,
        error: Some(workflow_missing_error()),
        completed_at: Some(now),
        ..run
    }
}

/// The state and action with which the step at `index` begins, or with
/// which the run ends where no step is left or the step fails before
/// anything is done for it.
pub open spec fn dispatch(
    run: WorkflowRunView,
    workflow: WorkflowDefinitionView,
    context: Seq<(Seq<char>, JsonView)>,
    index: int,
    now: Seq<char>,
) -> (ExecutionView, EngineActionView) {
    if 0 <= index < workflow.steps.len() {
        let step = workflow.steps[index];
        match step_request(step, context) {
            Ok(request) => (
                ExecutionView::RunningStep {
                    run,
                    workflow,
                    context,
                    index,
                    result: started(step, now),
                },
                EngineActionView::Perform(request),
            ),
            Err(error) => (
                ExecutionView::Saving {
                    run: run_failed(run, step.name(), started(step, now), error, now),
                },
                EngineActionView::SaveRun,
            ),
        }
    } else {
        (ExecutionView::Saving { run: run_succeeded(run, now) }, EngineActionView::SaveRun)
    }
}

/// The transition function: the state and the action that follow when
/// `event` arrives in `state` at time `now`. An event that the state does
/// not wait for ends the execution.
pub open spec fn next(state: ExecutionView, event: EngineEventView, now: Seq<char>) -> (
    ExecutionView,
    EngineActionView,
) {
    let stop = (ExecutionView::Done, EngineActionView::Finished);
    match state {
        ExecutionView::LoadingRun { .. } => match event {
            EngineEventView::RunLoaded(Loaded::Found(run)) => (
                ExecutionView::LoadingWorkflow { run },
                EngineActionView::LoadWorkflow { workflow_id: run.workflow_id },
            ),
            _ => stop,
        },
        ExecutionView::LoadingWorkflow { run } => match event {
            EngineEventView::WorkflowLoaded(Loaded::Found(workflow)) => (
                ExecutionView::MarkingRunning {
                    run: WorkflowRunView { status: WorkflowStatus::Running, ..run },
                    workflow,
                },
                EngineActionView::SaveRun,
            ),
            EngineEventView::WorkflowLoaded(Loaded::Missing) => (
                ExecutionView::Saving { run: run_without_workflow(run, now) },
                EngineActionView::SaveRun,
            ),
            _ => stop,
        },
        ExecutionView::MarkingRunning { run, workflow } => match event {
            EngineEventView::Saved => dispatch(run, workflow, initial_context(run), 0, now),
            _ => stop,
        },
        ExecutionView::RunningStep { run, workflow, context, index, result } => match event {
            EngineEventView::Replied(reply) => if 0 <= index < workflow.steps.len() {
                let step = workflow.steps[index];
                match step_outcome(step, reply) {
                    Ok(output) => dispatch(
                        run_with_result(run, step.name(), succeeded(result, output, now)),
                        workflow,
                        put(context, step.name(), output_json(output)),
                        index + 1,
                        now,
                    ),
                    Err(error) => (
                        ExecutionView::Saving {
                            run: run_failed(run, step.name(), result, error, now),
                        },
                        EngineActionView::SaveRun,
                    ),
                }
            } else {
                stop
            },
            _ => stop,
        },
        ExecutionView::Saving { .. } => stop,
        ExecutionView::Done => stop,
    }
}

/// The record of `step` as it enters Running at `now`.
pub fn start_step(step: &WorkflowStep, now: &str) -> (result: StepResult)
    ensures
        result@ == started(step@, now@),
{
    StepResult {
        step_name: String::from_str(step.name()),
        status: StepStatus::Running,
        started_at: String::from_str(now),
        completed_at: None,
        output: None,
        error: None,
    }
}

/// Resolves the step's connector and asks it what the step needs.
pub fn request_step(step: &WorkflowStep, context: &StringMap<JsonValue>) -> (result: Result<
    ConnectorRequest,
    String,
>)
    ensures
        result_view(result) == step_request(step@, context.deep_view()),
{
    match ConnectorFactory::get_instance(&step.connector_type()) {
        Ok(connector) => connector.request(step, context),
        Err(error) => Err(error),
    }
}

/// Resolves the step's connector and hands it the reply.
pub fn complete_step(step: &WorkflowStep, reply: ConnectorReply) -> (result: Result<
    WorkflowStepResponse,
    String,
>)
    ensures
        result_view(result) == step_outcome(step@, reply@),
{
    match ConnectorFactory::get_instance(&step.connector_type()) {
        Ok(connector) => connector.complete(step, reply),
        Err(error) => Err(error),
    }
}

/// Marks a step's record Success with its output.
pub fn succeed_step(result: StepResult, output: WorkflowStepResponse, now: &str) -> (done:
    StepResult)
    ensures
        done@ == succeeded(result@, output@, now@),
{
    let mut done = result;
    done.status = StepStatus::Success;
    done.output = Some(output);
    done.completed_at = Some(String::from_str(now));
    done
}

/// Marks a step's record Failed with its error.
pub fn fail_step(result: StepResult, error: String, now: &str) -> (done: StepResult)
    ensures
        done@ == failed(result@, error@, now@),
{
    let mut done = result;
    done.status = StepStatus::Failed;
    done.error = Some(error);
    done.completed_at = Some(String::from_str(now));
    done
}

/// Ends the run as Failed on the failure of the step named `name`.
fn fail_run(run: WorkflowRun, name: &str, result: StepResult, error: String, now: &str) -> (failed:
    WorkflowRun)
    ensures
        failed@ == run_failed(run@, name@, result@, error@, now@),
{
    let mut failed = run;
    let record = fail_step(result, error.clone(), now);
    failed.status = WorkflowStatus::Failed;
    failed.error = Some(error);
    failed.completed_at = Some(String::from_str(now));
    let ghost before = failed.step_results;
    failed.step_results.insert(String::from_str(name), record);
    proof {
        lemma_deep_view_put(before, failed.step_results, name@, record);
    }
    failed
}

/// Begins the step at `index`, or ends the run where none is left.
fn dispatch_step(
    run: WorkflowRun,
    workflow: WorkflowDefinition,
    context: StringMap<JsonValue>,
    index: usize,
    now: &str,
) -> (next: (Execution, EngineAction))
    ensures
        (next.0@, next.1@) == dispatch(
            run@,
            workflow@,
            context.deep_view(),
            index as int,
            now@,
        ),
{
    if index < workflow.steps.len() {
        let result = start_step(&workflow.steps[index], now);
        match request_step(&workflow.steps[index], &context) {
            Ok(request) => (
                Execution::RunningStep { run, workflow, context, index, result },
                EngineAction::Perform(request),
            ),
            Err(error) => {
                let failed = fail_run(run, workflow.steps[index].name(), result, error, now);
                (Execution::Saving { run: failed }, EngineAction::SaveRun)
            },
        }
    } else {
        let mut done = run;
        done.status = WorkflowStatus::Success;
        done.completed_at = Some(String::from_str(now));
        (Execution::Saving { run: done }, EngineAction::SaveRun)
    }
}

impl Execution {
    /// Begins the execution of the run with the given id.
    pub fn start(run_id: &str) -> (next: (Execution, EngineAction))
        ensures
            next.0@ == (ExecutionView::LoadingRun { run_id: run_id@ }),
            next.1@ == (EngineActionView::LoadRun { run_id: run_id@ }),
    {
        (
            Execution::LoadingRun { run_id: String::from_str(run_id) },
            EngineAction::LoadRun { run_id: String::from_str(run_id) },
        )
    }

    /// The run that the state holds: what `EngineAction::SaveRun` asks to
    /// be written.
    pub fn run(&self) -> (run: Option<&WorkflowRun>)
        ensures
            run.deep_view() == self@.run(),
    {
        match self {
            Execution::LoadingWorkflow { run } => Some(run),
            Execution::MarkingRunning { run, .. } => Some(run),
            Execution::RunningStep { run, .. } => Some(run),
            Execution::Saving { run } => Some(run),
            _ => None,
        }
    }

    /// Whether the execution is over.
    pub fn is_done(&self) -> (done: bool)
        ensures
            done == (self@ is Done),
    {
        match self {
            Execution::Done => true,
            _ => false,
        }
    }

    /// The transition on `event` at time `now`.
    pub fn advance(self, event: EngineEvent, now: &str) -> (next: (Execution, EngineAction))
        ensures
            (next.0@, next.1@) == self::next(self@, event@, now@),
    {
        match self {
            Execution::LoadingRun { run_id } => match event {
                EngineEvent::RunLoaded(Ok(Some(run))) => {
                    let workflow_id = run.workflow_id.clone();
                    (Execution::LoadingWorkflow { run }, EngineAction::LoadWorkflow { workflow_id })
                },
                _ => (Execution::Done, EngineAction::Finished),
            },
            Execution::LoadingWorkflow { run } => match event {
                EngineEvent::WorkflowLoaded(Ok(Some(workflow))) => {
                    let mut run = run;
                    run.status = WorkflowStatus::Running;
                    (Execution::MarkingRunning { run, workflow }, EngineAction::SaveRun)
                },
                EngineEvent::WorkflowLoaded(Ok(None)) => {
                    let mut run = run;
                    run.status = WorkflowStatus::Failed;
                    run.error = Some(String::from_str("workflow not found"));
                    run.completed_at = Some(String::from_str(now));
                    (Execution::Saving { run }, EngineAction::SaveRun)
                },
                _ => (Execution::Done, EngineAction::Finished),
            },
            Execution::MarkingRunning { run, workflow } => match event {
                EngineEvent::Saved => {
                    let mut context: StringMap<JsonValue> = StringMap::new();
                    let ghost empty = context;
                    let payload = object_of(&run.payload);
                    context.insert(String::from_str("payload"), payload);
                    proof {
                        lemma_deep_view_put(empty, context, "payload"@, payload);
                        assert(empty.deep_view() =~= Seq::empty());
                        assert(context.deep_view() =~= initial_context(run@));
                    }
                    dispatch_step(run, workflow, context, 0, now)
                },
                _ => (Execution::Done, EngineAction::Finished),
            },
            Execution::RunningStep { run, workflow, context, index, result } => match event {
                EngineEvent::Replied(reply) => {
                    if index < workflow.steps.len() {
                        match complete_step(&workflow.steps[index], reply) {
                            Ok(output) => {
                                let mut run = run;
                                let mut context = context;
                                let value = output.to_json();
                                let record = succeed_step(result, output, now);
                                let ghost name = workflow.steps[index as int]@.name();
                                let ghost results_before = run.step_results;
                                let ghost context_before = context;
                                run.step_results.insert(
                                    String::from_str(workflow.steps[index].name()),
                                    record,
                                );
                                context.insert(
                                    String::from_str(workflow.steps[index].name()),
                                    value,
                                );
                                proof {
                                    lemma_deep_view_put(
                                        results_before,
                                        run.step_results,
                                        name,
                                        record,
                                    );
                                    lemma_deep_view_put(context_before, context, name, value);
                                }
                                dispatch_step(run, workflow, context, index + 1, now)
                            },
                            Err(error) => {
                                let failed = fail_run(
                                    run,
                                    workflow.steps[index].name(),
                                    result,
                                    error,
                                    now,
                                );
                                (Execution::Saving { run: failed }, EngineAction::SaveRun)
                            },
                        }
                    } else {
                        (Execution::Done, EngineAction::Finished)
                    }
                },
                _ => (Execution::Done, EngineAction::Finished),
            },
            Execution::Saving { .. } => (Execution::Done, EngineAction::Finished),
            Execution::Done => (Execution::Done, EngineAction::Finished),
        }
    }

    /// The transition on `event` at the time the clock shows.
    pub fn step(self, event: EngineEvent) -> (next: (Execution, EngineAction))
        ensures
            exists|now: Seq<char>| (next.0@, next.1@) == self::next(self@, event@, now),
    {
        let now = now_rfc3339();
        self.advance(event, now.as_str())
    }
}

} // verus!
