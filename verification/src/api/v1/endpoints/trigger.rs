//! Triggering a workflow: check that it exists, create a pending run,
//! publish the trigger event, and answer without waiting for the
//! execution. A run whose event could not be published is marked Failed.

use crate::api::reply::{error_reply, not_found_reply, ok_reply, ApiReply, ApiReplyView};
use crate::clock::now_rfc3339;
use crate::json::{copy_of, JsonValue, JsonView};
use crate::messaging::events::{trigger_message, WorkflowTriggerEvent, WorkflowTriggerEventView};
use crate::schemas::common::WorkflowStatus;
use crate::schemas::run::{WorkflowRun, WorkflowRunView};
use crate::schemas::workflow::{
    TriggerRequest,
    TriggerRequestView,
    WorkflowDefinition,
    WorkflowDefinitionView,
};
use crate::storage::base::{fetched_view, StorageError, StorageErrorView};
use crate::string_map::StringMap;
use crate::text::join;
use vstd::prelude::*;

verus! {

/// What the outside world answered.
#[derive(Debug, PartialEq)]
pub enum TriggerEvent {
    /// The answer to `TriggerAction::LoadWorkflow`.
    WorkflowLoaded(Result<Option<WorkflowDefinition>, StorageError>),
    /// The answer to `TriggerAction::CreateRun`: the id given to the run.
    RunCreated(Result<String, StorageError>),
    /// The answer to `TriggerAction::Publish`; an error says why the
    /// event could not be published.
    Published(Result<(), String>),
    /// The write asked for by `TriggerAction::SaveRun` was attempted.
    Saved,
}

pub enum TriggerEventView {
    WorkflowLoaded(Result<Option<WorkflowDefinitionView>, StorageErrorView>),
    RunCreated(Result<Seq<char>, StorageErrorView>),
    Published(Result<(), Seq<char>>),
    Saved,
}

impl View for TriggerEvent {
    type V = TriggerEventView;

    open spec fn view(&self) -> TriggerEventView {
        match self {
            TriggerEvent::WorkflowLoaded(loaded) => TriggerEventView::WorkflowLoaded(
                fetched_view(*loaded),
            ),
            TriggerEvent::RunCreated(created) => TriggerEventView::RunCreated(
                match created {
                    Ok(run_id) => Ok(run_id@),
                    Err(error) => Err(error@),
                },
            ),
            TriggerEvent::Published(published) => TriggerEventView::Published(
                match published {
                    Ok(_) => Ok(()),
                    Err(cause) => Err(cause@),
                },
            ),
            TriggerEvent::Saved => TriggerEventView::Saved,
        }
    }
}

/// The one thing to do next.
#[derive(Clone, Debug, PartialEq)]
pub enum TriggerAction {
    /// Read the workflow definition; answer with
    /// `TriggerEvent::WorkflowLoaded`.
    LoadWorkflow { workflow_id: String },
    /// Store the run that the new state holds as a new run; answer with
    /// `TriggerEvent::RunCreated`.
    CreateRun,
    /// Publish the message on the trigger topic under the key; answer
    /// with `TriggerEvent::Published`.
    Publish { message: StringMap<JsonValue>, key: String },
    /// Write the run that the new state holds; answer with
    /// `TriggerEvent::Saved` whether or not the write succeeded.
    SaveRun,
    /// Answer the caller; nothing is left to do.
    Respond(ApiReply),
}

pub enum TriggerActionView {
    LoadWorkflow { workflow_id: Seq<char> },
    CreateRun,
    Publish { message: Seq<(Seq<char>, JsonView)>, key: Seq<char> },
    SaveRun,
    Respond(ApiReplyView),
}

impl View for TriggerAction {
    type V = TriggerActionView;

    open spec fn view(&self) -> TriggerActionView {
        match self {
            TriggerAction::LoadWorkflow { workflow_id } => TriggerActionView::LoadWorkflow {
                workflow_id: workflow_id@,
            },
            TriggerAction::CreateRun => TriggerActionView::CreateRun,
            TriggerAction::Publish { message, key } => TriggerActionView::Publish {
                message: message.deep_view(),
                key: key@,
            },
            TriggerAction::SaveRun => TriggerActionView::SaveRun,
            TriggerAction::Respond(reply) => TriggerActionView::Respond(reply@),
        }
    }
}

/// Where the handling of one trigger request stands.
#[derive(Clone, Debug, PartialEq)]
pub enum Trigger {
    /// The workflow definition has been asked for.
    LoadingWorkflow { request: TriggerRequest },
    /// The pending run is being stored.
    CreatingRun { run: WorkflowRun },
    /// The run is stored under `run_id`; its trigger event is being
    /// published.
    Publishing { run: WorkflowRun, run_id: String },
    /// Publishing failed; the run, now Failed, is being written. `detail`
    /// is what the caller will be told.
    MarkingFailed { run: WorkflowRun, detail: String },
    /// The caller has been answered.
    Done,
}

pub enum TriggerView {
    LoadingWorkflow { request: TriggerRequestView },
    CreatingRun { run: WorkflowRunView },
    Publishing { run: WorkflowRunView, run_id: Seq<char> },
    MarkingFailed { run: WorkflowRunView, detail: Seq<char> },
    Done,
}

impl TriggerView {
    /// The run that the state holds.
    pub open spec fn run(self) -> Option<WorkflowRunView> {
        match self {
            TriggerView::CreatingRun { run } => Some(run),
            TriggerView::Publishing { run, .. } => Some(run),
            TriggerView::MarkingFailed { run, .. } => Some(run),
            _ => None,
        }
    }
}

impl View for Trigger {
    type V = TriggerView;

    open spec fn view(&self) -> TriggerView {
        match self {
            Trigger::LoadingWorkflow { request } => TriggerView::LoadingWorkflow {
                request: request@,
            },
            Trigger::CreatingRun { run } => TriggerView::CreatingRun { run: run@ },
            Trigger::Publishing { run, run_id } => TriggerView::Publishing {
                run: run@,
                run_id: run_id@,
            },
            Trigger::MarkingFailed { run, detail } => TriggerView::MarkingFailed {
                run: run@,
                detail: detail@,
            },
            Trigger::Done => TriggerView::Done,
        }
    }
}

/// The run that a request creates: pending, started at `now`, with the
/// request's payload and nothing else.
pub open spec fn new_run(request: TriggerRequestView, now: Seq<char>) -> WorkflowRunView {
    WorkflowRunView {
        uuid: None,
        id: None,
        workflow_id: request.workflow_id,
        status: WorkflowStatus::Pending,
        payload: request.payload,
        started_at: now,
        completed_at: None,
        error: None,
        step_results: Seq::empty(),
    }
}

/// The error of a run whose trigger event could not be published.
pub open spec fn queue_failure(cause: Seq<char>) -> Seq<char> {
    "failed to queue workflow: "@ + cause
}

/// What the caller is told when the trigger event could not be published.
pub open spec fn queue_failure_detail(cause: Seq<char>) -> Seq<char> {
    "Failed to queue workflow: "@ + cause
}

/// The run after its trigger event could not be published.
pub open spec fn run_not_queued(
    run: WorkflowRunView,
    run_id: Seq<char>,
    cause: Seq<char>,
    now: Seq<char>,
) -> WorkflowRunView {
    WorkflowRunView {
        uuid: Some(run_id),
        status: WorkflowStatus::Failed,
        error: Some(queue_failure(cause)),
        completed_at: Some(now),
        ..run
    }
}

/// The body of the answer to a request that was queued.
pub open spec fn triggered_body(run_id: Seq<char>) -> JsonView {
    JsonView::Object(
        seq![("run_id"@, JsonView::String(run_id)), ("status"@, JsonView::String("triggered"@))],
    )
}

/// The answer to an event that the state does not wait for.
pub open spec fn out_of_turn() -> TriggerActionView {
    TriggerActionView::Respond(error_reply("Unexpected event"@))
}

/// The transition function: the state and the action that follow when
/// `event` arrives in `state` at time `now`.
pub open spec fn trigger_next(state: TriggerView, event: TriggerEventView, now: Seq<char>) -> (
    TriggerView,
    TriggerActionView,
) {
    match state {
        TriggerView::LoadingWorkflow { request } => match event {
            TriggerEventView::WorkflowLoaded(Ok(Some(_))) => (
                TriggerView::CreatingRun { run: new_run(request, now) },
                TriggerActionView::CreateRun,
            ),
            TriggerEventView::WorkflowLoaded(Ok(None)) => (
                TriggerView::Done,
                TriggerActionView::Respond(
                    not_found_reply("Workflow "@ + request.workflow_id + " not found"@),
                ),
            ),
            TriggerEventView::WorkflowLoaded(Err(error)) => (
                TriggerView::Done,
                TriggerActionView::Respond(
                    error_reply("Error loading workflow: "@ + error.message()),
                ),
            ),
            _ => (TriggerView::Done, out_of_turn()),
        },
        TriggerView::CreatingRun { run } => match event {
            TriggerEventView::RunCreated(Ok(run_id)) => (
                TriggerView::Publishing {
                    run: WorkflowRunView { uuid: Some(run_id), ..run },
                    run_id,
                },
                TriggerActionView::Publish {
                    message: trigger_message(
                        WorkflowTriggerEventView {
                            run_id,
                            workflow_id: run.workflow_id,
                            payload: run.payload,
                        },
                    ),
                    key: run_id,
                },
            ),
            TriggerEventView::RunCreated(Err(error)) => (
                TriggerView::Done,
                TriggerActionView::Respond(
                    error_reply("Failed to create workflow run: "@ + error.message()),
                ),
            ),
            _ => (TriggerView::Done, out_of_turn()),
        },
        TriggerView::Publishing { run, run_id } => match event {
            TriggerEventView::Published(Ok(_)) => (
                TriggerView::Done,
                TriggerActionView::Respond(ok_reply(triggered_body(run_id))),
            ),
            TriggerEventView::Published(Err(cause)) => (
                TriggerView::MarkingFailed {
                    run: run_not_queued(run, run_id, cause, now),
                    detail: queue_failure_detail(cause),
                },
                TriggerActionView::SaveRun,
            ),
            _ => (TriggerView::Done, out_of_turn()),
        },
        TriggerView::MarkingFailed { detail, .. } => match event {
            TriggerEventView::Saved => (
                TriggerView::Done,
                TriggerActionView::Respond(error_reply(detail)),
            ),
            _ => (TriggerView::Done, out_of_turn()),
        },
        TriggerView::Done => (TriggerView::Done, out_of_turn()),
    }
}

/// The run that a trigger creates is fresh: pending, without step
/// results, error or completion time. And a request is answered with
/// "triggered" only after its event was published, under the id that the
/// run was stored with.
pub proof fn lemma_triggered_run(
    request: TriggerRequestView,
    workflow: WorkflowDefinitionView,
    run_id: Seq<char>,
    times: (Seq<char>, Seq<char>, Seq<char>),
)
    ensures
        ({
            let (creating, first) = trigger_next(
                TriggerView::LoadingWorkflow { request },
                TriggerEventView::WorkflowLoaded(Ok(Some(workflow))),
                times.0,
            );
            let (publishing, second) = trigger_next(
                creating,
                TriggerEventView::RunCreated(Ok(run_id)),
                times.1,
            );
            let (done, third) = trigger_next(
                publishing,
                TriggerEventView::Published(Ok(())),
                times.2,
            );
            &&& first == TriggerActionView::CreateRun
            &&& creating.run() matches Some(run) && run.fresh() && run.workflow_id
                == request.workflow_id && run.payload == request.payload
            &&& second matches TriggerActionView::Publish { message, key } && key == run_id
                && message == trigger_message(
                WorkflowTriggerEventView {
                    run_id,
                    workflow_id: request.workflow_id,
                    payload: request.payload,
                },
            )
            &&& publishing.run() matches Some(run) && run.uuid == Some(run_id)
                && run.status == WorkflowStatus::Pending
            &&& third == TriggerActionView::Respond(ok_reply(triggered_body(run_id)))
            &&& done == TriggerView::Done
        }),
{
}

/// A publish failure leaves a run to be written that is Failed, never
/// Pending, under the id it was stored with and with an error that is
/// not empty; the caller is told of the failure once the write was
/// attempted.
pub proof fn lemma_publish_failure(
    run: WorkflowRunView,
    run_id: Seq<char>,
    cause: Seq<char>,
    now: Seq<char>,
)
    ensures
        ({
            let (state, action) = trigger_next(
                TriggerView::Publishing { run, run_id },
                TriggerEventView::Published(Err(cause)),
                now,
            );
            &&& action == TriggerActionView::SaveRun
            &&& state is MarkingFailed
            &&& state.run() matches Some(saved) && saved.status == WorkflowStatus::Failed
                && saved.uuid == Some(run_id) && saved.completed_at is Some && (
            saved.error matches Some(error) && error.len() > 0)
            &&& trigger_next(state, TriggerEventView::Saved, now).1 == TriggerActionView::Respond(
                error_reply(queue_failure_detail(cause)),
            )
        }),
{
    reveal_strlit("failed to queue workflow: ");
}

fn out_of_turn_reply() -> (next: (Trigger, TriggerAction))
    ensures
        next.0@ == TriggerView::Done,
        next.1@ == out_of_turn(),
{
    (
        Trigger::Done,
        TriggerAction::Respond(ApiReply::internal_error(String::from_str("Unexpected event"))),
    )
}

fn triggered(run_id: String) -> (body: JsonValue)
    ensures
        body@ == triggered_body(run_id@),
{
    let mut members: Vec<(String, JsonValue)> = Vec::new();
    members.push((String::from_str("run_id"), JsonValue::String(run_id)));
    members.push((String::from_str("status"), JsonValue::text("triggered")));
    let body = JsonValue::object(members);
    assert(body@->Object_0 =~= triggered_body(run_id@)->Object_0);
    body
}

impl Trigger {
    /// Begins the handling of a trigger request.
    pub fn start(request: TriggerRequest) -> (next: (Trigger, TriggerAction))
        ensures
            next.0@ == (TriggerView::LoadingWorkflow { request: request@ }),
            next.1@ == (TriggerActionView::LoadWorkflow { workflow_id: request@.workflow_id }),
    {
        let workflow_id = request.workflow_id.clone();
        (Trigger::LoadingWorkflow { request }, TriggerAction::LoadWorkflow { workflow_id })
    }

    /// The run that the state holds: what `TriggerAction::CreateRun` and
    /// `TriggerAction::SaveRun` ask to be written.
    pub fn run(&self) -> (run: Option<&WorkflowRun>)
        ensures
            run.deep_view() == self@.run(),
    {
        match self {
            Trigger::CreatingRun { run } => Some(run),
            Trigger::Publishing { run, .. } => Some(run),
            Trigger::MarkingFailed { run, .. } => Some(run),
            _ => None,
        }
    }

    /// The transition on `event` at time `now`.
    pub fn advance(self, event: TriggerEvent, now: &str) -> (next: (Trigger, TriggerAction))
        ensures
            (next.0@, next.1@) == trigger_next(self@, event@, now@),
    {
        match self {
            Trigger::LoadingWorkflow { request } => match event {
                TriggerEvent::WorkflowLoaded(Ok(Some(_))) => {
                    let run = WorkflowRun {
                        uuid: None,
                        id: None,
                        workflow_id: request.workflow_id,
                        status: WorkflowStatus::Pending,
                        payload: request.payload,
                        started_at: String::from_str(now),
                        completed_at: None,
                        error: None,
                        step_results: StringMap::new(),
                    };
                    assert(run@.step_results =~= Seq::empty());
                    (Trigger::CreatingRun { run }, TriggerAction::CreateRun)
                },
                TriggerEvent::WorkflowLoaded(Ok(None)) => {
                    let mut detail = join("Workflow ", request.workflow_id.as_str());
                    detail.append(" not found");
                    (Trigger::Done, TriggerAction::Respond(ApiReply::not_found(detail)))
                },
                TriggerEvent::WorkflowLoaded(Err(error)) => {
                    let detail = join("Error loading workflow: ", error.message().as_str());
                    (Trigger::Done, TriggerAction::Respond(ApiReply::internal_error(detail)))
                },
                _ => out_of_turn_reply(),
            },
            Trigger::CreatingRun { run } => match event {
                TriggerEvent::RunCreated(Ok(run_id)) => {
                    let mut run = run;
                    let event = WorkflowTriggerEvent {
                        run_id: run_id.clone(),
                        workflow_id: run.workflow_id.clone(),
                        payload: copy_of(&run.payload),
                    };
                    let message = event.to_message();
                    run.uuid = Some(run_id.clone());
                    (
                        Trigger::Publishing { run, run_id: run_id.clone() },
                        TriggerAction::Publish { message, key: run_id },
                    )
                },
                TriggerEvent::RunCreated(Err(error)) => {
                    let detail = join("Failed to create workflow run: ", error.message().as_str());
                    (Trigger::Done, TriggerAction::Respond(ApiReply::internal_error(detail)))
                },
                _ => out_of_turn_reply(),
            },
            Trigger::Publishing { run, run_id } => match event {
                TriggerEvent::Published(Ok(_)) => (
                    Trigger::Done,
                    TriggerAction::Respond(ApiReply::ok(triggered(run_id))),
                ),
                TriggerEvent::Published(Err(cause)) => {
                    let mut run = run;
                    run.uuid = Some(run_id);
                    run.status = WorkflowStatus::Failed;
                    run.error = Some(join("failed to queue workflow: ", cause.as_str()));
                    run.completed_at = Some(String::from_str(now));
                    let detail = join("Failed to queue workflow: ", cause.as_str());
                    (Trigger::MarkingFailed { run, detail }, TriggerAction::SaveRun)
                },
                _ => out_of_turn_reply(),
            },
            Trigger::MarkingFailed { run, detail } => match event {
                TriggerEvent::Saved => (
                    Trigger::Done,
                    TriggerAction::Respond(ApiReply::internal_error(detail)),
                ),
                _ => out_of_turn_reply(),
            },
            Trigger::Done => out_of_turn_reply(),
        }
    }

    /// The transition on `event` at the time the clock shows.
    pub fn step(self, event: TriggerEvent) -> (next: (Trigger, TriggerAction))
        ensures
            exists|now: Seq<char>| (next.0@, next.1@) == trigger_next(self@, event@, now),
    {
        let now = now_rfc3339();
        self.advance(event, now.as_str())
    }
}

} // verus!
