//! The worker's handling of one trigger message: execute the run, read it
//! back, and publish the completion event under the run's id.

use crate::clock::now_rfc3339;
use crate::json::{JsonValue, JsonView};
use crate::messaging::events::{
    completed_message,
    completion_for,
    parsed_trigger,
    WorkflowCompletedEvent,
    WorkflowTriggerEvent,
    WorkflowTriggerEventView,
};
use crate::schemas::run::{WorkflowRun, WorkflowRunView};
use crate::services::workflow::{
    next,
    EngineAction,
    EngineActionView,
    EngineEvent,
    EngineEventView,
    Execution,
    ExecutionView,
};
use crate::storage::base::StorageError;
use crate::string_map::StringMap;
use vstd::prelude::*;

verus! {

/// What the outside world answered.
#[derive(Debug, PartialEq)]
pub enum WorkerEvent {
    /// The answer to `WorkerAction::Engine`.
    Engine(EngineEvent),
    /// The answer to `WorkerAction::ReloadRun`.
    RunReloaded(Result<Option<WorkflowRun>, StorageError>),
    /// The publication asked for by `WorkerAction::Publish` was
    /// attempted. Whether it succeeded does not matter to the worker.
    Published,
}

pub enum WorkerEventView {
    Engine(EngineEventView),
    /// The run as read back, where it could be read.
    RunReloaded(Option<WorkflowRunView>),
    Published,
}

impl View for WorkerEvent {
    type V = WorkerEventView;

    open spec fn view(&self) -> WorkerEventView {
        match self {
            WorkerEvent::Engine(event) => WorkerEventView::Engine(event@),
            WorkerEvent::RunReloaded(reloaded) => WorkerEventView::RunReloaded(
                match reloaded {
                    Ok(Some(run)) => Some(run@),
                    _ => None,
                },
            ),
            WorkerEvent::Published => WorkerEventView::Published,
        }
    }
}

/// The one thing to do next.
#[derive(Clone, Debug, PartialEq)]
pub enum WorkerAction {
    /// Do what the engine asks; answer with `WorkerEvent::Engine`. Where
    /// the engine asks for a run to be written, it is the run that the
    /// execution in the new state holds.
    Engine(EngineAction),
    /// Read the run again; answer with `WorkerEvent::RunReloaded`.
    ReloadRun { run_id: String },
    /// Publish the message on the completion topic under the key; answer
    /// with `WorkerEvent::Published`.
    Publish { message: StringMap<JsonValue>, key: String },
    /// Nothing is left to do for this message.
    Finished,
}

pub enum WorkerActionView {
    Engine(EngineActionView),
    ReloadRun { run_id: Seq<char> },
    Publish { message: Seq<(Seq<char>, JsonView)>, key: Seq<char> },
    Finished,
}

impl View for WorkerAction {
    type V = WorkerActionView;

    open spec fn view(&self) -> WorkerActionView {
        match self {
            WorkerAction::Engine(action) => WorkerActionView::Engine(action@),
            WorkerAction::ReloadRun { run_id } => WorkerActionView::ReloadRun { run_id: run_id@ },
            WorkerAction::Publish { message, key } => WorkerActionView::Publish {
                message: message.deep_view(),
                key: key@,
            },
            WorkerAction::Finished => WorkerActionView::Finished,
        }
    }
}

/// Where the handling of one trigger message stands.
#[derive(Clone, Debug, PartialEq)]
pub enum Worker {
    /// The run is being executed.
    Executing { event: WorkflowTriggerEvent, execution: Execution },
    /// The execution is over; the run is being read back.
    Reloading { event: WorkflowTriggerEvent },
    /// The completion event is being published.
    Publishing,
    /// The message has been dealt with.
    Done,
}

pub enum WorkerView {
    Executing { event: WorkflowTriggerEventView, execution: ExecutionView },
    Reloading { event: WorkflowTriggerEventView },
    Publishing,
    Done,
}

impl View for Worker {
    type V = WorkerView;

    open spec fn view(&self) -> WorkerView {
        match self {
            Worker::Executing { event, execution } => WorkerView::Executing {
                event: event@,
                execution: execution@,
            },
            Worker::Reloading { event } => WorkerView::Reloading { event: event@ },
            Worker::Publishing => WorkerView::Publishing,
            Worker::Done => WorkerView::Done,
        }
    }
}

/// The state and action with which the handling of a message begins. A
/// message that holds no trigger event is dropped.
pub open spec fn worker_start(message: Seq<(Seq<char>, JsonView)>) -> (
    WorkerView,
    WorkerActionView,
) {
    match parsed_trigger(message) {
        Some(event) => (
            WorkerView::Executing {
                event,
                execution: ExecutionView::LoadingRun { run_id: event.run_id },
            },
            WorkerActionView::Engine(EngineActionView::LoadRun { run_id: event.run_id }),
        ),
        None => (WorkerView::Done, WorkerActionView::Finished),
    }
}

/// The transition function: the state and the action that follow when
/// `event` arrives in `state` at time `now`. An event that the state does
/// not wait for ends the handling.
pub open spec fn worker_next(state: WorkerView, event: WorkerEventView, now: Seq<char>) -> (
    WorkerView,
    WorkerActionView,
) {
    let stop = (WorkerView::Done, WorkerActionView::Finished);
    match state {
        WorkerView::Executing { event: trigger, execution } => match event {
            WorkerEventView::Engine(answer) => {
                let (following, action) = next(execution, answer, now);
                if action is Finished {
                    (
                        WorkerView::Reloading { event: trigger },
                        WorkerActionView::ReloadRun { run_id: trigger.run_id },
                    )
                } else {
                    (
                        WorkerView::Executing { event: trigger, execution: following },
                        WorkerActionView::Engine(action),
                    )
                }
            },
            _ => stop,
        },
        WorkerView::Reloading { event: trigger } => match event {
            WorkerEventView::RunReloaded(run) => (
                WorkerView::Publishing,
                WorkerActionView::Publish {
                    message: completed_message(completion_for(trigger, run)),
                    key: trigger.run_id,
                },
            ),
            _ => stop,
        },
        WorkerView::Publishing => stop,
        WorkerView::Done => stop,
    }
}

/// Whatever the execution came to, once it is over the run is read back,
/// and whatever that read gives, exactly one completion event is
/// published, under the run's id.
pub proof fn lemma_completion_is_published(
    trigger: WorkflowTriggerEventView,
    execution: ExecutionView,
    answer: EngineEventView,
    reloaded: Option<WorkflowRunView>,
    times: (Seq<char>, Seq<char>, Seq<char>),
)
    requires
        next(execution, answer, times.0).1 is Finished,
    ensures
        ({
            let executing = WorkerView::Executing { event: trigger, execution };
            let (reloading, first) = worker_next(
                executing,
                WorkerEventView::Engine(answer),
                times.0,
            );
            let (publishing, second) = worker_next(
                reloading,
                WorkerEventView::RunReloaded(reloaded),
                times.1,
            );
            let (done, third) = worker_next(publishing, WorkerEventView::Published, times.2);
            &&& first == (WorkerActionView::ReloadRun { run_id: trigger.run_id })
            &&& second == (WorkerActionView::Publish {
                message: completed_message(completion_for(trigger, reloaded)),
                key: trigger.run_id,
            })
            &&& third == WorkerActionView::Finished
            &&& done == WorkerView::Done
        }),
{
}

impl Worker {
    /// Begins the handling of a message from the trigger topic.
    pub fn start(message: &StringMap<JsonValue>) -> (next: (Worker, WorkerAction))
        ensures
            (next.0@, next.1@) == worker_start(message.deep_view()),
    {
        match WorkflowTriggerEvent::from_message(message) {
            Some(event) => {
                let (execution, action) = Execution::start(event.run_id.as_str());
                (Worker::Executing { event, execution }, WorkerAction::Engine(action))
            },
            None => (Worker::Done, WorkerAction::Finished),
        }
    }

    /// The run that the engine asks to be written.
    pub fn run(&self) -> (run: Option<&WorkflowRun>)
        ensures
            run.deep_view() == match self@ {
                WorkerView::Executing { execution, .. } => execution.run(),
                _ => None,
            },
    {
        match self {
            Worker::Executing { execution, .. } => execution.run(),
            _ => None,
        }
    }

    /// The transition on `event` at time `now`.
    pub fn advance(self, event: WorkerEvent, now: &str) -> (next: (Worker, WorkerAction))
        ensures
            (next.0@, next.1@) == worker_next(self@, event@, now@),
    {
        match self {
            Worker::Executing { event: trigger, execution } => match event {
                WorkerEvent::Engine(answer) => {
                    let (following, action) = execution.advance(answer, now);
                    match action {
                        EngineAction::Finished => {
                            let run_id = trigger.run_id.clone();
                            (
                                Worker::Reloading { event: trigger },
                                WorkerAction::ReloadRun { run_id },
                            )
                        },
                        _ => (
                            Worker::Executing { event: trigger, execution: following },
                            WorkerAction::Engine(action),
                        ),
                    }
                },
                _ => (Worker::Done, WorkerAction::Finished),
            },
            Worker::Reloading { event: trigger } => match event {
                WorkerEvent::RunReloaded(reloaded) => {
                    let completed = match &reloaded {
                        Ok(Some(run)) => WorkflowCompletedEvent::for_run(&trigger, Some(run)),
                        _ => WorkflowCompletedEvent::for_run(&trigger, None),
                    };
                    (
                        Worker::Publishing,
                        WorkerAction::Publish {
                            message: completed.to_message(),
                            key: trigger.run_id,
                        },
                    )
                },
                _ => (Worker::Done, WorkerAction::Finished),
            },
            Worker::Publishing => (Worker::Done, WorkerAction::Finished),
            Worker::Done => (Worker::Done, WorkerAction::Finished),
        }
    }

    /// The transition on `event` at the time the clock shows.
    pub fn step(self, event: WorkerEvent) -> (next: (Worker, WorkerAction))
        ensures
            exists|now: Seq<char>| (next.0@, next.1@) == worker_next(self@, event@, now),
    {
        let now = now_rfc3339();
        self.advance(event, now.as_str())
    }
}

} // verus!
