//! The record of one execution of a workflow.

use crate::json::{JsonValue, JsonView};
use crate::schemas::common::WorkflowStatus;
use crate::schemas::workflow::{StepResult, StepResultView};
use crate::string_map::StringMap;
use vstd::prelude::*;

verus! {

/// State of a workflow run. `step_results` holds one result per step
/// name, in the order in which the steps ran.
#[derive(Clone, Debug, PartialEq)]
pub struct WorkflowRun {
    pub uuid: Option<String>,
    pub id: Option<String>,
    pub workflow_id: String,
    pub status: WorkflowStatus,
    pub payload: StringMap<JsonValue>,
    pub started_at: String,
    pub completed_at: Option<String>,
    pub error: Option<String>,
    pub step_results: StringMap<StepResult>,
}

pub struct WorkflowRunView {
    pub uuid: Option<Seq<char>>,
    pub id: Option<Seq<char>>,
    pub workflow_id: Seq<char>,
    pub status: WorkflowStatus,
    pub payload: Seq<(Seq<char>, JsonView)>,
    pub started_at: Seq<char>,
    pub completed_at: Option<Seq<char>>,
    pub error: Option<Seq<char>>,
    pub step_results: Seq<(Seq<char>, StepResultView)>,
}

impl WorkflowRunView {
    /// The completion time is set exactly when the status is terminal.
    pub open spec fn settled(self) -> bool {
        self.completed_at is Some <==> self.status.terminal()
    }

    /// A run as it is created: pending, with no step results, no error
    /// and no completion time.
    pub open spec fn fresh(self) -> bool {
        &&& self.status == WorkflowStatus::Pending
        &&& self.step_results.len() == 0
        &&& self.completed_at is None
        &&& self.error is None
    }
}

impl View for WorkflowRun {
    type V = WorkflowRunView;

    open spec fn view(&self) -> WorkflowRunView {
        WorkflowRunView {
            uuid: self.uuid.deep_view(),
            id: self.id.deep_view(),
            workflow_id: self.workflow_id@,
            status: self.status,
            payload: self.payload.deep_view(),
            started_at: self.started_at@,
            completed_at: self.completed_at.deep_view(),
            error: self.error.deep_view(),
            step_results: self.step_results.deep_view(),
        }
    }
}

impl DeepView for WorkflowRun {
    type V = WorkflowRunView;

    open spec fn deep_view(&self) -> WorkflowRunView {
        self.view()
    }
}

} // verus!
