//! Status values of runs and of step results.

use vstd::prelude::*;

verus! {

/// Where a workflow run stands.
#[derive(Clone, Copy, Debug, PartialEq, Eq, Structural)]
pub enum WorkflowStatus {
    Pending,
    Running,
    Success,
    Failed,
    Paused,
}

impl WorkflowStatus {
    /// The lower-case name under which the status is stored and sent.
    pub open spec fn name(self) -> Seq<char> {
        match self {
            WorkflowStatus::Pending => "pending"@,
            WorkflowStatus::Running => "running"@,
            WorkflowStatus::Success => "success"@,
            WorkflowStatus::Failed => "failed"@,
            WorkflowStatus::Paused => "paused"@,
        }
    }

    /// A run in a terminal state is never executed again.
    pub open spec fn terminal(self) -> bool {
        self == WorkflowStatus::Success || self == WorkflowStatus::Failed
    }

    /// The status's name.
    pub fn as_str(&self) -> (name: &'static str)
        ensures
            name@ == self.name(),
    {
        match self {
            WorkflowStatus::Pending => "pending",
            WorkflowStatus::Running => "running",
            WorkflowStatus::Success => "success",
            WorkflowStatus::Failed => "failed",
            WorkflowStatus::Paused => "paused",
        }
    }

    /// The status's name as an owned string.
    pub fn to_string(&self) -> (name: String)
        ensures
            name@ == self.name(),
    {
        String::from_str(self.as_str())
    }

    /// Whether the status is `Success` or `Failed`.
    pub fn is_terminal(&self) -> (terminal: bool)
        ensures
            terminal == self.terminal(),
    {
        match self {
            WorkflowStatus::Success => true,
            WorkflowStatus::Failed => true,
            _ => false,
        }
    }

    /// The status that `text` names, if it names one.
    pub fn parse(text: &str) -> (status: Option<WorkflowStatus>)
        ensures
            match status {
                Some(s) => text@ == s.name(),
                None => forall|s: WorkflowStatus| text@ != s.name(),
            },
    {
        if crate::text::same_text(text, "pending") {
            Some(WorkflowStatus::Pending)
        } else if crate::text::same_text(text, "running") {
            Some(WorkflowStatus::Running)
        } else if crate::text::same_text(text, "success") {
            Some(WorkflowStatus::Success)
        } else if crate::text::same_text(text, "failed") {
            Some(WorkflowStatus::Failed)
        } else if crate::text::same_text(text, "paused") {
            Some(WorkflowStatus::Paused)
        } else {
            None
        }
    }
}

/// Distinct run statuses have distinct names, so a name read back gives
/// the status that was written.
pub proof fn lemma_workflow_status_names(a: WorkflowStatus, b: WorkflowStatus)
    ensures
        a.name() == b.name() <==> a == b,
{
    reveal_strlit("pending");
    reveal_strlit("running");
    reveal_strlit("success");
    reveal_strlit("failed");
    reveal_strlit("paused");
    if a != b {
        assert(a.name()[0] != b.name()[0] || a.name()[2] != b.name()[2]);
    }
}

/// Where the execution of one step stands.
#[derive(Clone, Copy, Debug, PartialEq, Eq, Structural)]
pub enum StepStatus {
    Pending,
    Running,
    Success,
    Failed,
    Skipped,
}

impl StepStatus {
    /// The lower-case name under which the status is stored and sent.
    pub open spec fn name(self) -> Seq<char> {
        match self {
            StepStatus::Pending => "pending"@,
            StepStatus::Running => "running"@,
            StepStatus::Success => "success"@,
            StepStatus::Failed => "failed"@,
            StepStatus::Skipped => "skipped"@,
        }
    }

    /// The status's name.
    pub fn as_str(&self) -> (name: &'static str)
        ensures
            name@ == self.name(),
    {
        match self {
            StepStatus::Pending => "pending",
            StepStatus::Running => "running",
            StepStatus::Success => "success",
            StepStatus::Failed => "failed",
            StepStatus::Skipped => "skipped",
        }
    }

    /// The status's name as an owned string.
    pub fn to_string(&self) -> (name: String)
        ensures
            name@ == self.name(),
    {
        String::from_str(self.as_str())
    }

    /// The status that `text` names, if it names one.
    pub fn parse(text: &str) -> (status: Option<StepStatus>)
        ensures
            match status {
                Some(s) => text@ == s.name(),
                None => forall|s: StepStatus| text@ != s.name(),
            },
    {
        if crate::text::same_text(text, "pending") {
            Some(StepStatus::Pending)
        } else if crate::text::same_text(text, "running") {
            Some(StepStatus::Running)
        } else if crate::text::same_text(text, "success") {
            Some(StepStatus::Success)
        } else if crate::text::same_text(text, "failed") {
            Some(StepStatus::Failed)
        } else if crate::text::same_text(text, "skipped") {
            Some(StepStatus::Skipped)
        } else {
            None
        }
    }
}

/// Distinct step statuses have distinct names.
pub proof fn lemma_step_status_names(a: StepStatus, b: StepStatus)
    ensures
        a.name() == b.name() <==> a == b,
{
    reveal_strlit("pending");
    reveal_strlit("running");
    reveal_strlit("success");
    reveal_strlit("failed");
    reveal_strlit("skipped");
    if a != b {
        assert(a.name()[0] != b.name()[0] || a.name()[1] != b.name()[1] || a.name()[2]
            != b.name()[2]);
    }
}

} // verus!
