//! The trigger event and the completion event, and their shape on the
//! wire: a map from field name to structured value.

use crate::json::{lemma_view_parts, map_of, object_of, JsonValue, JsonView};
use crate::schemas::common::WorkflowStatus;
use crate::schemas::run::{WorkflowRun, WorkflowRunView};
use crate::string_map::{
    collected,
    distinct,
    keys_of,
    lemma_collected,
    lemma_deep_view_keys,
    lemma_deep_view_lookup,
    lemma_find_is,
    lookup,
    StringMap,
};
use vstd::prelude::*;

verus! {

/// Asks a worker to execute a run.
#[derive(Clone, Debug, PartialEq)]
pub struct WorkflowTriggerEvent {
    pub run_id: String,
    pub workflow_id: String,
    pub payload: StringMap<JsonValue>,
}

pub struct WorkflowTriggerEventView {
    pub run_id: Seq<char>,
    pub workflow_id: Seq<char>,
    pub payload: Seq<(Seq<char>, JsonView)>,
}

impl View for WorkflowTriggerEvent {
    type V = WorkflowTriggerEventView;

    open spec fn view(&self) -> WorkflowTriggerEventView {
        WorkflowTriggerEventView {
            run_id: self.run_id@,
            workflow_id: self.workflow_id@,
            payload: self.payload.deep_view(),
        }
    }
}

impl DeepView for WorkflowTriggerEvent {
    type V = WorkflowTriggerEventView;

    open spec fn deep_view(&self) -> WorkflowTriggerEventView {
        self.view()
    }
}

/// The trigger event on the wire.
pub open spec fn trigger_message(event: WorkflowTriggerEventView) -> Seq<(Seq<char>, JsonView)> {
    seq![
        ("run_id"@, JsonView::String(event.run_id)),
        ("workflow_id"@, JsonView::String(event.workflow_id)),
        ("payload"@, JsonView::Object(event.payload)),
    ]
}

/// The trigger event that a message holds: `run_id` and `workflow_id`
/// must be strings and `payload` an object, whose members make the
/// payload; other fields are ignored.
pub open spec fn parsed_trigger(message: Seq<(Seq<char>, JsonView)>) -> Option<
    WorkflowTriggerEventView,
> {
    match (
        lookup(message, "run_id"@),
        lookup(message, "workflow_id"@),
        lookup(message, "payload"@),
    ) {
        (
            Some(JsonView::String(run_id)),
            Some(JsonView::String(workflow_id)),
            Some(JsonView::Object(payload)),
        ) => Some(WorkflowTriggerEventView { run_id, workflow_id, payload: collected(payload) }),
        _ => None,
    }
}

/// A trigger message holds its three fields under three different keys.
pub proof fn lemma_trigger_keys(event: WorkflowTriggerEventView)
    ensures
        keys_of(trigger_message(event)) == seq!["run_id"@, "workflow_id"@, "payload"@],
        distinct(keys_of(trigger_message(event))),
{
    reveal_strlit("run_id");
    reveal_strlit("workflow_id");
    reveal_strlit("payload");
    let keys = keys_of(trigger_message(event));
    assert(keys =~= seq!["run_id"@, "workflow_id"@, "payload"@]);
    assert("run_id"@[0] != "workflow_id"@[0]);
    assert("run_id"@[0] != "payload"@[0]);
    assert("workflow_id"@[0] != "payload"@[0]);
}

/// A trigger event whose payload has no key twice, read back from its
/// message, is the event itself.
pub proof fn lemma_trigger_round_trip(event: WorkflowTriggerEventView)
    requires
        distinct(keys_of(event.payload)),
    ensures
        parsed_trigger(trigger_message(event)) == Some(event),
{
    lemma_collected(event.payload);
    lemma_trigger_keys(event);
    let keys = keys_of(trigger_message(event));
    lemma_find_is(keys, "run_id"@, 0);
    lemma_find_is(keys, "workflow_id"@, 1);
    lemma_find_is(keys, "payload"@, 2);
}

impl WorkflowTriggerEvent {
    /// The event as a message.
    pub fn to_message(&self) -> (message: StringMap<JsonValue>)
        ensures
            message.deep_view() == trigger_message(self@),
            message.well_formed(),
    {
        let mut entries: Vec<(String, JsonValue)> = Vec::new();
        entries.push((String::from_str("run_id"), JsonValue::String(self.run_id.clone())));
        entries.push(
            (String::from_str("workflow_id"), JsonValue::String(self.workflow_id.clone())),
        );
        entries.push((String::from_str("payload"), object_of(&self.payload)));
        let message = StringMap { entries };
        proof {
            assert(message.deep_view() =~= trigger_message(self@));
            lemma_deep_view_keys(message);
            lemma_trigger_keys(self@);
        }
        message
    }

    /// The event that a message holds, if it holds one. Its payload has
    /// no key twice.
    pub fn from_message(message: &StringMap<JsonValue>) -> (event: Option<WorkflowTriggerEvent>)
        ensures
            event.deep_view() == parsed_trigger(message.deep_view()),
            event matches Some(e) ==> e.payload.well_formed(),
    {
        proof {
            lemma_deep_view_lookup(*message, "run_id"@);
            lemma_deep_view_lookup(*message, "workflow_id"@);
            lemma_deep_view_lookup(*message, "payload"@);
        }
        let run_id = match message.get("run_id") {
            Some(JsonValue::String(text)) => text.clone(),
            _ => {
                return None;
            },
        };
        let workflow_id = match message.get("workflow_id") {
            Some(JsonValue::String(text)) => text.clone(),
            _ => {
                return None;
            },
        };
        match message.get("payload") {
            Some(JsonValue::Object(members)) => {
                proof {
                    lemma_view_parts(JsonValue::Object(*members));
                }
                Some(WorkflowTriggerEvent { run_id, workflow_id, payload: map_of(members) })
            },
            _ => None,
        }
    }
}

/// Announces that a run has reached a terminal status.
#[derive(Clone, Debug, PartialEq)]
pub struct WorkflowCompletedEvent {
    pub run_id: String,
    pub workflow_id: String,
    pub status: String,
    pub error: Option<String>,
}

pub struct WorkflowCompletedEventView {
    pub run_id: Seq<char>,
    pub workflow_id: Seq<char>,
    pub status: Seq<char>,
    pub error: Option<Seq<char>>,
}

impl View for WorkflowCompletedEvent {
    type V = WorkflowCompletedEventView;

    open spec fn view(&self) -> WorkflowCompletedEventView {
        WorkflowCompletedEventView {
            run_id: self.run_id@,
            workflow_id: self.workflow_id@,
            status: self.status@,
            error: self.error.deep_view(),
        }
    }
}

/// The completion event for a trigger event, given the run as it was
/// read back after the execution, if it could be read. The error is
/// passed on only from a Failed run. A run that cannot be read counts as
/// failed.
pub open spec fn completion_for(
    event: WorkflowTriggerEventView,
    run: Option<WorkflowRunView>,
) -> WorkflowCompletedEventView {
    match run {
        Some(run) => WorkflowCompletedEventView {
            run_id: event.run_id,
            workflow_id: event.workflow_id,
            status: run.status.name(),
            error: if run.status == WorkflowStatus::Failed {
                run.error
            } else {
                None
            },
        },
        None => WorkflowCompletedEventView {
            run_id: event.run_id,
            workflow_id: event.workflow_id,
            status: "failed"@,
            error: Some("Run not found"@),
        },
    }
}

/// The completion event on the wire: `error` is present only where the
/// event has one.
pub open spec fn completed_message(event: WorkflowCompletedEventView) -> Seq<
    (Seq<char>, JsonView),
> {
    let fixed = seq![
        ("run_id"@, JsonView::String(event.run_id)),
        ("workflow_id"@, JsonView::String(event.workflow_id)),
        ("status"@, JsonView::String(event.status)),
    ];
    match event.error {
        Some(error) => fixed.push(("error"@, JsonView::String(error))),
        None => fixed,
    }
}

/// A completion message has no key twice.
pub proof fn lemma_completed_keys(event: WorkflowCompletedEventView)
    ensures
        distinct(keys_of(completed_message(event))),
{
    reveal_strlit("run_id");
    reveal_strlit("workflow_id");
    reveal_strlit("status");
    reveal_strlit("error");
    let keys = keys_of(completed_message(event));
    assert(keys[0] == "run_id"@ && keys[1] == "workflow_id"@ && keys[2] == "status"@);
    assert(keys.len() == 4 ==> keys[3] == "error"@);
    assert("run_id"@[0] == 'r' && "workflow_id"@[0] == 'w' && "status"@[0] == 's' && "error"@[0]
        == 'e');
}

impl WorkflowCompletedEvent {
    /// The completion event for `event`, given the run as read back.
    pub fn for_run(event: &WorkflowTriggerEvent, run: Option<&WorkflowRun>) -> (completed:
        WorkflowCompletedEvent)
        ensures
            completed@ == completion_for(event@, run.deep_view()),
    {
        match run {
            Some(run) => {
                let error = match run.status {
                    WorkflowStatus::Failed => run.error.clone(),
                    _ => None,
                };
                WorkflowCompletedEvent {
                    run_id: event.run_id.clone(),
                    workflow_id: event.workflow_id.clone(),
                    status: run.status.to_string(),
                    error,
                }
            },
            None => WorkflowCompletedEvent {
                run_id: event.run_id.clone(),
                workflow_id: event.workflow_id.clone(),
                status: String::from_str("failed"),
                error: Some(String::from_str("Run not found")),
            },
        }
    }

    /// The event as a message.
    pub fn to_message(&self) -> (message: StringMap<JsonValue>)
        ensures
            message.deep_view() == completed_message(self@),
            message.well_formed(),
    {
        let mut entries: Vec<(String, JsonValue)> = Vec::new();
        entries.push((String::from_str("run_id"), JsonValue::String(self.run_id.clone())));
        entries.push(
            (String::from_str("workflow_id"), JsonValue::String(self.workflow_id.clone())),
        );
        entries.push((String::from_str("status"), JsonValue::String(self.status.clone())));
        match &self.error {
            Some(error) => {
                entries.push((String::from_str("error"), JsonValue::String(error.clone())));
            },
            None => {},
        }
        let message = StringMap { entries };
        proof {
            assert(message.deep_view() =~= completed_message(self@));
            lemma_deep_view_keys(message);
            lemma_completed_keys(self@);
        }
        message
    }
}

} // verus!
