use workflow_automation::api::reply::ApiReply;
use workflow_automation::api::v1::endpoints::trigger::{Trigger, TriggerAction, TriggerEvent};
use workflow_automation::json::JsonValue;
use workflow_automation::messaging::events::{WorkflowCompletedEvent, WorkflowTriggerEvent};
use workflow_automation::schemas::common::WorkflowStatus;
use workflow_automation::schemas::run::WorkflowRun;
use workflow_automation::schemas::workflow::{TriggerRequest, WorkflowDefinition};
use workflow_automation::storage::base::StorageError;
use workflow_automation::string_map::StringMap;

fn payload() -> StringMap<JsonValue> {
    StringMap {
        entries: vec![("user".to_string(), JsonValue::String("ada".to_string()))],
    }
}

fn request() -> TriggerRequest {
    TriggerRequest {
        workflow_id: "wf-1".to_string(),
        payload: payload(),
    }
}

fn definition() -> WorkflowDefinition {
    WorkflowDefinition {
        uuid: Some("wf-1".to_string()),
        id: None,
        name: "flow".to_string(),
        description: None,
        steps: vec![],
    }
}

fn detail(status: u16, text: &str) -> ApiReply {
    ApiReply {
        status,
        body: JsonValue::Object(vec![(
            "detail".to_string(),
            JsonValue::String(text.to_string()),
        )]),
    }
}

fn publishing() -> Trigger {
    let (state, action) = Trigger::start(request());
    assert_eq!(
        action,
        TriggerAction::LoadWorkflow {
            workflow_id: "wf-1".to_string()
        }
    );
    let (state, action) = state.advance(TriggerEvent::WorkflowLoaded(Ok(Some(definition()))), "t0");
    assert_eq!(action, TriggerAction::CreateRun);
    assert_eq!(
        state.run(),
        Some(&WorkflowRun {
            uuid: None,
            id: None,
            workflow_id: "wf-1".to_string(),
            status: WorkflowStatus::Pending,
            payload: payload(),
            started_at: "t0".to_string(),
            completed_at: None,
            error: None,
            step_results: StringMap::new(),
        })
    );
    let (state, action) = state.advance(TriggerEvent::RunCreated(Ok("run-9".to_string())), "t1");
    let expected = WorkflowTriggerEvent {
        run_id: "run-9".to_string(),
        workflow_id: "wf-1".to_string(),
        payload: payload(),
    };
    assert_eq!(
        action,
        TriggerAction::Publish {
            message: expected.to_message(),
            key: "run-9".to_string()
        }
    );
    state
}

#[test]
fn a_trigger_is_answered_once_the_event_is_published() {
    let state = publishing();
    let (state, action) = state.advance(TriggerEvent::Published(Ok(())), "t2");
    assert_eq!(
        action,
        TriggerAction::Respond(ApiReply {
            status: 200,
            body: JsonValue::Object(vec![
                ("run_id".to_string(), JsonValue::String("run-9".to_string())),
                ("status".to_string(), JsonValue::String("triggered".to_string())),
            ]),
        })
    );
    assert_eq!(state, Trigger::Done);
}

#[test]
fn a_publish_failure_marks_the_run_failed() {
    let state = publishing();
    let (state, action) =
        state.advance(TriggerEvent::Published(Err("broker down".to_string())), "t2");
    assert_eq!(action, TriggerAction::SaveRun);
    let run = state.run().expect("the run is held").clone();
    assert_eq!(run.uuid, Some("run-9".to_string()));
    assert_eq!(run.status, WorkflowStatus::Failed);
    assert_ne!(run.status, WorkflowStatus::Pending);
    assert_eq!(run.error, Some("failed to queue workflow: broker down".to_string()));
    assert_eq!(run.completed_at, Some("t2".to_string()));
    assert_eq!(run.payload, payload());
    let (state, action) = state.advance(TriggerEvent::Saved, "t3");
    assert_eq!(
        action,
        TriggerAction::Respond(detail(500, "Failed to queue workflow: broker down"))
    );
    assert_eq!(state, Trigger::Done);
}

#[test]
fn a_publish_failure_with_an_empty_cause_still_leaves_an_error() {
    let state = publishing();
    let (state, _) = state.advance(TriggerEvent::Published(Err(String::new())), "t2");
    let run = state.run().expect("the run is held");
    assert_eq!(run.status, WorkflowStatus::Failed);
    assert_eq!(run.error, Some("failed to queue workflow: ".to_string()));
}

#[test]
fn a_trigger_for_an_unknown_workflow_is_not_found() {
    let (state, _) = Trigger::start(request());
    let (state, action) = state.advance(TriggerEvent::WorkflowLoaded(Ok(None)), "t0");
    assert_eq!(action, TriggerAction::Respond(detail(404, "Workflow wf-1 not found")));
    assert_eq!(state, Trigger::Done);
    assert!(state.run().is_none());
}

#[test]
fn a_storage_error_while_loading_the_workflow_is_reported() {
    let (state, _) = Trigger::start(request());
    let (_, action) = state.advance(
        TriggerEvent::WorkflowLoaded(Err(StorageError::Database("down".to_string()))),
        "t0",
    );
    assert_eq!(
        action,
        TriggerAction::Respond(detail(500, "Error loading workflow: Database error: down"))
    );
}

#[test]
fn a_storage_error_while_creating_the_run_is_reported() {
    let (state, _) = Trigger::start(request());
    let (state, _) = state.advance(TriggerEvent::WorkflowLoaded(Ok(Some(definition()))), "t0");
    let (state, action) = state.advance(
        TriggerEvent::RunCreated(Err(StorageError::Serialization("bad".to_string()))),
        "t1",
    );
    assert_eq!(
        action,
        TriggerAction::Respond(detail(
            500,
            "Failed to create workflow run: Serialization error: bad"
        ))
    );
    assert_eq!(state, Trigger::Done);
}

#[test]
fn a_trigger_event_out_of_turn_is_an_error() {
    let (state, _) = Trigger::start(request());
    let (state, action) = state.advance(TriggerEvent::Saved, "t0");
    assert_eq!(action, TriggerAction::Respond(detail(500, "Unexpected event")));
    let (_, action) = state.advance(TriggerEvent::Published(Ok(())), "t1");
    assert_eq!(action, TriggerAction::Respond(detail(500, "Unexpected event")));
}

#[test]
fn the_clock_driven_trigger_stamps_the_new_run() {
    let (state, _) = Trigger::start(request());
    let (state, action) = state.step(TriggerEvent::WorkflowLoaded(Ok(Some(definition()))));
    assert_eq!(action, TriggerAction::CreateRun);
    let run = state.run().expect("the run is held");
    assert_eq!(run.status, WorkflowStatus::Pending);
    assert!(!run.started_at.is_empty());
}

#[test]
fn a_trigger_event_survives_the_wire() {
    let event = WorkflowTriggerEvent {
        run_id: "run-9".to_string(),
        workflow_id: "wf-1".to_string(),
        payload: payload(),
    };
    let message = event.to_message();
    assert_eq!(
        message.entries,
        vec![
            ("run_id".to_string(), JsonValue::String("run-9".to_string())),
            ("workflow_id".to_string(), JsonValue::String("wf-1".to_string())),
            (
                "payload".to_string(),
                JsonValue::Object(vec![(
                    "user".to_string(),
                    JsonValue::String("ada".to_string())
                )])
            ),
        ]
    );
    assert_eq!(WorkflowTriggerEvent::from_message(&message), Some(event));
}

#[test]
fn a_payload_key_that_occurs_twice_keeps_its_last_value() {
    let message = StringMap {
        entries: vec![
            ("run_id".to_string(), JsonValue::String("r".to_string())),
            ("workflow_id".to_string(), JsonValue::String("w".to_string())),
            (
                "payload".to_string(),
                JsonValue::Object(vec![
                    ("a".to_string(), JsonValue::Bool(false)),
                    ("b".to_string(), JsonValue::Null),
                    ("a".to_string(), JsonValue::Bool(true)),
                ]),
            ),
        ],
    };
    let event = WorkflowTriggerEvent::from_message(&message).expect("the message holds an event");
    assert_eq!(
        event.payload.entries,
        vec![
            ("a".to_string(), JsonValue::Bool(true)),
            ("b".to_string(), JsonValue::Null),
        ]
    );
}

#[test]
fn a_malformed_trigger_message_holds_no_event() {
    let good = WorkflowTriggerEvent {
        run_id: "r".to_string(),
        workflow_id: "w".to_string(),
        payload: StringMap::new(),
    }
    .to_message();
    for missing in 0..3 {
        let mut entries = good.entries.clone();
        entries.remove(missing);
        assert_eq!(WorkflowTriggerEvent::from_message(&StringMap { entries }), None);
    }
    for wrong in 0..3 {
        let mut entries = good.entries.clone();
        entries[wrong].1 = JsonValue::Bool(true);
        assert_eq!(WorkflowTriggerEvent::from_message(&StringMap { entries }), None);
    }
    let mut entries = good.entries.clone();
    entries.push(("extra".to_string(), JsonValue::Null));
    assert!(WorkflowTriggerEvent::from_message(&StringMap { entries }).is_some());
}

fn finished_run(status: WorkflowStatus, error: Option<&str>) -> WorkflowRun {
    WorkflowRun {
        uuid: Some("run-9".to_string()),
        id: None,
        workflow_id: "wf-1".to_string(),
        status,
        payload: StringMap::new(),
        started_at: "t0".to_string(),
        completed_at: Some("t1".to_string()),
        error: error.map(|e| e.to_string()),
        step_results: StringMap::new(),
    }
}

#[test]
fn the_completion_event_reports_the_terminal_status() {
    let event = WorkflowTriggerEvent {
        run_id: "run-9".to_string(),
        workflow_id: "wf-1".to_string(),
        payload: StringMap::new(),
    };
    let failed = finished_run(WorkflowStatus::Failed, Some("boom"));
    assert_eq!(
        WorkflowCompletedEvent::for_run(&event, Some(&failed)),
        WorkflowCompletedEvent {
            run_id: "run-9".to_string(),
            workflow_id: "wf-1".to_string(),
            status: "failed".to_string(),
            error: Some("boom".to_string()),
        }
    );
    let stale = finished_run(WorkflowStatus::Success, Some("left over"));
    assert_eq!(
        WorkflowCompletedEvent::for_run(&event, Some(&stale)),
        WorkflowCompletedEvent {
            run_id: "run-9".to_string(),
            workflow_id: "wf-1".to_string(),
            status: "success".to_string(),
            error: None,
        }
    );
    assert_eq!(
        WorkflowCompletedEvent::for_run(&event, None),
        WorkflowCompletedEvent {
            run_id: "run-9".to_string(),
            workflow_id: "wf-1".to_string(),
            status: "failed".to_string(),
            error: Some("Run not found".to_string()),
        }
    );
}

#[test]
fn the_completion_message_carries_the_error_only_when_there_is_one() {
    let with_error = WorkflowCompletedEvent {
        run_id: "r".to_string(),
        workflow_id: "w".to_string(),
        status: "failed".to_string(),
        error: Some("boom".to_string()),
    };
    let keys: Vec<String> = with_error.to_message().entries.into_iter().map(|e| e.0).collect();
    assert_eq!(keys, vec!["run_id", "workflow_id", "status", "error"]);
    let without = WorkflowCompletedEvent {
        error: None,
        status: "success".to_string(),
        ..with_error
    };
    assert_eq!(
        without.to_message().entries,
        vec![
            ("run_id".to_string(), JsonValue::String("r".to_string())),
            ("workflow_id".to_string(), JsonValue::String("w".to_string())),
            ("status".to_string(), JsonValue::String("success".to_string())),
        ]
    );
}
