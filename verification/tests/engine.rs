use workflow_automation::connector::base::{
    ConnectorReply, ConnectorRequest, HttpBody, HttpMethod, HttpReply,
};
use workflow_automation::connector::delay::{DelayConfig, DelayOutput};
use workflow_automation::connector::webhook::WebhookConfig;
use workflow_automation::json::{JsonNumber, JsonValue};
use workflow_automation::schemas::common::{StepStatus, WorkflowStatus};
use workflow_automation::schemas::run::WorkflowRun;
use workflow_automation::schemas::workflow::{
    StepResult, WorkflowDefinition, WorkflowStep, WorkflowStepResponse,
};
use workflow_automation::services::workflow::{
    complete_step, fail_step, request_step, start_step, succeed_step, EngineAction, EngineEvent,
    Execution,
};
use workflow_automation::storage::base::StorageError;
use workflow_automation::string_map::StringMap;

fn pending_run() -> WorkflowRun {
    WorkflowRun {
        uuid: Some("run-1".to_string()),
        id: None,
        workflow_id: "wf-1".to_string(),
        status: WorkflowStatus::Pending,
        payload: StringMap {
            entries: vec![(
                "user".to_string(),
                JsonValue::String("ada".to_string()),
            )],
        },
        started_at: "t-created".to_string(),
        completed_at: None,
        error: None,
        step_results: StringMap::new(),
    }
}

fn delay(name: &str, seconds: u64) -> WorkflowStep {
    WorkflowStep::Delay {
        name: name.to_string(),
        config: DelayConfig { duration: seconds },
    }
}

fn webhook(name: &str, method: &str, body: JsonValue) -> WorkflowStep {
    WorkflowStep::Webhook {
        name: name.to_string(),
        config: WebhookConfig {
            url: "http://example.test".to_string(),
            method: method.to_string(),
            headers: StringMap::new(),
            body,
        },
    }
}

fn workflow(steps: Vec<WorkflowStep>) -> WorkflowDefinition {
    WorkflowDefinition {
        uuid: Some("wf-1".to_string()),
        id: None,
        name: "flow".to_string(),
        description: None,
        steps,
    }
}

/// Takes an execution up to the point where the run has been written as
/// Running and the first step is about to begin.
fn opened(definition: WorkflowDefinition) -> (Execution, EngineAction) {
    let (state, action) = Execution::start("run-1");
    assert_eq!(
        action,
        EngineAction::LoadRun {
            run_id: "run-1".to_string()
        }
    );
    let (state, action) = state.advance(EngineEvent::RunLoaded(Ok(Some(pending_run()))), "t0");
    assert_eq!(
        action,
        EngineAction::LoadWorkflow {
            workflow_id: "wf-1".to_string()
        }
    );
    let (state, action) = state.advance(EngineEvent::WorkflowLoaded(Ok(Some(definition))), "t1");
    assert_eq!(action, EngineAction::SaveRun);
    let marked = state.run().expect("the run is held");
    assert_eq!(marked.status, WorkflowStatus::Running);
    assert_eq!(marked.completed_at, None);
    state.advance(EngineEvent::Saved, "t2")
}

fn saved_run(state: &Execution) -> WorkflowRun {
    match state {
        Execution::Saving { run } => run.clone(),
        other => panic!("expected the run to be written, got {:?}", other),
    }
}

#[test]
fn a_run_whose_steps_all_succeed_ends_in_success() {
    let definition = workflow(vec![delay("a", 1), delay("b", 2), delay("c", 0)]);
    let (state, action) = opened(definition);
    assert_eq!(action, EngineAction::Perform(ConnectorRequest::Sleep { seconds: 1 }));
    let (state, action) = state.advance(EngineEvent::Replied(ConnectorReply::Slept), "t3");
    assert_eq!(action, EngineAction::Perform(ConnectorRequest::Sleep { seconds: 2 }));
    let (state, action) = state.advance(EngineEvent::Replied(ConnectorReply::Slept), "t4");
    assert_eq!(action, EngineAction::Perform(ConnectorRequest::Sleep { seconds: 0 }));
    let (state, action) = state.advance(EngineEvent::Replied(ConnectorReply::Slept), "t5");
    assert_eq!(action, EngineAction::SaveRun);

    let run = saved_run(&state);
    assert_eq!(run.status, WorkflowStatus::Success);
    assert_eq!(run.completed_at, Some("t5".to_string()));
    assert_eq!(run.error, None);
    assert_eq!(run.step_results.len(), 3);
    let names: Vec<&str> = run.step_results.entries.iter().map(|e| e.0.as_str()).collect();
    assert_eq!(names, vec!["a", "b", "c"]);
    for (_, result) in run.step_results.entries.iter() {
        assert_eq!(result.status, StepStatus::Success);
        assert!(result.completed_at.is_some());
        assert!(result.output.is_some());
        assert_eq!(result.error, None);
    }
    assert_eq!(
        run.step_results.get("b"),
        Some(&StepResult {
            step_name: "b".to_string(),
            status: StepStatus::Success,
            started_at: "t3".to_string(),
            completed_at: Some("t4".to_string()),
            output: Some(WorkflowStepResponse::Delay(DelayOutput {
                duration: 2,
                message: "Delayed for 2 seconds".to_string()
            })),
            error: None,
        })
    );

    let (state, action) = state.advance(EngineEvent::Saved, "t6");
    assert_eq!(action, EngineAction::Finished);
    assert!(state.is_done());
}

#[test]
fn a_workflow_without_steps_succeeds_at_once() {
    let (state, action) = opened(workflow(vec![]));
    assert_eq!(action, EngineAction::SaveRun);
    let run = saved_run(&state);
    assert_eq!(run.status, WorkflowStatus::Success);
    assert_eq!(run.completed_at, Some("t2".to_string()));
    assert_eq!(run.step_results.len(), 0);
}

#[test]
fn a_failing_step_ends_the_run_and_later_steps_do_not_run() {
    let definition = workflow(vec![
        delay("a", 1),
        webhook("b", "GET", JsonValue::Null),
        delay("c", 1),
    ]);
    let (state, _) = opened(definition);
    let (state, action) = state.advance(EngineEvent::Replied(ConnectorReply::Slept), "t3");
    match action {
        EngineAction::Perform(ConnectorRequest::Http(request)) => {
            assert_eq!(request.method, HttpMethod::Get)
        }
        other => panic!("unexpected action: {:?}", other),
    }
    let (state, action) = state.advance(
        EngineEvent::Replied(ConnectorReply::Failed("connection refused".to_string())),
        "t4",
    );
    assert_eq!(action, EngineAction::SaveRun);

    let run = saved_run(&state);
    assert_eq!(run.status, WorkflowStatus::Failed);
    assert_eq!(run.error, Some("connection refused".to_string()));
    assert_eq!(run.completed_at, Some("t4".to_string()));
    assert_eq!(run.step_results.len(), 2);
    assert_eq!(run.step_results.get("a").map(|r| r.status), Some(StepStatus::Success));
    let failed = run.step_results.get("b").expect("the failed step is recorded");
    assert_eq!(failed.status, StepStatus::Failed);
    assert_eq!(failed.error, Some("connection refused".to_string()));
    assert_eq!(failed.output, None);
    assert_eq!(failed.completed_at, Some("t4".to_string()));
    assert!(run.step_results.get("c").is_none());

    let (state, action) = state.advance(EngineEvent::Saved, "t5");
    assert_eq!(action, EngineAction::Finished);
    let (_, action) = state.advance(EngineEvent::Replied(ConnectorReply::Slept), "t6");
    assert_eq!(action, EngineAction::Finished);
}

#[test]
fn a_step_that_cannot_start_fails_the_run_without_any_request() {
    let definition = workflow(vec![delay("a", 1), webhook("b", "trace", JsonValue::Null)]);
    let (state, _) = opened(definition);
    let (state, action) = state.advance(EngineEvent::Replied(ConnectorReply::Slept), "t3");
    assert_eq!(action, EngineAction::SaveRun);
    let run = saved_run(&state);
    assert_eq!(run.status, WorkflowStatus::Failed);
    assert_eq!(run.error, Some("Unsupported HTTP method: TRACE".to_string()));
    assert_eq!(run.step_results.len(), 2);
    let failed = run.step_results.get("b").expect("the failed step is recorded");
    assert_eq!(failed.status, StepStatus::Failed);
    assert_eq!(failed.started_at, "t3");
    assert_eq!(failed.completed_at, Some("t3".to_string()));
}

#[test]
fn a_first_step_that_cannot_start_fails_the_run_with_one_result() {
    let (state, action) = opened(workflow(vec![webhook("only", "HEAD", JsonValue::Null)]));
    assert_eq!(action, EngineAction::SaveRun);
    let run = saved_run(&state);
    assert_eq!(run.status, WorkflowStatus::Failed);
    assert_eq!(run.step_results.len(), 1);
    assert_eq!(run.error, Some("Unsupported HTTP method: HEAD".to_string()));
}

#[test]
fn step_outputs_and_the_payload_reach_later_steps_through_the_context() {
    let body = JsonValue::Object(vec![
        ("input".to_string(), JsonValue::String("${payload}".to_string())),
        ("before".to_string(), JsonValue::String("${a}".to_string())),
        ("later".to_string(), JsonValue::String("${b}".to_string())),
    ]);
    let definition = workflow(vec![delay("a", 4), webhook("b", "POST", body)]);
    let (state, _) = opened(definition);
    let (state, action) = state.advance(EngineEvent::Replied(ConnectorReply::Slept), "t3");
    let sent = match action {
        EngineAction::Perform(ConnectorRequest::Http(request)) => request.body,
        other => panic!("unexpected action: {:?}", other),
    };
    assert_eq!(
        sent,
        Some(JsonValue::Object(vec![
            (
                "input".to_string(),
                JsonValue::Object(vec![(
                    "user".to_string(),
                    JsonValue::String("ada".to_string())
                )])
            ),
            (
                "before".to_string(),
                JsonValue::Object(vec![
                    ("type".to_string(), JsonValue::String("delay".to_string())),
                    ("duration".to_string(), JsonValue::Number(JsonNumber::PosInt(4))),
                    (
                        "message".to_string(),
                        JsonValue::String("Delayed for 4 seconds".to_string())
                    ),
                ])
            ),
            ("later".to_string(), JsonValue::String("${b}".to_string())),
        ]))
    );
    match &state {
        Execution::RunningStep { context, index, result, .. } => {
            assert_eq!(*index, 1);
            assert_eq!(context.len(), 2);
            assert_eq!(result.status, StepStatus::Running);
            assert_eq!(result.step_name, "b");
        }
        other => panic!("unexpected state: {:?}", other),
    }
    let reply = ConnectorReply::Http(HttpReply {
        status_code: 500,
        body: HttpBody::Text("oops".to_string()),
    });
    let (state, _) = state.advance(EngineEvent::Replied(reply), "t4");
    let run = saved_run(&state);
    assert_eq!(run.status, WorkflowStatus::Success);
    assert_eq!(run.step_results.len(), 2);
}

#[test]
fn a_repeated_step_name_overwrites_the_earlier_result() {
    let definition = workflow(vec![delay("same", 1), delay("same", 2)]);
    let (state, _) = opened(definition);
    let (state, _) = state.advance(EngineEvent::Replied(ConnectorReply::Slept), "t3");
    let (state, _) = state.advance(EngineEvent::Replied(ConnectorReply::Slept), "t4");
    let run = saved_run(&state);
    assert_eq!(run.status, WorkflowStatus::Success);
    assert_eq!(run.step_results.len(), 1);
    assert_eq!(
        run.step_results.get("same").and_then(|r| r.output.clone()),
        Some(WorkflowStepResponse::Delay(DelayOutput {
            duration: 2,
            message: "Delayed for 2 seconds".to_string()
        }))
    );
}

#[test]
fn a_missing_run_ends_the_execution_without_a_write() {
    let (state, _) = Execution::start("gone");
    let (state, action) = state.advance(EngineEvent::RunLoaded(Ok(None)), "t0");
    assert_eq!(action, EngineAction::Finished);
    assert!(state.is_done());
    assert!(state.run().is_none());
}

#[test]
fn a_run_that_cannot_be_read_ends_the_execution() {
    let (state, _) = Execution::start("run-1");
    let (state, action) = state.advance(
        EngineEvent::RunLoaded(Err(StorageError::Database("down".to_string()))),
        "t0",
    );
    assert_eq!(action, EngineAction::Finished);
    assert!(state.is_done());
}

#[test]
fn a_missing_workflow_fails_the_run() {
    let (state, _) = Execution::start("run-1");
    let (state, _) = state.advance(EngineEvent::RunLoaded(Ok(Some(pending_run()))), "t0");
    let (state, action) = state.advance(EngineEvent::WorkflowLoaded(Ok(None)), "t1");
    assert_eq!(action, EngineAction::SaveRun);
    let run = saved_run(&state);
    assert_eq!(run.status, WorkflowStatus::Failed);
    assert_eq!(run.error, Some("workflow not found".to_string()));
    assert_eq!(run.completed_at, Some("t1".to_string()));
    assert_eq!(run.step_results.len(), 0);
    let (state, action) = state.advance(EngineEvent::Saved, "t2");
    assert_eq!(action, EngineAction::Finished);
    assert!(state.is_done());
}

#[test]
fn a_workflow_that_cannot_be_read_leaves_the_run_as_it_is() {
    let (state, _) = Execution::start("run-1");
    let (state, _) = state.advance(EngineEvent::RunLoaded(Ok(Some(pending_run()))), "t0");
    let (state, action) = state.advance(
        EngineEvent::WorkflowLoaded(Err(StorageError::Database("down".to_string()))),
        "t1",
    );
    assert_eq!(action, EngineAction::Finished);
    assert!(state.is_done());
}

#[test]
fn an_event_out_of_turn_ends_the_execution() {
    let (state, _) = Execution::start("run-1");
    let (state, action) = state.advance(EngineEvent::Saved, "t0");
    assert_eq!(action, EngineAction::Finished);
    assert!(state.is_done());
    let (state, _) = opened(workflow(vec![delay("a", 1)]));
    let (state, action) = state.advance(EngineEvent::Saved, "t3");
    assert_eq!(action, EngineAction::Finished);
    assert!(state.is_done());
}

#[test]
fn the_clock_driven_transition_follows_the_same_rules() {
    let (state, _) = Execution::start("run-1");
    let (state, _) = state.step(EngineEvent::RunLoaded(Ok(Some(pending_run()))));
    let (state, _) = state.step(EngineEvent::WorkflowLoaded(Ok(Some(workflow(vec![delay(
        "a", 0,
    )])))));
    let (state, action) = state.step(EngineEvent::Saved);
    assert_eq!(action, EngineAction::Perform(ConnectorRequest::Sleep { seconds: 0 }));
    let (state, action) = state.step(EngineEvent::Replied(ConnectorReply::Slept));
    assert_eq!(action, EngineAction::SaveRun);
    let run = saved_run(&state);
    assert_eq!(run.status, WorkflowStatus::Success);
    let stamp = run.completed_at.expect("the completion time is set");
    assert!(!stamp.is_empty());
    assert_eq!(run.step_results.get("a").and_then(|r| r.completed_at.clone()), Some(stamp));
}

#[test]
fn step_records_follow_the_step_life_cycle() {
    let step = delay("a", 1);
    let running = start_step(&step, "t0");
    assert_eq!(
        running,
        StepResult {
            step_name: "a".to_string(),
            status: StepStatus::Running,
            started_at: "t0".to_string(),
            completed_at: None,
            output: None,
            error: None,
        }
    );
    assert_eq!(
        request_step(&step, &StringMap::new()),
        Ok(ConnectorRequest::Sleep { seconds: 1 })
    );
    let output = complete_step(&step, ConnectorReply::Slept).expect("the delay succeeds");
    let done = succeed_step(running.clone(), output.clone(), "t1");
    assert_eq!(done.status, StepStatus::Success);
    assert_eq!(done.output, Some(output));
    assert_eq!(done.completed_at, Some("t1".to_string()));
    assert_eq!(done.started_at, "t0");
    let failed = fail_step(running, "boom".to_string(), "t2");
    assert_eq!(failed.status, StepStatus::Failed);
    assert_eq!(failed.error, Some("boom".to_string()));
    assert_eq!(failed.output, None);
    assert_eq!(failed.completed_at, Some("t2".to_string()));
}
