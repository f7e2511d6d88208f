//! Workflow definitions, their steps, and what a step leaves behind.

use crate::connector::delay::{DelayConfig, DelayOutput, DelayOutputView};
use crate::connector::webhook::{
    WebhookConfig,
    WebhookConfigView,
    WebhookResponse,
    WebhookResponseView,
};
use crate::json::{JsonNumber, JsonValue, JsonView};
use crate::schemas::common::StepStatus;
use crate::string_map::StringMap;
use vstd::prelude::*;

verus! {

/// A request to run a workflow with a payload.
#[derive(Clone, Debug, PartialEq)]
pub struct TriggerRequest {
    pub workflow_id: String,
    pub payload: StringMap<JsonValue>,
}

pub struct TriggerRequestView {
    pub workflow_id: Seq<char>,
    pub payload: Seq<(Seq<char>, JsonView)>,
}

impl View for TriggerRequest {
    type V = TriggerRequestView;

    open spec fn view(&self) -> TriggerRequestView {
        TriggerRequestView { workflow_id: self.workflow_id@, payload: self.payload.deep_view() }
    }
}

/// The kinds of connector.
#[derive(Clone, Copy, Debug, PartialEq, Eq, Structural)]
pub enum ConnectorType {
    Delay,
    Webhook,
}

impl ConnectorType {
    /// The lower-case name of the kind.
    pub open spec fn name(self) -> Seq<char> {
        match self {
            ConnectorType::Delay => "delay"@,
            ConnectorType::Webhook => "webhook"@,
        }
    }

    /// The lower-case name of the kind.
    pub fn as_str(&self) -> (name: &'static str)
        ensures
            name@ == self.name(),
    {
        match self {
            ConnectorType::Delay => "delay",
            ConnectorType::Webhook => "webhook",
        }
    }

    /// The name as an owned string.
    pub fn to_string(&self) -> (name: String)
        ensures
            name@ == self.name(),
    {
        String::from_str(self.as_str())
    }
}

/// One step of a workflow: its name and the configuration of its kind.
#[derive(Clone, Debug, PartialEq)]
pub enum WorkflowStep {
    Delay { name: String, config: DelayConfig },
    Webhook { name: String, config: WebhookConfig },
}

pub enum WorkflowStepView {
    Delay { name: Seq<char>, config: DelayConfig },
    Webhook { name: Seq<char>, config: WebhookConfigView },
}

impl WorkflowStepView {
    pub open spec fn name(self) -> Seq<char> {
        match self {
            WorkflowStepView::Delay { name, .. } => name,
            WorkflowStepView::Webhook { name, .. } => name,
        }
    }

    pub open spec fn connector_type(self) -> ConnectorType {
        match self {
            WorkflowStepView::Delay { .. } => ConnectorType::Delay,
            WorkflowStepView::Webhook { .. } => ConnectorType::Webhook,
        }
    }
}

impl View for WorkflowStep {
    type V = WorkflowStepView;

    open spec fn view(&self) -> WorkflowStepView {
        match self {
            WorkflowStep::Delay { name, config } => WorkflowStepView::Delay {
                name: name@,
                config: *config,
            },
            WorkflowStep::Webhook { name, config } => WorkflowStepView::Webhook {
                name: name@,
                config: config@,
            },
        }
    }
}

impl DeepView for WorkflowStep {
    type V = WorkflowStepView;

    open spec fn deep_view(&self) -> WorkflowStepView {
        self.view()
    }
}

impl WorkflowStep {
    /// The step's name: its key in the context and in the step results.
    pub fn name(&self) -> (name: &str)
        ensures
            name@ == self@.name(),
    {
        match self {
            WorkflowStep::Delay { name, .. } => name.as_str(),
            WorkflowStep::Webhook { name, .. } => name.as_str(),
        }
    }

    /// The kind of connector that runs the step.
    pub fn connector_type(&self) -> (kind: ConnectorType)
        ensures
            kind == self@.connector_type(),
    {
        match self {
            WorkflowStep::Delay { .. } => ConnectorType::Delay,
            WorkflowStep::Webhook { .. } => ConnectorType::Webhook,
        }
    }
}

/// The output of a step, by kind.
#[derive(Clone, Debug, PartialEq)]
pub enum WorkflowStepResponse {
    Delay(DelayOutput),
    Webhook(WebhookResponse),
}

pub enum WorkflowStepResponseView {
    Delay(DelayOutputView),
    Webhook(WebhookResponseView),
}

impl View for WorkflowStepResponse {
    type V = WorkflowStepResponseView;

    open spec fn view(&self) -> WorkflowStepResponseView {
        match self {
            WorkflowStepResponse::Delay(output) => WorkflowStepResponseView::Delay(output@),
            WorkflowStepResponse::Webhook(output) => WorkflowStepResponseView::Webhook(output@),
        }
    }
}

impl DeepView for WorkflowStepResponse {
    type V = WorkflowStepResponseView;

    open spec fn deep_view(&self) -> WorkflowStepResponseView {
        self.view()
    }
}

/// The structured value under which an output enters the context: an
/// object tagged with the kind under `type`, followed by the output's
/// fields.
pub open spec fn output_json(output: WorkflowStepResponseView) -> JsonView {
    match output {
        WorkflowStepResponseView::Delay(delay) => JsonView::Object(
            seq![
                ("type"@, JsonView::String("delay"@)),
                ("duration"@, JsonView::Number(JsonNumber::PosInt(delay.duration))),
                ("message"@, JsonView::String(delay.message)),
            ],
        ),
        WorkflowStepResponseView::Webhook(webhook) => JsonView::Object(
            seq![
                ("type"@, JsonView::String("webhook"@)),
                (
                    "status_code"@,
                    JsonView::Number(JsonNumber::PosInt(webhook.status_code as u64)),
                ),
                ("response_data"@, webhook.response_data),
                ("url"@, JsonView::String(webhook.url)),
                ("method"@, JsonView::String(webhook.method)),
            ],
        ),
    }
}

impl WorkflowStepResponse {
    /// The output as a structured value.
    pub fn to_json(&self) -> (value: JsonValue)
        ensures
            value@ == output_json(self@),
    {
        let mut members: Vec<(String, JsonValue)> = Vec::new();
        match self {
            WorkflowStepResponse::Delay(delay) => {
                members.push((String::from_str("type"), JsonValue::text("delay")));
                members.push((String::from_str("duration"), JsonValue::unsigned(delay.duration)));
                members.push(
                    (String::from_str("message"), JsonValue::String(delay.message.clone())),
                );
            },
            WorkflowStepResponse::Webhook(webhook) => {
                members.push((String::from_str("type"), JsonValue::text("webhook")));
                members.push(
                    (
                        String::from_str("status_code"),
                        JsonValue::unsigned(webhook.status_code as u64),
                    ),
                );
                members.push((String::from_str("response_data"), webhook.response_data.clone()));
                members.push((String::from_str("url"), JsonValue::String(webhook.url.clone())));
                members.push(
                    (String::from_str("method"), JsonValue::String(webhook.method.clone())),
                );
            },
        }
        let value = JsonValue::object(members);
        assert(value@->Object_0 =~= output_json(self@)->Object_0);
        value
    }
}

/// A workflow: an ordered list of steps under a name.
#[derive(Clone, Debug, PartialEq)]
pub struct WorkflowDefinition {
    pub uuid: Option<String>,
    pub id: Option<String>,
    pub name: String,
    pub description: Option<String>,
    pub steps: Vec<WorkflowStep>,
}

pub struct WorkflowDefinitionView {
    pub uuid: Option<Seq<char>>,
    pub id: Option<Seq<char>>,
    pub name: Seq<char>,
    pub description: Option<Seq<char>>,
    pub steps: Seq<WorkflowStepView>,
}

impl WorkflowDefinitionView {
    /// The names of the steps, in order.
    pub open spec fn step_names(self) -> Seq<Seq<char>> {
        Seq::new(self.steps.len(), |i: int| self.steps[i].name())
    }

    /// Step names are unique within a definition.
    pub open spec fn well_formed(self) -> bool {
        crate::string_map::distinct(self.step_names())
    }
}

impl View for WorkflowDefinition {
    type V = WorkflowDefinitionView;

    open spec fn view(&self) -> WorkflowDefinitionView {
        WorkflowDefinitionView {
            uuid: self.uuid.deep_view(),
            id: self.id.deep_view(),
            name: self.name@,
            description: self.description.deep_view(),
            steps: self.steps.deep_view(),
        }
    }
}

impl DeepView for WorkflowDefinition {
    type V = WorkflowDefinitionView;

    open spec fn deep_view(&self) -> WorkflowDefinitionView {
        self.view()
    }
}

/// What the execution of one step left behind.
#[derive(Clone, Debug, PartialEq)]
pub struct StepResult {
    pub step_name: String,
    pub status: StepStatus,
    pub started_at: String,
    pub completed_at: Option<String>,
    pub output: Option<WorkflowStepResponse>,
    pub error: Option<String>,
}

pub struct StepResultView {
    pub step_name: Seq<char>,
    pub status: StepStatus,
    pub started_at: Seq<char>,
    pub completed_at: Option<Seq<char>>,
    pub output: Option<WorkflowStepResponseView>,
    pub error: Option<Seq<char>>,
}

impl View for StepResult {
    type V = StepResultView;

    open spec fn view(&self) -> StepResultView {
        StepResultView {
            step_name: self.step_name@,
            status: self.status,
            started_at: self.started_at@,
            completed_at: self.completed_at.deep_view(),
            output: self.output.deep_view(),
            error: self.error.deep_view(),
        }
    }
}

impl DeepView for StepResult {
    type V = StepResultView;

    open spec fn deep_view(&self) -> StepResultView {
        self.view()
    }
}

} // verus!
