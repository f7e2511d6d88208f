//! The delay connector: waits for a number of seconds.

use crate::connector::base::{
    Connector,
    ConnectorReply,
    ConnectorReplyView,
    ConnectorRequest,
    ConnectorRequestView,
};
use crate::json::{JsonValue, JsonView};
use crate::schemas::workflow::{
    WorkflowStep,
    WorkflowStepResponse,
    WorkflowStepResponseView,
    WorkflowStepView,
};
use crate::string_map::StringMap;
use crate::text::{decimal, decimal_text};
use vstd::prelude::*;

verus! {

/// Configuration of a delay step.
#[derive(Clone, Copy, Debug, PartialEq, Eq)]
pub struct DelayConfig {
    /// Seconds to wait.
    pub duration: u64,
}

/// Output of a delay step.
#[derive(Clone, Debug, PartialEq)]
pub struct DelayOutput {
    pub duration: u64,
    pub message: String,
}

pub struct DelayOutputView {
    pub duration: u64,
    pub message: Seq<char>,
}

impl View for DelayOutput {
    type V = DelayOutputView;

    open spec fn view(&self) -> DelayOutputView {
        DelayOutputView { duration: self.duration, message: self.message@ }
    }
}

/// The message of a delay of `duration` seconds.
pub open spec fn delay_message(duration: u64) -> Seq<char> {
    "Delayed for "@ + decimal(duration as nat) + " seconds"@
}

/// The output of a delay of `duration` seconds.
pub open spec fn delay_output(duration: u64) -> DelayOutputView {
    DelayOutputView { duration, message: delay_message(duration) }
}

/// The error of a delay connector that is handed another kind of step.
pub open spec fn delay_wrong_step() -> Seq<char> {
    "DelayConnector received non-delay step"@
}

/// The error of a delay connector that is handed a reply to something it
/// did not ask for.
pub open spec fn delay_wrong_reply() -> Seq<char> {
    "DelayConnector received an unexpected reply"@
}

/// What the delay connector asks for a step.
pub open spec fn delay_request(step: WorkflowStepView) -> Result<ConnectorRequestView, Seq<char>> {
    match step {
        WorkflowStepView::Delay { config, .. } => Ok(
            ConnectorRequestView::Sleep { seconds: config.duration },
        ),
        _ => Err(delay_wrong_step()),
    }
}

/// What the delay connector makes of a reply.
pub open spec fn delay_outcome(step: WorkflowStepView, reply: ConnectorReplyView) -> Result<
    WorkflowStepResponseView,
    Seq<char>,
> {
    match step {
        WorkflowStepView::Delay { config, .. } => match reply {
            ConnectorReplyView::Slept => Ok(
                WorkflowStepResponseView::Delay(delay_output(config.duration)),
            ),
            ConnectorReplyView::Failed(reason) => Err(reason),
            _ => Err(delay_wrong_reply()),
        },
        _ => Err(delay_wrong_step()),
    }
}

/// The delay connector has a request for every delay step and for no
/// other step, and a finished wait always gives the step's output.
pub proof fn lemma_delay_fails_only_on_mismatch(step: WorkflowStepView)
    ensures
        delay_request(step) is Ok <==> step is Delay,
        delay_outcome(step, ConnectorReplyView::Slept) is Ok <==> step is Delay,
{
}

/// Connector that waits for a configured duration.
#[derive(Clone, Copy, Debug, PartialEq, Eq)]
pub struct DelayConnector;

impl DelayConnector {
    pub fn new() -> (connector: Self)
        ensures
            connector == DelayConnector,
    {
        DelayConnector
    }

    /// The output of a finished delay.
    pub fn output(config: &DelayConfig) -> (output: DelayOutput)
        ensures
            output@ == delay_output(config.duration),
    {
        let mut message = String::from_str("Delayed for ");
        let digits = decimal_text(config.duration);
        message.append(digits.as_str());
        message.append(" seconds");
        DelayOutput { duration: config.duration, message }
    }
}

impl Default for DelayConnector {
    fn default() -> (connector: Self)
        ensures
            connector == DelayConnector,
    {
        DelayConnector::new()
    }
}

impl Connector for DelayConnector {
    open spec fn request_for(
        &self,
        step: WorkflowStepView,
        context: Seq<(Seq<char>, JsonView)>,
    ) -> Result<ConnectorRequestView, Seq<char>> {
        delay_request(step)
    }

    open spec fn outcome_of(&self, step: WorkflowStepView, reply: ConnectorReplyView) -> Result<
        WorkflowStepResponseView,
        Seq<char>,
    > {
        delay_outcome(step, reply)
    }

    fn request(&self, step: &WorkflowStep, context: &StringMap<JsonValue>) -> (result: Result<
        ConnectorRequest,
        String,
    >) {
        match step {
            WorkflowStep::Delay { config, .. } => Ok(
                ConnectorRequest::Sleep { seconds: config.duration },
            ),
            _ => Err(String::from_str("DelayConnector received non-delay step")),
        }
    }

    fn complete(&self, step: &WorkflowStep, reply: ConnectorReply) -> (result: Result<
        WorkflowStepResponse,
        String,
    >) {
        match step {
            WorkflowStep::Delay { config, .. } => match reply {
                ConnectorReply::Slept => Ok(
                    WorkflowStepResponse::Delay(DelayConnector::output(config)),
                ),
                ConnectorReply::Failed(reason) => Err(reason),
                _ => Err(String::from_str("DelayConnector received an unexpected reply")),
            },
            _ => Err(String::from_str("DelayConnector received non-delay step")),
        }
    }
}

} // verus!
