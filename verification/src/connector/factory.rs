//! Resolves a step's kind to the connector that runs it.

use crate::connector::base::{Connector, ConnectorReplyView, ConnectorRequestView};
use crate::connector::delay::{delay_outcome, delay_request, DelayConnector};
use crate::connector::webhook::{webhook_outcome, webhook_request, WebhookConnector};
use crate::json::JsonView;
use crate::schemas::workflow::{ConnectorType, WorkflowStepResponseView, WorkflowStepView};
use vstd::prelude::*;

verus! {

/// What the connector of the given kind asks for a step.
pub open spec fn request_by(
    kind: ConnectorType,
    step: WorkflowStepView,
    context: Seq<(Seq<char>, JsonView)>,
) -> Result<ConnectorRequestView, Seq<char>> {
    match kind {
        ConnectorType::Delay => delay_request(step),
        ConnectorType::Webhook => webhook_request(step, context),
    }
}

/// What the connector of the given kind makes of a reply.
pub open spec fn outcome_by(
    kind: ConnectorType,
    step: WorkflowStepView,
    reply: ConnectorReplyView,
) -> Result<WorkflowStepResponseView, Seq<char>> {
    match kind {
        ConnectorType::Delay => delay_outcome(step, reply),
        ConnectorType::Webhook => webhook_outcome(step, reply),
    }
}

/// Creates connectors by kind.
pub struct ConnectorFactory;

impl ConnectorFactory {
    /// The connector for `connector_type`: the delay connector for
    /// `Delay`, the webhook connector for `Webhook`. Every kind has one,
    /// so the error side, kept for kinds yet to come, is never returned.
    pub fn get_instance(connector_type: &ConnectorType) -> (result: Result<
        Box<dyn Connector>,
        String,
    >)
        ensures
            result is Ok,
            forall|step: WorkflowStepView, context: Seq<(Seq<char>, JsonView)>|
                (#[trigger] result->Ok_0.request_for(step, context)) == request_by(
                    *connector_type,
                    step,
                    context,
                ),
            forall|step: WorkflowStepView, reply: ConnectorReplyView|
                (#[trigger] result->Ok_0.outcome_of(step, reply)) == outcome_by(
                    *connector_type,
                    step,
                    reply,
                ),
    {
        match connector_type {
            ConnectorType::Delay => Ok(Box::new(DelayConnector::new())),
            ConnectorType::Webhook => Ok(Box::new(WebhookConnector::new())),
        }
    }
}

} // verus!
