//! Creating workflow definitions and reading one by id, read through a
//! cache.

use crate::api::reply::{error_reply, not_found_reply, ok_reply, ApiReply};
use crate::api::v1::endpoints::runs::Lookup;
use crate::json::{JsonValue, JsonView};
use crate::schemas::workflow::WorkflowDefinition;
use crate::storage::base::{fetched_view, StorageError};
use crate::text::join;
use vstd::prelude::*;

verus! {

/// For how many seconds a workflow definition stays in the cache.
/// Definitions rarely change.
pub const WORKFLOW_CACHE_SECONDS: u64 = 60;

/// The key under which a workflow definition is cached.
pub open spec fn workflow_key(workflow_uuid: Seq<char>) -> Seq<char> {
    "workflow:"@ + workflow_uuid
}

/// The key under which a workflow definition is cached.
pub fn workflow_cache_key(workflow_uuid: &str) -> (key: String)
    ensures
        key@ == workflow_key(workflow_uuid@),
{
    join("workflow:", workflow_uuid)
}

/// The body of the answer to a definition that was created.
pub open spec fn created_body(workflow_uuid: Seq<char>) -> JsonView {
    JsonView::Object(
        seq![
            ("message"@, JsonView::String("Workflow created successfully"@)),
            ("workflow_id"@, JsonView::String(workflow_uuid)),
        ],
    )
}

/// What follows the creation of a definition.
#[derive(Clone, Debug, PartialEq)]
pub struct Created {
    /// The answer to the caller.
    pub reply: ApiReply,
    /// Where the definition was stored: the key under which to cache it,
    /// for `WORKFLOW_CACHE_SECONDS` seconds.
    pub cache_key: Option<String>,
}

/// The answer to the creation of a definition that the storage answered
/// with `created`.
pub fn create_workflow(created: Result<String, StorageError>) -> (outcome: Created)
    ensures
        match created {
            Ok(uuid) => outcome.reply@ == ok_reply(created_body(uuid@))
                && outcome.cache_key.deep_view() == Some(workflow_key(uuid@)),
            Err(error) => outcome.reply@ == error_reply(
                "Failed to create workflow: "@ + error@.message(),
            ) && outcome.cache_key is None,
        },
{
    match created {
        Ok(uuid) => {
            let cache_key = workflow_cache_key(uuid.as_str());
            let mut members: Vec<(String, JsonValue)> = Vec::new();
            members.push(
                (String::from_str("message"), JsonValue::text("Workflow created successfully")),
            );
            members.push((String::from_str("workflow_id"), JsonValue::String(uuid)));
            let body = JsonValue::object(members);
            assert(body@->Object_0 =~= created_body(uuid@)->Object_0);
            Created { reply: ApiReply::ok(body), cache_key: Some(cache_key) }
        },
        Err(error) => Created {
            reply: ApiReply::internal_error(
                join("Failed to create workflow: ", error.message().as_str()),
            ),
            cache_key: None,
        },
    }
}

/// The answer to a read of the definition `workflow_uuid` that the
/// storage answered with `loaded`.
pub fn get_workflow(
    workflow_uuid: &str,
    loaded: Result<Option<WorkflowDefinition>, StorageError>,
) -> (lookup: Lookup<WorkflowDefinition>)
    ensures
        match fetched_view(loaded) {
            Ok(Some(workflow)) => lookup matches Lookup::Found { item, cache_seconds } && item@
                == workflow && cache_seconds == WORKFLOW_CACHE_SECONDS,
            Ok(None) => lookup matches Lookup::Failed(reply) && reply@ == not_found_reply(
                "Workflow "@ + workflow_uuid@ + " not found"@,
            ),
            Err(error) => lookup matches Lookup::Failed(reply) && reply@ == error_reply(
                "Error loading workflow: "@ + error.message(),
            ),
        },
{
    match loaded {
        Ok(Some(workflow)) => Lookup::Found {
            item: workflow,
            cache_seconds: WORKFLOW_CACHE_SECONDS,
        },
        Ok(None) => {
            let mut detail = join("Workflow ", workflow_uuid);
            detail.append(" not found");
            Lookup::Failed(ApiReply::not_found(detail))
        },
        Err(error) => Lookup::Failed(
            ApiReply::internal_error(
                join("Error loading workflow: ", error.message().as_str()),
            ),
        ),
    }
}

} // verus!
