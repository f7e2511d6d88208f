//! Reading runs: one run by id, read through a short-lived cache, and
//! runs page by page.

use crate::api::reply::{error_reply, not_found_reply, ApiReply};
use crate::schemas::run::WorkflowRun;
use crate::storage::base::{fetched_view, StorageError};
use crate::text::join;
use vstd::prelude::*;

verus! {

/// The page size where the caller names none.
pub const DEFAULT_LIMIT: i64 = 50;

/// The smallest page size.
pub const MIN_LIMIT: i64 = 1;

/// The largest page size.
pub const MAX_LIMIT: i64 = 200;

/// For how many seconds a run stays in the cache. Runs change status, so
/// the time is short.
pub const RUN_CACHE_SECONDS: u64 = 10;

/// Query parameters of a paginated listing.
#[derive(Clone, Debug, PartialEq)]
pub struct PaginationParams {
    pub limit: Option<i64>,
    pub cursor: Option<String>,
}

/// The page size for a requested limit: the default where none is given,
/// and in any case within the bounds.
pub open spec fn clamped_limit(limit: Option<i64>) -> i64 {
    let wanted = match limit {
        Some(n) => n,
        None => DEFAULT_LIMIT,
    };
    if wanted > MAX_LIMIT {
        MAX_LIMIT
    } else if wanted < MIN_LIMIT {
        MIN_LIMIT
    } else {
        wanted
    }
}

impl PaginationParams {
    /// The page size to use.
    pub fn effective_limit(&self) -> (limit: i64)
        ensures
            limit == clamped_limit(self.limit),
            MIN_LIMIT <= limit <= MAX_LIMIT,
    {
        let wanted = match self.limit {
            Some(n) => n,
            None => DEFAULT_LIMIT,
        };
        if wanted > MAX_LIMIT {
            MAX_LIMIT
        } else if wanted < MIN_LIMIT {
            MIN_LIMIT
        } else {
            wanted
        }
    }
}

/// One page of a listing.
#[derive(Clone, Debug, PartialEq)]
pub struct PaginatedResponse<T> {
    pub items: Vec<T>,
    pub next_cursor: Option<String>,
    pub limit: i64,
}

/// What to do with a read that missed the cache.
#[derive(Debug, PartialEq)]
pub enum Lookup<T> {
    /// Answer 200 with the item, and keep it in the cache for
    /// `cache_seconds` seconds.
    Found { item: T, cache_seconds: u64 },
    /// Answer with the reply; cache nothing.
    Failed(ApiReply),
}

/// The key under which a run is cached.
pub open spec fn run_key(run_id: Seq<char>) -> Seq<char> {
    "run:"@ + run_id
}

/// The key under which a run is cached.
pub fn run_cache_key(run_id: &str) -> (key: String)
    ensures
        key@ == run_key(run_id@),
{
    join("run:", run_id)
}

/// The answer to a read of a run that the storage answered with `loaded`.
pub fn get_run(loaded: Result<Option<WorkflowRun>, StorageError>) -> (lookup: Lookup<WorkflowRun>)
    ensures
        match fetched_view(loaded) {
            Ok(Some(run)) => lookup matches Lookup::Found { item, cache_seconds } && item@ == run
                && cache_seconds == RUN_CACHE_SECONDS,
            Ok(None) => lookup matches Lookup::Failed(reply) && reply@ == not_found_reply(
                "Workflow run not found"@,
            ),
            Err(error) => lookup matches Lookup::Failed(reply) && reply@ == error_reply(
                "Error loading run: "@ + error.message(),
            ),
        },
{
    match loaded {
        Ok(Some(run)) => Lookup::Found { item: run, cache_seconds: RUN_CACHE_SECONDS },
        Ok(None) => Lookup::Failed(
            ApiReply::not_found(String::from_str("Workflow run not found")),
        ),
        Err(error) => Lookup::Failed(
            ApiReply::internal_error(join("Error loading run: ", error.message().as_str())),
        ),
    }
}

/// The answer to a listing of runs with page size `limit` that the
/// storage answered with `listed`: the page, or the reply that reports
/// the failure.
pub fn list_runs(
    limit: i64,
    listed: Result<(Vec<WorkflowRun>, Option<String>), StorageError>,
) -> (answer: Result<PaginatedResponse<WorkflowRun>, ApiReply>)
    ensures
        match listed {
            Ok((runs, next_cursor)) => answer matches Ok(page) && page.items == runs
                && page.next_cursor == next_cursor && page.limit == limit,
            Err(error) => answer matches Err(reply) && reply@ == error_reply(
                "Error listing runs: "@ + error@.message(),
            ),
        },
{
    match listed {
        Ok((runs, next_cursor)) => Ok(PaginatedResponse { items: runs, next_cursor, limit }),
        Err(error) => Err(
            ApiReply::internal_error(join("Error listing runs: ", error.message().as_str())),
        ),
    }
}

} // verus!
