use workflow_automation::api::reply::ApiReply;
use workflow_automation::api::v1::endpoints::runs::{
    get_run, list_runs, run_cache_key, Lookup, PaginatedResponse, PaginationParams,
    RUN_CACHE_SECONDS,
};
use workflow_automation::api::v1::endpoints::workflows::{
    create_workflow, get_workflow, workflow_cache_key, WORKFLOW_CACHE_SECONDS,
};
use workflow_automation::config::Settings;
use workflow_automation::json::{copy_of, map_of, object_of, JsonValue};
use workflow_automation::schemas::common::{StepStatus, WorkflowStatus};
use workflow_automation::schemas::run::WorkflowRun;
use workflow_automation::schemas::workflow::WorkflowDefinition;
use workflow_automation::storage::base::{fetch_size, paginate, StorageError};
use workflow_automation::string_map::StringMap;
use workflow_automation::text::{decimal_text, has_prefix, join, placeholder, same_text};

fn run(uuid: &str) -> WorkflowRun {
    WorkflowRun {
        uuid: Some(uuid.to_string()),
        id: None,
        workflow_id: "wf".to_string(),
        status: WorkflowStatus::Pending,
        payload: StringMap::new(),
        started_at: "t".to_string(),
        completed_at: None,
        error: None,
        step_results: StringMap::new(),
    }
}

/// Plays the storage backend: the rows after the cursor, in ascending
/// order of id, one more than the page holds.
fn read_rows(all: &[&str], limit: i64, cursor: Option<&str>) -> Vec<(String, WorkflowRun)> {
    let mut ids: Vec<&str> = all.to_vec();
    ids.sort();
    ids.into_iter()
        .filter(|id| cursor.map_or(true, |c| *id > c))
        .take(fetch_size(limit) as usize)
        .map(|id| (id.to_string(), run(id)))
        .collect()
}

fn ids(page: &[(String, WorkflowRun)]) -> Vec<String> {
    page.iter()
        .map(|(id, row)| {
            assert_eq!(row.uuid.as_ref(), Some(id));
            id.clone()
        })
        .collect()
}

fn row(id: &str) -> (String, WorkflowRun) {
    (id.to_string(), run(id))
}

#[test]
fn pages_follow_one_another_until_the_rows_run_out() {
    let all = ["r3", "r1", "r5", "r2", "r4"];
    let (first, cursor) = paginate(read_rows(&all, 2, None), 2);
    assert_eq!(ids(&first), vec!["r1", "r2"]);
    assert_eq!(cursor, Some("r2".to_string()));
    let (second, cursor) = paginate(read_rows(&all, 2, cursor.as_deref()), 2);
    assert_eq!(ids(&second), vec!["r3", "r4"]);
    assert_eq!(cursor, Some("r4".to_string()));
    let (third, cursor) = paginate(read_rows(&all, 2, cursor.as_deref()), 2);
    assert_eq!(ids(&third), vec!["r5"]);
    assert_eq!(cursor, None);
}

#[test]
fn a_page_that_holds_exactly_the_rest_has_no_cursor() {
    let all = ["a", "b"];
    let (page, cursor) = paginate(read_rows(&all, 2, None), 2);
    assert_eq!(ids(&page), vec!["a", "b"]);
    assert_eq!(cursor, None);
    let (page, cursor) = paginate(Vec::<(String, WorkflowRun)>::new(), 2);
    assert!(page.is_empty());
    assert_eq!(cursor, None);
}

#[test]
fn a_limit_of_zero_gives_an_empty_page_without_a_cursor() {
    let (page, cursor) = paginate(vec![row("a")], 0);
    assert!(page.is_empty());
    assert_eq!(cursor, None);
}

#[test]
fn a_negative_limit_bounds_nothing() {
    let (page, cursor) = paginate(vec![row("a"), row("b")], -1);
    assert_eq!(ids(&page), vec!["a", "b"]);
    assert_eq!(cursor, Some("b".to_string()));
}

#[test]
fn one_row_more_than_the_page_is_read() {
    assert_eq!(fetch_size(2), 3);
    assert_eq!(fetch_size(0), 1);
    assert_eq!(fetch_size(-1), 0);
    assert_eq!(fetch_size(i64::MAX), i64::MAX);
}

#[test]
fn a_cached_value_is_served_as_it_is() {
    let value = JsonValue::Object(vec![("uuid".to_string(), JsonValue::text("w1"))]);
    assert_eq!(
        ApiReply::cached(Some(value.clone())),
        Some(ApiReply {
            status: 200,
            body: value
        })
    );
    assert_eq!(ApiReply::cached(None), None);
}

#[test]
fn storage_errors_read_as_a_line() {
    assert_eq!(
        StorageError::Database("x".to_string()).message(),
        "Database error: x"
    );
    assert_eq!(
        StorageError::Serialization("y".to_string()).message(),
        "Serialization error: y"
    );
    assert_eq!(StorageError::NotFound("z".to_string()).message(), "Not found: z");
}

#[test]
fn the_page_size_is_clamped() {
    let limit = |limit| PaginationParams { limit, cursor: None }.effective_limit();
    assert_eq!(limit(None), 50);
    assert_eq!(limit(Some(2)), 2);
    assert_eq!(limit(Some(1)), 1);
    assert_eq!(limit(Some(0)), 1);
    assert_eq!(limit(Some(-7)), 1);
    assert_eq!(limit(Some(200)), 200);
    assert_eq!(limit(Some(201)), 200);
    assert_eq!(limit(Some(i64::MAX)), 200);
    assert_eq!(limit(Some(i64::MIN)), 1);
}

fn detail(status: u16, text: &str) -> ApiReply {
    ApiReply {
        status,
        body: JsonValue::Object(vec![(
            "detail".to_string(),
            JsonValue::String(text.to_string()),
        )]),
    }
}

#[test]
fn a_run_that_is_found_is_served_and_cached_briefly() {
    assert_eq!(RUN_CACHE_SECONDS, 10);
    assert_eq!(run_cache_key("abc"), "run:abc");
    assert_eq!(
        get_run(Ok(Some(run("abc")))),
        Lookup::Found {
            item: run("abc"),
            cache_seconds: 10
        }
    );
    assert_eq!(
        get_run(Ok(None)),
        Lookup::Failed(detail(404, "Workflow run not found"))
    );
    assert_eq!(
        get_run(Err(StorageError::Database("down".to_string()))),
        Lookup::Failed(detail(500, "Error loading run: Database error: down"))
    );
}

#[test]
fn a_listing_is_wrapped_with_its_cursor_and_limit() {
    assert_eq!(
        list_runs(2, Ok((vec![run("a")], Some("a".to_string())))),
        Ok(PaginatedResponse {
            items: vec![run("a")],
            next_cursor: Some("a".to_string()),
            limit: 2
        })
    );
    assert_eq!(
        list_runs(2, Err(StorageError::Database("down".to_string()))),
        Err(detail(500, "Error listing runs: Database error: down"))
    );
}

#[test]
fn a_created_workflow_is_announced_and_cached() {
    assert_eq!(WORKFLOW_CACHE_SECONDS, 60);
    assert_eq!(workflow_cache_key("w1"), "workflow:w1");
    let created = create_workflow(Ok("w1".to_string()));
    assert_eq!(created.cache_key, Some("workflow:w1".to_string()));
    assert_eq!(
        created.reply,
        ApiReply {
            status: 200,
            body: JsonValue::Object(vec![
                (
                    "message".to_string(),
                    JsonValue::String("Workflow created successfully".to_string())
                ),
                ("workflow_id".to_string(), JsonValue::String("w1".to_string())),
            ]),
        }
    );
    let failed = create_workflow(Err(StorageError::Database("down".to_string())));
    assert_eq!(failed.cache_key, None);
    assert_eq!(
        failed.reply,
        detail(500, "Failed to create workflow: Database error: down")
    );
}

#[test]
fn a_workflow_that_is_found_is_served_and_cached() {
    let definition = WorkflowDefinition {
        uuid: Some("w1".to_string()),
        id: None,
        name: "n".to_string(),
        description: Some("d".to_string()),
        steps: vec![],
    };
    assert_eq!(
        get_workflow("w1", Ok(Some(definition.clone()))),
        Lookup::Found {
            item: definition,
            cache_seconds: 60
        }
    );
    assert_eq!(
        get_workflow("w1", Ok(None)),
        Lookup::Failed(detail(404, "Workflow w1 not found"))
    );
    assert_eq!(
        get_workflow("w1", Err(StorageError::NotFound("x".to_string()))),
        Lookup::Failed(detail(500, "Error loading workflow: Not found: x"))
    );
}

fn vars(entries: Vec<(&str, &str)>) -> StringMap<String> {
    StringMap {
        entries: entries
            .into_iter()
            .map(|(k, v)| (k.to_string(), v.to_string()))
            .collect(),
    }
}

fn required() -> Vec<(&'static str, &'static str)> {
    vec![
        ("POSTGRES_HOST", "db"),
        ("POSTGRES_DB", "flows"),
        ("POSTGRES_USER", "app"),
        ("POSTGRES_PASSWORD", "pw"),
    ]
}

#[test]
fn settings_fall_back_to_their_defaults() {
    assert_eq!(Settings::missing(&vars(required())), None);
    let settings = Settings::from_env(&vars(required()));
    assert_eq!(
        settings,
        Settings {
            project_name: "Workflow Automation".to_string(),
            version: "1.0.0".to_string(),
            api_v1_str: "/api/v1".to_string(),
            postgres_host: "db".to_string(),
            postgres_port: "5432".to_string(),
            postgres_db: "flows".to_string(),
            postgres_user: "app".to_string(),
            postgres_password: "pw".to_string(),
            kafka_bootstrap_servers: "kafka:9092".to_string(),
            kafka_consumer_group: "workflow-workers-rust".to_string(),
            kafka_topic_workflow_trigger: "workflow.trigger.rust".to_string(),
            kafka_topic_workflow_completed: "workflow.completed.rust".to_string(),
            redis_url: "redis://redis:6379".to_string(),
        }
    );
    assert_eq!(
        settings.database_url(),
        "postgresql://app:pw@db:5432/flows"
    );
}

#[test]
fn settings_take_what_the_environment_gives() {
    let mut entries = required();
    entries.push(("POSTGRES_PORT", "6432"));
    entries.push(("KAFKA_TOPIC_WORKFLOW_TRIGGER", "t.in"));
    entries.push(("REDIS_URL", "redis://cache:1"));
    entries.push(("PROJECT_NAME", "Flows"));
    assert_eq!(Settings::missing(&vars(entries.clone())), None);
    let settings = Settings::from_env(&vars(entries));
    assert_eq!(settings.postgres_port, "6432");
    assert_eq!(settings.kafka_topic_workflow_trigger, "t.in");
    assert_eq!(settings.kafka_topic_workflow_completed, "workflow.completed.rust");
    assert_eq!(settings.redis_url, "redis://cache:1");
    assert_eq!(settings.project_name, "Flows");
    assert_eq!(settings.database_url(), "postgresql://app:pw@db:6432/flows");
}

#[test]
fn settings_name_the_first_required_variable_that_is_missing() {
    for (skip, expected) in [
        (0, "POSTGRES_HOST must be set"),
        (1, "POSTGRES_DB must be set"),
        (2, "POSTGRES_USER must be set"),
        (3, "POSTGRES_PASSWORD must be set"),
    ] {
        let mut entries = required();
        entries.remove(skip);
        assert_eq!(Settings::missing(&vars(entries)), Some(expected.to_string()));
    }
    assert_eq!(
        Settings::missing(&vars(vec![])),
        Some("POSTGRES_HOST must be set".to_string())
    );
}

#[test]
fn statuses_are_named_in_lower_case_and_read_back() {
    for (status, name) in [
        (WorkflowStatus::Pending, "pending"),
        (WorkflowStatus::Running, "running"),
        (WorkflowStatus::Success, "success"),
        (WorkflowStatus::Failed, "failed"),
        (WorkflowStatus::Paused, "paused"),
    ] {
        assert_eq!(status.as_str(), name);
        assert_eq!(status.to_string(), name);
        assert_eq!(WorkflowStatus::parse(name), Some(status));
    }
    assert_eq!(WorkflowStatus::parse("skipped"), None);
    assert_eq!(WorkflowStatus::parse("Pending"), None);
    assert_eq!(WorkflowStatus::parse(""), None);
    assert!(WorkflowStatus::Success.is_terminal());
    assert!(WorkflowStatus::Failed.is_terminal());
    assert!(!WorkflowStatus::Running.is_terminal());
    assert!(!WorkflowStatus::Pending.is_terminal());
    assert!(!WorkflowStatus::Paused.is_terminal());
    for (status, name) in [
        (StepStatus::Pending, "pending"),
        (StepStatus::Running, "running"),
        (StepStatus::Success, "success"),
        (StepStatus::Failed, "failed"),
        (StepStatus::Skipped, "skipped"),
    ] {
        assert_eq!(status.as_str(), name);
        assert_eq!(status.to_string(), name);
        assert_eq!(StepStatus::parse(name), Some(status));
    }
    assert_eq!(StepStatus::parse("paused"), None);
}

#[test]
fn string_maps_keep_insertion_order_and_overwrite_in_place() {
    let mut map: StringMap<u64> = StringMap::new();
    assert!(map.is_empty());
    map.insert("a".to_string(), 1);
    map.insert("b".to_string(), 2);
    map.insert("a".to_string(), 3);
    assert_eq!(map.len(), 2);
    assert_eq!(map.entries, vec![("a".to_string(), 3), ("b".to_string(), 2)]);
    assert_eq!(map.get("a"), Some(&3));
    assert_eq!(map.get("c"), None);
    assert!(map.contains_key("b"));
    assert!(!map.contains_key(""));
    assert_eq!(map.position("b"), 1);
    assert_eq!(map.position("zz"), 2);
}

#[test]
fn text_helpers_agree_with_the_standard_library() {
    assert_eq!(decimal_text(0), "0");
    assert_eq!(decimal_text(10), "10");
    assert_eq!(decimal_text(987654321), "987654321");
    assert!(same_text("abc", "abc"));
    assert!(!same_text("abc", "abd"));
    assert_eq!(join("ab", "cd"), "abcd");
    assert!(has_prefix("héllo", "hé"));
    assert!(!has_prefix("h", "hé"));
    assert!(has_prefix("anything", ""));
    assert_eq!(placeholder("${é}"), Some("é".to_string()));
    assert_eq!(placeholder("${a}b"), None);
}

#[test]
fn maps_made_from_members_have_no_key_twice() {
    let members = vec![
        ("k".to_string(), JsonValue::unsigned(1)),
        ("l".to_string(), JsonValue::unsigned(2)),
        ("k".to_string(), JsonValue::unsigned(3)),
    ];
    let map = map_of(&members);
    assert_eq!(
        map.entries,
        vec![
            ("k".to_string(), JsonValue::unsigned(3)),
            ("l".to_string(), JsonValue::unsigned(2)),
        ]
    );
    let copy = copy_of(&map);
    assert_eq!(copy, map);
    assert_eq!(object_of(&map), JsonValue::Object(map.entries.clone()));
}

#[test]
fn json_values_are_copied_in_full() {
    let value = JsonValue::Object(vec![(
        "k".to_string(),
        JsonValue::Array(vec![JsonValue::Null, JsonValue::text("x"), JsonValue::unsigned(3)]),
    )]);
    assert_eq!(value.duplicate(), value);
    assert_eq!(value.clone(), value);
}
