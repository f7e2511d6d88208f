//! Settings, built once at startup from the environment's variables.

use crate::string_map::{lemma_deep_view_lookup, lookup, StringMap};
use vstd::prelude::*;

verus! {

/// Application configuration.
#[derive(Clone, Debug, PartialEq)]
pub struct Settings {
    pub project_name: String,
    pub version: String,
    pub api_v1_str: String,
    pub postgres_host: String,
    pub postgres_port: String,
    pub postgres_db: String,
    pub postgres_user: String,
    pub postgres_password: String,
    pub kafka_bootstrap_servers: String,
    pub kafka_consumer_group: String,
    pub kafka_topic_workflow_trigger: String,
    pub kafka_topic_workflow_completed: String,
    pub redis_url: String,
}

/// The value of a variable, or `default` where it is not set.
pub open spec fn setting(
    vars: Seq<(Seq<char>, Seq<char>)>,
    name: Seq<char>,
    default: Seq<char>,
) -> Seq<char> {
    match lookup(vars, name) {
        Some(value) => value,
        None => default,
    }
}

/// Whether the four variables without a default are set.
pub open spec fn required_set(vars: Seq<(Seq<char>, Seq<char>)>) -> bool {
    &&& lookup(vars, "POSTGRES_HOST"@) is Some
    &&& lookup(vars, "POSTGRES_DB"@) is Some
    &&& lookup(vars, "POSTGRES_USER"@) is Some
    &&& lookup(vars, "POSTGRES_PASSWORD"@) is Some
}

/// What to say of the first required variable that is not set.
pub open spec fn missing_variable(vars: Seq<(Seq<char>, Seq<char>)>) -> Seq<char> {
    if lookup(vars, "POSTGRES_HOST"@) is None {
        "POSTGRES_HOST must be set"@
    } else if lookup(vars, "POSTGRES_DB"@) is None {
        "POSTGRES_DB must be set"@
    } else if lookup(vars, "POSTGRES_USER"@) is None {
        "POSTGRES_USER must be set"@
    } else {
        "POSTGRES_PASSWORD must be set"@
    }
}

/// The PostgreSQL connection URL for the given parts.
pub open spec fn postgres_url(
    user: Seq<char>,
    password: Seq<char>,
    host: Seq<char>,
    port: Seq<char>,
    db: Seq<char>,
) -> Seq<char> {
    "postgresql://"@ + user + ":"@ + password + "@"@ + host + ":"@ + port + "/"@ + db
}

fn value_or(vars: &StringMap<String>, name: &str, default: &str) -> (value: String)
    ensures
        value@ == setting(vars.deep_view(), name@, default@),
{
    proof {
        lemma_deep_view_lookup(*vars, name@);
    }
    match vars.get(name) {
        Some(value) => value.clone(),
        None => String::from_str(default),
    }
}

fn required(vars: &StringMap<String>, name: &str) -> (value: Option<String>)
    ensures
        value.deep_view() == lookup(vars.deep_view(), name@),
{
    proof {
        lemma_deep_view_lookup(*vars, name@);
    }
    match vars.get(name) {
        Some(value) => Some(value.clone()),
        None => None,
    }
}

impl Settings {
    /// What to say of the first of the four required variables that is
    /// not set, or nothing where all four are set. To be asked before
    /// `from_env`.
    pub fn missing(vars: &StringMap<String>) -> (complaint: Option<String>)
        ensures
            complaint is None <==> required_set(vars.deep_view()),
            complaint matches Some(message) ==> message@ == missing_variable(vars.deep_view()),
    {
        if required(vars, "POSTGRES_HOST").is_none() {
            Some(String::from_str("POSTGRES_HOST must be set"))
        } else if required(vars, "POSTGRES_DB").is_none() {
            Some(String::from_str("POSTGRES_DB must be set"))
        } else if required(vars, "POSTGRES_USER").is_none() {
            Some(String::from_str("POSTGRES_USER must be set"))
        } else if required(vars, "POSTGRES_PASSWORD").is_none() {
            Some(String::from_str("POSTGRES_PASSWORD must be set"))
        } else {
            None
        }
    }

    /// The settings that the variables give. The host, database, user
    /// and password of PostgreSQL have no default and must be set; every
    /// other setting falls back to its default.
    pub fn from_env(vars: &StringMap<String>) -> (s: Settings)
        requires
            required_set(vars.deep_view()),
        ensures
            ({
                let v = vars.deep_view();
                &&& s.project_name@ == setting(v, "PROJECT_NAME"@, "Workflow Automation"@)
                &&& s.version@ == setting(v, "VERSION"@, "1.0.0"@)
                &&& s.api_v1_str@ == setting(v, "API_V1_STR"@, "/api/v1"@)
                &&& Some(s.postgres_host@) == lookup(v, "POSTGRES_HOST"@)
                &&& s.postgres_port@ == setting(v, "POSTGRES_PORT"@, "5432"@)
                &&& Some(s.postgres_db@) == lookup(v, "POSTGRES_DB"@)
                &&& Some(s.postgres_user@) == lookup(v, "POSTGRES_USER"@)
                &&& Some(s.postgres_password@) == lookup(v, "POSTGRES_PASSWORD"@)
                &&& s.kafka_bootstrap_servers@ == setting(
                    v,
                    "KAFKA_BOOTSTRAP_SERVERS"@,
                    "kafka:9092"@,
                )
                &&& s.kafka_consumer_group@ == setting(
                    v,
                    "KAFKA_CONSUMER_GROUP"@,
                    "workflow-workers-rust"@,
                )
                &&& s.kafka_topic_workflow_trigger@ == setting(
                    v,
                    "KAFKA_TOPIC_WORKFLOW_TRIGGER"@,
                    "workflow.trigger.rust"@,
                )
                &&& s.kafka_topic_workflow_completed@ == setting(
                    v,
                    "KAFKA_TOPIC_WORKFLOW_COMPLETED"@,
                    "workflow.completed.rust"@,
                )
                &&& s.redis_url@ == setting(v, "REDIS_URL"@, "redis://redis:6379"@)
            }),
    {
        Settings {
            project_name: value_or(vars, "PROJECT_NAME", "Workflow Automation"),
            version: value_or(vars, "VERSION", "1.0.0"),
            api_v1_str: value_or(vars, "API_V1_STR", "/api/v1"),
            postgres_host: required(vars, "POSTGRES_HOST").unwrap(),
            postgres_port: value_or(vars, "POSTGRES_PORT", "5432"),
            postgres_db: required(vars, "POSTGRES_DB").unwrap(),
            postgres_user: required(vars, "POSTGRES_USER").unwrap(),
            postgres_password: required(vars, "POSTGRES_PASSWORD").unwrap(),
            kafka_bootstrap_servers: value_or(vars, "KAFKA_BOOTSTRAP_SERVERS", "kafka:9092"),
            kafka_consumer_group: value_or(
                vars,
                "KAFKA_CONSUMER_GROUP",
                "workflow-workers-rust",
            ),
            kafka_topic_workflow_trigger: value_or(
                vars,
                "KAFKA_TOPIC_WORKFLOW_TRIGGER",
                "workflow.trigger.rust",
            ),
            kafka_topic_workflow_completed: value_or(
                vars,
                "KAFKA_TOPIC_WORKFLOW_COMPLETED",
                "workflow.completed.rust",
            ),
            redis_url: value_or(vars, "REDIS_URL", "redis://redis:6379"),
        }
    }

    /// The PostgreSQL connection URL.
    pub fn database_url(&self) -> (url: String)
        ensures
            url@ == postgres_url(
                self.postgres_user@,
                self.postgres_password@,
                self.postgres_host@,
                self.postgres_port@,
                self.postgres_db@,
            ),
    {
        let mut url = String::from_str("postgresql://");
        url.append(self.postgres_user.as_str());
        url.append(":");
        url.append(self.postgres_password.as_str());
        url.append("@");
        url.append(self.postgres_host.as_str());
        url.append(":");
        url.append(self.postgres_port.as_str());
        url.append("/");
        url.append(self.postgres_db.as_str());
        url
    }
}

} // verus!
