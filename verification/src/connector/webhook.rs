//! The webhook connector: sends one HTTP request and reports the response.

use crate::connector::base::{
    Connector,
    ConnectorReply,
    ConnectorReplyView,
    ConnectorRequest,
    ConnectorRequestView,
    HttpBody,
    HttpBodyView,
    HttpMethod,
    HttpReply,
    HttpReplyView,
    HttpRequest,
    HttpRequestView,
};
use crate::json::{lemma_view_parts, JsonValue, JsonView};
use crate::schemas::workflow::{
    WorkflowStep,
    WorkflowStepResponse,
    WorkflowStepResponseView,
    WorkflowStepView,
};
use crate::string_map::{duplicate_strings, lemma_deep_view_lookup, lookup, StringMap};
use crate::text::{
    has_prefix,
    placeholder,
    placeholder_key,
    same_text,
    starts_with,
    to_uppercase,
    uppercase,
};
use vstd::prelude::*;

verus! {

/// Configuration of a webhook step.
#[derive(Clone, Debug, PartialEq)]
pub struct WebhookConfig {
    pub url: String,
    pub method: String,
    pub headers: StringMap<String>,
    pub body: JsonValue,
}

pub struct WebhookConfigView {
    pub url: Seq<char>,
    pub method: Seq<char>,
    pub headers: Seq<(Seq<char>, Seq<char>)>,
    pub body: JsonView,
}

impl View for WebhookConfig {
    type V = WebhookConfigView;

    open spec fn view(&self) -> WebhookConfigView {
        WebhookConfigView {
            url: self.url@,
            method: self.method@,
            headers: self.headers.deep_view(),
            body: self.body@,
        }
    }
}

/// Output of a webhook step. A status outside 2xx is an output like any
/// other, not a failure.
#[derive(Clone, Debug, PartialEq)]
pub struct WebhookResponse {
    pub status_code: u16,
    pub response_data: JsonValue,
    pub url: String,
    pub method: String,
}

pub struct WebhookResponseView {
    pub status_code: u16,
    pub response_data: JsonView,
    pub url: Seq<char>,
    pub method: Seq<char>,
}

impl View for WebhookResponse {
    type V = WebhookResponseView;

    open spec fn view(&self) -> WebhookResponseView {
        WebhookResponseView {
            status_code: self.status_code,
            response_data: self.response_data@,
            url: self.url@,
            method: self.method@,
        }
    }
}

/// `data` with every string of the form `${key}` replaced by the
/// context's value under `key`, where the context has one. Only a string
/// that is a placeholder as a whole is replaced; keys of objects are kept.
pub open spec fn substituted(data: JsonView, context: Seq<(Seq<char>, JsonView)>) -> JsonView
    decreases data,
{
    match data {
        JsonView::Object(members) => JsonView::Object(
            Seq::new(
                members.len(),
                |i: int|
                    if 0 <= i < members.len() {
                        (members[i].0, substituted(members[i].1, context))
                    } else {
                        (Seq::empty(), JsonView::Null)
                    },
            ),
        ),
        JsonView::Array(items) => JsonView::Array(
            Seq::new(
                items.len(),
                |i: int|
                    if 0 <= i < items.len() {
                        substituted(items[i], context)
                    } else {
                        JsonView::Null
                    },
            ),
        ),
        JsonView::String(text) => match placeholder_key(text) {
            Some(key) => match lookup(context, key) {
                Some(value) => value,
                None => data,
            },
            None => data,
        },
        _ => data,
    }
}

/// Without a context nothing is replaced.
pub proof fn lemma_substituted_without_context(data: JsonView)
    ensures
        substituted(data, Seq::empty()) == data,
    decreases data,
{
    let context = Seq::<(Seq<char>, JsonView)>::empty();
    match data {
        JsonView::Object(members) => {
            assert forall|i: int| 0 <= i < members.len() implies substituted(
                members[i].1,
                context,
            ) == members[i].1 by {
                lemma_substituted_without_context(members[i].1);
            }
            assert(substituted(data, context)->Object_0 =~= members);
        },
        JsonView::Array(items) => {
            assert forall|i: int| 0 <= i < items.len() implies substituted(items[i], context)
                == items[i] by {
                lemma_substituted_without_context(items[i]);
            }
            assert(substituted(data, context)->Array_0 =~= items);
        },
        _ => {},
    }
}

/// Substitution keeps the shape of what it is applied to: an object
/// keeps its keys in order, an array its length, and whatever is neither
/// an object, an array nor a string stays as it is.
pub proof fn lemma_substituted_shape(data: JsonView, context: Seq<(Seq<char>, JsonView)>)
    ensures
        data matches JsonView::Object(members) ==> substituted(data, context) is Object
            && substituted(data, context)->Object_0.len() == members.len() && forall|i: int|
            0 <= i < members.len() ==> (#[trigger] substituted(data, context)->Object_0[i]).0
                == members[i].0,
        data matches JsonView::Array(items) ==> substituted(data, context) is Array
            && substituted(data, context)->Array_0.len() == items.len(),
        !(data is Object || data is Array || data is String) ==> substituted(data, context)
            == data,
{
}

/// The method that an upper-case method name stands for.
pub open spec fn method_named(upper: Seq<char>) -> Option<HttpMethod> {
    if upper == "GET"@ {
        Some(HttpMethod::Get)
    } else if upper == "POST"@ {
        Some(HttpMethod::Post)
    } else if upper == "PUT"@ {
        Some(HttpMethod::Put)
    } else if upper == "DELETE"@ {
        Some(HttpMethod::Delete)
    } else {
        None
    }
}

/// The error for a method that is none of GET, POST, PUT, DELETE.
pub open spec fn unsupported_method(upper: Seq<char>) -> Seq<char> {
    "Unsupported HTTP method: "@ + upper
}

/// The error of a webhook connector that is handed another kind of step.
pub open spec fn webhook_wrong_step() -> Seq<char> {
    "WebhookConnector received non-webhook step"@
}

/// The error of a webhook connector that is handed a reply to something
/// it did not ask for.
pub open spec fn webhook_wrong_reply() -> Seq<char> {
    "WebhookConnector received an unexpected reply"@
}

/// The request for a webhook whose method, in upper case, is `upper`.
pub open spec fn webhook_request_with(
    upper: Seq<char>,
    config: WebhookConfigView,
    context: Seq<(Seq<char>, JsonView)>,
) -> Result<HttpRequestView, Seq<char>> {
    match method_named(upper) {
        Some(method) => Ok(
            HttpRequestView {
                method,
                url: config.url,
                headers: config.headers,
                body: if method.sends_body() {
                    Some(substituted(config.body, context))
                } else {
                    None
                },
            },
        ),
        None => Err(unsupported_method(upper)),
    }
}

/// The output for a webhook whose method, in upper case, is `upper`.
pub open spec fn webhook_response_with(
    upper: Seq<char>,
    config: WebhookConfigView,
    reply: HttpReplyView,
) -> WebhookResponseView {
    WebhookResponseView {
        status_code: reply.status_code,
        response_data: match reply.body {
            HttpBodyView::Json(value) => value,
            HttpBodyView::Text(text) => JsonView::String(text),
        },
        url: config.url,
        method: upper,
    }
}

/// What the webhook connector asks for a step.
pub open spec fn webhook_request(
    step: WorkflowStepView,
    context: Seq<(Seq<char>, JsonView)>,
) -> Result<ConnectorRequestView, Seq<char>> {
    match step {
        WorkflowStepView::Webhook { config, .. } => match webhook_request_with(
            uppercase(config.method),
            config,
            context,
        ) {
            Ok(request) => Ok(ConnectorRequestView::Http(request)),
            Err(error) => Err(error),
        },
        _ => Err(webhook_wrong_step()),
    }
}

/// What the webhook connector makes of a reply.
pub open spec fn webhook_outcome(step: WorkflowStepView, reply: ConnectorReplyView) -> Result<
    WorkflowStepResponseView,
    Seq<char>,
> {
    match step {
        WorkflowStepView::Webhook { config, .. } => match reply {
            ConnectorReplyView::Http(http) => Ok(
                WorkflowStepResponseView::Webhook(
                    webhook_response_with(uppercase(config.method), config, http),
                ),
            ),
            ConnectorReplyView::Failed(reason) => Err(reason),
            _ => Err(webhook_wrong_reply()),
        },
        _ => Err(webhook_wrong_step()),
    }
}

/// Whatever the status of the response, a webhook step that was answered
/// has an output, and the output reports that status. Only a request
/// that could not be carried out makes the step fail, with the reason
/// given.
pub proof fn lemma_any_status_is_an_output(
    step: WorkflowStepView,
    reply: HttpReplyView,
    reason: Seq<char>,
)
    requires
        step is Webhook,
    ensures
        webhook_outcome(step, ConnectorReplyView::Http(reply)) matches Ok(
            WorkflowStepResponseView::Webhook(output),
        ) && output.status_code == reply.status_code,
        webhook_outcome(step, ConnectorReplyView::Failed(reason)) == Err::<
            WorkflowStepResponseView,
            Seq<char>,
        >(reason),
{
}

/// Connector that makes HTTP requests.
#[derive(Clone, Copy, Debug, PartialEq, Eq)]
pub struct WebhookConnector;

impl WebhookConnector {
    pub fn new() -> (connector: Self)
        ensures
            connector == WebhookConnector,
    {
        WebhookConnector
    }

    /// Whether a response with this content type is to be read as JSON
    /// rather than as text.
    pub fn expects_json(content_type: &str) -> (json: bool)
        ensures
            json == starts_with(content_type@, "application/json"@),
    {
        has_prefix(content_type, "application/json")
    }

    /// Replaces the placeholders in `data` by the context's values.
    pub fn replace_placeholders(data: &JsonValue, context: &StringMap<JsonValue>) -> (out:
        JsonValue)
        ensures
            out@ == substituted(data@, context.deep_view()),
        decreases data,
    {
        match data {
            JsonValue::Object(members) => {
                let mut out: Vec<(String, JsonValue)> = Vec::new();
                let mut i: usize = 0;
                while i < members.len()
                    invariant
                        i <= members@.len(),
                        out@.len() == i,
                        *data == JsonValue::Object(*members),
                        forall|j: int|
                            0 <= j < i ==> out@[j].0@ == members@[j].0@ && out@[j].1@
                                == substituted(members@[j].1@, context.deep_view()),
                    decreases members@.len() - i,
                {
                    assert(decreases_to!(*data => data->Object_0@[i as int].1));
                    let value = WebhookConnector::replace_placeholders(&members[i].1, context);
                    out.push((members[i].0.clone(), value));
                    i = i + 1;
                }
                let result = JsonValue::Object(out);
                proof {
                    lemma_view_parts(result);
                    lemma_view_parts(*data);
                    assert(result@->Object_0 =~= substituted(
                        data@,
                        context.deep_view(),
                    )->Object_0);
                }
                result
            },
            JsonValue::Array(items) => {
                let mut out: Vec<JsonValue> = Vec::new();
                let mut i: usize = 0;
                while i < items.len()
                    invariant
                        i <= items@.len(),
                        out@.len() == i,
                        *data == JsonValue::Array(*items),
                        forall|j: int|
                            0 <= j < i ==> out@[j]@ == substituted(
                                items@[j]@,
                                context.deep_view(),
                            ),
                    decreases items@.len() - i,
                {
                    assert(decreases_to!(*data => data->Array_0@[i as int]));
                    let value = WebhookConnector::replace_placeholders(&items[i], context);
                    out.push(value);
                    i = i + 1;
                }
                let result = JsonValue::Array(out);
                proof {
                    lemma_view_parts(result);
                    lemma_view_parts(*data);
                    assert(result@->Array_0 =~= substituted(data@, context.deep_view())->Array_0);
                }
                result
            },
            JsonValue::String(text) => {
                match placeholder(text.as_str()) {
                    Some(key) => {
                        proof {
                            lemma_deep_view_lookup(*context, key@);
                        }
                        match context.get(key.as_str()) {
                            Some(value) => value.clone(),
                            None => data.clone(),
                        }
                    },
                    None => data.clone(),
                }
            },
            _ => data.clone(),
        }
    }

    /// The request to send for a webhook whose method, in upper case, is
    /// `upper`, or the error where that is no supported method.
    pub fn build_request(
        upper: &str,
        config: &WebhookConfig,
        context: &StringMap<JsonValue>,
    ) -> (result: Result<HttpRequest, String>)
        ensures
            result_view_http(result) == webhook_request_with(
                upper@,
                config@,
                context.deep_view(),
            ),
    {
        let method = if same_text(upper, "GET") {
            HttpMethod::Get
        } else if same_text(upper, "POST") {
            HttpMethod::Post
        } else if same_text(upper, "PUT") {
            HttpMethod::Put
        } else if same_text(upper, "DELETE") {
            HttpMethod::Delete
        } else {
            let mut error = String::from_str("Unsupported HTTP method: ");
            error.append(upper);
            return Err(error);
        };
        let body = match method {
            HttpMethod::Post | HttpMethod::Put => Some(
                WebhookConnector::replace_placeholders(&config.body, context),
            ),
            _ => None,
        };
        Ok(
            HttpRequest {
                method,
                url: config.url.clone(),
                headers: duplicate_strings(&config.headers),
                body,
            },
        )
    }

    /// The output of a webhook whose method, in upper case, is `upper`
    /// and whose request was answered by `reply`.
    pub fn build_response(upper: String, config: &WebhookConfig, reply: HttpReply) -> (response:
        WebhookResponse)
        ensures
            response@ == webhook_response_with(upper@, config@, reply@),
    {
        let response_data = match reply.body {
            HttpBody::Json(value) => value,
            HttpBody::Text(text) => JsonValue::String(text),
        };
        WebhookResponse {
            status_code: reply.status_code,
            response_data,
            url: config.url.clone(),
            method: upper,
        }
    }
}

/// The view of a result of `build_request`.
pub open spec fn result_view_http(result: Result<HttpRequest, String>) -> Result<
    HttpRequestView,
    Seq<char>,
> {
    match result {
        Ok(request) => Ok(request@),
        Err(error) => Err(error@),
    }
}

impl Default for WebhookConnector {
    fn default() -> (connector: Self)
        ensures
            connector == WebhookConnector,
    {
        WebhookConnector::new()
    }
}

impl Connector for WebhookConnector {
    open spec fn request_for(
        &self,
        step: WorkflowStepView,
        context: Seq<(Seq<char>, JsonView)>,
    ) -> Result<ConnectorRequestView, Seq<char>> {
        webhook_request(step, context)
    }

    open spec fn outcome_of(&self, step: WorkflowStepView, reply: ConnectorReplyView) -> Result<
        WorkflowStepResponseView,
        Seq<char>,
    > {
        webhook_outcome(step, reply)
    }

    fn request(&self, step: &WorkflowStep, context: &StringMap<JsonValue>) -> (result: Result<
        ConnectorRequest,
        String,
    >) {
        match step {
            WorkflowStep::Webhook { config, .. } => {
                let upper = to_uppercase(config.method.as_str());
                match WebhookConnector::build_request(upper.as_str(), config, context) {
                    Ok(request) => Ok(ConnectorRequest::Http(request)),
                    Err(error) => Err(error),
                }
            },
            _ => Err(String::from_str("WebhookConnector received non-webhook step")),
        }
    }

    fn complete(&self, step: &WorkflowStep, reply: ConnectorReply) -> (result: Result<
        WorkflowStepResponse,
        String,
    >) {
        match step {
            WorkflowStep::Webhook { config, .. } => match reply {
                ConnectorReply::Http(http) => {
                    let upper = to_uppercase(config.method.as_str());
                    Ok(
                        WorkflowStepResponse::Webhook(
                            WebhookConnector::build_response(upper, config, http),
                        ),
                    )
                },
                ConnectorReply::Failed(reason) => Err(reason),
                _ => Err(String::from_str("WebhookConnector received an unexpected reply")),
            },
            _ => Err(String::from_str("WebhookConnector received non-webhook step")),
        }
    }
}

} // verus!
