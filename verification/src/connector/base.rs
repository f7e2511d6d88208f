//! What a connector asks of the outside world, what comes back, and the
//! trait that every connector implements.

use crate::json::{JsonValue, JsonView};
use crate::schemas::workflow::{
    WorkflowStep,
    WorkflowStepResponse,
    WorkflowStepResponseView,
    WorkflowStepView,
};
use crate::string_map::StringMap;
use vstd::prelude::*;

verus! {

/// The HTTP methods a webhook may use.
#[derive(Clone, Copy, Debug, PartialEq, Eq, Structural)]
pub enum HttpMethod {
    Get,
    Post,
    Put,
    Delete,
}

impl HttpMethod {
    /// The method's upper-case name.
    pub open spec fn name(self) -> Seq<char> {
        match self {
            HttpMethod::Get => "GET"@,
            HttpMethod::Post => "POST"@,
            HttpMethod::Put => "PUT"@,
            HttpMethod::Delete => "DELETE"@,
        }
    }

    /// Whether a request with this method carries a body.
    pub open spec fn sends_body(self) -> bool {
        self == HttpMethod::Post || self == HttpMethod::Put
    }

    /// The method's upper-case name.
    pub fn as_str(&self) -> (name: &'static str)
        ensures
            name@ == self.name(),
    {
        match self {
            HttpMethod::Get => "GET",
            HttpMethod::Post => "POST",
            HttpMethod::Put => "PUT",
            HttpMethod::Delete => "DELETE",
        }
    }
}

/// An HTTP request for the caller to send. `body` is present exactly for
/// the methods that send one; it goes out as JSON.
#[derive(Clone, Debug, PartialEq)]
pub struct HttpRequest {
    pub method: HttpMethod,
    pub url: String,
    pub headers: StringMap<String>,
    pub body: Option<JsonValue>,
}

pub struct HttpRequestView {
    pub method: HttpMethod,
    pub url: Seq<char>,
    pub headers: Seq<(Seq<char>, Seq<char>)>,
    pub body: Option<JsonView>,
}

impl View for HttpRequest {
    type V = HttpRequestView;

    open spec fn view(&self) -> HttpRequestView {
        HttpRequestView {
            method: self.method,
            url: self.url@,
            headers: self.headers.deep_view(),
            body: self.body.deep_view(),
        }
    }
}

impl DeepView for HttpRequest {
    type V = HttpRequestView;

    open spec fn deep_view(&self) -> HttpRequestView {
        self.view()
    }
}

/// The body of an HTTP response: structured where the response declared
/// JSON, raw text otherwise.
#[derive(Clone, Debug, PartialEq)]
pub enum HttpBody {
    Json(JsonValue),
    Text(String),
}

pub enum HttpBodyView {
    Json(JsonView),
    Text(Seq<char>),
}

impl View for HttpBody {
    type V = HttpBodyView;

    open spec fn view(&self) -> HttpBodyView {
        match self {
            HttpBody::Json(value) => HttpBodyView::Json(value@),
            HttpBody::Text(text) => HttpBodyView::Text(text@),
        }
    }
}

/// An HTTP response as far as a step's output needs it.
#[derive(Clone, Debug, PartialEq)]
pub struct HttpReply {
    pub status_code: u16,
    pub body: HttpBody,
}

pub struct HttpReplyView {
    pub status_code: u16,
    pub body: HttpBodyView,
}

impl View for HttpReply {
    type V = HttpReplyView;

    open spec fn view(&self) -> HttpReplyView {
        HttpReplyView { status_code: self.status_code, body: self.body@ }
    }
}

/// What a connector needs done before it can give a step's output.
#[derive(Clone, Debug, PartialEq)]
pub enum ConnectorRequest {
    /// Wait for `seconds` seconds.
    Sleep { seconds: u64 },
    /// Send the request and read the response.
    Http(HttpRequest),
}

pub enum ConnectorRequestView {
    Sleep { seconds: u64 },
    Http(HttpRequestView),
}

impl View for ConnectorRequest {
    type V = ConnectorRequestView;

    open spec fn view(&self) -> ConnectorRequestView {
        match self {
            ConnectorRequest::Sleep { seconds } => ConnectorRequestView::Sleep {
                seconds: *seconds,
            },
            ConnectorRequest::Http(request) => ConnectorRequestView::Http(request@),
        }
    }
}

impl DeepView for ConnectorRequest {
    type V = ConnectorRequestView;

    open spec fn deep_view(&self) -> ConnectorRequestView {
        self.view()
    }
}

/// What came of a `ConnectorRequest`.
#[derive(Clone, Debug, PartialEq)]
pub enum ConnectorReply {
    /// The wait is over.
    Slept,
    /// The response to the request that was sent.
    Http(HttpReply),
    /// The request could not be carried out; the text says why.
    Failed(String),
}

pub enum ConnectorReplyView {
    Slept,
    Http(HttpReplyView),
    Failed(Seq<char>),
}

impl View for ConnectorReply {
    type V = ConnectorReplyView;

    open spec fn view(&self) -> ConnectorReplyView {
        match self {
            ConnectorReply::Slept => ConnectorReplyView::Slept,
            ConnectorReply::Http(reply) => ConnectorReplyView::Http(reply@),
            ConnectorReply::Failed(reason) => ConnectorReplyView::Failed(reason@),
        }
    }
}

/// The view of a result whose two sides have views.
pub open spec fn result_view<T: DeepView, E: DeepView>(result: Result<T, E>) -> Result<T::V, E::V> {
    match result {
        Ok(value) => Ok(value.deep_view()),
        Err(error) => Err(error.deep_view()),
    }
}

/// The unit of work for one kind of step. `request` says what the step
/// needs done, or fails before anything is done; `complete` turns the
/// reply into the step's output or its failure. Neither changes the step
/// or the context.
pub trait Connector: Send + Sync {
    /// What `request` returns.
    spec fn request_for(
        &self,
        step: WorkflowStepView,
        context: Seq<(Seq<char>, JsonView)>,
    ) -> Result<ConnectorRequestView, Seq<char>>;

    /// What `complete` returns.
    spec fn outcome_of(&self, step: WorkflowStepView, reply: ConnectorReplyView) -> Result<
        WorkflowStepResponseView,
        Seq<char>,
    >;

    fn request(&self, step: &WorkflowStep, context: &StringMap<JsonValue>) -> (result: Result<
        ConnectorRequest,
        String,
    >)
        ensures
            result_view(result) == self.request_for(step@, context.deep_view()),
    ;

    fn complete(&self, step: &WorkflowStep, reply: ConnectorReply) -> (result: Result<
        WorkflowStepResponse,
        String,
    >)
        ensures
            result_view(result) == self.outcome_of(step@, reply@),
    ;
}

} // verus!
