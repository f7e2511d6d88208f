//! An endpoint's answer: a status code and a JSON body.

use crate::json::{JsonValue, JsonView};
use vstd::prelude::*;

verus! {

/// An HTTP response with a JSON body.
#[derive(Clone, Debug, PartialEq)]
pub struct ApiReply {
    pub status: u16,
    pub body: JsonValue,
}

pub struct ApiReplyView {
    pub status: u16,
    pub body: JsonView,
}

impl View for ApiReply {
    type V = ApiReplyView;

    open spec fn view(&self) -> ApiReplyView {
        ApiReplyView { status: self.status, body: self.body@ }
    }
}

impl DeepView for ApiReply {
    type V = ApiReplyView;

    open spec fn deep_view(&self) -> ApiReplyView {
        self.view()
    }
}

/// The body that reports a failure.
pub open spec fn detail_body(detail: Seq<char>) -> JsonView {
    JsonView::Object(seq![("detail"@, JsonView::String(detail))])
}

/// 200 with the given body.
pub open spec fn ok_reply(body: JsonView) -> ApiReplyView {
    ApiReplyView { status: 200, body }
}

/// 404 with the given detail.
pub open spec fn not_found_reply(detail: Seq<char>) -> ApiReplyView {
    ApiReplyView { status: 404, body: detail_body(detail) }
}

/// 500 with the given detail.
pub open spec fn error_reply(detail: Seq<char>) -> ApiReplyView {
    ApiReplyView { status: 500, body: detail_body(detail) }
}

fn detail(text: String) -> (body: JsonValue)
    ensures
        body@ == detail_body(text@),
{
    let mut members: Vec<(String, JsonValue)> = Vec::new();
    members.push((String::from_str("detail"), JsonValue::String(text)));
    let body = JsonValue::object(members);
    assert(body@->Object_0 =~= detail_body(text@)->Object_0);
    body
}

impl ApiReply {
    /// 200 with the given body.
    pub fn ok(body: JsonValue) -> (reply: ApiReply)
        ensures
            reply@ == ok_reply(body@),
    {
        ApiReply { status: 200, body }
    }

    /// The answer that the cache gives: a cached value is served as it
    /// is, with status 200, and nothing else is consulted; without one
    /// the cache gives no answer.
    pub fn cached(value: Option<JsonValue>) -> (reply: Option<ApiReply>)
        ensures
            match value {
                Some(body) => reply matches Some(r) && r@ == ok_reply(body@),
                None => reply is None,
            },
    {
        match value {
            Some(body) => Some(ApiReply::ok(body)),
            None => None,
        }
    }

    /// 404 with the given detail.
    pub fn not_found(text: String) -> (reply: ApiReply)
        ensures
            reply@ == not_found_reply(text@),
    {
        ApiReply { status: 404, body: detail(text) }
    }

    /// 500 with the given detail.
    pub fn internal_error(text: String) -> (reply: ApiReply)
        ensures
            reply@ == error_reply(text@),
    {
        ApiReply { status: 500, body: detail(text) }
    }
}

} // verus!
