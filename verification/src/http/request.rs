//! What is decided about a request before its body is read as JSON.

use crate::config::Environment;
use crate::http::cors::{add_cors, cors_reply, has_cors};
use crate::http::reply::reply_json;
use crate::http::response::{
    json_reply, json_response, json_text, tagged, tagged_with_detail, text_field, Body, BodyView,
    HeaderName, HttpResponse, ResponseView, Status,
};
use crate::text::same_text;
use vstd::prelude::*;
use vstd::string::StringExecFns;

verus! {

/// The reply to a pre-flight request: no content, and nothing set but the
/// cross-origin headers.
pub open spec fn preflight_reply() -> ResponseView {
    cors_reply(
        ResponseView {
            status: Status::NoContent,
            headers: Map::<HeaderName, Seq<char>>::empty(),
            body: BodyView::Empty,
        },
    )
}

/// The reply to a method that is neither the pre-flight one nor `POST`.
pub open spec fn method_not_allowed_reply() -> ResponseView {
    let plain = json_reply(
        Status::MethodNotAllowed,
        seq![
            text_field(
                "error"@,
                "Use POST with JSON body { 'prompts': { 'system': '...', 'user': '...' } }"@,
            ),
        ],
    );
    cors_reply(
        ResponseView {
            status: plain.status,
            headers: plain.headers.insert(HeaderName::Allow, "POST,OPTIONS"@),
            body: plain.body,
        },
    )
}

/// The reply to a caller whose key is missing or wrong.
pub open spec fn unauthorized_reply() -> ResponseView {
    cors_reply(json_reply(Status::Unauthorized, seq![text_field("error"@, "Unauthorized"@)]))
}

/// The reply to a request without a body.
pub open spec fn empty_body_reply() -> ResponseView {
    cors_reply(json_reply(Status::BadRequest, seq![text_field("error"@, "Empty body"@)]))
}

/// The reply to a body that is not the JSON expected; `detail` is the
/// parser's description.
pub open spec fn invalid_json_reply(detail: Seq<char>) -> ResponseView {
    cors_reply(
        json_reply(
            Status::BadRequest,
            seq![text_field("error"@, "Invalid JSON"@), text_field("detail"@, detail)],
        ),
    )
}

/// The reply a request is turned away with, or `None` where it goes on to be
/// parsed. The checks run in this order: pre-flight, method, key, body. The
/// key is checked only where one is configured, and must then match exactly.
pub open spec fn screened(
    method: Seq<char>,
    expected_key: Option<Seq<char>>,
    provided_key: Option<Seq<char>>,
    body_len: nat,
) -> Option<ResponseView> {
    if method == "OPTIONS"@ {
        Some(preflight_reply())
    } else if method != "POST"@ {
        Some(method_not_allowed_reply())
    } else if expected_key is Some && provided_key != expected_key {
        Some(unauthorized_reply())
    } else if body_len == 0 {
        Some(empty_body_reply())
    } else {
        None
    }
}

/// A reply, if there is one, by its view.
pub open spec fn reply_view(reply: Option<HttpResponse>) -> Option<ResponseView> {
    match reply {
        Some(response) => Some(response@),
        None => None,
    }
}

/// Whether the caller's key is the configured one.
fn key_matches(expected: &String, provided: &Option<String>) -> (matches: bool)
    ensures
        matches == (provided.deep_view() == Some(expected@)),
{
    match provided {
        Some(key) => same_text(key.as_str(), expected.as_str()),
        None => false,
    }
}

/// Decides from the method, the caller's key and the body whether the
/// request is answered at once, and with what.
pub fn screen(method: &str, env: &Environment, provided_key: &Option<String>, body: &[u8]) -> (reply:
    Option<HttpResponse>)
    ensures
        reply_view(reply) == screened(
            method@,
            env.x_api_key.deep_view(),
            provided_key.deep_view(),
            body@.len(),
        ),
{
    if same_text(method, "OPTIONS") {
        let empty = HttpResponse {
            status: Status::NoContent,
            headers: Vec::new(),
            body: Body::Empty,
        };
        return Some(add_cors(empty));
    }
    if !same_text(method, "POST") {
        let mut plain = json_response(
            Status::MethodNotAllowed,
            tagged("Use POST with JSON body { 'prompts': { 'system': '...', 'user': '...' } }"),
        );
        plain.set_header(HeaderName::Allow, String::from_str("POST,OPTIONS"));
        return Some(add_cors(plain));
    }
    if let Some(expected) = &env.x_api_key {
        if !key_matches(expected, provided_key) {
            return Some(reply_json(Status::Unauthorized, tagged("Unauthorized")));
        }
    }
    if body.len() == 0 {
        return Some(reply_json(Status::BadRequest, tagged("Empty body")));
    }
    None
}

/// The reply to a body that could not be parsed; `detail` is the parser's
/// description of what is wrong.
pub fn invalid_json(detail: String) -> (reply: HttpResponse)
    ensures
        reply@ == invalid_json_reply(detail@),
{
    reply_json(Status::BadRequest, tagged_with_detail("Invalid JSON", detail))
}

/// Where no key is configured, the caller's key plays no part: whatever is
/// provided, or nothing, the decision is the one made without it.
pub proof fn lemma_no_key_configured(
    method: Seq<char>,
    provided_key: Option<Seq<char>>,
    body_len: nat,
)
    ensures
        screened(method, None, provided_key, body_len) == screened(method, None, None, body_len),
        screened(method, None, provided_key, body_len) != Some(unauthorized_reply()),
        method == "POST"@ && body_len > 0 ==> screened(method, None, provided_key, body_len) is None,
{
    lemma_post_is_not_preflight();
    let reply = screened(method, None, provided_key, body_len);
    if reply is Some {
        assert(reply->0.status != Status::Unauthorized);
    }
}

/// A `POST` that passes the key check and has no body is answered with a bad
/// request whose error tag is `Empty body`.
pub proof fn lemma_empty_body_rejected(
    expected_key: Option<Seq<char>>,
    provided_key: Option<Seq<char>>,
)
    requires
        expected_key is Some ==> provided_key == expected_key,
    ensures
        screened("POST"@, expected_key, provided_key, 0) == Some(empty_body_reply()),
        empty_body_reply().status == Status::BadRequest,
        empty_body_reply().body == BodyView::Text(
            json_text(seq![text_field("error"@, "Empty body"@)]),
        ),
{
    lemma_post_is_not_preflight();
}

/// `POST` is not the pre-flight method.
proof fn lemma_post_is_not_preflight()
    ensures
        "POST"@ != "OPTIONS"@,
{
    reveal_strlit("POST");
    reveal_strlit("OPTIONS");
    assert("POST"@.len() != "OPTIONS"@.len());
}

/// Every reply a request is turned away with before it reaches an endpoint
/// carries the cross-origin headers.
pub proof fn lemma_early_replies_have_cors(
    method: Seq<char>,
    expected_key: Option<Seq<char>>,
    provided_key: Option<Seq<char>>,
    body_len: nat,
    detail: Seq<char>,
)
    ensures
        screened(method, expected_key, provided_key, body_len) matches Some(reply) ==> has_cors(
            reply,
        ),
        has_cors(invalid_json_reply(detail)),
{
}

} // verus!
