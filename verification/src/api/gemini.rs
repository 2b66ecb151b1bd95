//! The endpoint that forwards one combined prompt and strips line feeds from
//! the answer.

use crate::config::Environment;
use crate::http::cors::{cors_reply, has_cors};
use crate::http::reply::{error_reply, reply_error, reply_json};
use crate::http::request::{invalid_json_reply, screened};
use crate::http::response::{
    answered, json_reply, text_field, HttpResponse, ResponseView, Status,
};
use crate::models::prompt::{PromptsRequest, SystemRule};
use crate::services::gemini_chat::{
    answer_of, conclude, lemma_user_alone, planned_call, prepare, CallView, GeminiCall,
};
use crate::text::{
    is_blank, lemma_without_newlines, strip_newlines, trimmed, without_newlines,
};
use vstd::prelude::*;

verus! {

/// The reply that carries an answer.
pub open spec fn answer_reply(answer: Seq<char>) -> ResponseView {
    cors_reply(json_reply(Status::Success, seq![text_field("answer"@, answer)]))
}

/// What a parsed request leads to: the call to make, or the reply to the
/// error that stops it. The system prompt is optional: where it is blank,
/// the user prompt is sent alone.
pub open spec fn dispatched(request: PromptsRequest, env: Environment) -> Result<
    CallView,
    ResponseView,
> {
    match planned_call(request, SystemRule::Optional, env) {
        Ok(call) => Ok(call),
        Err(error) => Err(error_reply(error)),
    }
}

/// A call or a reply, each by its view.
pub open spec fn dispatch_view(outcome: Result<GeminiCall, HttpResponse>) -> Result<
    CallView,
    ResponseView,
> {
    match outcome {
        Ok(call) => Ok(call@),
        Err(reply) => Err(reply@),
    }
}

/// Decides what to do with a parsed request: call the provider, or answer
/// with an error.
pub fn dispatch(request: &PromptsRequest, env: &Environment) -> (outcome: Result<
    GeminiCall,
    HttpResponse,
>)
    ensures
        dispatch_view(outcome) == dispatched(*request, *env),
{
    match prepare(request, SystemRule::Optional, env) {
        Ok(call) => Ok(call),
        Err(error) => Err(reply_error(&error)),
    }
}

/// The reply to the caller once the provider has answered or failed: the
/// answer with its line feeds removed, or the error reply.
pub open spec fn final_reply(reply: Result<String, String>) -> ResponseView {
    match answer_of(reply) {
        Ok(answer) => answer_reply(without_newlines(answer)),
        Err(error) => error_reply(error),
    }
}

/// Builds the reply to the caller from what the provider returned.
pub fn respond(reply: Result<String, String>) -> (response: HttpResponse)
    ensures
        response@ == final_reply(reply),
{
    match conclude(reply) {
        Ok(answer) => {
            reply_json(Status::Success, answered(strip_newlines(answer.as_str())))
        },
        Err(error) => reply_error(&error),
    }
}

/// A request with a blank system prompt and a user prompt that is not blank
/// is let through wherever the key and the model are set, and what is sent
/// is the trimmed user prompt alone.
pub proof fn lemma_blank_system_is_left_out(request: PromptsRequest, env: Environment)
    requires
        is_blank(request.prompts.system@),
        !is_blank(request.prompts.user@),
        env.gemini_api_key is Some,
        env.gemini_model is Some,
    ensures
        dispatched(request, env) == Ok::<CallView, ResponseView>(
            CallView { model: env.gemini_model->0@, prompt: trimmed(request.prompts.user@) },
        ),
{
    lemma_user_alone(request);
}

/// Whatever text the provider returns, the answer sent back is that text
/// with every line feed removed and nothing else changed, under status 200.
pub proof fn lemma_answer_has_no_newline(text: String)
    ensures
        final_reply(Ok(text)) == answer_reply(without_newlines(text@)),
        final_reply(Ok(text)).status == Status::Success,
        forall|i: int|
            0 <= i < without_newlines(text@).len() ==> without_newlines(text@)[i] != '\n',
        (forall|i: int| 0 <= i < text@.len() ==> text@[i] != '\n') ==> without_newlines(text@)
            == text@,
{
    lemma_without_newlines(text@);
}

/// What the caller receives for a whole exchange, given what each step
/// outside the library came back with: the body as parsed, or the parser's
/// complaint, and the provider's reply. A step is consulted only where the
/// ones before it let the request through.
pub open spec fn exchange(
    method: Seq<char>,
    provided_key: Option<Seq<char>>,
    body_len: nat,
    parsed: Result<PromptsRequest, Seq<char>>,
    env: Environment,
    reply: Result<String, String>,
) -> ResponseView {
    match screened(method, env.x_api_key.deep_view(), provided_key, body_len) {
        Some(early) => early,
        None => match parsed {
            Err(detail) => invalid_json_reply(detail),
            Ok(request) => match dispatched(request, env) {
                Err(early) => early,
                Ok(_) => final_reply(reply),
            },
        },
    }
}

/// However an exchange ends, the reply carries the cross-origin headers.
pub proof fn lemma_every_reply_has_cors(
    method: Seq<char>,
    provided_key: Option<Seq<char>>,
    body_len: nat,
    parsed: Result<PromptsRequest, Seq<char>>,
    env: Environment,
    reply: Result<String, String>,
)
    ensures
        has_cors(exchange(method, provided_key, body_len, parsed, env, reply)),
{
}

} // verus!
