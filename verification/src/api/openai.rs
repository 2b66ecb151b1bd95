//! The endpoint that forwards one message per role and reports validation
//! issues as a list.

use crate::clients::openai::{chat_messages, first_choice, ClientView, OpenAiClient};
use crate::config::Environment;
use crate::http::cors::{cors_reply, has_cors};
use crate::http::reply::reply_json;
use crate::http::request::{invalid_json_reply, screened};
use crate::http::response::{
    answered, json_reply, list_field, tagged, tagged_with_detail, tagged_with_issues, text_field,
    HttpResponse, ResponseView, Status,
};
use crate::models::prompt::PromptsRequest;
use crate::services::openai_chat::{ChatCallView, OpenAiCall};
use crate::text::{is_blank, trim, trimmed};
use vstd::prelude::*;
use vstd::string::StringExecFns;

verus! {

/// The reply to a request with issues: all of them, as a list.
pub open spec fn issues_reply(issues: Seq<Seq<char>>) -> ResponseView {
    cors_reply(
        json_reply(
            Status::BadRequest,
            seq![text_field("error"@, "Validation failed"@), list_field("issues"@, issues)],
        ),
    )
}

/// The reply to a setting that is missing; `tag` names it.
pub open spec fn missing_reply(tag: Seq<char>) -> ResponseView {
    cors_reply(json_reply(Status::InternalServerError, seq![text_field("error"@, tag)]))
}

/// The reply that carries an answer.
pub open spec fn answer_reply(answer: Seq<char>) -> ResponseView {
    cors_reply(json_reply(Status::Success, seq![text_field("answer"@, answer)]))
}

/// The reply to a provider failure; `detail` is its description.
pub open spec fn upstream_reply(detail: Seq<char>) -> ResponseView {
    cors_reply(
        json_reply(
            Status::BadGateway,
            seq![text_field("error"@, "Upstream OpenAI error"@), text_field("detail"@, detail)],
        ),
    )
}

/// The API key is set and not blank.
pub open spec fn has_key(env: Environment) -> bool {
    env.openai_key is Some && !is_blank(env.openai_key->0@)
}

/// What a parsed request leads to: the call to make, or the reply that ends
/// it. The checks run in this order: the request's issues, with the system
/// prompt required; the API key, which must not be blank; the base URL; the
/// model. The two prompts are sent trimmed.
pub open spec fn dispatched(request: PromptsRequest, env: Environment) -> Result<
    ChatCallView,
    ResponseView,
> {
    if request.issues().len() > 0 {
        Err(issues_reply(request.issues()))
    } else if !has_key(env) {
        Err(missing_reply("Missing OPENAI_KEY (or OPENAI_API_KEY)"@))
    } else if env.openai_base_url is None {
        Err(missing_reply("Missing OPENAI_BASE_URL"@))
    } else if env.openai_model is None {
        Err(missing_reply("Missing OPENAI_MODEL"@))
    } else {
        Ok(
            ChatCallView {
                client: ClientView {
                    api_key: env.openai_key->0@,
                    base_url: env.openai_base_url->0@,
                    model: env.openai_model->0@,
                },
                messages: chat_messages(
                    trimmed(request.prompts.system@),
                    trimmed(request.prompts.user@),
                ),
            },
        )
    }
}

/// A call or a reply, each by its view.
pub open spec fn dispatch_view(outcome: Result<OpenAiCall, HttpResponse>) -> Result<
    ChatCallView,
    ResponseView,
> {
    match outcome {
        Ok(call) => Ok(call@),
        Err(reply) => Err(reply@),
    }
}

/// Decides what to do with a parsed request: call the provider, or answer
/// at once.
pub fn dispatch(request: PromptsRequest, env: &Environment) -> (outcome: Result<
    OpenAiCall,
    HttpResponse,
>)
    ensures
        dispatch_view(outcome) == dispatched(request, *env),
{
    if let Err(issues) = request.validate() {
        let fields = tagged_with_issues("Validation failed", issues);
        return Err(reply_json(Status::BadRequest, fields));
    }
    let api_key = match &env.openai_key {
        Some(key) => {
            if trim(key.as_str()).is_empty() {
                return Err(missing("Missing OPENAI_KEY (or OPENAI_API_KEY)"));
            }
            key.clone()
        },
        None => {
            return Err(missing("Missing OPENAI_KEY (or OPENAI_API_KEY)"));
        },
    };
    let base_url = match &env.openai_base_url {
        Some(url) => url.clone(),
        None => {
            return Err(missing("Missing OPENAI_BASE_URL"));
        },
    };
    let model = match &env.openai_model {
        Some(model) => model.clone(),
        None => {
            return Err(missing("Missing OPENAI_MODEL"));
        },
    };
    let client = OpenAiClient { api_key, base_url, model };
    let system = String::from_str(trim(request.prompts.system.as_str()));
    let user = String::from_str(trim(request.prompts.user.as_str()));
    let messages = client.messages(system, user);
    Ok(OpenAiCall { client, messages })
}

/// Builds the reply to a missing setting.
fn missing(tag: &str) -> (reply: HttpResponse)
    ensures
        reply@ == missing_reply(tag@),
{
    reply_json(Status::InternalServerError, tagged(tag))
}

/// The reply to the caller once the provider has answered or failed: the
/// text of the first choice as it came, or the provider's failure.
pub open spec fn final_reply(reply: Result<Vec<Option<String>>, String>) -> ResponseView {
    match reply {
        Ok(choices) => answer_reply(first_choice(choices@)),
        Err(detail) => upstream_reply(detail@),
    }
}

/// Builds the reply to the caller from what the provider returned.
pub fn respond(reply: Result<Vec<Option<String>>, String>) -> (response: HttpResponse)
    ensures
        response@ == final_reply(reply),
{
    match reply {
        Ok(choices) => {
            let answer = if choices.len() > 0 {
                match &choices[0] {
                    Some(content) => content.clone(),
                    None => String::new(),
                }
            } else {
                String::new()
            };
            reply_json(Status::Success, answered(answer))
        },
        Err(detail) => reply_json(
            Status::BadGateway,
            tagged_with_detail("Upstream OpenAI error", detail),
        ),
    }
}

/// What the caller receives for a whole exchange, given what each step
/// outside the library came back with: the body as parsed, or the parser's
/// complaint, and the provider's reply. A step is consulted only where the
/// ones before it let the request through.
pub open spec fn exchange(
    method: Seq<char>,
    provided_key: Option<Seq<char>>,
    body_len: nat,
    parsed: Result<PromptsRequest, Seq<char>>,
    env: Environment,
    reply: Result<Vec<Option<String>>, String>,
) -> ResponseView {
    match screened(method, env.x_api_key.deep_view(), provided_key, body_len) {
        Some(early) => early,
        None => match parsed {
            Err(detail) => invalid_json_reply(detail),
            Ok(request) => match dispatched(request, env) {
                Err(early) => early,
                Ok(_) => final_reply(reply),
            },
        },
    }
}

/// However an exchange ends, the reply carries the cross-origin headers.
pub proof fn lemma_every_reply_has_cors(
    method: Seq<char>,
    provided_key: Option<Seq<char>>,
    body_len: nat,
    parsed: Result<PromptsRequest, Seq<char>>,
    env: Environment,
    reply: Result<Vec<Option<String>>, String>,
)
    ensures
        has_cors(exchange(method, provided_key, body_len, parsed, env, reply)),
{
}

} // verus!
