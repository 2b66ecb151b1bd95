//! Orchestration for a provider that takes one combined prompt.

use crate::config::Environment;
use crate::error::{answer_outcome, AppError, ErrorView};
use crate::models::prompt::{PromptsRequest, SystemRule};
use crate::text::{is_blank, join, joined, trim, trimmed};
use vstd::prelude::*;
use vstd::string::StringExecFns;

verus! {

/// The single prompt made of a system instruction and a user query: the
/// query alone when there is no instruction, and otherwise the instruction,
/// a blank line, the label `User: ` and the query.
pub open spec fn combined_prompt(system: Seq<char>, user: Seq<char>) -> Seq<char> {
    if system.len() == 0 {
        user
    } else {
        system + "\n\nUser: "@ + user
    }
}

/// Combines the two prompts into the one text that is sent.
pub fn combine_prompt(system: &str, user: &str) -> (prompt: String)
    ensures
        prompt@ == combined_prompt(system@, user@),
{
    if system.is_empty() {
        String::from_str(user)
    } else {
        let mut prompt = String::from_str(system);
        prompt.append("\n\nUser: ");
        prompt.append(user);
        prompt
    }
}

/// What is sent to the provider: the model to ask and the prompt.
#[derive(Debug, Clone, PartialEq, Eq)]
pub struct GeminiCall {
    pub model: String,
    pub prompt: String,
}

/// A `GeminiCall` with its fields as character sequences.
pub struct CallView {
    pub model: Seq<char>,
    pub prompt: Seq<char>,
}

impl View for GeminiCall {
    type V = CallView;

    open spec fn view(&self) -> CallView {
        CallView { model: self.model@, prompt: self.prompt@ }
    }
}

/// The prompt a request stands for: its two texts trimmed, then combined.
pub open spec fn request_prompt(request: PromptsRequest) -> Seq<char> {
    combined_prompt(trimmed(request.prompts.system@), trimmed(request.prompts.user@))
}

/// The call a request leads to under `rule`, or the error that stops it:
/// first its issues joined with a comma and a space, then a missing API key,
/// then a missing model name.
pub open spec fn planned_call(request: PromptsRequest, rule: SystemRule, env: Environment)
    -> Result<CallView, ErrorView> {
    let issues = request.issues_under(rule);
    if issues.len() > 0 {
        Err(ErrorView::Validation(joined(issues, ", "@)))
    } else if env.gemini_api_key is None {
        Err(ErrorView::Unauthorized)
    } else if env.gemini_model is None {
        Err(ErrorView::Validation("GEMINI_MODEL env var not set"@))
    } else {
        Ok(CallView { model: env.gemini_model->0@, prompt: request_prompt(request) })
    }
}

/// A call or an error, each by its view.
pub open spec fn call_outcome(outcome: Result<GeminiCall, AppError>) -> Result<
    CallView,
    ErrorView,
> {
    match outcome {
        Ok(call) => Ok(call@),
        Err(error) => Err(error@),
    }
}

/// Validates the request, resolves the configuration and builds the call.
pub fn prepare(request: &PromptsRequest, rule: SystemRule, env: &Environment) -> (outcome: Result<
    GeminiCall,
    AppError,
>)
    ensures
        call_outcome(outcome) == planned_call(*request, rule, *env),
{
    if let Err(issues) = request.validate_with(rule) {
        return Err(AppError::Validation(join(&issues, ", ")));
    }
    let system = trim(request.prompts.system.as_str());
    let user = trim(request.prompts.user.as_str());
    let prompt = combine_prompt(system, user);
    if env.gemini_api_key.is_none() {
        return Err(AppError::Unauthorized);
    }
    match &env.gemini_model {
        Some(model) => Ok(GeminiCall { model: model.clone(), prompt }),
        None => Err(AppError::Validation(String::from_str("GEMINI_MODEL env var not set"))),
    }
}

/// What a provider reply amounts to: its text, or its failure as an external
/// error.
pub open spec fn answer_of(reply: Result<String, String>) -> Result<Seq<char>, ErrorView> {
    match reply {
        Ok(text) => Ok(text@),
        Err(detail) => Err(ErrorView::External(detail@)),
    }
}

/// Hands the provider's text on unchanged, or wraps its failure.
pub fn conclude(reply: Result<String, String>) -> (outcome: Result<String, AppError>)
    ensures
        answer_outcome(outcome) == answer_of(reply),
{
    match reply {
        Ok(text) => Ok(text),
        Err(detail) => Err(AppError::External(detail)),
    }
}

/// Where the system prompt is optional, a request with a blank system prompt
/// and a user prompt that is not blank passes validation, and the prompt sent
/// is the trimmed user prompt alone: the user prompt itself when it has no
/// white space around it.
pub proof fn lemma_user_alone(request: PromptsRequest)
    requires
        is_blank(request.prompts.system@),
        !is_blank(request.prompts.user@),
    ensures
        request.issues_under(SystemRule::Optional).len() == 0,
        request_prompt(request) == trimmed(request.prompts.user@),
        trimmed(request.prompts.user@) == request.prompts.user@ ==> request_prompt(request)
            == request.prompts.user@,
{
    assert(trimmed(request.prompts.system@) =~= Seq::<char>::empty());
}

/// A request whose two prompts are both not blank passes validation under
/// either rule, and the prompt sent is the trimmed system prompt, a blank
/// line, `User: ` and the trimmed user prompt.
pub proof fn lemma_system_then_user(request: PromptsRequest, rule: SystemRule)
    requires
        !is_blank(request.prompts.system@),
        !is_blank(request.prompts.user@),
    ensures
        request.issues_under(rule).len() == 0,
        request_prompt(request) == trimmed(request.prompts.system@) + "\n\nUser: "@ + trimmed(
            request.prompts.user@,
        ),
{
}

} // verus!
