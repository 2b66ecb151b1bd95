//! Orchestration for a provider that takes one message per role.

use crate::clients::openai::{
    chat_messages, client_from, completion_of, message_views, ChatMessage,
    ClientView, MessageView, OpenAiClient,
};
use crate::config::Environment;
use crate::error::{answer_outcome, AppError, ErrorView};
use crate::models::prompt::{PromptsRequest, SystemRule};
use crate::text::{join, joined, trim, trimmed};
use vstd::prelude::*;
use vstd::string::StringExecFns;

verus! {

/// What is sent to the provider: the client to send with and the messages.
#[derive(Debug, Clone, PartialEq, Eq)]
pub struct OpenAiCall {
    pub client: OpenAiClient,
    pub messages: Vec<ChatMessage>,
}

/// An `OpenAiCall` by the views of its parts.
pub struct ChatCallView {
    pub client: ClientView,
    pub messages: Seq<MessageView>,
}

impl View for OpenAiCall {
    type V = ChatCallView;

    open spec fn view(&self) -> ChatCallView {
        ChatCallView { client: self.client@, messages: message_views(self.messages@) }
    }
}

/// The call a request leads to under `rule`, or the error that stops it:
/// first its issues joined with a comma and a space, then the first setting
/// the environment lacks. The two prompts are sent trimmed.
pub open spec fn planned_call(request: PromptsRequest, rule: SystemRule, env: Environment)
    -> Result<ChatCallView, ErrorView> {
    let issues = request.issues_under(rule);
    if issues.len() > 0 {
        Err(ErrorView::Validation(joined(issues, ", "@)))
    } else {
        match client_from(env) {
            Ok(client) => Ok(
                ChatCallView {
                    client,
                    messages: chat_messages(
                        trimmed(request.prompts.system@),
                        trimmed(request.prompts.user@),
                    ),
                },
            ),
            Err(error) => Err(error),
        }
    }
}

/// A call or an error, each by its view.
pub open spec fn call_outcome(outcome: Result<OpenAiCall, AppError>) -> Result<
    ChatCallView,
    ErrorView,
> {
    match outcome {
        Ok(call) => Ok(call@),
        Err(error) => Err(error@),
    }
}

/// Validates the request, resolves the client and builds the messages.
pub fn prepare(request: PromptsRequest, rule: SystemRule, env: &Environment) -> (outcome: Result<
    OpenAiCall,
    AppError,
>)
    ensures
        call_outcome(outcome) == planned_call(request, rule, *env),
{
    if let Err(issues) = request.validate_with(rule) {
        return Err(AppError::Validation(join(&issues, ", ")));
    }
    let client = match OpenAiClient::from_env(env) {
        Ok(client) => client,
        Err(error) => {
            return Err(error);
        },
    };
    let system = String::from_str(trim(request.prompts.system.as_str()));
    let user = String::from_str(trim(request.prompts.user.as_str()));
    let messages = client.messages(system, user);
    Ok(OpenAiCall { client, messages })
}

/// Reads the provider's reply: the first choice's text, or its failure as an
/// external error.
pub fn conclude(call: &OpenAiCall, reply: Result<Vec<Option<String>>, String>) -> (outcome: Result<
    String,
    AppError,
>)
    ensures
        answer_outcome(outcome) == completion_of(reply),
{
    call.client.complete(reply)
}

} // verus!
