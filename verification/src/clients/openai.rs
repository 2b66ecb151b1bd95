//! Credentials, messages and reply handling for an OpenAI-compatible
//! chat-completion endpoint.

use crate::config::Environment;
use crate::error::{answer_outcome, AppError, ErrorView};
use vstd::prelude::*;
use vstd::string::StringExecFns;

verus! {

/// The credentials and the model a completion is asked of.
#[derive(Debug, Clone, PartialEq, Eq)]
pub struct OpenAiClient {
    pub api_key: String,
    pub base_url: String,
    pub model: String,
}

/// An `OpenAiClient` with its fields as character sequences.
pub struct ClientView {
    pub api_key: Seq<char>,
    pub base_url: Seq<char>,
    pub model: Seq<char>,
}

impl View for OpenAiClient {
    type V = ClientView;

    open spec fn view(&self) -> ClientView {
        ClientView { api_key: self.api_key@, base_url: self.base_url@, model: self.model@ }
    }
}

/// Who a chat message speaks as.
#[derive(Debug, Clone, Copy, PartialEq, Eq, Structural)]
pub enum Role {
    System,
    User,
}

/// One message of a chat-completion request.
#[derive(Debug, Clone, PartialEq, Eq)]
pub struct ChatMessage {
    pub role: Role,
    pub content: String,
}

/// A `ChatMessage` with its content as a character sequence.
pub struct MessageView {
    pub role: Role,
    pub content: Seq<char>,
}

impl View for ChatMessage {
    type V = MessageView;

    open spec fn view(&self) -> MessageView {
        MessageView { role: self.role, content: self.content@ }
    }
}

/// The messages of `messages`, each by its view.
pub open spec fn message_views(messages: Seq<ChatMessage>) -> Seq<MessageView> {
    Seq::new(messages.len(), |i: int| messages[i]@)
}

/// The two messages sent for a system and a user prompt, in that order.
pub open spec fn chat_messages(system: Seq<char>, user: Seq<char>) -> Seq<MessageView> {
    seq![
        MessageView { role: Role::System, content: system },
        MessageView { role: Role::User, content: user },
    ]
}

/// The key found in the environment: `OPENAI_KEY`, or `OPENAI_API_KEY` when
/// the first is absent.
pub open spec fn configured_key(env: Environment) -> Option<String> {
    if env.openai_key is Some {
        env.openai_key
    } else {
        env.openai_api_key
    }
}

/// The client the environment describes, or the first setting it lacks: a
/// missing key or base URL is an external error, a missing model name a
/// validation error.
pub open spec fn client_from(env: Environment) -> Result<ClientView, ErrorView> {
    if configured_key(env) is None {
        Err(ErrorView::External("Missing OPENAI_KEY"@))
    } else if env.openai_base_url is None {
        Err(ErrorView::External("Missing OPENAI_BASE_URL"@))
    } else if env.openai_model is None {
        Err(ErrorView::Validation("Missing OPENAI_MODEL"@))
    } else {
        Ok(
            ClientView {
                api_key: configured_key(env)->0@,
                base_url: env.openai_base_url->0@,
                model: env.openai_model->0@,
            },
        )
    }
}

/// A client or an error, each by its view.
pub open spec fn client_outcome(outcome: Result<OpenAiClient, AppError>) -> Result<
    ClientView,
    ErrorView,
> {
    match outcome {
        Ok(client) => Ok(client@),
        Err(error) => Err(error@),
    }
}

/// The text of the first choice: its content, or nothing when there is no
/// choice or the first one carries no content.
pub open spec fn first_choice(choices: Seq<Option<String>>) -> Seq<char> {
    if choices.len() > 0 && choices[0] is Some {
        choices[0]->0@
    } else {
        Seq::empty()
    }
}

/// What a provider reply amounts to: the first choice's text, or the
/// provider's failure as an external error.
pub open spec fn completion_of(reply: Result<Vec<Option<String>>, String>) -> Result<
    Seq<char>,
    ErrorView,
> {
    match reply {
        Ok(choices) => Ok(first_choice(choices@)),
        Err(detail) => Err(ErrorView::External(detail@)),
    }
}

impl OpenAiClient {
    /// Builds the client from the environment; a missing setting is an error
    /// that names it.
    pub fn from_env(env: &Environment) -> (outcome: Result<OpenAiClient, AppError>)
        ensures
            client_outcome(outcome) == client_from(*env),
    {
        let api_key = match &env.openai_key {
            Some(key) => key.clone(),
            None => match &env.openai_api_key {
                Some(key) => key.clone(),
                None => {
                    return Err(AppError::External(String::from_str("Missing OPENAI_KEY")));
                },
            },
        };
        let base_url = match &env.openai_base_url {
            Some(url) => url.clone(),
            None => {
                return Err(AppError::External(String::from_str("Missing OPENAI_BASE_URL")));
            },
        };
        let model = match &env.openai_model {
            Some(model) => model.clone(),
            None => {
                return Err(AppError::Validation(String::from_str("Missing OPENAI_MODEL")));
            },
        };
        Ok(OpenAiClient { api_key, base_url, model })
    }

    /// The messages to send for the two prompts: one with the system role,
    /// then one with the user role, each with its text unchanged.
    pub fn messages(&self, system: String, user: String) -> (messages: Vec<ChatMessage>)
        ensures
            message_views(messages@) == chat_messages(system@, user@),
    {
        let mut messages: Vec<ChatMessage> = Vec::new();
        messages.push(ChatMessage { role: Role::System, content: system });
        messages.push(ChatMessage { role: Role::User, content: user });
        assert(message_views(messages@) =~= chat_messages(system@, user@));
        messages
    }

    /// Reads the provider's reply: the contents of its choices in order, or
    /// the description of its failure.
    pub fn complete(&self, reply: Result<Vec<Option<String>>, String>) -> (outcome: Result<
        String,
        AppError,
    >)
        ensures
            answer_outcome(outcome) == completion_of(reply),
    {
        match reply {
            Ok(choices) => {
                if choices.len() > 0 {
                    match &choices[0] {
                        Some(content) => Ok(content.clone()),
                        None => Ok(String::new()),
                    }
                } else {
                    Ok(String::new())
                }
            },
            Err(detail) => Err(AppError::External(detail)),
        }
    }
}

} // verus!
