use my_vercel_api::clients::openai::{ChatMessage, OpenAiClient, Role};
use my_vercel_api::config::Environment;
use my_vercel_api::error::AppError;
use my_vercel_api::models::prompt::{PromptItem, PromptsRequest, SystemRule};
use my_vercel_api::services::gemini_chat::{combine_prompt, conclude, prepare, GeminiCall};
use my_vercel_api::services::openai_chat::{
    conclude as conclude_chat, prepare as prepare_chat, OpenAiCall,
};

fn request(system: &str, user: &str) -> PromptsRequest {
    PromptsRequest { prompts: PromptItem { system: system.to_string(), user: user.to_string() } }
}

fn gemini_env() -> Environment {
    Environment {
        gemini_api_key: Some("g-key".to_string()),
        gemini_model: Some("gemini-test".to_string()),
        ..Environment::default()
    }
}

fn openai_env() -> Environment {
    Environment {
        openai_key: Some("sk".to_string()),
        openai_base_url: Some("https://models.example".to_string()),
        openai_model: Some("gpt-test".to_string()),
        ..Environment::default()
    }
}

#[test]
fn combined_prompt_without_system_is_the_user_prompt() {
    assert_eq!(combine_prompt("", "what is rust?"), "what is rust?");
    assert_eq!(combine_prompt("", " spaced\n"), " spaced\n");
}

#[test]
fn combined_prompt_with_system_uses_the_fixed_join() {
    assert_eq!(combine_prompt("be brief", "what is rust?"), "be brief\n\nUser: what is rust?");
}

#[test]
fn combined_prompt_treats_a_blank_system_as_present() {
    assert_eq!(combine_prompt(" ", "q"), " \n\nUser: q");
}

#[test]
fn prepare_builds_the_call_from_trimmed_prompts() {
    assert_eq!(
        prepare(&request("  be brief ", "\nhi there\n"), SystemRule::Required, &gemini_env()),
        Ok(GeminiCall {
            model: "gemini-test".to_string(),
            prompt: "be brief\n\nUser: hi there".to_string(),
        })
    );
}

#[test]
fn prepare_with_optional_system_sends_the_user_prompt_alone() {
    assert_eq!(
        prepare(&request("", "hi there"), SystemRule::Optional, &gemini_env()),
        Ok(GeminiCall { model: "gemini-test".to_string(), prompt: "hi there".to_string() })
    );
    assert_eq!(
        prepare(&request(" \t", "  hi  "), SystemRule::Optional, &gemini_env()),
        Ok(GeminiCall { model: "gemini-test".to_string(), prompt: "hi".to_string() })
    );
}

#[test]
fn prepare_joins_the_issues_with_comma_and_space() {
    assert_eq!(
        prepare(&request("", ""), SystemRule::Required, &gemini_env()),
        Err(AppError::Validation("prompts.system is empty, prompts.user is empty".to_string()))
    );
    assert_eq!(
        prepare(&request("s", " "), SystemRule::Required, &gemini_env()),
        Err(AppError::Validation("prompts.user is empty".to_string()))
    );
}

#[test]
fn prepare_without_api_key_is_unauthorized() {
    let env = Environment { gemini_api_key: None, ..gemini_env() };
    assert_eq!(prepare(&request("s", "u"), SystemRule::Required, &env), Err(AppError::Unauthorized));
}

#[test]
fn prepare_without_model_is_a_validation_error() {
    let env = Environment { gemini_model: None, ..gemini_env() };
    assert_eq!(
        prepare(&request("s", "u"), SystemRule::Required, &env),
        Err(AppError::Validation("GEMINI_MODEL env var not set".to_string()))
    );
}

#[test]
fn prepare_checks_the_request_before_the_configuration() {
    assert_eq!(
        prepare(&request("s", ""), SystemRule::Required, &Environment::default()),
        Err(AppError::Validation("prompts.user is empty".to_string()))
    );
    assert_eq!(
        prepare(&request("s", "u"), SystemRule::Required, &Environment::default()),
        Err(AppError::Unauthorized)
    );
}

#[test]
fn conclude_hands_the_text_on_unchanged() {
    assert_eq!(conclude(Ok("line\nline".to_string())), Ok("line\nline".to_string()));
}

#[test]
fn conclude_wraps_a_provider_failure() {
    assert_eq!(
        conclude(Err("http: timed out".to_string())),
        Err(AppError::External("http: timed out".to_string()))
    );
}

#[test]
fn chat_prepare_sends_the_prompts_trimmed() {
    assert_eq!(
        prepare_chat(request(" sys ", "\tuser\n"), SystemRule::Required, &openai_env()),
        Ok(OpenAiCall {
            client: OpenAiClient {
                api_key: "sk".to_string(),
                base_url: "https://models.example".to_string(),
                model: "gpt-test".to_string(),
            },
            messages: vec![
                ChatMessage { role: Role::System, content: "sys".to_string() },
                ChatMessage { role: Role::User, content: "user".to_string() },
            ],
        })
    );
}

#[test]
fn chat_prepare_rejects_an_invalid_request_first() {
    assert_eq!(
        prepare_chat(request(" ", "u"), SystemRule::Required, &Environment::default()),
        Err(AppError::Validation("prompts.system is empty".to_string()))
    );
}

#[test]
fn chat_prepare_reports_missing_configuration() {
    assert_eq!(
        prepare_chat(request("s", "u"), SystemRule::Required, &Environment::default()),
        Err(AppError::External("Missing OPENAI_KEY".to_string()))
    );
}

#[test]
fn chat_prepare_keeps_white_space_inside_the_prompts() {
    let call = prepare_chat(request(" a  b ", " c\nd "), SystemRule::Required, &openai_env());
    assert_eq!(
        call.unwrap().messages,
        vec![
            ChatMessage { role: Role::System, content: "a  b".to_string() },
            ChatMessage { role: Role::User, content: "c\nd".to_string() },
        ]
    );
}

#[test]
fn chat_prepare_with_optional_system_sends_an_empty_system_message() {
    let call = prepare_chat(request("  ", "hi"), SystemRule::Optional, &openai_env());
    assert_eq!(
        call.unwrap().messages,
        vec![
            ChatMessage { role: Role::System, content: String::new() },
            ChatMessage { role: Role::User, content: "hi".to_string() },
        ]
    );
}

#[test]
fn chat_prepare_without_model_is_a_validation_error() {
    let env = Environment { openai_model: None, ..openai_env() };
    assert_eq!(
        prepare_chat(request("s", "u"), SystemRule::Required, &env),
        Err(AppError::Validation("Missing OPENAI_MODEL".to_string()))
    );
}

#[test]
fn chat_prepare_without_base_url_is_an_external_error() {
    let env = Environment { openai_base_url: None, ..openai_env() };
    assert_eq!(
        prepare_chat(request("s", "u"), SystemRule::Required, &env),
        Err(AppError::External("Missing OPENAI_BASE_URL".to_string()))
    );
}

#[test]
fn chat_conclude_reads_the_first_choice() {
    let call = prepare_chat(request("s", "u"), SystemRule::Required, &openai_env()).unwrap();
    assert_eq!(conclude_chat(&call, Ok(vec![Some("hello".to_string())])), Ok("hello".to_string()));
    assert_eq!(conclude_chat(&call, Ok(vec![])), Ok(String::new()));
    assert_eq!(
        conclude_chat(&call, Err("bad gateway".to_string())),
        Err(AppError::External("bad gateway".to_string()))
    );
}
