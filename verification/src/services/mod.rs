//! Turning a validated request into a provider call, and the provider's
//! reply into an answer.

pub mod gemini_chat;
pub mod openai_chat;
