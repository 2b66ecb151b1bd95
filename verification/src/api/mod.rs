//! What each endpoint decides once a request body has been parsed.

pub mod gemini;
pub mod openai;
