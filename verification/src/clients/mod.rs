//! What is needed to reach a model provider, held as plain values.

pub mod openai;
