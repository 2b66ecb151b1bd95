//! The shapes a request body can take.

pub mod prompt;
