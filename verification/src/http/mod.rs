//! The HTTP side of a request: what is let in, and what is sent back.

pub mod cors;
pub mod reply;
pub mod request;
pub mod response;
