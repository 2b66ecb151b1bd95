//! Request validation, error normalisation and response shaping for a small
//! prompt-forwarding HTTP service.
//!
//! Every function here is a pure decision on plain values: the caller reads the
//! environment, parses the body and talks to the model provider, and hands each
//! result to the next step.

pub mod api;
pub mod clients;
pub mod config;
pub mod error;
pub mod http;
pub mod models;
pub mod services;
pub mod text;

pub use error::AppError;
