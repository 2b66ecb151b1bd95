//! The settings a request is answered under, read once by the caller.

use vstd::prelude::*;

verus! {

/// One reading of the process configuration. A setting that is not present
/// is `None`; nothing here is looked up again later.
#[derive(Debug, Clone, Default, PartialEq, Eq)]
pub struct Environment {
    /// `X_API_KEY`: the secret callers must present, if any.
    pub x_api_key: Option<String>,
    /// `GEMINI_API_KEY`.
    pub gemini_api_key: Option<String>,
    /// `GEMINI_MODEL`.
    pub gemini_model: Option<String>,
    /// `OPENAI_KEY`.
    pub openai_key: Option<String>,
    /// `OPENAI_API_KEY`, consulted when `OPENAI_KEY` is absent.
    pub openai_api_key: Option<String>,
    /// `OPENAI_BASE_URL`.
    pub openai_base_url: Option<String>,
    /// `OPENAI_MODEL`.
    pub openai_model: Option<String>,
}

} // verus!
