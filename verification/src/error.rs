//! The closed set of failures a request can end in.

use vstd::prelude::*;
use vstd::string::StringExecFns;

verus! {

/// Why a request could not be answered.
#[derive(Debug, Clone, PartialEq, Eq)]
pub enum AppError {
    /// The caller's input was rejected; the detail lists the issues.
    Validation(String),
    /// A required credential is missing or wrong.
    Unauthorized,
    /// The model provider failed; the detail is its description.
    External(String),
    /// An unexpected local failure; the detail is its description.
    Other(String),
}

/// An `AppError` with its detail as a sequence of characters.
pub enum ErrorView {
    Validation(Seq<char>),
    Unauthorized,
    External(Seq<char>),
    Other(Seq<char>),
}

impl View for AppError {
    type V = ErrorView;

    open spec fn view(&self) -> ErrorView {
        match self {
            AppError::Validation(detail) => ErrorView::Validation(detail@),
            AppError::Unauthorized => ErrorView::Unauthorized,
            AppError::External(detail) => ErrorView::External(detail@),
            AppError::Other(detail) => ErrorView::Other(detail@),
        }
    }
}

impl ErrorView {
    /// The one-line text of the error.
    pub open spec fn message(self) -> Seq<char> {
        match self {
            ErrorView::Validation(detail) => "Validation failed: "@ + detail,
            ErrorView::Unauthorized => "Unauthorized"@,
            ErrorView::External(detail) => "External API error: "@ + detail,
            ErrorView::Other(detail) => detail,
        }
    }
}

impl AppError {
    /// The one-line text of the error, for logs and plain-text replies.
    pub fn message(&self) -> (text: String)
        ensures
            text@ == self@.message(),
    {
        match self {
            AppError::Validation(detail) => {
                let mut text = String::from_str("Validation failed: ");
                text.append(detail.as_str());
                text
            },
            AppError::Unauthorized => String::from_str("Unauthorized"),
            AppError::External(detail) => {
                let mut text = String::from_str("External API error: ");
                text.append(detail.as_str());
                text
            },
            AppError::Other(detail) => detail.clone(),
        }
    }
}

/// An answer or an error, each by its view.
pub open spec fn answer_outcome(outcome: Result<String, AppError>) -> Result<
    Seq<char>,
    ErrorView,
> {
    match outcome {
        Ok(text) => Ok(text@),
        Err(error) => Err(error@),
    }
}

} // verus!
