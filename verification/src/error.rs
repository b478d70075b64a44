//! The error that the workflows of this library return.

use vstd::prelude::*;

verus! {

/// Why a workflow could not complete.
#[derive(Debug, PartialEq, Eq)]
pub enum HolochainError {
    /// A failure described only by its message.
    ErrorGeneric(String),
    /// The request asks for something that is not supported.
    NotImplemented(String),
    /// The entry validator rejected the entry.
    ValidationFailed(String),
    /// A collaborator did not answer within the timeout.
    Timeout,
}

/// Mathematical model of a [`HolochainError`].
pub enum HolochainErrorView {
    ErrorGeneric(Seq<char>),
    NotImplemented(Seq<char>),
    ValidationFailed(Seq<char>),
    Timeout,
}

impl View for HolochainError {
    type V = HolochainErrorView;

    open spec fn view(&self) -> HolochainErrorView {
        match self {
            HolochainError::ErrorGeneric(message) => HolochainErrorView::ErrorGeneric(message@),
            HolochainError::NotImplemented(message) => HolochainErrorView::NotImplemented(message@),
            HolochainError::ValidationFailed(message) => HolochainErrorView::ValidationFailed(
                message@,
            ),
            HolochainError::Timeout => HolochainErrorView::Timeout,
        }
    }
}

impl Clone for HolochainError {
    fn clone(&self) -> (copy: Self)
        ensures
            copy@ == self@,
    {
        match self {
            HolochainError::ErrorGeneric(message) => HolochainError::ErrorGeneric(message.clone()),
            HolochainError::NotImplemented(message) => HolochainError::NotImplemented(
                message.clone(),
            ),
            HolochainError::ValidationFailed(message) => HolochainError::ValidationFailed(
                message.clone(),
            ),
            HolochainError::Timeout => HolochainError::Timeout,
        }
    }
}

impl HolochainError {
    /// A generic error with the given message.
    pub fn generic(message: &str) -> (error: HolochainError)
        ensures
            error@ == HolochainErrorView::ErrorGeneric(message@),
    {
        HolochainError::ErrorGeneric(message.to_owned())
    }

    /// The message that the error carries; a timeout carries a fixed one.
    pub fn message(&self) -> (text: &str)
        ensures
            text@ == self@.message(),
    {
        match self {
            HolochainError::ErrorGeneric(message) => message.as_str(),
            HolochainError::NotImplemented(message) => message.as_str(),
            HolochainError::ValidationFailed(message) => message.as_str(),
            HolochainError::Timeout => "timeout",
        }
    }
}

impl HolochainErrorView {
    /// The message that the error carries; a timeout carries a fixed one.
    pub open spec fn message(self) -> Seq<char> {
        match self {
            HolochainErrorView::ErrorGeneric(message) => message,
            HolochainErrorView::NotImplemented(message) => message,
            HolochainErrorView::ValidationFailed(message) => message,
            HolochainErrorView::Timeout => "timeout"@,
        }
    }
}

} // verus!
