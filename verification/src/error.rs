//! The error values that the core stores in state or hands to a workflow.

use vstd::prelude::*;

verus! {

/// A failure, as a value. Reducers never fail: they store one of these.
#[derive(Debug, PartialEq, Eq, Hash)]
pub enum HolochainError {
    /// Anything without a kind of its own, with its reason.
    ErrorGeneric(String),
    /// The application's validation rules rejected an entry.
    ValidationFailed(String),
    /// A pending request was given up.
    Timeout,
    /// A configuration was inconsistent.
    ConfigError(String),
    /// Content could not be decoded.
    SerializationError(String),
}

/// The mathematical value of a `HolochainError`.
pub enum ErrorView {
    Generic(Seq<char>),
    ValidationFailed(Seq<char>),
    Timeout,
    Config(Seq<char>),
    Serialization(Seq<char>),
}

impl View for HolochainError {
    type V = ErrorView;

    open spec fn view(&self) -> ErrorView {
        match self {
            HolochainError::ErrorGeneric(reason) => ErrorView::Generic(reason@),
            HolochainError::ValidationFailed(reason) => ErrorView::ValidationFailed(reason@),
            HolochainError::Timeout => ErrorView::Timeout,
            HolochainError::ConfigError(reason) => ErrorView::Config(reason@),
            HolochainError::SerializationError(reason) => ErrorView::Serialization(reason@),
        }
    }
}

impl Clone for HolochainError {
    fn clone(&self) -> (copy: Self)
        ensures
            copy == *self,
    {
        match self {
            HolochainError::ErrorGeneric(reason) => HolochainError::ErrorGeneric(reason.clone()),
            HolochainError::ValidationFailed(reason) => HolochainError::ValidationFailed(
                reason.clone(),
            ),
            HolochainError::Timeout => HolochainError::Timeout,
            HolochainError::ConfigError(reason) => HolochainError::ConfigError(reason.clone()),
            HolochainError::SerializationError(reason) => HolochainError::SerializationError(
                reason.clone(),
            ),
        }
    }
}

impl HolochainError {
    /// A generic error with the given reason.
    pub fn new(reason: &str) -> (error: HolochainError)
        ensures
            error@ == ErrorView::Generic(reason@),
    {
        HolochainError::ErrorGeneric(String::from_str(reason))
    }

    /// Whether two errors are of the same kind and carry the same reason.
    pub fn same(&self, other: &HolochainError) -> (equal: bool)
        ensures
            equal == (self@ == other@),
    {
        match self {
            HolochainError::ErrorGeneric(a) => match other {
                HolochainError::ErrorGeneric(b) => *a == *b,
                _ => false,
            },
            HolochainError::ValidationFailed(a) => match other {
                HolochainError::ValidationFailed(b) => *a == *b,
                _ => false,
            },
            HolochainError::Timeout => match other {
                HolochainError::Timeout => true,
                _ => false,
            },
            HolochainError::ConfigError(a) => match other {
                HolochainError::ConfigError(b) => *a == *b,
                _ => false,
            },
            HolochainError::SerializationError(a) => match other {
                HolochainError::SerializationError(b) => *a == *b,
                _ => false,
            },
        }
    }
}

/// The result type of everything that can fail.
pub type HcResult<T> = Result<T, HolochainError>;

} // verus!
