//! Errors that the library reports to its callers.

use vstd::prelude::*;

verus! {

/// Failures of a synchronisation run, each with a human-readable message.
#[derive(Debug, Clone, PartialEq, Eq)]
pub enum AppError {
    /// The source or target environment is missing or misconfigured.
    Config(String),
    /// The backend refused a request, or a step of the pipeline failed.
    ApiError(String),
    /// The named environment is not in the configuration.
    EnvNotFound(String),
    /// An argument could not be understood.
    InvalidArgs(String),
    /// A version marker is not of the form `project#number`.
    InvalidRevisionVersion(String),
}

} // verus!
