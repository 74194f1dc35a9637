//! Error taxonomy of the analysis core.
//!
//! Structural and backend-availability issues are absorbed locally and never
//! surface here; the variants below are the caller-visible failures.

use vstd::prelude::*;

verus! {

/// The caller-visible failures of an analysis run.
#[derive(Clone, Copy, Debug, PartialEq, Eq, Structural)]
pub enum AnalysisError {
    /// The input yielded zero parseable contract units.
    NoContractsFound,
    /// The input path does not exist (reported by the source provider).
    PathNotFound,
    /// The requested target platform identifier is not registered.
    PlatformNotSupported,
    /// An external analysis tool is missing; recoverable inside a run.
    BackendUnavailable,
    /// An external analysis tool ran and failed; recoverable inside a run.
    BackendExecutionFailed,
    /// The AI backend failed after AI analysis was explicitly requested.
    AiBackendFailure,
}

/// The metrics category of an error.
pub open spec fn spec_error_category(e: AnalysisError) -> Seq<char> {
    match e {
        AnalysisError::NoContractsFound => "ingest"@,
        AnalysisError::PathNotFound => "input"@,
        AnalysisError::PlatformNotSupported => "platform"@,
        AnalysisError::BackendUnavailable => "backend"@,
        AnalysisError::BackendExecutionFailed => "backend"@,
        AnalysisError::AiBackendFailure => "ai"@,
    }
}

/// Category label used when bucketing errors for metrics.
pub fn get_error_category(err: &AnalysisError) -> (r: &'static str)
    ensures
        r@ == spec_error_category(*err),
{
    match err {
        AnalysisError::NoContractsFound => "ingest",
        AnalysisError::PathNotFound => "input",
        AnalysisError::PlatformNotSupported => "platform",
        AnalysisError::BackendUnavailable => "backend",
        AnalysisError::BackendExecutionFailed => "backend",
        AnalysisError::AiBackendFailure => "ai",
    }
}

/// An error is retryable when it reflects a transient tool condition rather
/// than a caller-level misconfiguration.
pub fn is_retryable_error(err: &AnalysisError) -> (r: bool)
    ensures
        r == (*err == AnalysisError::BackendUnavailable || *err
            == AnalysisError::BackendExecutionFailed),
{
    match err {
        AnalysisError::BackendUnavailable => true,
        AnalysisError::BackendExecutionFailed => true,
        _ => false,
    }
}

impl AnalysisError {
    /// Human-readable description of the error.
    pub fn message(&self) -> (r: &'static str)
        ensures
            *self == AnalysisError::NoContractsFound ==> r@ == "no contracts found in the specified path"@,
            *self == AnalysisError::PathNotFound ==> r@ == "path does not exist"@,
            *self == AnalysisError::PlatformNotSupported ==> r@ == "plugin not found for platform"@,
            *self == AnalysisError::BackendUnavailable ==> r@ == "analysis backend not available"@,
            *self == AnalysisError::BackendExecutionFailed ==> r@ == "analysis backend execution failed"@,
            *self == AnalysisError::AiBackendFailure ==> r@ == "AI backend request failed"@,
    {
        match self {
            AnalysisError::NoContractsFound => "no contracts found in the specified path",
            AnalysisError::PathNotFound => "path does not exist",
            AnalysisError::PlatformNotSupported => "plugin not found for platform",
            AnalysisError::BackendUnavailable => "analysis backend not available",
            AnalysisError::BackendExecutionFailed => "analysis backend execution failed",
            AnalysisError::AiBackendFailure => "AI backend request failed",
        }
    }
}

} // verus!
