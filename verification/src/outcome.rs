//! Classification of backend failures into permanent or retryable outcomes.
//!
//! Every operation funnels its failures through [`classify`]: a failure the
//! backend reports as transient is always retryable, and any other failure is
//! permanent, carrying a stable status-like code derived from the failure
//! kind alone.

use vstd::prelude::*;

verus! {

/// The failure categories a storage backend can report.
///
/// Mirrors the backend's error kinds as plain values so that the
/// classification policy can be stated and checked over them.
#[derive(Clone, Copy, Debug, PartialEq, Eq, Structural)]
pub enum FailureKind {
    /// The backend does not know what happened.
    Unexpected,
    /// The backend does not support the requested operation or scheme.
    Unsupported,
    /// The backend rejected its configuration.
    ConfigInvalid,
    /// The path was not found.
    NotFound,
    /// The path cannot be accessed with the given permissions.
    PermissionDenied,
    /// The path is a directory where a file was expected.
    IsADirectory,
    /// The path is not a directory where a directory was expected.
    NotADirectory,
    /// The path already exists.
    AlreadyExists,
    /// Requests were sent faster than the backend allows.
    RateLimited,
    /// Source and destination are the same file.
    IsSameFile,
    /// A caller-supplied condition evaluated to false.
    ConditionNotMatch,
    /// The requested byte range cannot be satisfied.
    RangeNotSatisfied,
    /// The operation conflicts with the resource's current state.
    Conflict,
}

/// A backend-reported failure, reduced to the plain values the
/// classification policy reads: its kind, whether the backend marked it
/// transient, and its message.
#[derive(Debug)]
pub struct BackendFailure {
    pub kind: FailureKind,
    pub transient: bool,
    pub message: String,
}

/// The classified result of a failure: either permanent, with a stable
/// status-like code, or retryable by the host runtime.
#[derive(Debug)]
pub enum Outcome {
    Permanent { code: u16, message: String },
    Retryable { message: String },
}

/// The fixed table mapping a non-transient failure kind to its outcome code.
pub open spec fn code_for(kind: FailureKind) -> u16 {
    match kind {
        FailureKind::Unsupported => 501,
        FailureKind::ConfigInvalid => 400,
        FailureKind::NotFound => 404,
        FailureKind::PermissionDenied => 403,
        FailureKind::IsADirectory => 422,
        FailureKind::NotADirectory => 422,
        FailureKind::AlreadyExists => 409,
        _ => 500,
    }
}

/// What [`classify`] returns: transient failures are always retryable, all
/// others are permanent with the code of their kind. The message is carried
/// through unchanged either way.
pub open spec fn spec_classify(failure: BackendFailure) -> Outcome {
    if failure.transient {
        Outcome::Retryable { message: failure.message }
    } else {
        Outcome::Permanent { code: code_for(failure.kind), message: failure.message }
    }
}

/// True when the outcome signals that the host runtime may retry.
pub open spec fn outcome_is_retryable(outcome: Outcome) -> bool {
    match outcome {
        Outcome::Retryable { .. } => true,
        Outcome::Permanent { .. } => false,
    }
}

/// The outcome is permanent with this code and this message text.
pub open spec fn outcome_permanent_with(outcome: Outcome, code: u16, message: Seq<char>) -> bool {
    match outcome {
        Outcome::Permanent { code: c, message: m } => c == code && m@ == message,
        Outcome::Retryable { .. } => false,
    }
}

/// The code of a permanent outcome, or `None` for a retryable one.
pub open spec fn outcome_code(outcome: Outcome) -> Option<u16> {
    match outcome {
        Outcome::Permanent { code, .. } => Some(code),
        Outcome::Retryable { .. } => None,
    }
}

/// The outcome code owed to a non-transient failure of the given kind.
pub fn status_code(kind: FailureKind) -> (code: u16)
    ensures
        code == code_for(kind),
{
    match kind {
        FailureKind::Unsupported => 501,
        FailureKind::ConfigInvalid => 400,
        FailureKind::NotFound => 404,
        FailureKind::PermissionDenied => 403,
        FailureKind::IsADirectory => 422,
        FailureKind::NotADirectory => 422,
        FailureKind::AlreadyExists => 409,
        FailureKind::Unexpected => 500,
        FailureKind::RateLimited => 500,
        FailureKind::IsSameFile => 500,
        FailureKind::ConditionNotMatch => 500,
        FailureKind::RangeNotSatisfied => 500,
        FailureKind::Conflict => 500,
    }
}

/// Classify a backend failure: transient failures become retryable outcomes
/// carrying the original message; everything else becomes a permanent
/// outcome with the code fixed by the failure kind.
pub fn classify(failure: BackendFailure) -> (outcome: Outcome)
    ensures
        outcome == spec_classify(failure),
{
    if failure.transient {
        Outcome::Retryable { message: failure.message }
    } else {
        Outcome::Permanent { code: status_code(failure.kind), message: failure.message }
    }
}

/// Classification is total and deterministic: every failure has exactly one
/// outcome; two failures of the same kind and the same transience are
/// classified alike (same retryability, same code); and a transient failure
/// is never classified permanent.
pub proof fn lemma_classification_deterministic(a: BackendFailure, b: BackendFailure)
    requires
        a.kind == b.kind,
        a.transient == b.transient,
    ensures
        outcome_is_retryable(spec_classify(a)) == outcome_is_retryable(spec_classify(b)),
        outcome_code(spec_classify(a)) == outcome_code(spec_classify(b)),
        a.transient ==> outcome_is_retryable(spec_classify(a)),
{
}

} // verus!
