//! The trusted boundary to the storage crate.
//!
//! The resolver constructs real backend operators through the thin wrappers
//! here; everything an operator does afterwards (stat, list, read, write,
//! presign) is asynchronous I/O and is driven outside this library, which
//! only receives the results as plain values.

use vstd::prelude::*;

use crate::config::ConfigMap;
use crate::outcome::FailureKind;

verus! {

/// The storage crate's operator: an opaque capability handle for one
/// resolved backend.
#[verifier::external_type_specification]
#[verifier::external_body]
pub struct ExOperator(opendal::Operator);

/// The storage crate's error type, read only through the wrappers below.
#[verifier::external_type_specification]
#[verifier::external_body]
pub struct ExOpendalError(opendal::Error);

/// Relies on `opendal::Operator::from_uri`: constructs an operator for the
/// URI's scheme through the process-wide registry; construction is lazy and
/// performs no I/O. Fails with an `Unsupported`-kind error for a scheme the
/// registry does not know, and with other kinds when the parsed
/// configuration is rejected.
#[verifier::external_body]
pub(crate) fn operator_from_uri(root: &str) -> (r: Result<opendal::Operator, opendal::Error>) {
    opendal::Operator::from_uri(root)
}

/// Relies on `opendal::Operator::via_iter`: constructs an operator of the
/// backend kind named by `kind` from the given key-value configuration;
/// construction is lazy and performs no I/O.
#[verifier::external_body]
pub(crate) fn operator_from_config(kind: &str, config: &ConfigMap) -> (r: Result<
    opendal::Operator,
    opendal::Error,
>) {
    let pairs = config.entries.iter().map(|e| (e.0.clone(), e.1.clone()));
    opendal::Operator::via_iter(kind, pairs)
}

/// Relies on `opendal::Error::kind`: maps each of the storage crate's error
/// kinds to the library's failure kind of the same name, one arm each;
/// kinds added to the (non-exhaustive) enum later read as `Unexpected`.
#[verifier::external_body]
pub(crate) fn failure_kind_of(e: &opendal::Error) -> FailureKind {
    match e.kind() {
        opendal::ErrorKind::Unsupported => FailureKind::Unsupported,
        opendal::ErrorKind::ConfigInvalid => FailureKind::ConfigInvalid,
        opendal::ErrorKind::NotFound => FailureKind::NotFound,
        opendal::ErrorKind::PermissionDenied => FailureKind::PermissionDenied,
        opendal::ErrorKind::IsADirectory => FailureKind::IsADirectory,
        opendal::ErrorKind::NotADirectory => FailureKind::NotADirectory,
        opendal::ErrorKind::AlreadyExists => FailureKind::AlreadyExists,
        opendal::ErrorKind::RateLimited => FailureKind::RateLimited,
        opendal::ErrorKind::IsSameFile => FailureKind::IsSameFile,
        opendal::ErrorKind::ConditionNotMatch => FailureKind::ConditionNotMatch,
        opendal::ErrorKind::RangeNotSatisfied => FailureKind::RangeNotSatisfied,
        opendal::ErrorKind::Conflict => FailureKind::Conflict,
        _ => FailureKind::Unexpected,
    }
}

/// Relies on `opendal::Error::is_temporary`: whether the backend marked
/// this failure as transient (safe to replay).
#[verifier::external_body]
pub(crate) fn failure_is_transient(e: &opendal::Error) -> bool {
    e.is_temporary()
}

/// Relies on `opendal::Error`'s `Display` impl: the failure rendered as a
/// human-readable message.
#[verifier::external_body]
pub(crate) fn failure_message(e: &opendal::Error) -> String {
    format!("{}", e)
}

/// Relies on `opendal::Operator::layer` with `layers::LoggingLayer`: wraps
/// the operator so that every call is logged; the layered operator performs
/// the same storage operations.
#[verifier::external_body]
pub(crate) fn with_logging(op: opendal::Operator) -> opendal::Operator {
    op.layer(opendal::layers::LoggingLayer::default())
}

/// Relies on `opendal::OperatorRegistry::schemes`: the scheme names the
/// process-wide registry currently knows, in no particular order.
#[verifier::external_body]
pub(crate) fn registry_schemes() -> Vec<String> {
    opendal::OperatorRegistry::get().schemes().into_iter().collect()
}

/// Reduce a backend error to the plain values the classifier reads.
pub fn failure_of(e: &opendal::Error) -> crate::outcome::BackendFailure {
    crate::outcome::BackendFailure {
        kind: failure_kind_of(e),
        transient: failure_is_transient(e),
        message: failure_message(e),
    }
}

/// Classify a backend error: the classification policy applied to the
/// error's kind, transience and message.
pub fn classify_error(e: &opendal::Error) -> crate::outcome::Outcome {
    crate::outcome::classify(failure_of(e))
}

} // verus!
