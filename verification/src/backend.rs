//! The real process-wide backend: the outside functions that read the
//! filter expression from the environment, bridge the legacy logging
//! convention, and publish a subscriber as the process's global default.
//! Each outside call sits behind a trusted declaration; the sequencing and
//! the error taxonomy around them are verified.

use vstd::prelude::*;
use crate::install::Error;

verus! {

/// The outside filter stage, carried opaquely between its construction and
/// the subscriber composition around the sink.
#[verifier::external_type_specification]
#[verifier::external_body]
pub struct ExEnvFilter(tracing_subscriber::EnvFilter);

/// The outside handle to a fully composed subscriber, carried opaquely into
/// publication.
#[verifier::external_type_specification]
#[verifier::external_body]
pub struct ExDispatch(tracing::Dispatch);

/// The outside error a refused legacy-logging bridge reports.
#[verifier::external_type_specification]
#[verifier::external_body]
pub struct ExSetLoggerError(log::SetLoggerError);

/// The outside error a refused global publication reports.
#[verifier::external_type_specification]
#[verifier::external_body]
pub struct ExSetGlobalDefaultError(tracing::dispatcher::SetGlobalDefaultError);

/// Relies on tracing_subscriber::EnvFilter::try_from_default_env: reads the
/// default environment variable and is `Some` exactly when that variable is
/// set and parses; the outcome depends on the process environment, so
/// nothing more is promised of it.
#[verifier::external_body]
fn env_filter_from_env() -> Option<tracing_subscriber::EnvFilter> {
    tracing_subscriber::EnvFilter::try_from_default_env().ok()
}

/// Relies on tracing_subscriber::EnvFilter::new: parses the directive
/// expression leniently — invalid directives are dropped in favour of the
/// parser's own default — and never fails.
#[verifier::external_body]
fn env_filter_from_directives(directives: &str) -> tracing_subscriber::EnvFilter {
    tracing_subscriber::EnvFilter::new(directives)
}

/// Relies on tracing_log::LogTracer::init: installs the process-wide
/// redirection of legacy log statements into the event model, and fails
/// exactly when the process already installed a logger; the outcome depends
/// on process-global state, so nothing more is promised of it.
#[verifier::external_body]
fn bridge_legacy_logs() -> Result<(), log::SetLoggerError> {
    tracing_log::LogTracer::init()
}

/// Relies on tracing::dispatcher::set_global_default: publishes the
/// dispatcher into the process-wide slot by a compare-and-set, so the first
/// writer wins and every later call fails; the outcome depends on
/// process-global state, so nothing more is promised of it.
#[verifier::external_body]
fn publish_global_default(dispatch: tracing::Dispatch) -> Result<
    (),
    tracing::dispatcher::SetGlobalDefaultError,
> {
    tracing::dispatcher::set_global_default(dispatch)
}

/// Construct the filter stage: the environment's own expression, when it is
/// present and valid, overrides `configured` wholesale; otherwise the
/// configured expression is parsed leniently. This never fails.
pub fn resolve_env_filter(configured: &str) -> tracing_subscriber::EnvFilter {
    match env_filter_from_env() {
        Some(filter) => filter,
        None => env_filter_from_directives(configured),
    }
}

/// Install `dispatch` as the process's one active pipeline: first redirect
/// legacy log statements into it, then publish it into the process-wide
/// write-once slot. The first step failing means the second is never
/// attempted; the second failing leaves the bridge redirected — the
/// documented residual inconsistency of the two-step installation. Each
/// failure maps to its place in the taxonomy: a refused bridge reports
/// `LegacyBridgeInitFailed`, a refused publication `GlobalAlreadySet`.
pub fn install_global(dispatch: tracing::Dispatch) -> (r: Result<(), Error>)
    ensures
        r matches Err(e) ==> (e == Error::LegacyBridgeInitFailed || e
            == Error::GlobalAlreadySet),
{
    match bridge_legacy_logs() {
        Err(_) => Err(Error::LegacyBridgeInitFailed),
        Ok(_) => match publish_global_default(dispatch) {
            Err(_) => Err(Error::GlobalAlreadySet),
            Ok(_) => Ok(()),
        },
    }
}

} // verus!
