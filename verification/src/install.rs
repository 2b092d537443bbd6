//! Global registration: the process-wide, write-once slot holding the one
//! installed pipeline, and the legacy bridge that redirects the old
//! unstructured logging call convention into the event model.
//!
//! Installation is a one-shot, fail-closed, two-step operation: first the
//! legacy bridge is pointed at the pipeline, then the pipeline is published
//! into the slot. No rollback is attempted: when publishing fails after the
//! bridge step succeeded, the bridge stays pointed at a pipeline that never
//! became globally active — a residual inconsistency this model keeps and
//! documents rather than hides.

use vstd::prelude::*;
use crate::pipeline::Pipeline;

verus! {

/// Why installation failed. Both cases are terminal for the call: neither
/// is retryable, and no partial rollback is attempted.
#[derive(Clone, Copy, PartialEq, Eq, Structural, Debug)]
pub enum Error {
    /// The process has already bridged the legacy logging convention to a
    /// different target.
    LegacyBridgeInitFailed,
    /// A pipeline is already installed in the process-wide slot; the first
    /// writer won and is never replaced.
    GlobalAlreadySet,
}

/// Where the process's legacy logging bridge currently points.
#[derive(Clone, Copy, PartialEq, Eq, Structural, Debug)]
pub enum BridgeTarget {
    /// No bridge has been installed yet.
    Unset,
    /// The bridge translates legacy calls into this pipeline's event model.
    Pipeline,
    /// Something else in the process claimed the bridge first.
    Foreign,
}

/// The cross-lane shared state of one process: the legacy bridge and the
/// write-once pipeline slot. The slot is written at most once and
/// thereafter only read; concurrent installers resolve deterministically,
/// first writer wins.
pub struct ProcessState {
    pub bridge: BridgeTarget,
    pub slot: Option<Pipeline>,
}

impl ProcessState {
    /// A fresh process: nothing bridged, nothing installed.
    pub fn new() -> (r: ProcessState)
        ensures
            r.bridge == BridgeTarget::Unset,
            r.slot is None,
    {
        ProcessState { bridge: BridgeTarget::Unset, slot: None }
    }
}

/// The state and result `install` leaves: the bridge step runs first and is
/// idempotent towards this pipeline's own target; only when it succeeds is
/// the publish step attempted, and the first published pipeline is never
/// replaced.
pub open spec fn install_result(s: ProcessState, p: Pipeline) -> (ProcessState, Result<
    (),
    Error,
>) {
    if s.bridge == BridgeTarget::Foreign {
        (s, Err(Error::LegacyBridgeInitFailed))
    } else if s.slot is Some {
        (ProcessState { bridge: BridgeTarget::Pipeline, slot: s.slot }, Err(
            Error::GlobalAlreadySet,
        ))
    } else {
        (ProcessState { bridge: BridgeTarget::Pipeline, slot: Some(p) }, Ok(()))
    }
}

/// Install `pipeline` as the process's one active pipeline: redirect the
/// legacy bridge to it, then publish it into the write-once slot. Fails
/// with `LegacyBridgeInitFailed` when the bridge already serves a foreign
/// target — the slot is then not touched — and with `GlobalAlreadySet` when
/// a pipeline was already published; the slot's first value always stands.
pub fn install(state: &mut ProcessState, pipeline: Pipeline) -> (r: Result<(), Error>)
    ensures
        (*final(state), r) == install_result(*old(state), pipeline),
{
    match state.bridge {
        BridgeTarget::Foreign => Err(Error::LegacyBridgeInitFailed),
        _ => {
            state.bridge = BridgeTarget::Pipeline;
            if state.slot.is_some() {
                Err(Error::GlobalAlreadySet)
            } else {
                state.slot = Some(pipeline);
                Ok(())
            }
        },
    }
}

/// Point the process's legacy bridge at the event model, exactly once. A
/// second call fails with `LegacyBridgeInitFailed` rather than silently
/// becoming a no-op, so double initialization is detectable.
pub fn bridge_once(state: &mut ProcessState) -> (r: Result<(), Error>)
    ensures
        old(state).bridge == BridgeTarget::Unset ==> r == Ok::<(), Error>(()) && *final(state)
            == (ProcessState { bridge: BridgeTarget::Pipeline, slot: old(state).slot }),
        old(state).bridge != BridgeTarget::Unset ==> r == Err::<(), Error>(
            Error::LegacyBridgeInitFailed,
        ) && *final(state) == *old(state),
{
    match state.bridge {
        BridgeTarget::Unset => {
            state.bridge = BridgeTarget::Pipeline;
            Ok(())
        },
        _ => Err(Error::LegacyBridgeInitFailed),
    }
}

/// One winner: on a process that has not bridged elsewhere and has no
/// pipeline installed, the first `install` succeeds and every later one —
/// whichever caller it comes from — observes `GlobalAlreadySet`, while the
/// slot keeps the first pipeline.
pub proof fn lemma_install_once(s: ProcessState, p1: Pipeline, p2: Pipeline)
    requires
        s.bridge != BridgeTarget::Foreign,
        s.slot is None,
    ensures
        install_result(s, p1).1 == Ok::<(), Error>(()),
        install_result(s, p1).0.slot == Some(p1),
        install_result(install_result(s, p1).0, p2).1 == Err::<(), Error>(
            Error::GlobalAlreadySet,
        ),
        install_result(install_result(s, p1).0, p2).0.slot == Some(p1),
{
}

} // verus!
