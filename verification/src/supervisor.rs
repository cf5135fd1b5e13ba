//! The supervisor's recovery policy: every runtime failure, from whichever
//! stage, collapses to the same recovery — show fallback at once, wait a
//! minute, restart the whole pipeline from a fresh schedule fetch.

use vstd::prelude::*;
use crate::resolver::ResolveError;
use crate::sequencer::ForceEventFailed;

verus! {

/// Every failure a cycle can end with, from any stage of the pipeline.
#[derive(Clone, Copy, PartialEq, Eq, Structural, Debug)]
pub enum PipelineError {
    /// The schedule fetch failed in transport or with an HTTP error status.
    NetworkError,
    /// The schedule response was not the expected JSON.
    ParseError,
    /// The snapshot resolved to no usable program.
    Resolution(ResolveError),
    /// The overlay template could not be prepared on disk.
    TemplateMissing,
    /// An automation call came back without a success status.
    ForceEvent(ForceEventFailed),
    /// The media engine refused a composition call.
    RendererError,
}

/// What the supervisor does after a failed cycle.
#[derive(Clone, Copy, PartialEq, Eq, Structural, Debug)]
pub struct RecoveryStep {
    /// Bind the fallback scene before anything else (best effort: a failure
    /// here is logged, never propagated).
    pub render_fallback: bool,
    /// How long to wait before restarting the pipeline.
    pub sleep_seconds: u64,
}

/// The sole recovery mechanism: for every error alike, fall back to the
/// live feed, wait one minute, and restart from a fresh fetch. No error is
/// fatal and no partial state survives into the next cycle.
pub fn recover(err: &PipelineError) -> (r: RecoveryStep)
    ensures
        r.render_fallback,
        r.sleep_seconds == 60,
{
    match err {
        PipelineError::NetworkError
        | PipelineError::ParseError
        | PipelineError::Resolution(_)
        | PipelineError::TemplateMissing
        | PipelineError::ForceEvent(_)
        | PipelineError::RendererError => RecoveryStep { render_fallback: true, sleep_seconds: 60 },
    }
}

} // verus!
