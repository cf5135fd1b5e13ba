//! One poll cycle, end to end: what the supervisor-driven loop should do
//! with the outcome of resolving the freshly fetched snapshot.

use vstd::prelude::*;
use crate::resolver::{ResolveError, ResolvedProgram};
use crate::sequencer::{decide, decide_spec, PollDecision};
use crate::supervisor::PipelineError;

verus! {

/// Turn this cycle's resolution into the cycle's decision. A resolved
/// program is timed against the clock; out-of-scope content blocks the
/// cycle on fallback without reaching the supervisor; every other
/// resolution failure is the cycle's failure, for the supervisor to
/// recover from.
pub fn plan_cycle<'a>(now: i64, resolution: &Result<ResolvedProgram<'a>, ResolveError>) -> (p:
    Result<PollDecision, PipelineError>)
    ensures
        match resolution {
            Ok(prog) => p == Ok::<PollDecision, PipelineError>(
                decide_spec(now, prog.summary.start, true),
            ),
            Err(ResolveError::OutOfScopeProject) => p == Ok::<PollDecision, PipelineError>(
                PollDecision::Blocked { sleep_seconds: 300u64 },
            ),
            Err(e) => p == Err::<PollDecision, PipelineError>(PipelineError::Resolution(*e)),
        },
{
    match resolution {
        Ok(prog) => Ok(decide(now, prog.summary.start, true)),
        Err(ResolveError::OutOfScopeProject) => Ok(PollDecision::Blocked { sleep_seconds: 300 }),
        Err(e) => Err(PipelineError::Resolution(*e)),
    }
}

} // verus!
