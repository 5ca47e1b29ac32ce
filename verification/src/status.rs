//! Exit-status arithmetic and aggregation for pipelines.

use vstd::prelude::*;

verus! {

/// Exit status reported for a stage whose external program could not be
/// resolved on the search path.
pub const STATUS_NOT_FOUND: u32 = 127;

/// How the operating system reported a child's termination: a normal exit
/// with a code, or death by a signal.
#[derive(Clone, Copy, PartialEq, Eq, Structural, Debug)]
pub enum WaitOutcome {
    Exited(u8),
    Signaled(u8),
}

/// The exit status a stage reports for a given wait outcome: the child's
/// own code on a normal exit, `128 + n` for termination by signal `n`.
pub open spec fn wait_status_spec(w: WaitOutcome) -> u32 {
    match w {
        WaitOutcome::Exited(code) => code as u32,
        WaitOutcome::Signaled(sig) => (128 + sig as u32) as u32,
    }
}

/// Converts a wait outcome into the stage's exit status.
pub fn wait_status(w: WaitOutcome) -> (r: u32)
    ensures
        r == wait_status_spec(w),
{
    match w {
        WaitOutcome::Exited(code) => code as u32,
        WaitOutcome::Signaled(sig) => 128 + sig as u32,
    }
}

/// The status a pipeline reports, given the statuses of its stages in
/// order: the last stage's status.
pub open spec fn pipeline_status_spec(statuses: Seq<u32>) -> u32
    recommends
        statuses.len() > 0,
{
    statuses.last()
}

/// The status of a whole pipeline is the status of its last stage,
/// irrespective of every earlier stage's outcome.
pub fn pipeline_status(statuses: &Vec<u32>) -> (r: u32)
    requires
        statuses@.len() > 0,
    ensures
        r == pipeline_status_spec(statuses@),
{
    statuses[statuses.len() - 1]
}

/// Earlier-stage outcomes never influence the pipeline's reported status:
/// two runs whose last stages agree report the same status, however their
/// other stages exited — success and failure upstream are alike invisible.
pub proof fn lemma_status_ignores_earlier_stages(a: Seq<u32>, b: Seq<u32>)
    requires
        a.len() > 0,
        b.len() > 0,
        a.last() == b.last(),
    ensures
        pipeline_status_spec(a) == pipeline_status_spec(b),
{
}

} // verus!
