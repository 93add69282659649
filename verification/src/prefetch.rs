//! Prefetch scheduling: worker-pool sizing and completion tracking.
//!
//! A prefetch run walks the source tree, submits one job per regular file
//! to a bounded worker pool, and polls the pool until both its queued and
//! its active counts reach zero; at that moment the completion callback
//! fires, exactly once. The walk, the pool and the timer live with the
//! caller; this module holds the decisions: how large the pool may be,
//! what progress each observation reports, and when completion fires.

use vstd::prelude::*;

verus! {

/// Relies on num_cpus::get: the number of logical cores of the machine,
/// documented to always be at least 1.
#[verifier::external_body]
fn logical_cores() -> (r: usize)
    ensures
        r >= 1,
{
    num_cpus::get()
}

/// A requested job count clamped to `[1, cores]`.
pub open spec fn spec_clamp_jobs(requested: int, cores: int) -> int {
    if requested < 1 {
        1
    } else if requested > cores {
        cores
    } else {
        requested
    }
}

/// Clamps a configured worker count to `[1, cores]`.
pub fn clamp_jobs(requested: usize, cores: usize) -> (r: usize)
    requires
        cores >= 1,
    ensures
        r == spec_clamp_jobs(requested as int, cores as int),
        1 <= r <= cores,
{
    if requested < 1 {
        1
    } else if requested > cores {
        cores
    } else {
        requested
    }
}

/// The worker-pool size for a prefetch run: the requested job count
/// clamped to `[1, logical cores]`; with no explicit request, one worker
/// per logical core.
pub fn prefetch_jobs(requested: Option<usize>) -> (r: usize)
    ensures
        r >= 1,
        (requested matches Some(j) ==> (if j < 1 {
            r == 1
        } else {
            r <= j
        })),
{
    let cores = logical_cores();
    match requested {
        Some(j) => clamp_jobs(j, cores),
        None => cores,
    }
}

/// What one polling observation of the pool reports.
#[derive(Clone, Copy, Debug, PartialEq, Eq, Structural)]
pub enum PrefetchPoll {
    /// So many of the submitted jobs have finished.
    InProgress(usize),
    /// Both the queued and the active count reached zero.
    Done,
}

/// Tracks one prefetch run across polling observations: how many jobs the
/// walk submitted, and whether completion has already been reported.
pub struct PrefetchMonitor {
    pub total: usize,
    pub fired: bool,
}

/// The monitor after one observation: completion is latched once seen.
pub open spec fn spec_after_poll(
    m: PrefetchMonitor,
    queued: int,
    active: int,
) -> PrefetchMonitor {
    PrefetchMonitor { total: m.total, fired: m.fired || (queued == 0 && active == 0) }
}

/// Whether an observation fires the completion callback: the pool has
/// drained and completion has not been reported before.
pub open spec fn spec_poll_fires(m: PrefetchMonitor, queued: int, active: int) -> bool {
    queued == 0 && active == 0 && !m.fired
}

impl PrefetchMonitor {
    /// A monitor for a walk that submitted `total` jobs; nothing has been
    /// reported yet.
    pub fn new(total: usize) -> (r: PrefetchMonitor)
        ensures
            r.total == total,
            !r.fired,
    {
        PrefetchMonitor { total, fired: false }
    }

    /// One observation of the pool's queued and active counts. Reports the
    /// number of completed jobs (`total - queued - active`) while work
    /// remains, `Done` once the pool has drained, and says whether the
    /// completion callback fires now. Every job that was submitted is
    /// either queued, active or finished, so the counts cannot exceed the
    /// total.
    pub fn poll(&mut self, queued: usize, active: usize) -> (r: (PrefetchPoll, bool))
        requires
            queued + active <= old(self).total,
        ensures
            *final(self) == spec_after_poll(*old(self), queued as int, active as int),
            (r.0 is Done) == (queued == 0 && active == 0),
            (r.0 matches PrefetchPoll::InProgress(c) ==> c == old(self).total - queued - active),
            r.1 == spec_poll_fires(*old(self), queued as int, active as int),
    {
        if queued == 0 && active == 0 {
            let fire = !self.fired;
            self.fired = true;
            (PrefetchPoll::Done, fire)
        } else {
            (PrefetchPoll::InProgress(self.total - queued - active), false)
        }
    }
}

/// The completion callback fires at most once: after an observation fired
/// it, no later observation fires it again, whatever the counts.
pub proof fn lemma_completion_fires_once(
    m: PrefetchMonitor,
    q1: int,
    a1: int,
    q2: int,
    a2: int,
)
    requires
        spec_poll_fires(m, q1, a1),
    ensures
        !spec_poll_fires(spec_after_poll(m, q1, a1), q2, a2),
{
}

/// The completion callback does fire: the first observation that sees the
/// pool drained fires it, on any monitor that has not reported yet.
pub proof fn lemma_drained_pool_fires(m: PrefetchMonitor)
    requires
        !m.fired,
    ensures
        spec_poll_fires(m, 0, 0),
{
}

} // verus!
