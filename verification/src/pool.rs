//! The worker pool's cancellation protocol, as the workers and the pool
//! decide it. A worker yields once on start, then alternates: check the
//! shared stop flag; if it is set, exit; otherwise perform exactly one
//! work unit and check again. The flag is written once, false to true,
//! and never reset, so cancellation is global and coarse-grained: a
//! worker mid-unit finishes that unit, but begins no further one after
//! observing the flag. The carrier threads, the shared atomic flag and
//! the join handle themselves live with the caller; this module holds
//! the decisions they follow.

use vstd::prelude::*;

verus! {

/// What a worker does after checking the stop flag.
#[derive(Clone, Copy, PartialEq, Eq, Structural, Debug)]
pub enum WorkerStep {
    /// Perform one more work unit, then check again.
    Work,
    /// Exit the loop and terminate.
    Exit,
}

/// The decision a worker takes after reading the stop flag: once the flag
/// is observed set, the worker never begins another work unit.
pub fn next_step(stop_observed: bool) -> (s: WorkerStep)
    ensures
        s == (if stop_observed {
            WorkerStep::Exit
        } else {
            WorkerStep::Work
        }),
        stop_observed ==> s == WorkerStep::Exit,
{
    if stop_observed {
        WorkerStep::Exit
    } else {
        WorkerStep::Work
    }
}

/// The pool's shutdown state: how many workers it drives, whether stop has
/// been requested, and how many workers have observed the flag and exited.
pub struct PoolModel {
    /// How many worker units the pool spawned.
    pub total: usize,
    /// Whether the stop flag has been set.
    pub stop_requested: bool,
    /// How many workers have exited. A worker exits only after observing
    /// the stop flag, so this stays zero until stop is requested.
    pub exited: usize,
}

impl PoolModel {
    /// A well-formed pool state: no more workers have exited than exist,
    /// and none has exited before stop was requested.
    pub open spec fn wf(self) -> bool {
        &&& self.exited <= self.total
        &&& self.exited > 0 ==> self.stop_requested
    }

    /// The join handle resolves exactly when every worker has exited.
    pub open spec fn join_ready(self) -> bool {
        self.exited == self.total
    }

    /// A fresh pool of `total` workers, not yet asked to stop.
    pub fn new(total: usize) -> (m: PoolModel)
        ensures
            m.total == total,
            !m.stop_requested,
            m.exited == 0,
            m.wf(),
    {
        PoolModel { total, stop_requested: false, exited: 0 }
    }

    /// Requests shutdown. The transition is monotonic: the flag is set
    /// whatever it was, and no operation ever clears it again.
    pub fn request_stop(&mut self)
        requires
            old(self).wf(),
        ensures
            final(self).stop_requested,
            final(self).total == old(self).total,
            final(self).exited == old(self).exited,
            final(self).wf(),
    {
        self.stop_requested = true;
    }

    /// Records that one worker observed the stop flag and exited. Workers
    /// exit only after the flag is set, so the join can come no closer to
    /// resolving before stop is requested.
    pub fn worker_exited(&mut self)
        requires
            old(self).wf(),
            old(self).stop_requested,
            old(self).exited < old(self).total,
        ensures
            final(self).exited == old(self).exited + 1,
            final(self).total == old(self).total,
            final(self).stop_requested,
            final(self).wf(),
    {
        self.exited = self.exited + 1;
    }
}

/// How many work units a worker performs for a given sequence of stop-flag
/// observations: it checks before every unit and exits at the first set
/// flag it sees.
pub open spec fn work_units(obs: Seq<bool>) -> int
    decreases obs.len(),
{
    if obs.len() == 0 {
        0
    } else if obs[0] {
        0
    } else {
        1 + work_units(obs.subrange(1, obs.len() as int))
    }
}

/// Once stop is requested every later read of the flag returns true, the
/// write being monotonic. A worker whose observations read true from check
/// `j` on performs at most `j` work units in all: past its next check it
/// begins no further unit, and only a unit already under way can still be
/// in flight.
pub proof fn lemma_stop_bounds_work(obs: Seq<bool>, j: int)
    requires
        0 <= j <= obs.len(),
        forall|k: int| j <= k < obs.len() ==> #[trigger] obs[k],
    ensures
        work_units(obs) <= j,
    decreases j,
{
    if obs.len() == 0 || obs[0] {
    } else {
        let rest = obs.subrange(1, obs.len() as int);
        assert(j >= 1);
        assert(forall|k: int| j - 1 <= k < rest.len() ==> #[trigger] rest[k]);
        lemma_stop_bounds_work(rest, j - 1);
    }
}

} // verus!
