//! Supervision decisions of the worker pool: what happens when a worker's
//! thread ends, and an idempotent shutdown.
use vstd::prelude::*;

verus! {

/// How a worker's thread ended.
#[derive(Clone, Copy, Debug, PartialEq, Eq, Structural)]
pub enum WorkerExit {
    /// It left its loop after the refresh interval, to pick up the current
    /// candidate.
    Refresh,
    /// It saw the stop signal.
    Stopped,
    /// It panicked.
    Crashed,
}

/// What the pool does about a thread that ended.
#[derive(Clone, Copy, Debug, PartialEq, Eq, Structural)]
pub enum PoolDecision {
    /// Start a replacement with the same placement.
    Respawn,
    /// Join it and start nothing.
    Retire,
    /// Report the failure to the caller instead of respawning again.
    Surface,
}

/// The pool's supervision state: one crash count per worker slot.
pub struct PoolSupervisor {
    stopping: bool,
    crash_counts: Vec<u32>,
    max_crashes: u32,
}

impl PoolSupervisor {
    /// Whether shutdown was asked for.
    pub closed spec fn spec_stopping(&self) -> bool {
        self.stopping
    }

    /// Crashes counted so far, by slot.
    pub closed spec fn spec_crash_counts(&self) -> Seq<u32> {
        self.crash_counts@
    }

    /// Crashes of one slot that are still respawned.
    pub closed spec fn spec_max_crashes(&self) -> u32 {
        self.max_crashes
    }

    /// A running pool of `slots` workers; a slot's crashes beyond
    /// `max_crashes` are surfaced.
    pub fn new(slots: usize, max_crashes: u32) -> (r: PoolSupervisor)
        ensures
            !r.spec_stopping(),
            r.spec_crash_counts() == Seq::new(slots as nat, |i: int| 0u32),
            r.spec_max_crashes() == max_crashes,
    {
        let mut crash_counts: Vec<u32> = Vec::new();
        while crash_counts.len() < slots
            invariant
                crash_counts@.len() <= slots,
                forall|i: int| 0 <= i < crash_counts@.len() ==> crash_counts@[i] == 0,
            decreases slots - crash_counts@.len(),
        {
            crash_counts.push(0);
        }
        assert(crash_counts@ =~= Seq::new(slots as nat, |i: int| 0u32));
        PoolSupervisor { stopping: false, crash_counts, max_crashes }
    }

    /// Number of worker slots.
    pub fn slot_count(&self) -> (r: usize)
        ensures
            r == self.spec_crash_counts().len(),
    {
        self.crash_counts.len()
    }

    /// Whether shutdown was asked for.
    pub fn is_stopping(&self) -> (r: bool)
        ensures
            r == self.spec_stopping(),
    {
        self.stopping
    }

    /// Asks for shutdown; true only the first time, so that the workers are
    /// signalled and joined once.
    pub fn request_shutdown(&mut self) -> (r: bool)
        ensures
            r == !old(self).spec_stopping(),
            final(self).spec_stopping(),
            final(self).spec_crash_counts() == old(self).spec_crash_counts(),
            final(self).spec_max_crashes() == old(self).spec_max_crashes(),
    {
        let first = !self.stopping;
        self.stopping = true;
        first
    }

    /// Decides about the thread of slot `slot` that ended with `exit`.
    /// After shutdown nothing is respawned; a refresh is respawned; a crash
    /// is counted and respawned until the slot has crashed more than the
    /// allowed number of times, and then surfaced.
    pub fn on_worker_exit(&mut self, slot: usize, exit: WorkerExit) -> (r: PoolDecision)
        requires
            slot < old(self).spec_crash_counts().len(),
        ensures
            final(self).spec_stopping() == old(self).spec_stopping(),
            final(self).spec_max_crashes() == old(self).spec_max_crashes(),
            exit == WorkerExit::Crashed ==> final(self).spec_crash_counts() == old(self).spec_crash_counts().update(
                slot as int,
                if old(self).spec_crash_counts()[slot as int] < u32::MAX {
                    (old(self).spec_crash_counts()[slot as int] + 1) as u32
                } else {
                    u32::MAX
                },
            ),
            exit != WorkerExit::Crashed ==> final(self).spec_crash_counts() == old(self).spec_crash_counts(),
            old(self).spec_stopping() || exit == WorkerExit::Stopped ==> r == PoolDecision::Retire,
            !old(self).spec_stopping() && exit == WorkerExit::Refresh ==> r
                == PoolDecision::Respawn,
            !old(self).spec_stopping() && exit == WorkerExit::Crashed ==> r == (if final(self).spec_crash_counts()[slot as int] > old(self).spec_max_crashes() {
                PoolDecision::Surface
            } else {
                PoolDecision::Respawn
            }),
    {
        if exit == WorkerExit::Crashed {
            let count = self.crash_counts[slot].saturating_add(1);
            self.crash_counts.set(slot, count);
        }
        if self.stopping || exit == WorkerExit::Stopped {
            PoolDecision::Retire
        } else if exit == WorkerExit::Refresh {
            PoolDecision::Respawn
        } else if self.crash_counts[slot] > self.max_crashes {
            PoolDecision::Surface
        } else {
            PoolDecision::Respawn
        }
    }
}

} // verus!
