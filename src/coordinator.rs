use vstd::prelude::*;

verus! {

/// Where a search run stands.
#[derive(Debug, Clone, Copy, PartialEq, Eq, Structural)]
pub enum Phase {
    /// Settings read; no worker started yet.
    Idle,
    /// Workers and reporter started.
    Running,
    /// Every worker has returned and the reporter has stopped.
    Done,
}

/// Bookkeeping of the run: its phase, the workers that have not returned,
/// and whether the reporter has stopped.
pub struct Coordinator {
    phase: Phase,
    worker_count: usize,
    live: usize,
    reporter_stopped: bool,
}

impl Coordinator {
    pub closed spec fn phase_of(&self) -> Phase {
        self.phase
    }

    pub closed spec fn workers(&self) -> nat {
        self.worker_count as nat
    }

    pub closed spec fn live_workers(&self) -> nat {
        self.live as nat
    }

    pub closed spec fn reporter_has_stopped(&self) -> bool {
        self.reporter_stopped
    }

    /// The phase follows from the counts: idle with every worker still to
    /// run, done exactly when no worker is live and the reporter stopped.
    pub open spec fn wf(&self) -> bool {
        &&& self.live_workers() <= self.workers()
        &&& self.phase_of() == Phase::Idle ==> self.live_workers() == self.workers()
            && !self.reporter_has_stopped()
        &&& self.phase_of() != Phase::Idle ==> (self.phase_of() == Phase::Done <==> (
        self.live_workers() == 0 && self.reporter_has_stopped()))
    }

    /// A run of `worker_count` workers, not started.
    pub fn new(worker_count: usize) -> (r: Coordinator)
        ensures
            r.wf(),
            r.phase_of() == Phase::Idle,
            r.workers() == worker_count,
            r.live_workers() == worker_count,
            !r.reporter_has_stopped(),
    {
        Coordinator { phase: Phase::Idle, worker_count, live: worker_count, reporter_stopped: false }
    }

    /// The current phase.
    pub fn phase(&self) -> (r: Phase)
        ensures
            r == self.phase_of(),
    {
        self.phase
    }

    /// Workers that have not returned yet.
    pub fn live(&self) -> (r: usize)
        ensures
            r == self.live_workers(),
    {
        self.live
    }

    /// Starts the run; only an idle run starts, once. Returns whether it did.
    pub fn launch(&mut self) -> (started: bool)
        requires
            old(self).wf(),
        ensures
            final(self).wf(),
            started == (old(self).phase_of() == Phase::Idle),
            started ==> final(self).phase_of() == Phase::Running,
            !started ==> final(self).phase_of() == old(self).phase_of(),
            final(self).workers() == old(self).workers(),
            final(self).live_workers() == old(self).live_workers(),
            final(self).reporter_has_stopped() == old(self).reporter_has_stopped(),
    {
        if self.phase == Phase::Idle {
            self.phase = Phase::Running;
            true
        } else {
            false
        }
    }

    fn settle(&mut self)
        requires
            old(self).phase != Phase::Idle,
            old(self).live <= old(self).worker_count,
            old(self).phase == Phase::Done ==> old(self).live == 0 && old(self).reporter_stopped,
        ensures
            final(self).wf(),
            final(self).live == old(self).live,
            final(self).worker_count == old(self).worker_count,
            final(self).reporter_stopped == old(self).reporter_stopped,
            final(self).phase != Phase::Idle,
    {
        if self.live == 0 && self.reporter_stopped {
            self.phase = Phase::Done;
        } else {
            self.phase = Phase::Running;
        }
    }

    /// Records that a worker returned, normally or not. Outside a running
    /// run, or with no worker live, nothing changes.
    pub fn worker_returned(&mut self)
        requires
            old(self).wf(),
        ensures
            final(self).wf(),
            final(self).workers() == old(self).workers(),
            final(self).reporter_has_stopped() == old(self).reporter_has_stopped(),
            final(self).live_workers() == if old(self).phase_of() == Phase::Running
                && old(self).live_workers() > 0 {
                old(self).live_workers() - 1
            } else {
                old(self).live_workers() as int
            },
            old(self).phase_of() == Phase::Idle ==> final(self).phase_of() == Phase::Idle,
            old(self).phase_of() != Phase::Idle ==> final(self).phase_of() != Phase::Idle,
    {
        if self.phase == Phase::Running && self.live > 0 {
            self.live = self.live - 1;
            self.settle();
        }
    }

    /// Records that the reporter stopped. Only a running run takes note.
    pub fn reporter_returned(&mut self)
        requires
            old(self).wf(),
        ensures
            final(self).wf(),
            final(self).workers() == old(self).workers(),
            final(self).live_workers() == old(self).live_workers(),
            final(self).reporter_has_stopped() == (old(self).reporter_has_stopped() || old(
                self,
            ).phase_of() == Phase::Running),
            old(self).phase_of() == Phase::Idle ==> final(self).phase_of() == Phase::Idle,
            old(self).phase_of() != Phase::Idle ==> final(self).phase_of() != Phase::Idle,
    {
        if self.phase == Phase::Running {
            self.reporter_stopped = true;
            self.settle();
        }
    }

    /// No worker is left to find a match: the reporter and the store writer
    /// must be ended by the coordinator itself.
    pub fn no_live_workers(&self) -> (r: bool)
        ensures
            r == (self.live_workers() == 0),
    {
        self.live == 0
    }
}

} // verus!
