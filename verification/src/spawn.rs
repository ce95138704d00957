//! The lifecycle of one spawned unit of work.
//!
//! A spawn moves a heap-boxed closure across the C boundary into the
//! scheduler behind a fixed-size pointer (a box holding the box, so the
//! pointer's size never depends on the capture environment). The box must
//! be reconstructed and dropped on every exit path: once by the failure
//! path when the scheduler rejects the task, or once by the trampoline
//! after it has run the work; after the work returns the trampoline
//! deletes the task's own scheduling resource, so the handle is dead from
//! that instant on. This model pins those obligations down; the runtime
//! half drives one value of it alongside the real box and kernel calls.

use vstd::prelude::*;

verus! {

/// Where the boxed work stands.
#[derive(Debug, Copy, Clone, PartialEq, Eq, Structural)]
pub enum WorkState {
    /// Boxed for the scheduler; no kernel decision yet.
    Boxed,
    /// The scheduler rejected the task; the box was reconstructed and
    /// dropped by the failure path, before any trampoline could run.
    Rejected,
    /// The scheduler accepted the task; the trampoline will run the work
    /// exactly once.
    Scheduled,
    /// The trampoline ran the work, dropped the box, and deleted the
    /// task's own scheduling resource.
    Exited,
}

/// One spawned unit of work: its state, how often its body was invoked,
/// and how often its box was dropped.
#[derive(Debug, Copy, Clone, PartialEq, Eq, Structural)]
pub struct SpawnLifecycle {
    pub state: WorkState,
    pub invoked: u32,
    pub freed: u32,
}

impl SpawnLifecycle {
    /// The counters a state admits: nothing has happened before the
    /// kernel decision, a rejected box is dropped without ever running,
    /// and an exited task ran and dropped the box exactly once.
    pub open spec fn wf(self) -> bool {
        match self.state {
            WorkState::Boxed => self.invoked == 0 && self.freed == 0,
            WorkState::Rejected => self.invoked == 0 && self.freed == 1,
            WorkState::Scheduled => self.invoked == 0 && self.freed == 0,
            WorkState::Exited => self.invoked == 1 && self.freed == 1,
        }
    }

    /// Whether the task handle still names a live task. It never does
    /// after the work returns: the task deletes itself.
    pub open spec fn handle_live(self) -> bool {
        self.state is Scheduled
    }

    /// The state of a freshly boxed unit of work.
    pub open spec fn spec_initial() -> Self {
        SpawnLifecycle { state: WorkState::Boxed, invoked: 0, freed: 0 }
    }

    /// After the scheduler rejected the create call: the failure path
    /// reconstructs and drops the box.
    pub open spec fn spec_rejected(self) -> Self {
        SpawnLifecycle { state: WorkState::Rejected, freed: (self.freed + 1) as u32, ..self }
    }

    /// After the scheduler accepted the create call.
    pub open spec fn spec_scheduled(self) -> Self {
        SpawnLifecycle { state: WorkState::Scheduled, ..self }
    }

    /// After the trampoline: the work ran, the box was dropped, and the
    /// task deleted itself.
    pub open spec fn spec_exited(self) -> Self {
        SpawnLifecycle {
            state: WorkState::Exited,
            invoked: (self.invoked + 1) as u32,
            freed: (self.freed + 1) as u32,
        }
    }

    pub fn new() -> (r: Self)
        ensures
            r == Self::spec_initial(),
            r.wf(),
    {
        SpawnLifecycle { state: WorkState::Boxed, invoked: 0, freed: 0 }
    }

    /// Record that the scheduler rejected the create call and the failure
    /// path dropped the box.
    pub fn kernel_rejected(&mut self)
        requires
            old(self).state is Boxed,
            old(self).wf(),
        ensures
            *final(self) == old(self).spec_rejected(),
            final(self).wf(),
    {
        self.state = WorkState::Rejected;
        self.freed = self.freed + 1;
    }

    /// Record that the scheduler accepted the create call; the handle is
    /// live until the work returns.
    pub fn kernel_accepted(&mut self)
        requires
            old(self).state is Boxed,
            old(self).wf(),
        ensures
            *final(self) == old(self).spec_scheduled(),
            final(self).wf(),
            final(self).handle_live(),
    {
        self.state = WorkState::Scheduled;
    }

    /// Record one trampoline run: unbox, invoke the work, drop the box,
    /// delete the task's own scheduling resource.
    pub fn trampoline_ran(&mut self)
        requires
            old(self).state is Scheduled,
            old(self).wf(),
        ensures
            *final(self) == old(self).spec_exited(),
            final(self).wf(),
            !final(self).handle_live(),
    {
        self.state = WorkState::Exited;
        self.invoked = self.invoked + 1;
        self.freed = self.freed + 1;
    }
}

/// A spawn whose kernel call fails frees the boxed work exactly once and
/// never invokes it: no leak, no double-free, no trampoline run.
pub proof fn lemma_rejected_spawn_frees_work_once()
    ensures
        SpawnLifecycle::spec_initial().spec_rejected().freed == 1,
        SpawnLifecycle::spec_initial().spec_rejected().invoked == 0,
        !SpawnLifecycle::spec_initial().spec_rejected().handle_live(),
{
}

/// A spawn the kernel accepts invokes the work's body exactly once, frees
/// the box exactly once, and leaves no live handle once the work has
/// returned: the task deleted itself, so no handle operation may follow.
pub proof fn lemma_accepted_spawn_runs_work_once()
    ensures
        SpawnLifecycle::spec_initial().spec_scheduled().spec_exited().invoked == 1,
        SpawnLifecycle::spec_initial().spec_scheduled().spec_exited().freed == 1,
        SpawnLifecycle::spec_initial().spec_scheduled().handle_live(),
        !SpawnLifecycle::spec_initial().spec_scheduled().spec_exited().handle_live(),
{
}

} // verus!
