//! The fixed-priority task set and its priority-ceiling locking discipline:
//! a task touching a shared resource runs at that resource's ceiling, the
//! highest priority of any task that touches it.
use vstd::prelude::*;

verus! {

/// The tasks and interrupt handlers of the control core.
#[derive(Debug, Clone, Copy, PartialEq, Eq, Structural)]
pub enum Task {
    /// Timer rollover interrupt.
    Overflow,
    /// Echo capture-edge interrupt.
    TimeCapture,
    /// Serial receive interrupt.
    ReceiveCommand,
    /// Periodic trigger pulse.
    Trigger,
    /// The navigation loop.
    Control,
}

/// The state shared between tasks.
#[derive(Debug, Clone, Copy, PartialEq, Eq, Structural)]
pub enum Resource {
    Command,
    Auto,
    OvCnt,
    Distance,
    Ic,
}

/// A task's priority; a higher number preempts a lower one.
pub open spec fn priority_of(t: Task) -> u8 {
    match t {
        Task::Overflow => 5,
        Task::TimeCapture => 4,
        Task::ReceiveCommand => 3,
        Task::Trigger => 2,
        Task::Control => 1,
    }
}

/// Whether a task touches a resource.
pub open spec fn uses(t: Task, r: Resource) -> bool {
    match t {
        Task::Overflow => r == Resource::Ic || r == Resource::OvCnt,
        Task::TimeCapture => r == Resource::Ic || r == Resource::OvCnt || r == Resource::Distance,
        Task::ReceiveCommand => r == Resource::Auto || r == Resource::Command,
        Task::Trigger => r == Resource::Distance,
        Task::Control => r == Resource::Auto || r == Resource::Command || r == Resource::Distance,
    }
}

/// A resource's ceiling: the highest priority among the tasks that use it.
pub open spec fn ceiling_of(r: Resource) -> u8 {
    match r {
        Resource::Command => 3,
        Resource::Auto => 3,
        Resource::OvCnt => 5,
        Resource::Distance => 4,
        Resource::Ic => 5,
    }
}

/// The ceiling is the highest priority of the resource's users, and one of
/// them runs at it.
pub proof fn lemma_ceiling_is_highest_user(r: Resource)
    ensures
        forall|t: Task| uses(t, r) ==> priority_of(t) <= ceiling_of(r),
        exists|t: Task| uses(t, r) && priority_of(t) == ceiling_of(r),
{
    let top = match r {
        Resource::Command => Task::ReceiveCommand,
        Resource::Auto => Task::ReceiveCommand,
        Resource::OvCnt => Task::Overflow,
        Resource::Distance => Task::TimeCapture,
        Resource::Ic => Task::Overflow,
    };
    assert(uses(top, r) && priority_of(top) == ceiling_of(r));
}

impl Task {
    /// The task's priority.
    pub fn priority(&self) -> (r: u8)
        ensures
            r == priority_of(*self),
    {
        match self {
            Task::Overflow => 5,
            Task::TimeCapture => 4,
            Task::ReceiveCommand => 3,
            Task::Trigger => 2,
            Task::Control => 1,
        }
    }

    /// Whether the task touches a resource.
    pub fn uses(&self, r: Resource) -> (b: bool)
        ensures
            b == uses(*self, r),
    {
        match self {
            Task::Overflow => r == Resource::Ic || r == Resource::OvCnt,
            Task::TimeCapture => r == Resource::Ic || r == Resource::OvCnt || r == Resource::Distance,
            Task::ReceiveCommand => r == Resource::Auto || r == Resource::Command,
            Task::Trigger => r == Resource::Distance,
            Task::Control => r == Resource::Auto || r == Resource::Command || r
                == Resource::Distance,
        }
    }
}

impl Resource {
    /// This resource's ceiling.
    pub fn ceiling(&self) -> (c: u8)
        ensures
            c == ceiling_of(*self),
    {
        match self {
            Resource::Command => 3,
            Resource::Auto => 3,
            Resource::OvCnt => 5,
            Resource::Distance => 4,
            Resource::Ic => 5,
        }
    }
}

/// The running priority of the processor and the priorities saved by the
/// locks now held, innermost last.
pub struct CeilingLock {
    pub running: u8,
    pub saved: Vec<u8>,
}

impl CeilingLock {
    /// The priority levels never go down while locks nest.
    pub open spec fn wf(&self) -> bool {
        &&& forall|i: int| 0 <= i < self.saved@.len() ==> #[trigger] self.saved@[i] <= self.running
        &&& forall|i: int, j: int|
            0 <= i <= j < self.saved@.len() ==> #[trigger] self.saved@[i] <= #[trigger] self.saved@[j]
    }

    /// The lock state of a task that starts at its own priority.
    pub fn enter(t: Task) -> (r: CeilingLock)
        ensures
            r.wf(),
            r.running == priority_of(t),
            r.saved@.len() == 0,
    {
        CeilingLock { running: t.priority(), saved: Vec::new() }
    }

    /// Whether a task may start now: only one above the running priority.
    pub fn can_preempt(&self, t: Task) -> (b: bool)
        ensures
            b == (priority_of(t) > self.running),
    {
        t.priority() > self.running
    }

    /// Takes a resource: saves the running priority and raises it to the
    /// resource's ceiling, if that is higher.
    pub fn lock(&mut self, r: Resource)
        requires
            old(self).wf(),
        ensures
            final(self).wf(),
            final(self).running == if old(self).running >= ceiling_of(r) {
                old(self).running
            } else {
                ceiling_of(r)
            },
            final(self).saved@ == old(self).saved@.push(old(self).running),
    {
        let c = r.ceiling();
        self.saved.push(self.running);
        if c > self.running {
            self.running = c;
        }
    }

    /// Releases the innermost lock and restores the priority it saved.
    pub fn unlock(&mut self)
        requires
            old(self).wf(),
            old(self).saved@.len() > 0,
        ensures
            final(self).wf(),
            final(self).running == old(self).saved@.last(),
            final(self).saved@ == old(self).saved@.drop_last(),
    {
        let p = self.saved.pop().unwrap();
        self.running = p;
        proof {
            let s = old(self).saved@;
            assert forall|i: int| 0 <= i < self.saved@.len() implies #[trigger] self.saved@[i]
                <= self.running by {
                assert(self.saved@[i] == s[i]);
                assert(s[i] <= s[s.len() - 1]);
            }
        }
    }
}

/// Mutual exclusion: while a resource is held, no task that uses it can
/// preempt; a task that does not use it and ranks above its ceiling still can.
pub proof fn lemma_lock_excludes_users(l: CeilingLock, held: CeilingLock, r: Resource, t: Task)
    requires
        l.wf(),
        held.running == if l.running >= ceiling_of(r) {
            l.running
        } else {
            ceiling_of(r)
        },
    ensures
        uses(t, r) ==> priority_of(t) <= held.running,
        priority_of(t) > ceiling_of(r) && priority_of(t) > l.running ==> priority_of(t)
            > held.running,
{
    lemma_ceiling_is_highest_user(r);
}

} // verus!
