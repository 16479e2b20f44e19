use vstd::prelude::*;

use crate::errors::VkLdapError;

verus! {

/// Which of the two supported directory flows a task performs.
#[derive(Clone, Copy, Debug, PartialEq, Eq, Structural)]
pub enum DispatchMode {
    /// Authenticate by binding directly as the user.
    Bind,
    /// Bind as a service identity, search for the user's entry, then
    /// validate the user's credentials with a second bind.
    SearchThenBind,
}

/// Lifecycle of the background execution context.
#[derive(Clone, Copy, Debug, PartialEq, Eq, Structural)]
pub enum SchedulerPhase {
    /// The context has not been created yet (module load in progress).
    NotStarted,
    /// The context is running and accepts work.
    Ready,
    /// Teardown has begun; no task may be submitted any more.
    ShutDown,
}

/// One asynchronous authentication task, owned by the scheduler from
/// submission until the background loop takes it for execution.
#[derive(Debug)]
pub struct VkLdapTask {
    /// Submission order, for diagnostics.
    pub id: u64,
    pub username: String,
    pub password: String,
    pub mode: DispatchMode,
    /// Whether the flow extracts group names from the user's entry.
    pub want_groups: bool,
    /// Whether extracted group names are mapped to rule tokens.
    pub map_rules: bool,
}

/// The scheduler: readiness state plus the queue of submitted
/// authentication tasks awaiting the background execution context.
///
/// Administrative mutations take the synchronous path: the caller blocks
/// until the change is applied, so in this model they act on the context
/// directly and never appear in the queue. Only authentication work is
/// queued, which is what keeps it off the serving thread.
#[derive(Debug)]
pub struct VkScheduler {
    pub phase: SchedulerPhase,
    pub pending: Vec<VkLdapTask>,
    pub next_task_id: u64,
}

impl VkScheduler {
    /// True once the background execution context has started and has not
    /// yet begun shutdown.
    pub open spec fn is_ready_spec(&self) -> bool {
        self.phase is Ready
    }

    /// A scheduler before its background context exists.
    pub fn new() -> (s: Self)
        ensures
            s.phase is NotStarted,
            s.pending@ == Seq::<VkLdapTask>::empty(),
            s.next_task_id == 0,
    {
        let s = VkScheduler { phase: SchedulerPhase::NotStarted, pending: Vec::new(), next_task_id: 0 };
        proof {
            assert(s.pending@ =~= Seq::<VkLdapTask>::empty());
        }
        s
    }

    /// The background execution context has started: work is accepted.
    pub fn start(&mut self)
        ensures
            final(self).phase is Ready,
            final(self).pending == old(self).pending,
            final(self).next_task_id == old(self).next_task_id,
    {
        self.phase = SchedulerPhase::Ready;
    }

    /// Teardown has begun: readiness drops and stays down, so no further
    /// task can be submitted.
    pub fn begin_shutdown(&mut self)
        ensures
            final(self).phase is ShutDown,
            final(self).pending == old(self).pending,
            final(self).next_task_id == old(self).next_task_id,
    {
        self.phase = SchedulerPhase::ShutDown;
    }

    pub fn is_ready(&self) -> (r: bool)
        ensures
            r == self.is_ready_spec(),
    {
        match self.phase {
            SchedulerPhase::Ready => true,
            _ => false,
        }
    }

    /// Submit one authentication task. Fails fast when the background
    /// context is not ready, so the caller can defer to built-in
    /// authentication instead of hanging.
    pub fn submit_auth_task(
        &mut self,
        username: String,
        password: String,
        mode: DispatchMode,
        want_groups: bool,
        map_rules: bool,
    ) -> (r: Result<(), VkLdapError>)
        ensures
            !old(self).is_ready_spec() ==> r == Result::<(), VkLdapError>::Err(
                VkLdapError::SchedulerNotReady,
            ) && *final(self) == *old(self),
            old(self).is_ready_spec() ==> {
                &&& r is Ok
                &&& final(self).phase == old(self).phase
                &&& final(self).pending@ == old(self).pending@.push(
                    VkLdapTask {
                        id: old(self).next_task_id,
                        username,
                        password,
                        mode,
                        want_groups,
                        map_rules,
                    },
                )
                &&& final(self).next_task_id == if old(self).next_task_id < u64::MAX {
                    old(self).next_task_id + 1
                } else {
                    u64::MAX as int
                }
            },
    {
        if !self.is_ready() {
            return Result::Err(VkLdapError::SchedulerNotReady);
        }
        let id = self.next_task_id;
        self.pending.push(VkLdapTask { id, username, password, mode, want_groups, map_rules });
        if self.next_task_id < u64::MAX {
            self.next_task_id = self.next_task_id + 1;
        }
        Result::Ok(())
    }

    /// Hand the oldest pending task to the background loop. The task
    /// leaves the queue, so it is executed — and its result delivered —
    /// at most once.
    pub fn take_next_task(&mut self) -> (r: Option<VkLdapTask>)
        ensures
            old(self).pending@.len() == 0 ==> r is None && *final(self) == *old(self),
            old(self).pending@.len() > 0 ==> {
                &&& r == Option::Some(old(self).pending@[0])
                &&& final(self).pending@ == old(self).pending@.subrange(
                    1,
                    old(self).pending@.len() as int,
                )
                &&& final(self).phase == old(self).phase
                &&& final(self).next_task_id == old(self).next_task_id
            },
    {
        if self.pending.len() == 0 {
            return Option::None;
        }
        let t = self.pending.remove(0);
        proof {
            assert(self.pending@ =~= old(self).pending@.subrange(
                1,
                old(self).pending@.len() as int,
            ));
        }
        Option::Some(t)
    }
}

} // verus!
