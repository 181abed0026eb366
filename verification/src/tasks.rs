//! Asynchronous task lifecycle: pending, ready, cancelled and consumed tasks,
//! and the leases that bind a task to one operation on a stateful resource.
use vstd::prelude::*;

use crate::arena::{lemma_progress_transitive, lemma_replaced_progress, Arena};
use crate::bridge::{allocate_resource_operation, buffer_insert_failure, insert_failure, insert_resource, record_error, Bridge};
use crate::codes::{MAX_BUFFER_LENGTH, STATUS_OK, TASK_CANCELLED, TASK_CONSUMED, TASK_PENDING, TASK_READY};
use crate::error::{error_code, BridgeError};
use crate::labels::ResourceKind;
use crate::resources::{
    resource_kind, spec_task_lease, task_lease, update_kind, Completion, ListerState, ListerUpdate, ReadStreamCursor, ReadStreamState, ReadStreamUpdate, Resource, ResourceLease, ResourceUpdate, Task, WriterState, WriterUpdate,
};

verus! {

/// The answer to a storage call that is polled once instead of awaited: its
/// output when the first poll finished it (`Some`), else `AsyncPending`.
pub fn single_poll_outcome<T>(polled: Option<T>) -> (res: Result<T, BridgeError>)
    ensures
        match polled {
            Some(output) => res == Ok::<T, BridgeError>(output),
            None => res == Err::<T, BridgeError>(BridgeError::AsyncPending),
        },
{
    match polled {
        Some(output) => Ok(output),
        None => Err(BridgeError::AsyncPending),
    }
}

/// Teardown is permanent: on a torn-down bridge no handle names anything, so
/// no old handle is valid again and a late completion finds no pending task
/// to publish into; and every new handle, a buffer of any allowed length
/// included, is refused with `TornDown`, whose code is 14.
pub proof fn law_teardown_is_permanent(state: &Bridge, h: u32, len: nat)
    requires
        state.wf(),
        state.torn_down,
    ensures
        state.arena.lookup(h) is None,
        state.arena.live == 0,
        task_at(&state.arena, h) is None,
        insert_failure(state) == Some(BridgeError::TornDown),
        len <= MAX_BUFFER_LENGTH ==> buffer_insert_failure(state, len) == Some(BridgeError::TornDown),
        error_code(BridgeError::TornDown@) == 14,
{
    crate::bridge::lemma_torn_down_owns_nothing(state, h);
}

/// The task `h` names in `a`, if it names one.
pub open spec fn task_at(a: &Arena, h: u32) -> Option<Task> {
    match a.lookup(h) {
        Some(Resource::Task(t)) => Some(t),
        _ => None,
    }
}

/// The scalar state code of a task.
pub open spec fn task_code(t: Task) -> u32 {
    match t {
        Task::Pending(_) => TASK_PENDING,
        Task::Ready(_, _) => TASK_READY,
        Task::Cancelled => TASK_CANCELLED,
        Task::Consumed => TASK_CONSUMED,
    }
}

/// The operation a stateful resource is bound to while it is open or busy.
pub open spec fn bound_operation(r: Resource) -> Option<u64> {
    match r {
        Resource::ReadStream(ReadStreamState::Open(_, op)) => Some(op),
        Resource::ReadStream(ReadStreamState::Busy(op)) => Some(op),
        Resource::Writer(WriterState::Open(_, op)) => Some(op),
        Resource::Writer(WriterState::Busy(op)) => Some(op),
        Resource::Lister(ListerState::Open(_, op)) => Some(op),
        Resource::Lister(ListerState::Busy(op)) => Some(op),
        _ => None,
    }
}

/// The operation a stateful resource is busy with.
pub open spec fn busy_operation(r: Resource) -> Option<u64> {
    match r {
        Resource::ReadStream(ReadStreamState::Busy(op)) => Some(op),
        Resource::Writer(WriterState::Busy(op)) => Some(op),
        Resource::Lister(ListerState::Busy(op)) => Some(op),
        _ => None,
    }
}

/// Whether `lease` still binds the stateful resource it names in `a`.
pub open spec fn lease_holds(a: &Arena, lease: ResourceLease) -> bool {
    &&& a.lookup(lease.handle) is Some
    &&& resource_kind(a.lookup(lease.handle)->0) == lease.kind
    &&& bound_operation(a.lookup(lease.handle)->0) == Some(lease.operation)
}

/// Whether the stateful resource `lease` names is busy with the lease's operation.
pub open spec fn lease_busy(a: &Arena, lease: ResourceLease) -> bool {
    &&& a.lookup(lease.handle) is Some
    &&& resource_kind(a.lookup(lease.handle)->0) == lease.kind
    &&& busy_operation(a.lookup(lease.handle)->0) == Some(lease.operation)
}

/// The terminal failed state of a stateful resource kind.
pub open spec fn failed_state(kind: ResourceKind) -> Resource {
    match kind {
        ResourceKind::ReadStream => Resource::ReadStream(ReadStreamState::Failed),
        ResourceKind::Writer => Resource::Writer(WriterState::Failed),
        _ => Resource::Lister(ListerState::Failed),
    }
}

/// The state a finished step leaves its resource in, bound to `operation` while open.
pub open spec fn updated_state(u: ResourceUpdate, operation: u64) -> Resource {
    match u {
        ResourceUpdate::ReadStream(ReadStreamUpdate::Open(c)) => Resource::ReadStream(
            ReadStreamState::Open(c, operation),
        ),
        ResourceUpdate::ReadStream(ReadStreamUpdate::End) => Resource::ReadStream(
            ReadStreamState::End,
        ),
        ResourceUpdate::ReadStream(ReadStreamUpdate::Failed) => Resource::ReadStream(
            ReadStreamState::Failed,
        ),
        ResourceUpdate::Writer(WriterUpdate::Open(w)) => Resource::Writer(
            WriterState::Open(w, operation),
        ),
        ResourceUpdate::Writer(WriterUpdate::Finished(m)) => Resource::Writer(
            WriterState::Finished(m),
        ),
        ResourceUpdate::Writer(WriterUpdate::Aborted) => Resource::Writer(WriterState::Aborted),
        ResourceUpdate::Writer(WriterUpdate::Failed) => Resource::Writer(WriterState::Failed),
        ResourceUpdate::Lister(ListerUpdate::Open(l)) => Resource::Lister(
            ListerState::Open(l, operation),
        ),
        ResourceUpdate::Lister(ListerUpdate::End) => Resource::Lister(ListerState::End),
        ResourceUpdate::Lister(ListerUpdate::Failed) => Resource::Lister(ListerState::Failed),
    }
}

/// Fails the stateful resource a lease names, if the lease still binds it;
/// a lease whose operation was superseded changes nothing.
pub fn terminalize_lease(arena: &mut Arena, lease: ResourceLease)
    requires
        old(arena).wf(),
    ensures
        final(arena).wf(),
        lease_holds(old(arena), lease) ==> old(arena).replaced(
            final(arena),
            lease.handle,
            failed_state(lease.kind),
        ),
        !lease_holds(old(arena), lease) ==> *final(arena) == *old(arena),
{
    let holds = match arena.typed(lease.handle, lease.kind) {
        Ok(r) => match r {
            Resource::ReadStream(ReadStreamState::Open(_, op)) => *op == lease.operation,
            Resource::ReadStream(ReadStreamState::Busy(op)) => *op == lease.operation,
            Resource::Writer(WriterState::Open(_, op)) => *op == lease.operation,
            Resource::Writer(WriterState::Busy(op)) => *op == lease.operation,
            Resource::Lister(ListerState::Open(_, op)) => *op == lease.operation,
            Resource::Lister(ListerState::Busy(op)) => *op == lease.operation,
            _ => false,
        },
        Err(_) => false,
    };
    if holds {
        let failed = match lease.kind {
            ResourceKind::ReadStream => Resource::ReadStream(ReadStreamState::Failed),
            ResourceKind::Writer => Resource::Writer(WriterState::Failed),
            _ => Resource::Lister(ListerState::Failed),
        };
        arena.replace(lease.handle, failed);
    }
}

/// A lease whose resource has moved on to another operation settles nothing:
/// once the resource is bound to a newer token, an older task can neither fail
/// it nor hand it a result.
pub proof fn lemma_superseded_lease_is_inert(a: &Arena, lease: ResourceLease, newer: u64)
    requires
        a.lookup(lease.handle) is Some,
        bound_operation(a.lookup(lease.handle)->0) == Some(newer),
        newer != lease.operation,
    ensures
        !lease_holds(a, lease),
        !lease_busy(a, lease),
{
}

impl Bridge {
    /// Returns a task's state code, or `0` after recording a failure.
    pub fn task_state(&mut self, handle: u32) -> (code: u32)
        requires
            old(self).wf(),
        ensures
            final(self).wf(),
            match old(self).arena.access_error(handle, ResourceKind::Task) {
                Some(e) => code == 0 && old(self).records(final(self), e),
                None => code == task_code(task_at(&old(self).arena, handle)->0) && *final(self)
                    == *old(self),
            },
    {
        let result = match self.arena.typed(handle, ResourceKind::Task) {
            Ok(Resource::Task(t)) => Ok(
                match t {
                    Task::Pending(_) => TASK_PENDING,
                    Task::Ready(_, _) => TASK_READY,
                    Task::Cancelled => TASK_CANCELLED,
                    Task::Consumed => TASK_CONSUMED,
                },
            ),
            Ok(_) => Ok(0),
            Err(e) => Err(e),
        };
        match result {
            Ok(code) => code,
            Err(e) => {
                record_error(self, e);
                0
            },
        }
    }

    /// Moves a ready task's completion into a new completion handle; the task
    /// becomes consumed, so a result is taken exactly once. Returns `0` after
    /// recording a failure.
    pub fn task_take(&mut self, handle: u32) -> (completion: u32)
        requires
            old(self).wf(),
        ensures
            final(self).wf(),
            !old(self).arena.spec_can_insert() ==> completion == 0 && old(self).records(
                final(self),
                BridgeError::HandleLimit,
            ),
            old(self).arena.spec_can_insert() ==> match old(self).arena.access_error(
                handle,
                ResourceKind::Task,
            ) {
                Some(e) => completion == 0 && old(self).records(final(self), e),
                None => match task_at(&old(self).arena, handle)->0 {
                    Task::Ready(c, _) => {
                        &&& completion != 0
                        &&& completion != handle
                        &&& old(self).arena_step(final(self))
                        &&& task_at(&final(self).arena, handle) == Some(Task::Consumed)
                        &&& old(self).arena.lookup(completion) is None
                        &&& final(self).arena.lookup(completion) == Some(Resource::Completion(c))
                        &&& old(self).arena.same_except2(&final(self).arena, handle, completion)
                        &&& old(self).arena.progressed_to(&final(self).arena)
                        &&& final(self).arena.live == old(self).arena.live + 1
                    },
                    Task::Consumed => completion == 0 && old(self).records(
                        final(self),
                        BridgeError::TaskConsumed { handle },
                    ),
                    _ => completion == 0 && old(self).records(
                        final(self),
                        BridgeError::TaskNotReady { handle },
                    ),
                },
            },
    {
        if !self.arena.can_insert() {
            record_error(self, BridgeError::HandleLimit);
            return 0;
        }
        let ready = match self.arena.typed(handle, ResourceKind::Task) {
            Ok(Resource::Task(Task::Ready(_, _))) => true,
            Ok(Resource::Task(Task::Consumed)) => {
                record_error(self, BridgeError::TaskConsumed { handle });
                return 0;
            },
            Ok(_) => false,
            Err(e) => {
                record_error(self, e);
                return 0;
            },
        };
        if !ready {
            record_error(self, BridgeError::TaskNotReady { handle });
            return 0;
        }
        let ghost a0 = self.arena;
        let previous = self.arena.replace(handle, Resource::Task(Task::Consumed));
        let ghost a1 = self.arena;
        proof {
            lemma_replaced_progress(&a0, &a1, handle, Resource::Task(Task::Consumed));
        }
        let completion = match previous {
            Resource::Task(Task::Ready(c, _)) => c,
            _ => Completion::CreateDir(Ok(())),
        };
        let ghost c = completion;
        let result = self.arena.insert(Resource::Completion(completion));
        proof {
            if let Ok(k) = result {
                lemma_progress_transitive(&a0, &a1, &self.arena);
                assert(k != handle);
            }
        }
        match result {
            Ok(k) => k,
            Err(e) => {
                record_error(self, e);
                0
            },
        }
    }
}

impl Bridge {
    /// Requests logical cancellation and returns a status code.
    ///
    /// A pending or ready task becomes cancelled, dropping any unclaimed result,
    /// and a stateful resource its lease still binds fails for good; cancelled
    /// and consumed tasks stay as they are.
    pub fn task_cancel(&mut self, handle: u32) -> (code: u32)
        requires
            old(self).wf(),
        ensures
            final(self).wf(),
            match old(self).arena.access_error(handle, ResourceKind::Task) {
                Some(e) => code == error_code(e@) && old(self).records(final(self), e),
                None => {
                    let t = task_at(&old(self).arena, handle)->0;
                    &&& code == STATUS_OK
                    &&& old(self).arena_step(final(self))
                    &&& old(self).arena.progressed_to(&final(self).arena)
                    &&& final(self).arena.live == old(self).arena.live
                    &&& task_at(&final(self).arena, handle) == Some(
                        match t {
                            Task::Pending(_) => Task::Cancelled,
                            Task::Ready(_, _) => Task::Cancelled,
                            _ => t,
                        },
                    )
                    &&& match spec_task_lease(t) {
                        Some(l) => {
                            &&& lease_holds(&old(self).arena, l) ==> final(self).arena.lookup(
                                l.handle,
                            ) == Some(failed_state(l.kind))
                            &&& old(self).arena.same_except2(&final(self).arena, handle, l.handle)
                            &&& !lease_holds(&old(self).arena, l) ==> old(self).arena.same_except(&final(self).arena, handle)
                        },
                        None => old(self).arena.same_except(&final(self).arena, handle),
                    }
                },
            },
    {
        let (lease, live) = match self.arena.typed(handle, ResourceKind::Task) {
            Ok(Resource::Task(t)) => (
                task_lease(t),
                match t {
                    Task::Pending(_) => true,
                    Task::Ready(_, _) => true,
                    _ => false,
                },
            ),
            Ok(_) => (None, false),
            Err(e) => {
                return record_error(self, e);
            },
        };
        let ghost a0 = self.arena;
        if let Some(l) = lease {
            terminalize_lease(&mut self.arena, l);
        }
        let ghost a1 = self.arena;
        proof {
            if let Some(l) = lease {
                if lease_holds(&a0, l) {
                    lemma_replaced_progress(&a0, &a1, l.handle, failed_state(l.kind));
                    assert(l.handle != handle);
                    assert(a1.lookup(handle) == a0.lookup(handle));
                }
            }
            assert(a0.progressed_to(&a1));
            assert(a1.valid(handle));
        }
        if live {
            self.arena.replace(handle, Resource::Task(Task::Cancelled));
            proof {
                lemma_replaced_progress(&a1, &self.arena, handle, Resource::Task(Task::Cancelled));
                lemma_progress_transitive(&a0, &a1, &self.arena);
            }
        }
        STATUS_OK
    }

    /// Releases a task and any unclaimed completion it owns, failing a stateful
    /// resource its lease still binds; returns a status code.
    pub fn task_release(&mut self, handle: u32) -> (code: u32)
        requires
            old(self).wf(),
        ensures
            final(self).wf(),
            match old(self).arena.access_error(handle, ResourceKind::Task) {
                Some(e) => code == error_code(e@) && old(self).records(final(self), e),
                None => {
                    let t = task_at(&old(self).arena, handle)->0;
                    &&& code == STATUS_OK
                    &&& old(self).arena_step(final(self))
                    &&& old(self).arena.progressed_to(&final(self).arena)
                    &&& final(self).arena.lookup(handle) is None
                    &&& final(self).arena.retired(handle)
                    &&& final(self).arena.live == old(self).arena.live - 1
                    &&& match spec_task_lease(t) {
                        Some(l) => {
                            &&& lease_holds(&old(self).arena, l) ==> final(self).arena.lookup(
                                l.handle,
                            ) == Some(failed_state(l.kind))
                            &&& old(self).arena.same_except2(&final(self).arena, handle, l.handle)
                            &&& !lease_holds(&old(self).arena, l) ==> old(self).arena.same_except(&final(self).arena, handle)
                        },
                        None => old(self).arena.same_except(&final(self).arena, handle),
                    }
                },
            },
    {
        let lease = match self.arena.typed(handle, ResourceKind::Task) {
            Ok(Resource::Task(t)) => task_lease(t),
            Ok(_) => None,
            Err(e) => {
                return record_error(self, e);
            },
        };
        let ghost a0 = self.arena;
        if let Some(l) = lease {
            terminalize_lease(&mut self.arena, l);
        }
        let ghost a1 = self.arena;
        proof {
            if let Some(l) = lease {
                if lease_holds(&a0, l) {
                    lemma_replaced_progress(&a0, &a1, l.handle, failed_state(l.kind));
                    assert(l.handle != handle);
                    assert(a1.lookup(handle) == a0.lookup(handle));
                }
            }
            assert(a0.progressed_to(&a1));
            assert(a1.valid(handle));
        }
        match self.arena.take(handle, ResourceKind::Task) {
            Ok(_) => {
                proof {
                    lemma_progress_transitive(&a0, &a1, &self.arena);
                }
                STATUS_OK
            },
            Err(e) => record_error(self, e),
        }
    }

    /// Stores a new pending task that no resource lease binds; fails after
    /// teardown or when no handle is left.
    pub fn start_task(&mut self) -> (res: Result<u32, BridgeError>)
        requires
            old(self).wf(),
        ensures
            final(self).wf(),
            old(self).arena_step(final(self)),
            match res {
                Ok(h) => !old(self).torn_down && old(self).arena.inserted(
                    &final(self).arena,
                    Resource::Task(Task::Pending(None)),
                    h,
                ),
                Err(e) => *final(self) == *old(self) && if old(self).torn_down {
                    e == BridgeError::TornDown
                } else {
                    e == BridgeError::HandleLimit && !old(self).arena.spec_can_insert()
                },
            },
    {
        insert_resource(self, Resource::Task(Task::Pending(None)))
    }

    /// Hands a finished operation's result to its task, if the task is still
    /// pending without a lease; otherwise (cancelled, consumed, released, torn
    /// down, or leased) the result is dropped and nothing changes.
    pub fn publish_task(&mut self, handle: u32, completion: Completion)
        requires
            old(self).wf(),
        ensures
            final(self).wf(),
            old(self).arena_step(final(self)),
            task_at(&old(self).arena, handle) == Some(Task::Pending(None)) ==> old(self).arena.replaced(&final(self).arena, handle, Resource::Task(Task::Ready(completion, None))),
            task_at(&old(self).arena, handle) != Some(Task::Pending(None)) ==> *final(self) == *old(self),
    {
        let pending = match self.arena.typed(handle, ResourceKind::Task) {
            Ok(Resource::Task(Task::Pending(None))) => true,
            _ => false,
        };
        if pending {
            self.arena.replace(handle, Resource::Task(Task::Ready(completion, None)));
        }
    }

    /// Hands a finished step on a stateful resource back to its task.
    ///
    /// Nothing changes unless the task is still pending under exactly `lease`
    /// and the update is for the leased kind. Then the resource takes the
    /// update's state only if it is still busy with the lease's operation, and
    /// the task becomes ready with `completion`.
    pub fn publish_resource_task(
        &mut self,
        task_handle: u32,
        lease: ResourceLease,
        update: ResourceUpdate,
        completion: Completion,
    )
        requires
            old(self).wf(),
        ensures
            final(self).wf(),
            old(self).arena_step(final(self)),
            ({
                let accepted = task_at(&old(self).arena, task_handle) == Some(
                    Task::Pending(Some(lease)),
                ) && update_kind(update) == lease.kind;
                &&& !accepted ==> *final(self) == *old(self)
                &&& accepted ==> {
                    &&& task_at(&final(self).arena, task_handle) == Some(
                        Task::Ready(completion, Some(lease)),
                    )
                    &&& lease_busy(&old(self).arena, lease) ==> final(self).arena.lookup(
                        lease.handle,
                    ) == Some(updated_state(update, lease.operation))
                    &&& lease_busy(&old(self).arena, lease) ==> old(self).arena.same_except2(
                        &final(self).arena,
                        task_handle,
                        lease.handle,
                    )
                    &&& !lease_busy(&old(self).arena, lease) ==> old(self).arena.same_except(
                        &final(self).arena,
                        task_handle,
                    )
                    &&& old(self).arena.progressed_to(&final(self).arena)
                    &&& final(self).arena.live == old(self).arena.live
                }
            }),
    {
        let pending = match self.arena.typed(task_handle, ResourceKind::Task) {
            Ok(Resource::Task(Task::Pending(Some(current)))) => *current == lease,
            _ => false,
        };
        if !pending || update.kind() != lease.kind {
            return;
        }
        let busy = match self.arena.typed(lease.handle, lease.kind) {
            Ok(Resource::ReadStream(ReadStreamState::Busy(op))) => *op == lease.operation,
            Ok(Resource::Writer(WriterState::Busy(op))) => *op == lease.operation,
            Ok(Resource::Lister(ListerState::Busy(op))) => *op == lease.operation,
            _ => false,
        };
        let ghost a0 = self.arena;
        let ghost u = update;
        if busy {
            let next = match update {
                ResourceUpdate::ReadStream(ReadStreamUpdate::Open(c)) => Resource::ReadStream(
                    ReadStreamState::Open(c, lease.operation),
                ),
                ResourceUpdate::ReadStream(ReadStreamUpdate::End) => Resource::ReadStream(
                    ReadStreamState::End,
                ),
                ResourceUpdate::ReadStream(ReadStreamUpdate::Failed) => Resource::ReadStream(
                    ReadStreamState::Failed,
                ),
                ResourceUpdate::Writer(WriterUpdate::Open(w)) => Resource::Writer(
                    WriterState::Open(w, lease.operation),
                ),
                ResourceUpdate::Writer(WriterUpdate::Finished(m)) => Resource::Writer(
                    WriterState::Finished(m),
                ),
                ResourceUpdate::Writer(WriterUpdate::Aborted) => Resource::Writer(
                    WriterState::Aborted,
                ),
                ResourceUpdate::Writer(WriterUpdate::Failed) => Resource::Writer(
                    WriterState::Failed,
                ),
                ResourceUpdate::Lister(ListerUpdate::Open(l)) => Resource::Lister(
                    ListerState::Open(l, lease.operation),
                ),
                ResourceUpdate::Lister(ListerUpdate::End) => Resource::Lister(ListerState::End),
                ResourceUpdate::Lister(ListerUpdate::Failed) => Resource::Lister(
                    ListerState::Failed,
                ),
            };
            self.arena.replace(lease.handle, next);
            proof {
                lemma_replaced_progress(&a0, &self.arena, lease.handle, updated_state(u, lease.operation));
                assert(lease.handle != task_handle);
                assert(self.arena.lookup(task_handle) == a0.lookup(task_handle));
            }
        }
        let ghost a1 = self.arena;
        proof {
            assert(a0.progressed_to(&a1));
            assert(a1.valid(task_handle));
        }
        self.arena.replace(task_handle, Resource::Task(Task::Ready(completion, Some(lease))));
        proof {
            lemma_replaced_progress(&a1, &self.arena, task_handle, Resource::Task(Task::Ready(completion, Some(lease))));
            lemma_progress_transitive(&a0, &a1, &self.arena);
        }
    }
}

} // verus!
