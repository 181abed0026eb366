//! Stateful read streams, writers and listers: reserving one step at a time.
use vstd::prelude::*;

use crate::arena::{lemma_progress_transitive, lemma_replaced_progress};
use crate::bridge::{allocate_resource_operation, release_resource, Bridge};
use crate::codes::STATUS_OK;
use crate::error::error_code;
use crate::error::BridgeError;
use crate::labels::ResourceKind;
use crate::metadata::MetadataRecord;
use crate::resources::{
    Completion, EntrySnapshot, ListerState, ListerUpdate, ReadStreamCursor, ReadStreamState, ReadStreamUpdate, Resource, ResourceLease, ResourceUpdate, Task, WriterState, WriterUpdate,
};

verus! {

/// Reserves one step on the read stream `handle` names: the read stream becomes busy with a
/// fresh operation token and a new pending task holds the lease for it.
///
/// Fails after teardown, when no handle is left, when tokens run out, with the
/// access error, with `ResourceBusy` while another step is in flight, and with
/// `ResourceClosed` once the read stream is finished; a token once drawn is not given back.
pub fn reserve_read_stream_next(state: &mut Bridge, handle: u32) -> (res: Result<
    (u32, ResourceLease, ReadStreamCursor),
    BridgeError,
>)
    requires
        old(state).wf(),
    ensures
        final(state).wf(),
        final(state).last_error == old(state).last_error,
        final(state).torn_down == old(state).torn_down,
        final(state).force_pending_for_canary == old(state).force_pending_for_canary,
        final(state).forced_pending_poll_count == old(state).forced_pending_poll_count,
        old(state).torn_down ==> res == Err::<(u32, ResourceLease, ReadStreamCursor), BridgeError>(
            BridgeError::TornDown,
        ) && *final(state) == *old(state),
        !old(state).torn_down && !old(state).arena.spec_can_insert() ==> res == Err::<
            (u32, ResourceLease, ReadStreamCursor),
            BridgeError,
        >(BridgeError::HandleLimit) && *final(state) == *old(state),
        !old(state).torn_down && old(state).arena.spec_can_insert()
            && old(state).next_resource_operation == u64::MAX ==> res == Err::<
            (u32, ResourceLease, ReadStreamCursor),
            BridgeError,
        >(BridgeError::LengthOverflow) && *final(state) == *old(state),
        !old(state).torn_down && old(state).arena.spec_can_insert()
            && old(state).next_resource_operation < u64::MAX ==> {
            let operation = (old(state).next_resource_operation + 1) as u64;
            &&& final(state).next_resource_operation == operation
            &&& match old(state).arena.access_error(handle, ResourceKind::ReadStream) {
                Some(e) => res == Err::<(u32, ResourceLease, ReadStreamCursor), BridgeError>(e)
                    && final(state).arena == old(state).arena,
                None => match old(state).arena.lookup(handle)->0 {
                    Resource::ReadStream(ReadStreamState::Open(inner, _)) => res matches Ok(
                        (task, lease, got),
                    ) && {
                        &&& got == inner
                        &&& lease == ResourceLease {
                            handle,
                            kind: ResourceKind::ReadStream,
                            operation,
                        }
                        &&& task != handle
                        &&& final(state).arena.lookup(handle) == Some(
                            Resource::ReadStream(ReadStreamState::Busy(operation)),
                        )
                        &&& old(state).arena.lookup(task) is None
                        &&& final(state).arena.lookup(task) == Some(
                            Resource::Task(Task::Pending(Some(lease))),
                        )
                        &&& old(state).arena.same_except2(&final(state).arena, handle, task)
                        &&& old(state).arena.progressed_to(&final(state).arena)
                        &&& final(state).arena.live == old(state).arena.live + 1
                    },
                    Resource::ReadStream(ReadStreamState::Busy(_)) => res == Err::<
                        (u32, ResourceLease, ReadStreamCursor),
                        BridgeError,
                    >(BridgeError::ResourceBusy { handle }) && final(state).arena == old(state).arena,
                    _ => res == Err::<(u32, ResourceLease, ReadStreamCursor), BridgeError>(
                        BridgeError::ResourceClosed { handle },
                    ) && final(state).arena == old(state).arena,
                },
            }
        },
{
    if state.torn_down {
        return Err(BridgeError::TornDown);
    }
    if !state.arena.can_insert() {
        return Err(BridgeError::HandleLimit);
    }
    let operation = match allocate_resource_operation(state) {
        Ok(op) => op,
        Err(e) => {
            return Err(e);
        },
    };
    match state.arena.typed(handle, ResourceKind::ReadStream) {
        Ok(Resource::ReadStream(ReadStreamState::Open(_, _))) => {},
        Ok(Resource::ReadStream(ReadStreamState::Busy(_))) => {
            return Err(BridgeError::ResourceBusy { handle });
        },
        Ok(_) => {
            return Err(BridgeError::ResourceClosed { handle });
        },
        Err(e) => {
            return Err(e);
        },
    }
    let ghost a0 = state.arena;
    let previous = state.arena.replace(handle, Resource::ReadStream(ReadStreamState::Busy(operation)));
    let ghost a1 = state.arena;
    proof {
        lemma_replaced_progress(&a0, &a1, handle, Resource::ReadStream(ReadStreamState::Busy(operation)));
    }
    match previous {
        Resource::ReadStream(ReadStreamState::Open(inner, _)) => {
            let lease = ResourceLease { handle, kind: ResourceKind::ReadStream, operation };
            let result = state.arena.insert(Resource::Task(Task::Pending(Some(lease))));
            proof {
                if let Ok(task) = result {
                    lemma_progress_transitive(&a0, &a1, &state.arena);
                    assert(task != handle);
                    assert(state.arena.lookup(handle) == a1.lookup(handle));
                }
            }
            match result {
                Ok(task) => Ok((task, lease, inner)),
                Err(e) => Err(e),
            }
        },
        _ => Err(BridgeError::ResourceClosed { handle }),
    }
}

/// Reserves one step on the writer `handle` names: the writer becomes busy with a
/// fresh operation token and a new pending task holds the lease for it.
///
/// Fails after teardown, when no handle is left, when tokens run out, with the
/// access error, with `ResourceBusy` while another step is in flight, and with
/// `ResourceClosed` once the writer is finished; a token once drawn is not given back.
pub fn reserve_writer_call(state: &mut Bridge, handle: u32) -> (res: Result<
    (u32, ResourceLease, opendal::Writer),
    BridgeError,
>)
    requires
        old(state).wf(),
    ensures
        final(state).wf(),
        final(state).last_error == old(state).last_error,
        final(state).torn_down == old(state).torn_down,
        final(state).force_pending_for_canary == old(state).force_pending_for_canary,
        final(state).forced_pending_poll_count == old(state).forced_pending_poll_count,
        old(state).torn_down ==> res == Err::<(u32, ResourceLease, opendal::Writer), BridgeError>(
            BridgeError::TornDown,
        ) && *final(state) == *old(state),
        !old(state).torn_down && !old(state).arena.spec_can_insert() ==> res == Err::<
            (u32, ResourceLease, opendal::Writer),
            BridgeError,
        >(BridgeError::HandleLimit) && *final(state) == *old(state),
        !old(state).torn_down && old(state).arena.spec_can_insert()
            && old(state).next_resource_operation == u64::MAX ==> res == Err::<
            (u32, ResourceLease, opendal::Writer),
            BridgeError,
        >(BridgeError::LengthOverflow) && *final(state) == *old(state),
        !old(state).torn_down && old(state).arena.spec_can_insert()
            && old(state).next_resource_operation < u64::MAX ==> {
            let operation = (old(state).next_resource_operation + 1) as u64;
            &&& final(state).next_resource_operation == operation
            &&& match old(state).arena.access_error(handle, ResourceKind::Writer) {
                Some(e) => res == Err::<(u32, ResourceLease, opendal::Writer), BridgeError>(e)
                    && final(state).arena == old(state).arena,
                None => match old(state).arena.lookup(handle)->0 {
                    Resource::Writer(WriterState::Open(inner, _)) => res matches Ok(
                        (task, lease, got),
                    ) && {
                        &&& got == inner
                        &&& lease == ResourceLease {
                            handle,
                            kind: ResourceKind::Writer,
                            operation,
                        }
                        &&& task != handle
                        &&& final(state).arena.lookup(handle) == Some(
                            Resource::Writer(WriterState::Busy(operation)),
                        )
                        &&& old(state).arena.lookup(task) is None
                        &&& final(state).arena.lookup(task) == Some(
                            Resource::Task(Task::Pending(Some(lease))),
                        )
                        &&& old(state).arena.same_except2(&final(state).arena, handle, task)
                        &&& old(state).arena.progressed_to(&final(state).arena)
                        &&& final(state).arena.live == old(state).arena.live + 1
                    },
                    Resource::Writer(WriterState::Busy(_)) => res == Err::<
                        (u32, ResourceLease, opendal::Writer),
                        BridgeError,
                    >(BridgeError::ResourceBusy { handle }) && final(state).arena == old(state).arena,
                    _ => res == Err::<(u32, ResourceLease, opendal::Writer), BridgeError>(
                        BridgeError::ResourceClosed { handle },
                    ) && final(state).arena == old(state).arena,
                },
            }
        },
{
    if state.torn_down {
        return Err(BridgeError::TornDown);
    }
    if !state.arena.can_insert() {
        return Err(BridgeError::HandleLimit);
    }
    let operation = match allocate_resource_operation(state) {
        Ok(op) => op,
        Err(e) => {
            return Err(e);
        },
    };
    match state.arena.typed(handle, ResourceKind::Writer) {
        Ok(Resource::Writer(WriterState::Open(_, _))) => {},
        Ok(Resource::Writer(WriterState::Busy(_))) => {
            return Err(BridgeError::ResourceBusy { handle });
        },
        Ok(_) => {
            return Err(BridgeError::ResourceClosed { handle });
        },
        Err(e) => {
            return Err(e);
        },
    }
    let ghost a0 = state.arena;
    let previous = state.arena.replace(handle, Resource::Writer(WriterState::Busy(operation)));
    let ghost a1 = state.arena;
    proof {
        lemma_replaced_progress(&a0, &a1, handle, Resource::Writer(WriterState::Busy(operation)));
    }
    match previous {
        Resource::Writer(WriterState::Open(inner, _)) => {
            let lease = ResourceLease { handle, kind: ResourceKind::Writer, operation };
            let result = state.arena.insert(Resource::Task(Task::Pending(Some(lease))));
            proof {
                if let Ok(task) = result {
                    lemma_progress_transitive(&a0, &a1, &state.arena);
                    assert(task != handle);
                    assert(state.arena.lookup(handle) == a1.lookup(handle));
                }
            }
            match result {
                Ok(task) => Ok((task, lease, inner)),
                Err(e) => Err(e),
            }
        },
        _ => Err(BridgeError::ResourceClosed { handle }),
    }
}

/// Reserves one step on the lister `handle` names: the lister becomes busy with a
/// fresh operation token and a new pending task holds the lease for it.
///
/// Fails after teardown, when no handle is left, when tokens run out, with the
/// access error, with `ResourceBusy` while another step is in flight, and with
/// `ResourceClosed` once the lister is finished; a token once drawn is not given back.
pub fn reserve_lister_next(state: &mut Bridge, handle: u32) -> (res: Result<
    (u32, ResourceLease, opendal::Lister),
    BridgeError,
>)
    requires
        old(state).wf(),
    ensures
        final(state).wf(),
        final(state).last_error == old(state).last_error,
        final(state).torn_down == old(state).torn_down,
        final(state).force_pending_for_canary == old(state).force_pending_for_canary,
        final(state).forced_pending_poll_count == old(state).forced_pending_poll_count,
        old(state).torn_down ==> res == Err::<(u32, ResourceLease, opendal::Lister), BridgeError>(
            BridgeError::TornDown,
        ) && *final(state) == *old(state),
        !old(state).torn_down && !old(state).arena.spec_can_insert() ==> res == Err::<
            (u32, ResourceLease, opendal::Lister),
            BridgeError,
        >(BridgeError::HandleLimit) && *final(state) == *old(state),
        !old(state).torn_down && old(state).arena.spec_can_insert()
            && old(state).next_resource_operation == u64::MAX ==> res == Err::<
            (u32, ResourceLease, opendal::Lister),
            BridgeError,
        >(BridgeError::LengthOverflow) && *final(state) == *old(state),
        !old(state).torn_down && old(state).arena.spec_can_insert()
            && old(state).next_resource_operation < u64::MAX ==> {
            let operation = (old(state).next_resource_operation + 1) as u64;
            &&& final(state).next_resource_operation == operation
            &&& match old(state).arena.access_error(handle, ResourceKind::Lister) {
                Some(e) => res == Err::<(u32, ResourceLease, opendal::Lister), BridgeError>(e)
                    && final(state).arena == old(state).arena,
                None => match old(state).arena.lookup(handle)->0 {
                    Resource::Lister(ListerState::Open(inner, _)) => res matches Ok(
                        (task, lease, got),
                    ) && {
                        &&& got == inner
                        &&& lease == ResourceLease {
                            handle,
                            kind: ResourceKind::Lister,
                            operation,
                        }
                        &&& task != handle
                        &&& final(state).arena.lookup(handle) == Some(
                            Resource::Lister(ListerState::Busy(operation)),
                        )
                        &&& old(state).arena.lookup(task) is None
                        &&& final(state).arena.lookup(task) == Some(
                            Resource::Task(Task::Pending(Some(lease))),
                        )
                        &&& old(state).arena.same_except2(&final(state).arena, handle, task)
                        &&& old(state).arena.progressed_to(&final(state).arena)
                        &&& final(state).arena.live == old(state).arena.live + 1
                    },
                    Resource::Lister(ListerState::Busy(_)) => res == Err::<
                        (u32, ResourceLease, opendal::Lister),
                        BridgeError,
                    >(BridgeError::ResourceBusy { handle }) && final(state).arena == old(state).arena,
                    _ => res == Err::<(u32, ResourceLease, opendal::Lister), BridgeError>(
                        BridgeError::ResourceClosed { handle },
                    ) && final(state).arena == old(state).arena,
                },
            }
        },
{
    if state.torn_down {
        return Err(BridgeError::TornDown);
    }
    if !state.arena.can_insert() {
        return Err(BridgeError::HandleLimit);
    }
    let operation = match allocate_resource_operation(state) {
        Ok(op) => op,
        Err(e) => {
            return Err(e);
        },
    };
    match state.arena.typed(handle, ResourceKind::Lister) {
        Ok(Resource::Lister(ListerState::Open(_, _))) => {},
        Ok(Resource::Lister(ListerState::Busy(_))) => {
            return Err(BridgeError::ResourceBusy { handle });
        },
        Ok(_) => {
            return Err(BridgeError::ResourceClosed { handle });
        },
        Err(e) => {
            return Err(e);
        },
    }
    let ghost a0 = state.arena;
    let previous = state.arena.replace(handle, Resource::Lister(ListerState::Busy(operation)));
    let ghost a1 = state.arena;
    proof {
        lemma_replaced_progress(&a0, &a1, handle, Resource::Lister(ListerState::Busy(operation)));
    }
    match previous {
        Resource::Lister(ListerState::Open(inner, _)) => {
            let lease = ResourceLease { handle, kind: ResourceKind::Lister, operation };
            let result = state.arena.insert(Resource::Task(Task::Pending(Some(lease))));
            proof {
                if let Ok(task) = result {
                    lemma_progress_transitive(&a0, &a1, &state.arena);
                    assert(task != handle);
                    assert(state.arena.lookup(handle) == a1.lookup(handle));
                }
            }
            match result {
                Ok(task) => Ok((task, lease, inner)),
                Err(e) => Err(e),
            }
        },
        _ => Err(BridgeError::ResourceClosed { handle }),
    }
}

/// Inspects a writer before finishing it: a finished writer's metadata is
/// returned again, an open writer yields `None` (it must be closed), a busy
/// writer is `ResourceBusy`, and an aborted or failed one is `ResourceClosed`.
pub fn writer_finish_state(state: &Bridge, handle: u32) -> (res: Result<
    Option<MetadataRecord>,
    BridgeError,
>)
    requires
        state.wf(),
    ensures
        match state.arena.access_error(handle, ResourceKind::Writer) {
            Some(e) => res == Err::<Option<MetadataRecord>, BridgeError>(e),
            None => match state.arena.lookup(handle)->0 {
                Resource::Writer(WriterState::Finished(m)) => res matches Ok(Some(copy))
                    && copy.same_as(&m),
                Resource::Writer(WriterState::Open(_, _)) => res matches Ok(None),
                Resource::Writer(WriterState::Busy(_)) => res == Err::<
                    Option<MetadataRecord>,
                    BridgeError,
                >(BridgeError::ResourceBusy { handle }),
                _ => res == Err::<Option<MetadataRecord>, BridgeError>(
                    BridgeError::ResourceClosed { handle },
                ),
            },
        },
{
    match state.arena.typed(handle, ResourceKind::Writer) {
        Ok(Resource::Writer(WriterState::Finished(m))) => Ok(Some(m.duplicate())),
        Ok(Resource::Writer(WriterState::Open(_, _))) => Ok(None),
        Ok(Resource::Writer(WriterState::Busy(_))) => Err(BridgeError::ResourceBusy { handle }),
        Ok(_) => Err(BridgeError::ResourceClosed { handle }),
        Err(e) => Err(e),
    }
}

/// Inspects a writer before aborting it: an aborted writer reports `true`
/// (aborting again succeeds), an open writer `false`, a busy writer is
/// `ResourceBusy`, and a finished or failed one is `ResourceClosed`.
pub fn writer_abort_state(state: &Bridge, handle: u32) -> (res: Result<bool, BridgeError>)
    requires
        state.wf(),
    ensures
        match state.arena.access_error(handle, ResourceKind::Writer) {
            Some(e) => res == Err::<bool, BridgeError>(e),
            None => match state.arena.lookup(handle)->0 {
                Resource::Writer(WriterState::Aborted) => res == Ok::<bool, BridgeError>(true),
                Resource::Writer(WriterState::Open(_, _)) => res == Ok::<bool, BridgeError>(false),
                Resource::Writer(WriterState::Busy(_)) => res == Err::<bool, BridgeError>(
                    BridgeError::ResourceBusy { handle },
                ),
                _ => res == Err::<bool, BridgeError>(BridgeError::ResourceClosed { handle }),
            },
        },
{
    match state.arena.typed(handle, ResourceKind::Writer) {
        Ok(Resource::Writer(WriterState::Aborted)) => Ok(true),
        Ok(Resource::Writer(WriterState::Open(_, _))) => Ok(false),
        Ok(Resource::Writer(WriterState::Busy(_))) => Err(BridgeError::ResourceBusy { handle }),
        Ok(_) => Err(BridgeError::ResourceClosed { handle }),
        Err(e) => Err(e),
    }
}

/// Settles one read-stream step from the chunk it produced: a chunk (with the
/// part of the buffer still to deliver) keeps the stream open, the end of the
/// stream ends it, and a failure fails it for good.
pub fn read_stream_step(
    cursor: ReadStreamCursor,
    chunk: Result<Option<(Vec<u8>, Option<opendal::Buffer>)>, BridgeError>,
) -> (settled: (ResourceUpdate, Completion))
    ensures
        match chunk {
            Ok(Some((bytes, remainder))) => settled.0 == ResourceUpdate::ReadStream(
                ReadStreamUpdate::Open(
                    ReadStreamCursor {
                        stream: cursor.stream,
                        pending: remainder,
                        max_chunk: cursor.max_chunk,
                    },
                ),
            ) && settled.1 == Completion::ReadStreamNext(Ok(Some(bytes))),
            Ok(None) => settled.0 == ResourceUpdate::ReadStream(ReadStreamUpdate::End)
                && settled.1 == Completion::ReadStreamNext(Ok(None)),
            Err(e) => settled.0 == ResourceUpdate::ReadStream(ReadStreamUpdate::Failed)
                && settled.1 == Completion::ReadStreamNext(Err(e)),
        },
{
    match chunk {
        Ok(Some((bytes, remainder))) => {
            let next = ReadStreamCursor {
                stream: cursor.stream,
                pending: remainder,
                max_chunk: cursor.max_chunk,
            };
            (
                ResourceUpdate::ReadStream(ReadStreamUpdate::Open(next)),
                Completion::ReadStreamNext(Ok(Some(bytes))),
            )
        },
        Ok(None) => (
            ResourceUpdate::ReadStream(ReadStreamUpdate::End),
            Completion::ReadStreamNext(Ok(None)),
        ),
        Err(e) => (
            ResourceUpdate::ReadStream(ReadStreamUpdate::Failed),
            Completion::ReadStreamNext(Err(e)),
        ),
    }
}

/// Settles one lister step: an entry keeps the lister open, the end ends it,
/// and a failure (of the listing or of snapshotting the entry) fails it.
pub fn lister_step(lister: opendal::Lister, next: Result<Option<EntrySnapshot>, BridgeError>) -> (settled: (
    ResourceUpdate,
    Completion,
))
    ensures
        match next {
            Ok(Some(entry)) => settled.0 == ResourceUpdate::Lister(ListerUpdate::Open(lister))
                && settled.1 == Completion::ListerNext(Ok(Some(entry))),
            Ok(None) => settled.0 == ResourceUpdate::Lister(ListerUpdate::End) && settled.1
                == Completion::ListerNext(Ok(None)),
            Err(e) => settled.0 == ResourceUpdate::Lister(ListerUpdate::Failed) && settled.1
                == Completion::ListerNext(Err(e)),
        },
{
    match next {
        Ok(Some(entry)) => (
            ResourceUpdate::Lister(ListerUpdate::Open(lister)),
            Completion::ListerNext(Ok(Some(entry))),
        ),
        Ok(None) => (ResourceUpdate::Lister(ListerUpdate::End), Completion::ListerNext(Ok(None))),
        Err(e) => (ResourceUpdate::Lister(ListerUpdate::Failed), Completion::ListerNext(Err(e))),
    }
}

/// Settles one writer write: success keeps the writer open, failure fails it.
pub fn writer_write_step(writer: opendal::Writer, result: Result<(), BridgeError>) -> (settled: (
    ResourceUpdate,
    Completion,
))
    ensures
        match result {
            Ok(()) => settled.0 == ResourceUpdate::Writer(WriterUpdate::Open(writer)) && settled.1
                == Completion::WriterWrite(Ok(())),
            Err(e) => settled.0 == ResourceUpdate::Writer(WriterUpdate::Failed) && settled.1
                == Completion::WriterWrite(Err(e)),
        },
{
    match result {
        Ok(()) => (ResourceUpdate::Writer(WriterUpdate::Open(writer)), Completion::WriterWrite(Ok(()))),
        Err(e) => (ResourceUpdate::Writer(WriterUpdate::Failed), Completion::WriterWrite(Err(e))),
    }
}

/// Settles a writer finish: the writer keeps a copy of the committed metadata
/// (so finishing again returns it), or fails.
pub fn writer_finish_step(result: Result<MetadataRecord, BridgeError>) -> (settled: (
    ResourceUpdate,
    Completion,
))
    ensures
        match result {
            Ok(m) => (settled.0 matches ResourceUpdate::Writer(WriterUpdate::Finished(copy))
                && copy.same_as(&m)) && settled.1 == Completion::WriterFinish(Ok(m)),
            Err(e) => settled.0 == ResourceUpdate::Writer(WriterUpdate::Failed) && settled.1
                == Completion::WriterFinish(Err(e)),
        },
{
    match result {
        Ok(m) => {
            let copy = m.duplicate();
            (ResourceUpdate::Writer(WriterUpdate::Finished(copy)), Completion::WriterFinish(Ok(m)))
        },
        Err(e) => (ResourceUpdate::Writer(WriterUpdate::Failed), Completion::WriterFinish(Err(e))),
    }
}

/// Settles a writer abort: success leaves the writer aborted, failure failed.
pub fn writer_abort_step(result: Result<(), BridgeError>) -> (settled: (ResourceUpdate, Completion))
    ensures
        match result {
            Ok(()) => settled.0 == ResourceUpdate::Writer(WriterUpdate::Aborted) && settled.1
                == Completion::WriterAbort(Ok(())),
            Err(e) => settled.0 == ResourceUpdate::Writer(WriterUpdate::Failed) && settled.1
                == Completion::WriterAbort(Err(e)),
        },
{
    match result {
        Ok(()) => (ResourceUpdate::Writer(WriterUpdate::Aborted), Completion::WriterAbort(Ok(()))),
        Err(e) => (ResourceUpdate::Writer(WriterUpdate::Failed), Completion::WriterAbort(Err(e))),
    }
}

impl Bridge {
    /// Releases a read stream; a step still in flight can never restore it.
    pub fn read_stream_release(&mut self, handle: u32) -> (code: u32)
        requires
            old(self).wf(),
        ensures
            final(self).wf(),
            match old(self).arena.access_error(handle, ResourceKind::ReadStream) {
                None => code == STATUS_OK && old(self).arena_step(final(self)) && old(self).arena.removed(
                    &final(self).arena,
                    handle,
                    old(self).arena.lookup(handle)->0,
                ),
                Some(e) => code == error_code(e@) && old(self).records(final(self), e),
            },
    {
        release_resource(self, handle, ResourceKind::ReadStream)
    }
    /// Releases a writer; a step still in flight can never restore it.
    pub fn writer_release(&mut self, handle: u32) -> (code: u32)
        requires
            old(self).wf(),
        ensures
            final(self).wf(),
            match old(self).arena.access_error(handle, ResourceKind::Writer) {
                None => code == STATUS_OK && old(self).arena_step(final(self)) && old(self).arena.removed(
                    &final(self).arena,
                    handle,
                    old(self).arena.lookup(handle)->0,
                ),
                Some(e) => code == error_code(e@) && old(self).records(final(self), e),
            },
    {
        release_resource(self, handle, ResourceKind::Writer)
    }
    /// Releases a lister; a step still in flight can never restore it.
    pub fn lister_release(&mut self, handle: u32) -> (code: u32)
        requires
            old(self).wf(),
        ensures
            final(self).wf(),
            match old(self).arena.access_error(handle, ResourceKind::Lister) {
                None => code == STATUS_OK && old(self).arena_step(final(self)) && old(self).arena.removed(
                    &final(self).arena,
                    handle,
                    old(self).arena.lookup(handle)->0,
                ),
                Some(e) => code == error_code(e@) && old(self).records(final(self), e),
            },
    {
        release_resource(self, handle, ResourceKind::Lister)
    }
}

} // verus!
