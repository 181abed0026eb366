//! Completion handles: inspecting a finished operation and moving its result,
//! exactly once, into a handle of its own.
use vstd::prelude::*;

use crate::arena::{lemma_take_then_insert, Arena};
use crate::bridge::{handle_or_record_error, insert_buffer, insert_resource, record_error, release_resource, Bridge};
use crate::codes::{
    COMPLETION_COPY, COMPLETION_LIST, COMPLETION_LISTER_NEXT, COMPLETION_OPEN_LISTER, COMPLETION_OPEN_READER, COMPLETION_OPEN_WRITER, COMPLETION_READ, COMPLETION_READER_NEXT, COMPLETION_STAT, COMPLETION_WRITER_FINISH, MAX_BUFFER_LENGTH, MAX_GENERATION, MAX_TRANSFER_CHUNK, SCALAR_ERROR, STATUS_OK,
};
use crate::error::{error_code, BridgeError, ErrorModel};
use crate::handle::handle_generation;
use crate::labels::{ResourceKind, TypeLabel};
use crate::metadata::{metadata_snapshot_bytes, odm1_bytes, odm1_length, time_ok};
use crate::resources::{
    completion_failure, completion_kind, Completion, EntrySnapshot, ListerState, ReadStreamState, Resource, WriterState,
};

verus! {

/// The completion `h` names in `a`, if it names one.
pub open spec fn completion_at(a: &Arena, h: u32) -> Option<Completion> {
    match a.lookup(h) {
        Some(Resource::Completion(c)) => Some(c),
        _ => None,
    }
}

/// The value of an optional error.
pub open spec fn model_of(e: Option<BridgeError>) -> Option<ErrorModel> {
    match e {
        Some(x) => Some(x@),
        None => None,
    }
}

/// Whether a successful completion carries more bytes than its handle may hold.
pub open spec fn oversized(c: Completion) -> bool {
    match c {
        Completion::Read(Ok(b)) => b@.len() > MAX_BUFFER_LENGTH,
        Completion::ReadStreamNext(Ok(Some(b))) => b@.len() > MAX_TRANSFER_CHUNK,
        _ => false,
    }
}

/// Why taking the completion `h` names as a successful `expected_kind` result
/// is refused, if it is; `needs_replacement` asks for room for a replacement handle.
pub open spec fn take_refusal(a: &Arena, h: u32, expected_kind: u32, needs_replacement: bool) -> Option<ErrorModel> {
    match a.access_error(h, ResourceKind::Completion) {
        Some(e) => Some(e@),
        None => {
            let c = completion_at(a, h)->0;
            if completion_kind(c) != expected_kind {
                Some(
                    ErrorModel::WrongResourceType {
                        handle: h,
                        expected: TypeLabel::Completion(expected_kind),
                        actual: TypeLabel::Completion(completion_kind(c)),
                    },
                )
            } else if completion_failure(c) is Some {
                model_of(completion_failure(c))
            } else if oversized(c) {
                Some(ErrorModel::BufferTooLarge)
            } else if needs_replacement && !a.spec_can_insert() && handle_generation(h)
                == MAX_GENERATION {
                Some(ErrorModel::HandleLimit)
            } else {
                None
            }
        },
    }
}

/// The label of a completion that is not a next completion.
pub open spec fn non_next_label(kind: u32) -> TypeLabel {
    if kind == COMPLETION_READ || kind == COMPLETION_LIST {
        TypeLabel::Completion(kind)
    } else {
        TypeLabel::NonNextCompletion
    }
}

/// What inspecting the next completion `h` names reports: end or value, or the
/// error it fails with.
pub open spec fn end_report(a: &Arena, h: u32) -> Result<bool, ErrorModel> {
    match a.access_error(h, ResourceKind::Completion) {
        Some(e) => Err(e@),
        None => match completion_at(a, h)->0 {
            Completion::ReadStreamNext(Ok(v)) => Ok(v is None),
            Completion::ListerNext(Ok(v)) => Ok(v is None),
            Completion::ReadStreamNext(Err(e)) => Err(e@),
            Completion::ListerNext(Err(e)) => Err(e@),
            c => Err(
                ErrorModel::WrongResourceType {
                    handle: h,
                    expected: TypeLabel::NextCompletion,
                    actual: non_next_label(completion_kind(c)),
                },
            ),
        },
    }
}

/// Builds the error for a completion of another kind than expected.
pub fn wrong_completion_type(handle: u32, expected: u32, actual: u32) -> (e: BridgeError)
    ensures
        e == (BridgeError::WrongResourceType {
            handle,
            expected: TypeLabel::Completion(expected),
            actual: TypeLabel::Completion(actual),
        }),
{
    BridgeError::WrongResourceType {
        handle,
        expected: TypeLabel::Completion(expected),
        actual: TypeLabel::Completion(actual),
    }
}

impl Bridge {
    /// `later` is this bridge with an error of value `m` recorded as the last error.
    pub open spec fn records_model(&self, later: &Bridge, m: ErrorModel) -> bool {
        &&& later.arena == self.arena
        &&& self.same_settings(later)
        &&& later.last_error is Some
        &&& later.last_error->0@ == m
    }
}

/// Reports whether a next completion is the end of its stream (`true`) or a
/// value (`false`), without consuming it; a failed next completion gives back
/// its error, and any other completion is of the wrong type.
pub fn completion_is_end_value(state: &Bridge, handle: u32) -> (res: Result<bool, BridgeError>)
    requires
        state.wf(),
    ensures
        match res {
            Ok(end) => end_report(&state.arena, handle) == Ok::<bool, ErrorModel>(end),
            Err(e) => end_report(&state.arena, handle) == Err::<bool, ErrorModel>(e@),
        },
        match state.arena.access_error(handle, ResourceKind::Completion) {
            Some(e) => res == Err::<bool, BridgeError>(e),
            None => match completion_at(&state.arena, handle)->0 {
                Completion::ReadStreamNext(Ok(v)) => res == Ok::<bool, BridgeError>(v is None),
                Completion::ListerNext(Ok(v)) => res == Ok::<bool, BridgeError>(v is None),
                Completion::ReadStreamNext(Err(e)) => res is Err && res->Err_0@ == e@,
                Completion::ListerNext(Err(e)) => res is Err && res->Err_0@ == e@,
                c => res == Err::<bool, BridgeError>(
                    BridgeError::WrongResourceType {
                        handle,
                        expected: TypeLabel::NextCompletion,
                        actual: non_next_label(completion_kind(c)),
                    },
                ),
            },
        },
{
    match state.arena.typed(handle, ResourceKind::Completion) {
        Ok(Resource::Completion(c)) => match c {
            Completion::ReadStreamNext(Ok(v)) => Ok(v.is_none()),
            Completion::ListerNext(Ok(v)) => Ok(v.is_none()),
            Completion::ReadStreamNext(Err(e)) => Err(e.duplicate()),
            Completion::ListerNext(Err(e)) => Err(e.duplicate()),
            other => {
                let kind = other.kind();
                let actual = if kind == COMPLETION_READ || kind == COMPLETION_LIST {
                    TypeLabel::Completion(kind)
                } else {
                    TypeLabel::NonNextCompletion
                };
                Err(BridgeError::WrongResourceType { handle, expected: TypeLabel::NextCompletion, actual })
            },
        },
        Ok(_) => Err(BridgeError::InvalidHandle { handle }),
        Err(e) => Err(e),
    }
}

/// Removes the completion `handle` names if it is a successful result of
/// `expected_kind` that fits its handle limits, and, when `needs_replacement`
/// is set, only if a replacement handle can be inserted afterwards. Any
/// refusal leaves the completion where it is.
pub fn take_successful_completion(
    state: &mut Bridge,
    handle: u32,
    expected_kind: u32,
    needs_replacement: bool,
) -> (res: Result<Completion, BridgeError>)
    requires
        old(state).wf(),
    ensures
        final(state).wf(),
        old(state).arena_step(final(state)),
        match take_refusal(&old(state).arena, handle, expected_kind, needs_replacement) {
            Some(m) => res is Err && res->Err_0@ == m && *final(state) == *old(state),
            None => {
                &&& res is Ok
                &&& completion_at(&old(state).arena, handle) == Some(res->Ok_0)
                &&& old(state).arena.removed(
                    &final(state).arena,
                    handle,
                    Resource::Completion(res->Ok_0),
                )
                &&& needs_replacement ==> final(state).arena.spec_can_insert()
            },
        },
{
    let refusal = match state.arena.typed(handle, ResourceKind::Completion) {
        Ok(Resource::Completion(c)) => {
            let actual = c.kind();
            if actual != expected_kind {
                Some(wrong_completion_type(handle, expected_kind, actual))
            } else {
                match c.error() {
                    Some(e) => Some(e.duplicate()),
                    None => {
                        let too_large = match c {
                            Completion::Read(Ok(b)) => b.len() > MAX_BUFFER_LENGTH,
                            Completion::ReadStreamNext(Ok(Some(b))) => b.len() > MAX_TRANSFER_CHUNK,
                            _ => false,
                        };
                        if too_large {
                            Some(BridgeError::BufferTooLarge)
                        } else {
                            None
                        }
                    },
                }
            }
        },
        Ok(_) => Some(BridgeError::InvalidHandle { handle }),
        Err(e) => Some(e),
    };
    if let Some(e) = refusal {
        return Err(e);
    }
    if needs_replacement {
        if let Err(e) = state.arena.ensure_insert_capacity_after_take(handle, ResourceKind::Completion) {
            return Err(e);
        }
    }
    match state.arena.take(handle, ResourceKind::Completion) {
        Ok(Resource::Completion(c)) => Ok(c),
        Ok(_) => Err(BridgeError::InvalidHandle { handle }),
        Err(e) => Err(e),
    }
}

impl Bridge {
    /// Returns a completion's operation kind, or `0` after recording a failure.
    pub fn completion_kind(&mut self, handle: u32) -> (kind: u32)
        requires
            old(self).wf(),
        ensures
            final(self).wf(),
            match old(self).arena.access_error(handle, ResourceKind::Completion) {
                Some(e) => kind == 0 && old(self).records(final(self), e),
                None => kind == completion_kind(completion_at(&old(self).arena, handle)->0)
                    && *final(self) == *old(self),
            },
    {
        let result = match self.arena.typed(handle, ResourceKind::Completion) {
            Ok(Resource::Completion(c)) => Ok(c.kind()),
            Ok(_) => Ok(0),
            Err(e) => Err(e),
        };
        match result {
            Ok(kind) => kind,
            Err(e) => {
                record_error(self, e);
                0
            },
        }
    }

    /// Returns a completion's status: `0` for success, else its error's code.
    /// An invalid handle's error code is returned (and recorded) instead.
    pub fn completion_status(&mut self, handle: u32) -> (code: u32)
        requires
            old(self).wf(),
        ensures
            final(self).wf(),
            match old(self).arena.access_error(handle, ResourceKind::Completion) {
                Some(e) => code == error_code(e@) && old(self).records(final(self), e),
                None => *final(self) == *old(self) && match completion_failure(
                    completion_at(&old(self).arena, handle)->0,
                ) {
                    Some(e) => code == error_code(e@),
                    None => code == STATUS_OK,
                },
            },
    {
        let result = match self.arena.typed(handle, ResourceKind::Completion) {
            Ok(Resource::Completion(c)) => Ok(
                match c.error() {
                    Some(e) => e.code(),
                    None => STATUS_OK,
                },
            ),
            Ok(_) => Ok(0),
            Err(e) => Err(e),
        };
        match result {
            Ok(code) => code,
            Err(e) => record_error(self, e),
        }
    }

    /// Inspects a next completion without consuming it: `1` at the end, `0` for
    /// a value, `-1` after recording a failure.
    pub fn completion_is_end(&mut self, handle: u32) -> (answer: i32)
        requires
            old(self).wf(),
        ensures
            final(self).wf(),
            match end_report(&old(self).arena, handle) {
                Ok(end) => answer == (if end {
                    1i32
                } else {
                    0i32
                }) && *final(self) == *old(self),
                Err(m) => answer == SCALAR_ERROR && old(self).records_model(final(self), m),
            },
    {
        match completion_is_end_value(self, handle) {
            Ok(end) => if end {
                1
            } else {
                0
            },
            Err(e) => {
                record_error(self, e);
                SCALAR_ERROR
            },
        }
    }

    /// Releases a completion and any result it still owns.
    pub fn completion_release(&mut self, handle: u32) -> (code: u32)
        requires
            old(self).wf(),
        ensures
            final(self).wf(),
            match old(self).arena.access_error(handle, ResourceKind::Completion) {
                None => code == STATUS_OK && old(self).arena_step(final(self)) && old(self).arena.removed(&final(self).arena, handle, old(self).arena.lookup(handle)->0),
                Some(e) => code == error_code(e@) && old(self).records(final(self), e),
            },
    {
        release_resource(self, handle, ResourceKind::Completion)
    }

    /// Moves a successful read (or a read-stream chunk) into a buffer handle.
    ///
    /// An end-of-stream completion is consumed and yields `0` without an error.
    /// Returns `0` after recording a failure, which leaves the completion in place.
    pub fn completion_take_buffer(&mut self, handle: u32) -> (buffer: u32)
        requires
            old(self).wf(),
        ensures
            final(self).wf(),
            match old(self).arena.access_error(handle, ResourceKind::Completion) {
                Some(e) => buffer == 0 && old(self).records(final(self), e),
                None => {
                    let c = completion_at(&old(self).arena, handle)->0;
                    if completion_kind(c) == COMPLETION_READ {
                        match take_refusal(&old(self).arena, handle, COMPLETION_READ, true) {
                            Some(m) => buffer == 0 && old(self).records_model(final(self), m),
                            None => buffer != 0 && old(self).arena_step(final(self)) && (c matches Completion::Read(
                                Ok(b),
                            ) && old(self).arena.exchanged(
                                &final(self).arena,
                                handle,
                                buffer,
                                Resource::Buffer(b),
                            )),
                        }
                    } else if completion_kind(c) == COMPLETION_READER_NEXT {
                        match c {
                            Completion::ReadStreamNext(Err(e)) => buffer == 0 && old(self).records_model(final(self), e@),
                            Completion::ReadStreamNext(Ok(None)) => buffer == 0 && old(self).arena_step(final(self)) && old(self).arena.removed(
                                &final(self).arena,
                                handle,
                                Resource::Completion(c),
                            ),
                            Completion::ReadStreamNext(Ok(Some(b))) => match take_refusal(
                                &old(self).arena,
                                handle,
                                COMPLETION_READER_NEXT,
                                true,
                            ) {
                                Some(m) => buffer == 0 && old(self).records_model(final(self), m),
                                None => buffer != 0 && old(self).arena_step(final(self))
                                    && old(self).arena.exchanged(
                                    &final(self).arena,
                                    handle,
                                    buffer,
                                    Resource::Buffer(b),
                                ),
                            },
                            _ => false,
                        }
                    } else {
                        buffer == 0 && old(self).records(
                            final(self),
                            BridgeError::WrongResourceType {
                                handle,
                                expected: TypeLabel::Completion(COMPLETION_READ),
                                actual: TypeLabel::Completion(completion_kind(c)),
                            },
                        )
                    }
                },
            },
    {
        let kind = match self.arena.typed(handle, ResourceKind::Completion) {
            Ok(Resource::Completion(c)) => c.kind(),
            Ok(_) => 0,
            Err(e) => {
                record_error(self, e);
                return 0;
            },
        };
        if kind == COMPLETION_READ {
            let ghost a0 = self.arena;
            match take_successful_completion(self, handle, COMPLETION_READ, true) {
                Ok(Completion::Read(Ok(b))) => {
                    let ghost a1 = self.arena;
                    let ghost r = Resource::Buffer(b);
                    let result = insert_buffer(self, b);
                    proof {
                        if let Ok(k) = result {
                            lemma_take_then_insert(&a0, &a1, &self.arena, handle, a0.lookup(handle)->0, k, r);
                        }
                    }
                    handle_or_record_error(self, result)
                },
                Ok(_) => 0,
                Err(e) => {
                    record_error(self, e);
                    0
                },
            }
        } else if kind == COMPLETION_READER_NEXT {
            let end = match completion_is_end_value(self, handle) {
                Ok(end) => end,
                Err(e) => {
                    record_error(self, e);
                    return 0;
                },
            };
            let ghost a0 = self.arena;
            match take_successful_completion(self, handle, COMPLETION_READER_NEXT, !end) {
                Ok(Completion::ReadStreamNext(Ok(Some(b)))) => {
                    let ghost a1 = self.arena;
                    let ghost r = Resource::Buffer(b);
                    let result = insert_buffer(self, b);
                    proof {
                        if let Ok(k) = result {
                            lemma_take_then_insert(&a0, &a1, &self.arena, handle, a0.lookup(handle)->0, k, r);
                        }
                    }
                    handle_or_record_error(self, result)
                },
                Ok(_) => 0,
                Err(e) => {
                    record_error(self, e);
                    0
                },
            }
        } else {
            record_error(self, wrong_completion_type(handle, COMPLETION_READ, kind));
            0
        }
    }
}

impl Bridge {
    /// Moves a successful stat, copy or writer-finish result into a metadata
    /// handle; returns `0` after recording a failure, which leaves the completion
    /// in place.
    pub fn completion_take_metadata(&mut self, handle: u32) -> (metadata: u32)
        requires
            old(self).wf(),
        ensures
            final(self).wf(),
            match old(self).arena.access_error(handle, ResourceKind::Completion) {
                Some(e) => metadata == 0 && old(self).records(final(self), e),
                None => {
                    let c = completion_at(&old(self).arena, handle)->0;
                    let kind = completion_kind(c);
                    if kind == COMPLETION_STAT || kind == COMPLETION_COPY || kind
                        == COMPLETION_WRITER_FINISH {
                        match take_refusal(&old(self).arena, handle, kind, true) {
                            Some(m) => metadata == 0 && old(self).records_model(final(self), m),
                            None => metadata != 0 && old(self).arena_step(final(self)) && match c {
                                Completion::Stat(Ok(m)) => old(self).arena.exchanged(
                                    &final(self).arena,
                                    handle,
                                    metadata,
                                    Resource::Metadata(m),
                                ),
                                Completion::Copy(Ok(m)) => old(self).arena.exchanged(
                                    &final(self).arena,
                                    handle,
                                    metadata,
                                    Resource::Metadata(m),
                                ),
                                Completion::WriterFinish(Ok(m)) => old(self).arena.exchanged(
                                    &final(self).arena,
                                    handle,
                                    metadata,
                                    Resource::Metadata(m),
                                ),
                                _ => false,
                            },
                        }
                    } else {
                        metadata == 0 && old(self).records(
                            final(self),
                            BridgeError::WrongResourceType {
                                handle,
                                expected: TypeLabel::Completion(COMPLETION_STAT),
                                actual: TypeLabel::Completion(kind),
                            },
                        )
                    }
                },
            },
    {
        let kind = match self.arena.typed(handle, ResourceKind::Completion) {
            Ok(Resource::Completion(c)) => c.kind(),
            Ok(_) => 0,
            Err(e) => {
                record_error(self, e);
                return 0;
            },
        };
        if kind != COMPLETION_STAT && kind != COMPLETION_COPY && kind != COMPLETION_WRITER_FINISH {
            record_error(self, wrong_completion_type(handle, COMPLETION_STAT, kind));
            return 0;
        }
        let ghost a0 = self.arena;
        let m = match take_successful_completion(self, handle, kind, true) {
            Ok(Completion::Stat(Ok(m))) => m,
            Ok(Completion::Copy(Ok(m))) => m,
            Ok(Completion::WriterFinish(Ok(m))) => m,
            Ok(_) => {
                return 0;
            },
            Err(e) => {
                record_error(self, e);
                return 0;
            },
        };
        let ghost a1 = self.arena;
        let ghost r = Resource::Metadata(m);
        let result = self.arena.insert(Resource::Metadata(m));
        proof {
            if let Ok(k) = result {
                lemma_take_then_insert(&a0, &a1, &self.arena, handle, a0.lookup(handle)->0, k, r);
            }
        }
        handle_or_record_error(self, result)
    }

    /// Replaces a successful write, stat, copy or writer-finish completion with
    /// the `ODM1` snapshot of its metadata, in a buffer handle.
    ///
    /// Any encoding or replacement failure is recorded and leaves the completion
    /// valid; a failed completion reports its own error.
    pub fn completion_take_metadata_snapshot(&mut self, handle: u32) -> (snapshot: u32)
        requires
            old(self).wf(),
        ensures
            final(self).wf(),
            match old(self).arena.access_error(handle, ResourceKind::Completion) {
                Some(e) => snapshot == 0 && old(self).records(final(self), e),
                None => match completion_at(&old(self).arena, handle)->0 {
                    Completion::Write(Ok(m)) => self_snapshot_outcome(old(self), final(self), handle, snapshot, m),
                    Completion::Stat(Ok(m)) => self_snapshot_outcome(old(self), final(self), handle, snapshot, m),
                    Completion::Copy(Ok(m)) => self_snapshot_outcome(old(self), final(self), handle, snapshot, m),
                    Completion::WriterFinish(Ok(m)) => self_snapshot_outcome(old(self), final(self), handle, snapshot, m),
                    Completion::Write(Err(e)) => snapshot == 0 && old(self).records_model(final(self), e@),
                    Completion::Stat(Err(e)) => snapshot == 0 && old(self).records_model(final(self), e@),
                    Completion::Copy(Err(e)) => snapshot == 0 && old(self).records_model(final(self), e@),
                    Completion::WriterFinish(Err(e)) => snapshot == 0 && old(self).records_model(final(self), e@),
                    c => snapshot == 0 && old(self).records(
                        final(self),
                        BridgeError::WrongResourceType {
                            handle,
                            expected: TypeLabel::SuccessfulMetadataCompletion,
                            actual: TypeLabel::Completion(completion_kind(c)),
                        },
                    ),
                },
            },
    {
        let encoded = match self.arena.typed(handle, ResourceKind::Completion) {
            Ok(Resource::Completion(c)) => match c {
                Completion::Write(Ok(m)) => metadata_snapshot_bytes(m),
                Completion::Stat(Ok(m)) => metadata_snapshot_bytes(m),
                Completion::Copy(Ok(m)) => metadata_snapshot_bytes(m),
                Completion::WriterFinish(Ok(m)) => metadata_snapshot_bytes(m),
                Completion::Write(Err(e)) => Err(e.duplicate()),
                Completion::Stat(Err(e)) => Err(e.duplicate()),
                Completion::Copy(Err(e)) => Err(e.duplicate()),
                Completion::WriterFinish(Err(e)) => Err(e.duplicate()),
                other => Err(
                    BridgeError::WrongResourceType {
                        handle,
                        expected: TypeLabel::SuccessfulMetadataCompletion,
                        actual: TypeLabel::Completion(other.kind()),
                    },
                ),
            },
            Ok(_) => Err(BridgeError::InvalidHandle { handle }),
            Err(e) => Err(e),
        };
        let bytes = match encoded {
            Ok(bytes) => bytes,
            Err(e) => {
                record_error(self, e);
                return 0;
            },
        };
        if let Err(e) = self.arena.ensure_insert_capacity_after_take(handle, ResourceKind::Completion) {
            record_error(self, e);
            return 0;
        }
        let ghost a0 = self.arena;
        let taken = self.arena.take(handle, ResourceKind::Completion);
        let ghost a1 = self.arena;
        let ghost r = Resource::Buffer(bytes);
        let result = self.arena.insert(Resource::Buffer(bytes));
        proof {
            if let Ok(k) = result {
                lemma_take_then_insert(&a0, &a1, &self.arena, handle, a0.lookup(handle)->0, k, r);
            }
        }
        handle_or_record_error(self, result)
    }
}

/// A metadata snapshot take of `m` from `handle`: the snapshot replaces the
/// completion, or the failure is recorded and nothing else changes.
pub open spec fn self_snapshot_outcome(before: &Bridge, after: &Bridge, handle: u32, snapshot: u32, m: crate::metadata::MetadataRecord) -> bool {
    if !time_ok(m) {
        snapshot == 0 && before.records(after, BridgeError::LengthOverflow)
    } else if odm1_length(m) > MAX_BUFFER_LENGTH {
        snapshot == 0 && before.records(after, BridgeError::BufferTooLarge)
    } else if !before.arena.spec_can_insert() && handle_generation(handle) == MAX_GENERATION {
        snapshot == 0 && (before.records(after, BridgeError::HandleLimit) || before.records(after, BridgeError::AllocationFailed))
    } else if snapshot == 0 {
        before.records(after, BridgeError::AllocationFailed)
    } else {
        &&& before.arena_step(after)
        &&& after.arena.lookup(snapshot) matches Some(Resource::Buffer(b))
        &&& b@ == odm1_bytes(m)
        &&& before.arena.exchanged(&after.arena, handle, snapshot, after.arena.lookup(snapshot)->0)
    }
}

impl Bridge {
    /// Moves a successful open-read-stream result into a read-stream handle, open and bound
    /// to no operation yet; returns `0` after recording a failure, which leaves
    /// the completion in place.
    pub fn completion_take_read_stream(&mut self, handle: u32) -> (taken: u32)
        requires
            old(self).wf(),
        ensures
            final(self).wf(),
            match take_refusal(&old(self).arena, handle, COMPLETION_OPEN_READER, true) {
                Some(m) => taken == 0 && old(self).records_model(final(self), m),
                None => taken != 0 && old(self).arena_step(final(self)) && (completion_at(
                    &old(self).arena,
                    handle,
                ) matches Some(Completion::OpenReadStream(Ok(inner))) && old(self).arena.exchanged(
                    &final(self).arena,
                    handle,
                    taken,
                    Resource::ReadStream(ReadStreamState::Open(inner, 0)),
                )),
            },
    {
        let ghost a0 = self.arena;
        let inner = match take_successful_completion(self, handle, COMPLETION_OPEN_READER, true) {
            Ok(Completion::OpenReadStream(Ok(inner))) => inner,
            Ok(_) => {
                return 0;
            },
            Err(e) => {
                record_error(self, e);
                return 0;
            },
        };
        let ghost a1 = self.arena;
        let ghost r = Resource::ReadStream(ReadStreamState::Open(inner, 0));
        let result = insert_resource(self, Resource::ReadStream(ReadStreamState::Open(inner, 0)));
        proof {
            if let Ok(k) = result {
                lemma_take_then_insert(&a0, &a1, &self.arena, handle, a0.lookup(handle)->0, k, r);
            }
        }
        handle_or_record_error(self, result)
    }

    /// Moves a successful open-writer result into a writer handle, open and bound
    /// to no operation yet; returns `0` after recording a failure, which leaves
    /// the completion in place.
    pub fn completion_take_writer(&mut self, handle: u32) -> (taken: u32)
        requires
            old(self).wf(),
        ensures
            final(self).wf(),
            match take_refusal(&old(self).arena, handle, COMPLETION_OPEN_WRITER, true) {
                Some(m) => taken == 0 && old(self).records_model(final(self), m),
                None => taken != 0 && old(self).arena_step(final(self)) && (completion_at(
                    &old(self).arena,
                    handle,
                ) matches Some(Completion::OpenWriter(Ok(inner))) && old(self).arena.exchanged(
                    &final(self).arena,
                    handle,
                    taken,
                    Resource::Writer(WriterState::Open(inner, 0)),
                )),
            },
    {
        let ghost a0 = self.arena;
        let inner = match take_successful_completion(self, handle, COMPLETION_OPEN_WRITER, true) {
            Ok(Completion::OpenWriter(Ok(inner))) => inner,
            Ok(_) => {
                return 0;
            },
            Err(e) => {
                record_error(self, e);
                return 0;
            },
        };
        let ghost a1 = self.arena;
        let ghost r = Resource::Writer(WriterState::Open(inner, 0));
        let result = insert_resource(self, Resource::Writer(WriterState::Open(inner, 0)));
        proof {
            if let Ok(k) = result {
                lemma_take_then_insert(&a0, &a1, &self.arena, handle, a0.lookup(handle)->0, k, r);
            }
        }
        handle_or_record_error(self, result)
    }

    /// Moves a successful open-lister result into a lister handle, open and bound
    /// to no operation yet; returns `0` after recording a failure, which leaves
    /// the completion in place.
    pub fn completion_take_lister(&mut self, handle: u32) -> (taken: u32)
        requires
            old(self).wf(),
        ensures
            final(self).wf(),
            match take_refusal(&old(self).arena, handle, COMPLETION_OPEN_LISTER, true) {
                Some(m) => taken == 0 && old(self).records_model(final(self), m),
                None => taken != 0 && old(self).arena_step(final(self)) && (completion_at(
                    &old(self).arena,
                    handle,
                ) matches Some(Completion::OpenLister(Ok(inner))) && old(self).arena.exchanged(
                    &final(self).arena,
                    handle,
                    taken,
                    Resource::Lister(ListerState::Open(inner, 0)),
                )),
            },
    {
        let ghost a0 = self.arena;
        let inner = match take_successful_completion(self, handle, COMPLETION_OPEN_LISTER, true) {
            Ok(Completion::OpenLister(Ok(inner))) => inner,
            Ok(_) => {
                return 0;
            },
            Err(e) => {
                record_error(self, e);
                return 0;
            },
        };
        let ghost a1 = self.arena;
        let ghost r = Resource::Lister(ListerState::Open(inner, 0));
        let result = insert_resource(self, Resource::Lister(ListerState::Open(inner, 0)));
        proof {
            if let Ok(k) = result {
                lemma_take_then_insert(&a0, &a1, &self.arena, handle, a0.lookup(handle)->0, k, r);
            }
        }
        handle_or_record_error(self, result)
    }

    /// Moves a successful list (or one lister step) into an entry-list handle.
    ///
    /// The end of a lister is consumed and yields `0` without an error. Returns
    /// `0` after recording a failure, which leaves the completion in place.
    pub fn completion_take_entry_list(&mut self, handle: u32) -> (entries: u32)
        requires
            old(self).wf(),
        ensures
            final(self).wf(),
            match old(self).arena.access_error(handle, ResourceKind::Completion) {
                Some(e) => entries == 0 && old(self).records(final(self), e),
                None => {
                    let c = completion_at(&old(self).arena, handle)->0;
                    if completion_kind(c) == COMPLETION_LIST {
                        match take_refusal(&old(self).arena, handle, COMPLETION_LIST, true) {
                            Some(m) => entries == 0 && old(self).records_model(final(self), m),
                            None => entries != 0 && old(self).arena_step(final(self)) && (c matches Completion::List(
                                Ok(list),
                            ) && old(self).arena.exchanged(
                                &final(self).arena,
                                handle,
                                entries,
                                Resource::EntryList(list),
                            )),
                        }
                    } else if completion_kind(c) == COMPLETION_LISTER_NEXT {
                        match c {
                            Completion::ListerNext(Err(e)) => entries == 0 && old(self).records_model(final(self), e@),
                            Completion::ListerNext(Ok(None)) => entries == 0 && old(self).arena_step(final(self)) && old(self).arena.removed(
                                &final(self).arena,
                                handle,
                                Resource::Completion(c),
                            ),
                            Completion::ListerNext(Ok(Some(entry))) => match take_refusal(
                                &old(self).arena,
                                handle,
                                COMPLETION_LISTER_NEXT,
                                true,
                            ) {
                                Some(m) => entries == 0 && old(self).records_model(final(self), m),
                                None => entries != 0 && old(self).arena_step(final(self))
                                    && (final(self).arena.lookup(entries) matches Some(Resource::EntryList(list))
                                    && list@ == seq![entry] && old(self).arena.exchanged(
                                    &final(self).arena,
                                    handle,
                                    entries,
                                    Resource::EntryList(list),
                                )),
                            },
                            _ => false,
                        }
                    } else {
                        entries == 0 && old(self).records(
                            final(self),
                            BridgeError::WrongResourceType {
                                handle,
                                expected: TypeLabel::Completion(COMPLETION_LIST),
                                actual: TypeLabel::Completion(completion_kind(c)),
                            },
                        )
                    }
                },
            },
    {
        let kind = match self.arena.typed(handle, ResourceKind::Completion) {
            Ok(Resource::Completion(c)) => c.kind(),
            Ok(_) => 0,
            Err(e) => {
                record_error(self, e);
                return 0;
            },
        };
        if kind == COMPLETION_LIST {
            let ghost a0 = self.arena;
            match take_successful_completion(self, handle, COMPLETION_LIST, true) {
                Ok(Completion::List(Ok(list))) => {
                    let ghost a1 = self.arena;
                    let ghost r = Resource::EntryList(list);
                    let result = self.arena.insert(Resource::EntryList(list));
                    proof {
                        if let Ok(k) = result {
                            lemma_take_then_insert(&a0, &a1, &self.arena, handle, a0.lookup(handle)->0, k, r);
                        }
                    }
                    handle_or_record_error(self, result)
                },
                Ok(_) => 0,
                Err(e) => {
                    record_error(self, e);
                    0
                },
            }
        } else if kind == COMPLETION_LISTER_NEXT {
            let end = match completion_is_end_value(self, handle) {
                Ok(end) => end,
                Err(e) => {
                    record_error(self, e);
                    return 0;
                },
            };
            let ghost a0 = self.arena;
            match take_successful_completion(self, handle, COMPLETION_LISTER_NEXT, !end) {
                Ok(Completion::ListerNext(Ok(Some(entry)))) => {
                    let ghost a1 = self.arena;
                    let mut list: Vec<EntrySnapshot> = Vec::new();
                    list.push(entry);
                    let ghost r = Resource::EntryList(list);
                    let result = self.arena.insert(Resource::EntryList(list));
                    proof {
                        if let Ok(k) = result {
                            lemma_take_then_insert(&a0, &a1, &self.arena, handle, a0.lookup(handle)->0, k, r);
                        }
                    }
                    handle_or_record_error(self, result)
                },
                Ok(_) => 0,
                Err(e) => {
                    record_error(self, e);
                    0
                },
            }
        } else {
            record_error(self, wrong_completion_type(handle, COMPLETION_LIST, kind));
            0
        }
    }

    /// Moves a failed completion's error into an error handle; returns `0` after
    /// recording a failure, which leaves the completion in place.
    pub fn completion_take_error(&mut self, handle: u32) -> (error: u32)
        requires
            old(self).wf(),
        ensures
            final(self).wf(),
            match old(self).arena.access_error(handle, ResourceKind::Completion) {
                Some(e) => error == 0 && old(self).records(final(self), e),
                None => match completion_failure(completion_at(&old(self).arena, handle)->0) {
                    None => error == 0 && old(self).records(
                        final(self),
                        BridgeError::WrongResourceType {
                            handle,
                            expected: TypeLabel::FailedCompletion,
                            actual: TypeLabel::SuccessfulCompletion,
                        },
                    ),
                    Some(e) => if !old(self).arena.spec_can_insert() && handle_generation(handle)
                        == MAX_GENERATION {
                        error == 0 && old(self).records(final(self), BridgeError::HandleLimit)
                    } else {
                        error != 0 && old(self).arena_step(final(self)) && old(self).arena.exchanged(&final(self).arena, handle, error, Resource::Error(e))
                    },
                },
            },
    {
        let failed = match self.arena.typed(handle, ResourceKind::Completion) {
            Ok(Resource::Completion(c)) => c.error().is_some(),
            Ok(_) => false,
            Err(e) => {
                record_error(self, e);
                return 0;
            },
        };
        if !failed {
            record_error(
                self,
                BridgeError::WrongResourceType {
                    handle,
                    expected: TypeLabel::FailedCompletion,
                    actual: TypeLabel::SuccessfulCompletion,
                },
            );
            return 0;
        }
        if let Err(e) = self.arena.ensure_insert_capacity_after_take(handle, ResourceKind::Completion) {
            record_error(self, e);
            return 0;
        }
        let ghost a0 = self.arena;
        let e = match self.arena.take(handle, ResourceKind::Completion) {
            Ok(Resource::Completion(c)) => match c {
                Completion::Write(Err(e)) => e,
                Completion::Read(Err(e)) => e,
                Completion::Stat(Err(e)) => e,
                Completion::CreateDir(Err(e)) => e,
                Completion::Delete(Err(e)) => e,
                Completion::List(Err(e)) => e,
                Completion::Copy(Err(e)) => e,
                Completion::Rename(Err(e)) => e,
                Completion::OpenReadStream(Err(e)) => e,
                Completion::ReadStreamNext(Err(e)) => e,
                Completion::OpenWriter(Err(e)) => e,
                Completion::WriterWrite(Err(e)) => e,
                Completion::WriterFinish(Err(e)) => e,
                Completion::WriterAbort(Err(e)) => e,
                Completion::OpenLister(Err(e)) => e,
                Completion::ListerNext(Err(e)) => e,
                _ => {
                    return 0;
                },
            },
            _ => {
                return 0;
            },
        };
        let ghost a1 = self.arena;
        let ghost r = Resource::Error(e);
        let result = self.arena.insert(Resource::Error(e));
        proof {
            if let Ok(k) = result {
                lemma_take_then_insert(&a0, &a1, &self.arena, handle, a0.lookup(handle)->0, k, r);
            }
        }
        handle_or_record_error(self, result)
    }
}

} // verus!
