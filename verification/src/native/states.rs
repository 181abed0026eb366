//! The lifecycles of the native binding's stateful handles (listers, random
//! readers, read streams and chunked writers) as transitions on their states.
//! The glue holds each state under a lock, runs the storage call between a
//! `begin` and a `finish` step, and drops any storage object handed back.
use vstd::prelude::*;
use vstd::string::StringSliceAdditionalSpecFns;

use crate::codes::{ERROR_RESOURCE_CLOSED, ERROR_UNEXPECTED};
use crate::native::abi::{STATUS_END, STATUS_ERROR, STATUS_OK, STATUS_PANIC};
use crate::native::failure::{binding_error, binding_failure, CallFailure, FailureModel};
use crate::native::whole_read::{checked_read_buffer, min_u64};
use crate::text::copy_bytes;

verus! {

/// The failure of a call on a handle that is closed.
pub open spec fn closed_failure(message: Seq<u8>) -> FailureModel {
    binding_failure(ERROR_RESOURCE_CLOSED, "ResourceClosed".spec_bytes(), message)
}

/// The failure of a call that found its handle's lock poisoned.
pub open spec fn poisoned_failure(message: Seq<u8>) -> FailureModel {
    binding_failure(ERROR_UNEXPECTED, "Unexpected".spec_bytes(), message)
}

/// What the storage side of a step produced.
pub enum StepResult<T> {
    /// A value (an entry, a chunk length, or nothing).
    Value(T),
    /// The end of the sequence.
    Finished,
    /// A failure, already converted.
    Failure(CallFailure),
    /// A panic, contained.
    Panic,
}

/// What a finished step hands back: the status, the value to hand out, the
/// failure to report, and the storage object to drop.
pub struct StepOutcome<T, S> {
    pub status: u32,
    pub value: Option<T>,
    pub failure: Option<CallFailure>,
    pub dropped: Option<S>,
}

/// The status a call ends with, given what its storage step produced.
pub open spec fn step_status<E>(step: StepResult<E>) -> u32 {
    match step {
        StepResult::Value(_) => STATUS_OK,
        StepResult::Finished => STATUS_END,
        StepResult::Failure(_) => STATUS_ERROR,
        StepResult::Panic => STATUS_PANIC,
    }
}

// ---------------------------------------------------------------- listers

/// The state of a lister handle.
pub enum ListerState<L> {
    Open(L),
    Exhausted,
    Closed,
}

/// The state of a lister while a `next` call that found it in state `s` runs.
pub open spec fn lister_started<L>(s: ListerState<L>) -> ListerState<L> {
    match s {
        ListerState::Closed => ListerState::Closed,
        _ => ListerState::Exhausted,
    }
}

/// The status a `next` call answers at once on a lister in state `s`
/// (`None` when the lister is open and the storage call runs).
pub open spec fn lister_early_status<L>(s: ListerState<L>) -> Option<u32> {
    match s {
        ListerState::Open(_) => None,
        ListerState::Exhausted => Some(STATUS_END),
        ListerState::Closed => Some(STATUS_ERROR),
    }
}

/// The state a lister is left in by the storage step of a `next` call.
pub open spec fn lister_settled<L, E>(inner: L, step: StepResult<E>) -> ListerState<L> {
    match step {
        StepResult::Value(_) => ListerState::Open(inner),
        _ => ListerState::Exhausted,
    }
}

/// Closes a lister: the state becomes `Closed` and an open lister is handed
/// back to be dropped.
pub fn close_lister_state<L>(state: &mut ListerState<L>) -> (open: Option<L>)
    ensures
        *final(state) is Closed,
        match *old(state) {
            ListerState::Open(l) => open == Some(l),
            _ => open is None,
        },
{
    let mut previous = ListerState::Closed;
    core::mem::swap(&mut previous, state);
    match previous {
        ListerState::Open(inner) => Some(inner),
        _ => None,
    }
}

/// Recovers a lister whose lock was poisoned: it becomes exhausted (so the
/// failure is reported once and later calls end), its open lister is handed
/// back to be dropped, and the failure returned.
pub fn lister_poisoned<L>(state: &mut ListerState<L>) -> (res: (Option<L>, CallFailure))
    ensures
        *final(state) is Exhausted,
        match *old(state) {
            ListerState::Open(l) => res.0 == Some(l),
            _ => res.0 is None,
        },
        res.1@ == poisoned_failure("lister state lock was poisoned".spec_bytes()),
{
    let mut previous = ListerState::Exhausted;
    core::mem::swap(&mut previous, state);
    let open = match previous {
        ListerState::Open(inner) => Some(inner),
        _ => None,
    };
    (open, binding_error(ERROR_UNEXPECTED, "Unexpected", copy_bytes("lister state lock was poisoned".as_bytes())))
}

/// How a `next` call on a lister starts.
pub enum ListerBegin<L> {
    /// The open lister, taken out while the storage call runs.
    Take(L),
    /// The lister is exhausted.
    End,
    /// The lister is closed.
    Closed(CallFailure),
}

/// Starts a `next` call: an open lister is taken out and the state marked
/// exhausted, so a panic during the call leaves a terminal state.
pub fn lister_next_begin<L>(state: &mut ListerState<L>) -> (begin: ListerBegin<L>)
    ensures
        *final(state) == lister_started(*old(state)),
        match begin {
            ListerBegin::Take(_) => lister_early_status(*old(state)) is None,
            ListerBegin::End => lister_early_status(*old(state)) == Some(STATUS_END),
            ListerBegin::Closed(_) => lister_early_status(*old(state)) == Some(STATUS_ERROR),
        },
        match *old(state) {
            ListerState::Open(l) => *final(state) is Exhausted && begin == ListerBegin::Take(l),
            ListerState::Exhausted => *final(state) is Exhausted && begin is End,
            ListerState::Closed => *final(state) is Closed && (begin matches ListerBegin::Closed(f)
                && f@ == closed_failure("lister is closed".spec_bytes())),
        },
{
    let mut current = ListerState::Exhausted;
    core::mem::swap(&mut current, state);
    match current {
        ListerState::Open(inner) => ListerBegin::Take(inner),
        ListerState::Exhausted => ListerBegin::End,
        ListerState::Closed => {
            *state = ListerState::Closed;
            ListerBegin::Closed(
                binding_error(ERROR_RESOURCE_CLOSED, "ResourceClosed", copy_bytes("lister is closed".as_bytes())),
            )
        },
    }
}

/// Finishes a `next` call with what the storage side produced: an entry puts
/// the lister back and is handed out; the end, a failure or a panic leave the
/// lister exhausted and hand it back to be dropped.
pub fn lister_next_finish<L, E>(state: &mut ListerState<L>, inner: L, step: StepResult<E>) -> (out:
    StepOutcome<E, L>)
    requires
        *old(state) is Exhausted,
    ensures
        *final(state) == lister_settled(inner, step),
        out.status == step_status(step),
        match step {
            StepResult::Value(e) => *final(state) == ListerState::Open(inner) && out.status == STATUS_OK
                && out.value == Some(e) && out.failure is None && out.dropped is None,
            StepResult::Finished => *final(state) is Exhausted && out.status == STATUS_END
                && out.value is None && out.failure is None && out.dropped == Some(inner),
            StepResult::Failure(f) => *final(state) is Exhausted && out.status == STATUS_ERROR
                && out.value is None && out.failure == Some(f) && out.dropped == Some(inner),
            StepResult::Panic => *final(state) is Exhausted && out.status == STATUS_PANIC
                && out.value is None && out.failure is None && out.dropped == Some(inner),
        },
{
    match step {
        StepResult::Value(e) => {
            *state = ListerState::Open(inner);
            StepOutcome { status: STATUS_OK, value: Some(e), failure: None, dropped: None }
        },
        StepResult::Finished => StepOutcome {
            status: STATUS_END,
            value: None,
            failure: None,
            dropped: Some(inner),
        },
        StepResult::Failure(f) => StepOutcome {
            status: STATUS_ERROR,
            value: None,
            failure: Some(f),
            dropped: Some(inner),
        },
        StepResult::Panic => StepOutcome {
            status: STATUS_PANIC,
            value: None,
            failure: None,
            dropped: Some(inner),
        },
    }
}

/// A lister that has ended, failed or panicked in a `next` call is
/// exhausted for good: its failure is reported by that call only, and every
/// later `next` call answers the end at once and leaves it exhausted.
pub proof fn lemma_lister_failure_is_reported_once<L, E>(inner: L, step: StepResult<E>)
    requires
        !(step is Value),
    ensures
        lister_settled(inner, step) is Exhausted,
        lister_early_status(lister_settled(inner, step)) == Some(STATUS_END),
        lister_started(lister_settled(inner, step)) == lister_settled(inner, step),
{
}

/// Exhausted and closed listers are final: a `next` call on one answers at
/// once (the end, or a closed failure) and leaves the state as it was.
pub proof fn lemma_lister_terminal_states_are_final<L>(s: ListerState<L>)
    requires
        !(s is Open),
    ensures
        lister_started(s) == s,
        s is Exhausted ==> lister_early_status(s) == Some(STATUS_END),
        s is Closed ==> lister_early_status(s) == Some(STATUS_ERROR),
{
}

// ---------------------------------------------------------------- readers

/// The state of a random-reader handle.
pub enum ReaderState<R> {
    Open(R),
    Closed,
}

/// Closes a reader: the state becomes `Closed` and an open reader is handed
/// back to be dropped.
pub fn close_reader_state<R>(state: &mut ReaderState<R>) -> (open: Option<R>)
    ensures
        *final(state) is Closed,
        match *old(state) {
            ReaderState::Open(r) => open == Some(r),
            ReaderState::Closed => open is None,
        },
{
    let mut previous = ReaderState::Closed;
    core::mem::swap(&mut previous, state);
    match previous {
        ReaderState::Open(inner) => Some(inner),
        ReaderState::Closed => None,
    }
}

/// Checks that a reader is open before a read.
pub fn reader_state_check<R>(state: &ReaderState<R>) -> (res: Result<(), CallFailure>)
    ensures
        res is Ok <==> state is Open,
        res matches Err(f) ==> f@ == closed_failure("reader is closed".spec_bytes()),
{
    match state {
        ReaderState::Open(_) => Ok(()),
        ReaderState::Closed => Err(
            binding_error(ERROR_RESOURCE_CLOSED, "ResourceClosed", copy_bytes("reader is closed".as_bytes())),
        ),
    }
}

/// The failure of a read that found the reader's lock poisoned (the reader
/// is then closed).
pub fn reader_poison_failure() -> (f: CallFailure)
    ensures
        f@ == poisoned_failure("reader state lock was poisoned".spec_bytes()),
{
    binding_error(ERROR_UNEXPECTED, "Unexpected", copy_bytes("reader state lock was poisoned".as_bytes()))
}

// ----------------------------------------------------------- read streams

/// The state of a read-stream handle.
pub enum ReadStreamState<I> {
    Open(I),
    End,
    Failed,
    Closed,
}

/// The state of a read stream while a `next` call that found it in state
/// `s` runs.
pub open spec fn read_stream_started<I>(s: ReadStreamState<I>) -> ReadStreamState<I> {
    match s {
        ReadStreamState::Open(_) => ReadStreamState::Failed,
        ReadStreamState::End => ReadStreamState::End,
        ReadStreamState::Failed => ReadStreamState::Failed,
        ReadStreamState::Closed => ReadStreamState::Closed,
    }
}

/// The status a `next` call answers at once on a read stream in state `s`
/// (`None` when the stream is open and the storage call runs).
pub open spec fn read_stream_early_status<I>(s: ReadStreamState<I>) -> Option<u32> {
    match s {
        ReadStreamState::Open(_) => None,
        ReadStreamState::End => Some(STATUS_END),
        _ => Some(STATUS_ERROR),
    }
}

/// Whether a chunk of `n` bytes may be handed out.
pub open spec fn chunk_fits(n: usize, max_output_len: u64, chunk_size: u64) -> bool {
    n <= crate::native::abi::MAX_OUTPUT_BYTES && n <= min_u64(max_output_len, chunk_size)
}

/// The state a read stream is left in by the storage step of a `next` call.
pub open spec fn read_stream_settled<I>(iterator: I, step: StepResult<usize>, max_output_len: u64, chunk_size: u64) -> ReadStreamState<I> {
    match step {
        StepResult::Value(n) => if chunk_fits(n, max_output_len, chunk_size) {
            ReadStreamState::Open(iterator)
        } else {
            ReadStreamState::Failed
        },
        StepResult::Finished => ReadStreamState::End,
        _ => ReadStreamState::Failed,
    }
}

/// Closes a read stream; its iterator, if any, is dropped with the old state.
pub fn close_read_stream_state<I>(state: &mut ReadStreamState<I>)
    ensures
        *final(state) is Closed,
{
    *state = ReadStreamState::Closed;
}

/// Marks a read stream failed; its iterator, if any, is dropped with the old
/// state.
pub fn fail_read_stream_state<I>(state: &mut ReadStreamState<I>)
    ensures
        *final(state) is Failed,
{
    *state = ReadStreamState::Failed;
}

/// Marks a read stream whose lock was poisoned failed, and returns the
/// failure to report.
pub fn read_stream_lock_failure<I>(state: &mut ReadStreamState<I>) -> (f: CallFailure)
    ensures
        *final(state) is Failed,
        f@ == poisoned_failure("read stream state lock was poisoned".spec_bytes()),
{
    fail_read_stream_state(state);
    binding_error(ERROR_UNEXPECTED, "Unexpected", copy_bytes("read stream state lock was poisoned".as_bytes()))
}

/// How a `next` call on a read stream starts.
pub enum StreamBegin<I> {
    /// The iterator, taken out while the storage call runs.
    Take(I),
    /// The stream has ended.
    End,
    /// The stream failed or was closed.
    Closed(CallFailure),
}

/// Starts a `next` call: an open iterator is taken out and the state marked
/// failed until the call finishes; an ended stream stays ended; a failed or
/// closed one stays as it is and reports that it is closed.
pub fn read_stream_begin<I>(state: &mut ReadStreamState<I>) -> (begin: StreamBegin<I>)
    ensures
        *final(state) == read_stream_started(*old(state)),
        match begin {
            StreamBegin::Take(_) => read_stream_early_status(*old(state)) is None,
            StreamBegin::End => read_stream_early_status(*old(state)) == Some(STATUS_END),
            StreamBegin::Closed(_) => read_stream_early_status(*old(state)) == Some(STATUS_ERROR),
        },
        match *old(state) {
            ReadStreamState::Open(i) => *final(state) is Failed && begin == StreamBegin::Take(i),
            ReadStreamState::End => *final(state) is End && begin is End,
            ReadStreamState::Failed => *final(state) is Failed && (begin matches StreamBegin::Closed(f)
                && f@ == closed_failure("read stream is closed".spec_bytes())),
            ReadStreamState::Closed => *final(state) is Closed && (begin matches StreamBegin::Closed(f)
                && f@ == closed_failure("read stream is closed".spec_bytes())),
        },
{
    let mut current = ReadStreamState::Failed;
    core::mem::swap(&mut current, state);
    match current {
        ReadStreamState::Open(iterator) => StreamBegin::Take(iterator),
        ReadStreamState::End => {
            *state = ReadStreamState::End;
            StreamBegin::End
        },
        ReadStreamState::Failed => StreamBegin::Closed(
            binding_error(ERROR_RESOURCE_CLOSED, "ResourceClosed", copy_bytes("read stream is closed".as_bytes())),
        ),
        ReadStreamState::Closed => {
            *state = ReadStreamState::Closed;
            StreamBegin::Closed(
                binding_error(
                    ERROR_RESOURCE_CLOSED,
                    "ResourceClosed",
                    copy_bytes("read stream is closed".as_bytes()),
                ),
            )
        },
    }
}

/// Finishes a `next` call with what the iterator produced (for a chunk, its
/// length): a chunk within `min(max_output_len, chunk_size)` puts the iterator
/// back and is handed out; the end marks the stream ended; an oversized
/// chunk, a failure or a panic leave it failed.
pub fn read_stream_finish<I>(
    state: &mut ReadStreamState<I>,
    iterator: I,
    step: StepResult<usize>,
    max_output_len: u64,
    chunk_size: u64,
) -> (out: StepOutcome<usize, I>)
    requires
        *old(state) is Failed,
    ensures
        *final(state) == read_stream_settled(iterator, step, max_output_len, chunk_size),
        match step {
            StepResult::Value(n) => if n <= crate::native::abi::MAX_OUTPUT_BYTES && n <= min_u64(
                max_output_len,
                chunk_size,
            ) {
                *final(state) == ReadStreamState::Open(iterator) && out.status == STATUS_OK
                    && out.value == Some(n) && out.failure is None && out.dropped is None
            } else {
                *final(state) is Failed && out.status == STATUS_ERROR && out.value is None
                    && (out.failure matches Some(f) && f@ == crate::native::failure::buffer_too_large_failure(
                    "read stream chunk".spec_bytes() + " exceeds the negotiated output limit".spec_bytes(),
                )) && out.dropped == Some(iterator)
            },
            StepResult::Finished => *final(state) is End && out.status == STATUS_END
                && out.value is None && out.failure is None && out.dropped == Some(iterator),
            StepResult::Failure(f) => *final(state) is Failed && out.status == STATUS_ERROR
                && out.value is None && out.failure == Some(f) && out.dropped == Some(iterator),
            StepResult::Panic => *final(state) is Failed && out.status == STATUS_PANIC
                && out.value is None && out.failure is None && out.dropped == Some(iterator),
        },
{
    match step {
        StepResult::Value(n) => {
            let limit = if max_output_len <= chunk_size {
                max_output_len
            } else {
                chunk_size
            };
            match checked_read_buffer(n, limit, "read stream chunk") {
                Ok(()) => {
                    *state = ReadStreamState::Open(iterator);
                    StepOutcome { status: STATUS_OK, value: Some(n), failure: None, dropped: None }
                },
                Err(f) => StepOutcome {
                    status: STATUS_ERROR,
                    value: None,
                    failure: Some(f),
                    dropped: Some(iterator),
                },
            }
        },
        StepResult::Finished => {
            *state = ReadStreamState::End;
            StepOutcome { status: STATUS_END, value: None, failure: None, dropped: Some(iterator) }
        },
        StepResult::Failure(f) => StepOutcome {
            status: STATUS_ERROR,
            value: None,
            failure: Some(f),
            dropped: Some(iterator),
        },
        StepResult::Panic => StepOutcome {
            status: STATUS_PANIC,
            value: None,
            failure: None,
            dropped: Some(iterator),
        },
    }
}

/// A read stream's end is stable and its failures are final: once a `next`
/// call reached the end, every later call answers the end again; once a step
/// failed, panicked or produced a chunk over the limits, the stream is failed
/// and every later call reports it closed; neither state changes again.
pub proof fn lemma_read_stream_end_is_stable<I>(iterator: I, step: StepResult<usize>, max_output_len: u64, chunk_size: u64)
    requires
        !(step matches StepResult::Value(n) && chunk_fits(n, max_output_len, chunk_size)),
    ensures
        step is Finished ==> read_stream_settled(iterator, step, max_output_len, chunk_size) is End
            && read_stream_early_status(read_stream_settled(iterator, step, max_output_len, chunk_size))
            == Some(STATUS_END),
        !(step is Finished) ==> read_stream_settled(iterator, step, max_output_len, chunk_size) is Failed
            && read_stream_early_status(read_stream_settled(iterator, step, max_output_len, chunk_size))
            == Some(STATUS_ERROR),
        read_stream_started(read_stream_settled(iterator, step, max_output_len, chunk_size))
            == read_stream_settled(iterator, step, max_output_len, chunk_size),
{
}


// ---------------------------------------------------------------- writers

/// The state of a chunked-writer handle.
pub enum WriterState<W> {
    Open(W),
    /// A call holds the writer.
    Busy,
    Finished,
    Aborted,
    Failed,
}

/// Marks a writer failed and hands back an open writer to be dropped.
pub fn fail_writer_state<W>(state: &mut WriterState<W>) -> (open: Option<W>)
    ensures
        *final(state) is Failed,
        match *old(state) {
            WriterState::Open(w) => open == Some(w),
            _ => open is None,
        },
{
    let mut previous = WriterState::Failed;
    core::mem::swap(&mut previous, state);
    match previous {
        WriterState::Open(inner) => Some(inner),
        _ => None,
    }
}

/// Recovers a writer whose lock was poisoned: it becomes failed, an open
/// writer is handed back to be dropped, and the failure is returned.
pub fn writer_poison_failure<W>(state: &mut WriterState<W>) -> (res: (Option<W>, CallFailure))
    ensures
        *final(state) is Failed,
        match *old(state) {
            WriterState::Open(w) => res.0 == Some(w),
            _ => res.0 is None,
        },
        res.1@ == poisoned_failure("writer state lock was poisoned".spec_bytes()),
{
    let open = fail_writer_state(state);
    (open, binding_error(ERROR_UNEXPECTED, "Unexpected", copy_bytes("writer state lock was poisoned".as_bytes())))
}

/// Sets a writer's state, as the end of a call does.
pub fn set_writer_state<W>(state: &mut WriterState<W>, next: WriterState<W>)
    ensures
        *final(state) == next,
{
    *state = next;
}

/// How a writer call starts.
pub enum WriterTake<W> {
    /// The open writer, taken out; the state is busy until the call ends.
    Taken(W),
    /// Another call holds the writer: wait for a change and try again.
    Wait,
    /// The writer was already aborted and a repeated abort succeeds.
    AlreadyAborted,
    /// The writer is finished, aborted or failed.
    Closed(CallFailure),
}

/// The state of a writer while a call that found it in state `s` runs (or
/// waits).
pub open spec fn writer_taken<W>(s: WriterState<W>) -> WriterState<W> {
    match s {
        WriterState::Open(_) => WriterState::Busy,
        WriterState::Busy => WriterState::Busy,
        WriterState::Finished => WriterState::Finished,
        WriterState::Aborted => WriterState::Aborted,
        WriterState::Failed => WriterState::Failed,
    }
}

/// How a writer call that finds the writer in a state proceeds.
#[derive(PartialEq, Eq, Structural)]
pub enum TakeKind {
    /// The storage call runs.
    Run,
    /// The call waits for another one to end.
    Wait,
    /// The call succeeds at once (a repeated abort).
    Done,
    /// The call is refused: the writer is closed.
    Refused,
}

/// How a call proceeds on a writer in state `s`.
pub open spec fn writer_take_kind<W>(s: WriterState<W>, repeated_abort_is_ok: bool) -> TakeKind {
    match s {
        WriterState::Open(_) => TakeKind::Run,
        WriterState::Busy => TakeKind::Wait,
        WriterState::Aborted => if repeated_abort_is_ok {
            TakeKind::Done
        } else {
            TakeKind::Refused
        },
        _ => TakeKind::Refused,
    }
}

/// The kind of an attempt to take a writer.
pub open spec fn take_kind_of<W>(take: WriterTake<W>) -> TakeKind {
    match take {
        WriterTake::Taken(_) => TakeKind::Run,
        WriterTake::Wait => TakeKind::Wait,
        WriterTake::AlreadyAborted => TakeKind::Done,
        WriterTake::Closed(_) => TakeKind::Refused,
    }
}

/// One attempt to take a writer for a call: an open writer is taken and the
/// state marked busy; a busy one must be waited for; a finished, aborted or
/// failed one is closed, except that a repeated abort (when
/// `repeated_abort_is_ok`) of an aborted writer succeeds.
pub fn take_writer_for_call<W>(state: &mut WriterState<W>, repeated_abort_is_ok: bool) -> (take: WriterTake<W>)
    ensures
        *final(state) == writer_taken(*old(state)),
        take_kind_of(take) == writer_take_kind(*old(state), repeated_abort_is_ok),
        match *old(state) {
            WriterState::Open(w) => *final(state) is Busy && take == WriterTake::Taken(w),
            WriterState::Busy => *final(state) is Busy && take is Wait,
            WriterState::Aborted => *final(state) is Aborted && if repeated_abort_is_ok {
                take is AlreadyAborted
            } else {
                take matches WriterTake::Closed(f) && f@ == closed_failure("writer is closed".spec_bytes())
            },
            WriterState::Finished => *final(state) is Finished && (take matches WriterTake::Closed(f)
                && f@ == closed_failure("writer is closed".spec_bytes())),
            WriterState::Failed => *final(state) is Failed && (take matches WriterTake::Closed(f)
                && f@ == closed_failure("writer is closed".spec_bytes())),
        },
{
    let mut current = WriterState::Busy;
    core::mem::swap(&mut current, state);
    match current {
        WriterState::Open(inner) => WriterTake::Taken(inner),
        WriterState::Busy => WriterTake::Wait,
        WriterState::Aborted => {
            *state = WriterState::Aborted;
            if repeated_abort_is_ok {
                WriterTake::AlreadyAborted
            } else {
                WriterTake::Closed(
                    binding_error(
                        ERROR_RESOURCE_CLOSED,
                        "ResourceClosed",
                        copy_bytes("writer is closed".as_bytes()),
                    ),
                )
            }
        },
        WriterState::Finished => {
            *state = WriterState::Finished;
            WriterTake::Closed(
                binding_error(ERROR_RESOURCE_CLOSED, "ResourceClosed", copy_bytes("writer is closed".as_bytes())),
            )
        },
        WriterState::Failed => {
            *state = WriterState::Failed;
            WriterTake::Closed(
                binding_error(ERROR_RESOURCE_CLOSED, "ResourceClosed", copy_bytes("writer is closed".as_bytes())),
            )
        },
    }
}

/// The call a writer was taken for.
#[derive(Clone, Copy, PartialEq, Eq, Structural, Debug)]
pub enum WriterCall {
    Write,
    Close,
    Abort,
}

/// The state a successful call leaves a writer in.
pub open spec fn writer_done_state<W>(call: WriterCall, inner: W) -> WriterState<W> {
    match call {
        WriterCall::Write => WriterState::Open(inner),
        WriterCall::Close => WriterState::Finished,
        WriterCall::Abort => WriterState::Aborted,
    }
}

/// The state a writer is left in by the storage step of a call.
pub open spec fn writer_settled<W>(call: WriterCall, inner: W, step: StepResult<()>) -> WriterState<W> {
    match step {
        StepResult::Value(_) => writer_done_state(call, inner),
        _ => WriterState::Failed,
    }
}

/// Finishes a writer call: a successful write puts the writer back, a
/// successful close or abort makes it finished or aborted; a failure or a
/// panic makes it failed. Whenever the writer is not put back it is handed
/// back to be dropped.
pub fn writer_call_finish<W>(state: &mut WriterState<W>, inner: W, call: WriterCall, step: StepResult<()>) -> (out:
    StepOutcome<(), W>)
    requires
        *old(state) is Busy,
        !(step is Finished),
    ensures
        *final(state) == writer_settled(call, inner, step),
        out.status == step_status(step),
        match step {
            StepResult::Value(()) => *final(state) == writer_done_state(call, inner) && out.status
                == STATUS_OK && out.failure is None && (if call == WriterCall::Write {
                out.dropped is None
            } else {
                out.dropped == Some(inner)
            }),
            StepResult::Failure(f) => *final(state) is Failed && out.status == STATUS_ERROR
                && out.failure == Some(f) && out.dropped == Some(inner),
            StepResult::Panic => *final(state) is Failed && out.status == STATUS_PANIC
                && out.failure is None && out.dropped == Some(inner),
            StepResult::Finished => true,
        },
{
    match step {
        StepResult::Value(()) => match call {
            WriterCall::Write => {
                *state = WriterState::Open(inner);
                StepOutcome { status: STATUS_OK, value: Some(()), failure: None, dropped: None }
            },
            WriterCall::Close => {
                *state = WriterState::Finished;
                StepOutcome { status: STATUS_OK, value: Some(()), failure: None, dropped: Some(inner) }
            },
            WriterCall::Abort => {
                *state = WriterState::Aborted;
                StepOutcome { status: STATUS_OK, value: Some(()), failure: None, dropped: Some(inner) }
            },
        },
        StepResult::Failure(f) => {
            *state = WriterState::Failed;
            StepOutcome { status: STATUS_ERROR, value: None, failure: Some(f), dropped: Some(inner) }
        },
        StepResult::Panic | StepResult::Finished => {
            *state = WriterState::Failed;
            StepOutcome { status: STATUS_PANIC, value: None, failure: None, dropped: Some(inner) }
        },
    }
}

/// Abort is explicit, idempotent and terminal: a successful abort leaves the
/// writer aborted; after it a repeated abort succeeds at once without
/// touching the storage writer, a write or close is refused as closed, and
/// neither changes the state.
pub proof fn lemma_writer_abort_is_idempotent_and_terminal<W>(inner: W)
    ensures
        writer_settled(WriterCall::Abort, inner, StepResult::Value(())) is Aborted,
        writer_take_kind(writer_settled(WriterCall::Abort, inner, StepResult::Value(())), true) == TakeKind::Done,
        writer_take_kind(writer_settled(WriterCall::Abort, inner, StepResult::Value(())), false)
            == TakeKind::Refused,
        writer_taken(writer_settled(WriterCall::Abort, inner, StepResult::Value(())))
            == writer_settled(WriterCall::Abort, inner, StepResult::Value(())),
{
}

/// A writer call that fails or panics leaves the writer failed for good,
/// and a successful close leaves it finished: every later call (an abort
/// too) is refused as closed and leaves the state as it was.
pub proof fn lemma_writer_failure_and_close_are_terminal<W>(call: WriterCall, inner: W, step: StepResult<()>, repeated_abort_is_ok: bool)
    requires
        !(step is Finished),
        !(step is Value) || call == WriterCall::Close,
    ensures
        writer_take_kind(writer_settled(call, inner, step), repeated_abort_is_ok) == TakeKind::Refused,
        writer_taken(writer_settled(call, inner, step)) == writer_settled(call, inner, step),
{
}

} // verus!
