//! The bridge state: the handle arena, the sticky last error, the operation
//! token counter, the canary settings and the teardown flag.
use vstd::prelude::*;
use vstd::string::StringSliceAdditionalSpecFns;

use crate::arena::Arena;
use crate::codes::{MAX_BUFFER_LENGTH, STATUS_OK};
use crate::error::{error_code, BridgeError};
use crate::labels::ResourceKind;
use crate::resources::Resource;
use crate::scalars::{scalar_bool, scalar_bool_message};

verus! {

/// Everything one bridge instance owns.
pub struct Bridge {
    pub arena: Arena,
    pub last_error: Option<BridgeError>,
    /// The last operation token handed out; tokens are never reused.
    pub next_resource_operation: u64,
    pub forced_pending_poll_count: u32,
    pub force_pending_for_canary: bool,
    /// Set for good by teardown; a torn-down bridge owns nothing.
    pub torn_down: bool,
}

impl Bridge {
    /// The bridge's invariant.
    pub open spec fn wf(&self) -> bool {
        &&& self.arena.wf()
        &&& self.torn_down ==> self.arena.slots@.len() == 0
    }

    /// `later` keeps this bridge's counters and flags.
    pub open spec fn same_settings(&self, later: &Bridge) -> bool {
        &&& later.next_resource_operation == self.next_resource_operation
        &&& later.forced_pending_poll_count == self.forced_pending_poll_count
        &&& later.force_pending_for_canary == self.force_pending_for_canary
        &&& later.torn_down == self.torn_down
    }

    /// `later` is this bridge with `e` recorded as the last error.
    pub open spec fn records(&self, later: &Bridge, e: BridgeError) -> bool {
        &&& later.arena == self.arena
        &&& later.last_error == Some(e)
        &&& self.same_settings(later)
    }

    /// `later` is this bridge with only its arena changed.
    pub open spec fn arena_step(&self, later: &Bridge) -> bool {
        &&& later.last_error == self.last_error
        &&& self.same_settings(later)
    }

    /// A fresh bridge.
    pub fn new() -> (bridge: Bridge)
        ensures
            bridge.wf(),
            bridge.arena.slots@.len() == 0,
            bridge.arena.live == 0,
            bridge.last_error is None,
            bridge.next_resource_operation == 0,
            bridge.forced_pending_poll_count == 0,
            !bridge.force_pending_for_canary,
            !bridge.torn_down,
    {
        Bridge {
            arena: Arena::new(),
            last_error: None,
            next_resource_operation: 0,
            forced_pending_poll_count: 0,
            force_pending_for_canary: false,
            torn_down: false,
        }
    }
}

/// Why storing a new resource in `state` fails, if it does: a torn-down
/// bridge refuses it, and so does a full arena.
pub open spec fn insert_failure(state: &Bridge) -> Option<BridgeError> {
    if state.torn_down {
        Some(BridgeError::TornDown)
    } else if !state.arena.spec_can_insert() {
        Some(BridgeError::HandleLimit)
    } else {
        None
    }
}

/// Why storing `len` bytes in a new buffer of `state` fails, if it does: too
/// many bytes, then the reasons of [`insert_failure`].
pub open spec fn buffer_insert_failure(state: &Bridge, len: nat) -> Option<BridgeError> {
    if len > MAX_BUFFER_LENGTH {
        Some(BridgeError::BufferTooLarge)
    } else {
        insert_failure(state)
    }
}

/// `later` is `state` with a buffer holding `bytes` stored under the new,
/// non-zero handle `h`.
pub open spec fn stores_buffer(state: &Bridge, later: &Bridge, h: u32, bytes: Seq<u8>) -> bool {
    &&& h != 0
    &&& state.arena_step(later)
    &&& state.arena.inserted_at(&later.arena, h)
    &&& later.arena.lookup(h) matches Some(Resource::Buffer(b)) && b@ == bytes
}

/// The outcome of storing `bytes` in a new buffer handle: the handle of the
/// stored buffer, or `0` with the reason recorded.
pub open spec fn buffer_stored(state: &Bridge, later: &Bridge, h: u32, bytes: Seq<u8>) -> bool {
    match buffer_insert_failure(state, bytes.len()) {
        Some(e) => h == 0 && state.records(later, e),
        None => stores_buffer(state, later, h, bytes),
    }
}

/// Like [`buffer_stored`], where copying the bytes may also run out of
/// memory first (`0`, with `AllocationFailed` recorded).
pub open spec fn buffer_stored_or_out_of_memory(state: &Bridge, later: &Bridge, h: u32, bytes: Seq<u8>) -> bool {
    ||| buffer_stored(state, later, h, bytes)
    ||| (h == 0 && bytes.len() <= MAX_BUFFER_LENGTH && state.records(later, BridgeError::AllocationFailed))
}

/// Records `error` as the sticky last error and returns its scalar code.
pub fn record_error(state: &mut Bridge, error: BridgeError) -> (code: u32)
    ensures
        code == error_code(error@),
        old(state).records(final(state), error),
{
    let code = error.code();
    state.last_error = Some(error);
    code
}

/// Turns a unit result into a status code, recording a failure.
pub fn status(state: &mut Bridge, result: Result<(), BridgeError>) -> (code: u32)
    ensures
        match result {
            Ok(()) => code == STATUS_OK && *final(state) == *old(state),
            Err(e) => code == error_code(e@) && old(state).records(final(state), e),
        },
{
    match result {
        Ok(()) => STATUS_OK,
        Err(error) => record_error(state, error),
    }
}

/// Turns a handle result into a handle, or `0` after recording a failure.
pub fn handle_or_record_error(state: &mut Bridge, result: Result<u32, BridgeError>) -> (handle: u32)
    ensures
        match result {
            Ok(h) => handle == h && *final(state) == *old(state),
            Err(e) => handle == 0 && old(state).records(final(state), e),
        },
{
    match result {
        Ok(handle) => handle,
        Err(error) => {
            record_error(state, error);
            0
        },
    }
}

/// Hands out a fresh operation token; tokens never wrap, so once they run out
/// every request fails with `LengthOverflow`.
pub fn allocate_resource_operation(state: &mut Bridge) -> (res: Result<u64, BridgeError>)
    ensures
        match res {
            Ok(token) => {
                &&& old(state).next_resource_operation < u64::MAX
                &&& token == old(state).next_resource_operation + 1
                &&& final(state).next_resource_operation == token
                &&& final(state).arena == old(state).arena
                &&& final(state).last_error == old(state).last_error
                &&& final(state).forced_pending_poll_count == old(state).forced_pending_poll_count
                &&& final(state).force_pending_for_canary == old(state).force_pending_for_canary
                &&& final(state).torn_down == old(state).torn_down
            },
            Err(e) => old(state).next_resource_operation == u64::MAX && e
                == BridgeError::LengthOverflow && *final(state) == *old(state),
        },
{
    if state.next_resource_operation == u64::MAX {
        return Err(BridgeError::LengthOverflow);
    }
    state.next_resource_operation = state.next_resource_operation + 1;
    Ok(state.next_resource_operation)
}

/// Stores a resource under a new handle; fails with `TornDown` after teardown.
pub fn insert_resource(state: &mut Bridge, resource: Resource) -> (res: Result<u32, BridgeError>)
    requires
        old(state).wf(),
    ensures
        final(state).wf(),
        old(state).arena_step(final(state)),
        match res {
            Ok(h) => !old(state).torn_down && old(state).arena.inserted(
                &final(state).arena,
                resource,
                h,
            ),
            Err(e) => *final(state) == *old(state) && if old(state).torn_down {
                e == BridgeError::TornDown
            } else {
                e == BridgeError::HandleLimit && !old(state).arena.spec_can_insert()
            },
        },
{
    if state.torn_down {
        return Err(BridgeError::TornDown);
    }
    state.arena.insert(resource)
}

/// Stores a byte buffer under a new handle; fails with `BufferTooLarge` above
/// the buffer limit.
pub fn insert_buffer(state: &mut Bridge, buffer: Vec<u8>) -> (res: Result<u32, BridgeError>)
    requires
        old(state).wf(),
    ensures
        final(state).wf(),
        old(state).arena_step(final(state)),
        match res {
            Ok(h) => buffer@.len() <= MAX_BUFFER_LENGTH && !old(state).torn_down
                && old(state).arena.inserted(&final(state).arena, Resource::Buffer(buffer), h),
            Err(e) => *final(state) == *old(state) && if buffer@.len() > MAX_BUFFER_LENGTH {
                e == BridgeError::BufferTooLarge
            } else if old(state).torn_down {
                e == BridgeError::TornDown
            } else {
                e == BridgeError::HandleLimit && !old(state).arena.spec_can_insert()
            },
        },
{
    if buffer.len() > MAX_BUFFER_LENGTH {
        return Err(BridgeError::BufferTooLarge);
    }
    insert_resource(state, Resource::Buffer(buffer))
}

/// Releases the resource `handle` names if it is of kind `kind`, and returns a
/// status code.
pub fn release_resource(state: &mut Bridge, handle: u32, kind: ResourceKind) -> (code: u32)
    requires
        old(state).wf(),
    ensures
        final(state).wf(),
        match old(state).arena.access_error(handle, kind) {
            None => code == STATUS_OK && old(state).arena_step(final(state)) && old(state).arena.removed(&final(state).arena, handle, old(state).arena.lookup(handle)->0),
            Some(e) => code == error_code(e@) && old(state).records(final(state), e),
        },
{
    let result = state.arena.take(handle, kind);
    match result {
        Ok(_) => STATUS_OK,
        Err(error) => record_error(state, error),
    }
}

impl Bridge {
    /// Tears the bridge down for good: every resource and the last error are dropped.
    pub fn teardown(&mut self) -> (code: u32)
        ensures
            code == STATUS_OK,
            final(self).wf(),
            final(self).torn_down,
            final(self).arena.slots@.len() == 0,
            final(self).arena.live == 0,
            final(self).last_error is None,
            final(self).next_resource_operation == old(self).next_resource_operation,
            final(self).forced_pending_poll_count == old(self).forced_pending_poll_count,
            final(self).force_pending_for_canary == old(self).force_pending_for_canary,
    {
        self.torn_down = true;
        self.arena.clear();
        self.last_error = None;
        STATUS_OK
    }

    /// Turns the forced-delay wrapper for tasks started afterwards on (`1`) or off (`0`).
    pub fn set_force_pending(&mut self, enabled: u32) -> (code: u32)
        ensures
            enabled <= 1 ==> code == STATUS_OK && final(self).force_pending_for_canary == (enabled
                == 1) && final(self).arena == old(self).arena && final(self).last_error == old(self).last_error && final(self).torn_down == old(self).torn_down
                && final(self).next_resource_operation == old(self).next_resource_operation
                && final(self).forced_pending_poll_count == old(self).forced_pending_poll_count,
            enabled > 1 ==> code == 17 && final(self).arena == old(self).arena && old(self).same_settings(final(self)) && (final(self).last_error matches Some(
                BridgeError::InvalidArgument { message },
            ) && message@ == scalar_bool_message("force_pending".spec_bytes(), enabled)),
    {
        match scalar_bool(enabled, "force_pending") {
            Ok(flag) => {
                self.force_pending_for_canary = flag;
                STATUS_OK
            },
            Err(e) => record_error(self, e),
        }
    }

    /// Returns the sticky last-error code, or `0` when none is recorded.
    pub fn last_error_code(&self) -> (code: u32)
        ensures
            match self.last_error {
                Some(e) => code == error_code(e@),
                None => code == STATUS_OK,
            },
    {
        match &self.last_error {
            Some(e) => e.code(),
            None => STATUS_OK,
        }
    }

    /// Counts one forced-delay task that reached a pending poll (saturating).
    pub fn record_forced_pending_poll(&mut self)
        ensures
            final(self).forced_pending_poll_count == if old(self).forced_pending_poll_count
                == u32::MAX {
                u32::MAX
            } else {
                (old(self).forced_pending_poll_count + 1) as u32
            },
            final(self).arena == old(self).arena,
            final(self).last_error == old(self).last_error,
            final(self).next_resource_operation == old(self).next_resource_operation,
            final(self).force_pending_for_canary == old(self).force_pending_for_canary,
            final(self).torn_down == old(self).torn_down,
    {
        if self.forced_pending_poll_count < u32::MAX {
            self.forced_pending_poll_count = self.forced_pending_poll_count + 1;
        }
    }

    /// Clears the sticky last error.
    pub fn last_error_clear(&mut self) -> (code: u32)
        ensures
            code == STATUS_OK,
            final(self).last_error is None,
            final(self).arena == old(self).arena,
            old(self).same_settings(final(self)),
    {
        self.last_error = None;
        STATUS_OK
    }
}

/// A torn-down bridge owns nothing: no handle names a resource.
pub proof fn lemma_torn_down_owns_nothing(state: &Bridge, h: u32)
    requires
        state.wf(),
        state.torn_down,
    ensures
        state.arena.lookup(h) is None,
        state.arena.live == 0,
{
    assert(state.arena.slots@ =~= Seq::<crate::arena::Slot>::empty());
}

} // verus!
