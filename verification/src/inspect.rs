//! Error and metadata handles, the sticky last error, and the stale-handle probe.
use vstd::prelude::*;

use crate::arena::{lemma_take_then_insert, Arena};
use crate::bridge::{buffer_stored, handle_or_record_error, insert_buffer, record_error, release_resource, Bridge};
use crate::codes::{ENTRY_MODE_FILE, MAX_GENERATION, SCALAR_ERROR, STATUS_OK};
use crate::error::{error_code, error_text, BridgeError};
use crate::handle::handle_generation;
use crate::labels::ResourceKind;
use crate::metadata::MetadataRecord;
use crate::resources::Resource;
use crate::snapshot::{error_snapshot, error_snapshot_bytes, ode1_fits};
use crate::error::{error_diagnostic, error_kind_name};

verus! {

/// The error `h` names in `a`, if it names one.
pub open spec fn error_at(a: &Arena, h: u32) -> Option<BridgeError> {
    match a.lookup(h) {
        Some(Resource::Error(e)) => Some(e),
        _ => None,
    }
}

/// The metadata `h` names in `a`, if it names one.
pub open spec fn metadata_at(a: &Arena, h: u32) -> Option<MetadataRecord> {
    match a.lookup(h) {
        Some(Resource::Metadata(m)) => Some(m),
        _ => None,
    }
}

impl Bridge {
    /// Moves the sticky last error into an error handle and clears it.
    ///
    /// Returns `0` when there is none, and after teardown (which also clears
    /// it); when no handle is left the failure is recorded in its place.
    pub fn last_error_take(&mut self) -> (error: u32)
        requires
            old(self).wf(),
        ensures
            final(self).wf(),
            old(self).torn_down ==> error == 0 && final(self).last_error is None && final(self).arena == old(self).arena && old(self).same_settings(final(self)),
            !old(self).torn_down && old(self).last_error is None ==> error == 0 && *final(self)
                == *old(self),
            !old(self).torn_down && old(self).last_error is Some ==> if old(self).arena.spec_can_insert() {
                &&& error != 0
                &&& final(self).last_error is None
                &&& old(self).same_settings(final(self))
                &&& old(self).arena.inserted_at(&final(self).arena, error)
                &&& error_at(&final(self).arena, error) is Some
                &&& error_at(&final(self).arena, error)->0@ == old(self).last_error->0@
            } else {
                error == 0 && old(self).records(final(self), BridgeError::HandleLimit)
            },
    {
        if self.torn_down {
            self.last_error = None;
            return 0;
        }
        let copy = match &self.last_error {
            Some(e) => e.duplicate(),
            None => {
                return 0;
            },
        };
        let ghost r = Resource::Error(copy);
        match self.arena.insert(Resource::Error(copy)) {
            Ok(h) => {
                self.last_error = None;
                h
            },
            Err(e) => {
                record_error(self, e);
                0
            },
        }
    }

    /// Returns an error handle's code, or `0` after recording a failure.
    pub fn error_code(&mut self, handle: u32) -> (code: u32)
        requires
            old(self).wf(),
        ensures
            final(self).wf(),
            match old(self).arena.access_error(handle, ResourceKind::Error) {
                Some(e) => code == 0 && old(self).records(final(self), e),
                None => code == error_code(error_at(&old(self).arena, handle)->0@) && *final(self)
                    == *old(self),
            },
    {
        let result = match self.arena.typed(handle, ResourceKind::Error) {
            Ok(Resource::Error(e)) => Ok(e.code()),
            Ok(_) => Ok(0),
            Err(e) => Err(e),
        };
        match result {
            Ok(code) => code,
            Err(e) => {
                record_error(self, e);
                0
            },
        }
    }

    /// Copies an error's text into a new buffer handle; returns `0` after
    /// recording a failure.
    pub fn error_message(&mut self, handle: u32) -> (message: u32)
        requires
            old(self).wf(),
        ensures
            final(self).wf(),
            match old(self).arena.access_error(handle, ResourceKind::Error) {
                Some(e) => message == 0 && old(self).records(final(self), e),
                None => buffer_stored(
                    old(self),
                    final(self),
                    message,
                    error_text(error_at(&old(self).arena, handle)->0@),
                ),
            },
    {
        let text = match self.arena.typed(handle, ResourceKind::Error) {
            Ok(Resource::Error(e)) => Ok(e.text()),
            Ok(_) => Err(BridgeError::InvalidHandle { handle }),
            Err(e) => Err(e),
        };
        let result = match text {
            Ok(bytes) => insert_buffer(self, bytes),
            Err(e) => Err(e),
        };
        proof {
            if let Ok(h) = result {
                crate::handle::lemma_handle_decompose(h);
            }
        }
        handle_or_record_error(self, result)
    }

    /// Replaces an error handle with its `ODE1` snapshot in a buffer handle.
    ///
    /// Any failure is recorded and leaves the error handle valid.
    pub fn error_snapshot_take(&mut self, handle: u32) -> (snapshot: u32)
        requires
            old(self).wf(),
        ensures
            final(self).wf(),
            match old(self).arena.access_error(handle, ResourceKind::Error) {
                Some(e) => snapshot == 0 && old(self).records(final(self), e),
                None => {
                    let e = error_at(&old(self).arena, handle)->0@;
                    if !ode1_fits(error_kind_name(e), error_diagnostic(e)) {
                        snapshot == 0 && old(self).records(final(self), BridgeError::BufferTooLarge)
                    } else if snapshot == 0 {
                        final(self).arena == old(self).arena && old(self).same_settings(final(self))
                            && (final(self).last_error == Some(BridgeError::AllocationFailed)
                            || (final(self).last_error == Some(BridgeError::HandleLimit)
                            && !old(self).arena.spec_can_insert() && handle_generation(handle)
                            == MAX_GENERATION))
                    } else {
                        &&& old(self).arena_step(final(self))
                        &&& final(self).arena.lookup(snapshot) matches Some(Resource::Buffer(b))
                        &&& b@ == error_snapshot(e)
                        &&& old(self).arena.exchanged(
                            &final(self).arena,
                            handle,
                            snapshot,
                            final(self).arena.lookup(snapshot)->0,
                        )
                    }
                },
            },
    {
        let encoded = match self.arena.typed(handle, ResourceKind::Error) {
            Ok(Resource::Error(e)) => error_snapshot_bytes(e),
            Ok(_) => Err(BridgeError::InvalidHandle { handle }),
            Err(e) => Err(e),
        };
        let bytes = match encoded {
            Ok(bytes) => bytes,
            Err(e) => {
                record_error(self, e);
                return 0;
            },
        };
        if let Err(e) = self.arena.ensure_insert_capacity_after_take(handle, ResourceKind::Error) {
            record_error(self, e);
            return 0;
        }
        let ghost a0 = self.arena;
        let taken = self.arena.take(handle, ResourceKind::Error);
        let ghost a1 = self.arena;
        let ghost r = Resource::Buffer(bytes);
        let result = self.arena.insert(Resource::Buffer(bytes));
        proof {
            if let Ok(k) = result {
                lemma_take_then_insert(&a0, &a1, &self.arena, handle, a0.lookup(handle)->0, k, r);
            }
        }
        handle_or_record_error(self, result)
    }

    /// Releases an error handle.
    pub fn error_release(&mut self, handle: u32) -> (code: u32)
        requires
            old(self).wf(),
        ensures
            final(self).wf(),
            match old(self).arena.access_error(handle, ResourceKind::Error) {
                None => code == STATUS_OK && old(self).arena_step(final(self)) && old(self).arena.removed(&final(self).arena, handle, old(self).arena.lookup(handle)->0),
                Some(e) => code == error_code(e@) && old(self).records(final(self), e),
            },
    {
        release_resource(self, handle, ResourceKind::Error)
    }

    /// Releases a metadata handle.
    pub fn metadata_release(&mut self, handle: u32) -> (code: u32)
        requires
            old(self).wf(),
        ensures
            final(self).wf(),
            match old(self).arena.access_error(handle, ResourceKind::Metadata) {
                None => code == STATUS_OK && old(self).arena_step(final(self)) && old(self).arena.removed(&final(self).arena, handle, old(self).arena.lookup(handle)->0),
                Some(e) => code == error_code(e@) && old(self).records(final(self), e),
            },
    {
        release_resource(self, handle, ResourceKind::Metadata)
    }

    /// Releases an operator handle.
    pub fn operator_release(&mut self, handle: u32) -> (code: u32)
        requires
            old(self).wf(),
        ensures
            final(self).wf(),
            match old(self).arena.access_error(handle, ResourceKind::Operator) {
                None => code == STATUS_OK && old(self).arena_step(final(self)) && old(self).arena.removed(&final(self).arena, handle, old(self).arena.lookup(handle)->0),
                Some(e) => code == error_code(e@) && old(self).records(final(self), e),
            },
    {
        release_resource(self, handle, ResourceKind::Operator)
    }

    /// Returns the high (`high` set) or low 32 bits of a metadata handle's content
    /// length, or `0` after recording a failure.
    pub fn metadata_content_length(&mut self, handle: u32, high: bool) -> (part: u32)
        requires
            old(self).wf(),
        ensures
            final(self).wf(),
            match old(self).arena.access_error(handle, ResourceKind::Metadata) {
                Some(e) => part == 0 && old(self).records(final(self), e),
                None => *final(self) == *old(self) && if high {
                    part == metadata_at(&old(self).arena, handle)->0.content_length / 0x1_0000_0000
                } else {
                    part == metadata_at(&old(self).arena, handle)->0.content_length % 0x1_0000_0000
                },
            },
    {
        let result = match self.arena.typed(handle, ResourceKind::Metadata) {
            Ok(Resource::Metadata(m)) => {
                let length = m.content_length;
                Ok(
                    if high {
                        (length / 0x1_0000_0000u64) as u32
                    } else {
                        (length % 0x1_0000_0000u64) as u32
                    },
                )
            },
            Ok(_) => Ok(0),
            Err(e) => Err(e),
        };
        match result {
            Ok(part) => part,
            Err(e) => {
                record_error(self, e);
                0
            },
        }
    }

    /// Returns `1` for a file, `0` otherwise, or `-1` after recording a failure.
    pub fn metadata_is_file(&mut self, handle: u32) -> (answer: i32)
        requires
            old(self).wf(),
        ensures
            final(self).wf(),
            match old(self).arena.access_error(handle, ResourceKind::Metadata) {
                Some(e) => answer == SCALAR_ERROR && old(self).records(final(self), e),
                None => *final(self) == *old(self) && answer == (if metadata_at(
                    &old(self).arena,
                    handle,
                )->0.mode == ENTRY_MODE_FILE {
                    1i32
                } else {
                    0i32
                }),
            },
    {
        let result = match self.arena.typed(handle, ResourceKind::Metadata) {
            Ok(Resource::Metadata(m)) => Ok(
                if m.mode == ENTRY_MODE_FILE {
                    1
                } else {
                    0
                },
            ),
            Ok(_) => Ok(0),
            Err(e) => Err(e),
        };
        match result {
            Ok(answer) => answer,
            Err(e) => {
                record_error(self, e);
                SCALAR_ERROR
            },
        }
    }

    /// Returns a metadata handle's mode, or `-1` after recording a failure.
    pub fn metadata_mode(&mut self, handle: u32) -> (mode: i32)
        requires
            old(self).wf(),
        ensures
            final(self).wf(),
            match old(self).arena.access_error(handle, ResourceKind::Metadata) {
                Some(e) => mode == SCALAR_ERROR && old(self).records(final(self), e),
                None => {
                    let m = metadata_at(&old(self).arena, handle)->0.mode;
                    if m <= i32::MAX {
                        mode == m && *final(self) == *old(self)
                    } else {
                        mode == SCALAR_ERROR && old(self).records(
                            final(self),
                            BridgeError::LengthOverflow,
                        )
                    }
                },
            },
    {
        let result = match self.arena.typed(handle, ResourceKind::Metadata) {
            Ok(Resource::Metadata(m)) => if m.mode > 0x7fff_ffffu32 {
                Err(BridgeError::LengthOverflow)
            } else {
                Ok(m.mode as i32)
            },
            Ok(_) => Ok(0),
            Err(e) => Err(e),
        };
        match result {
            Ok(mode) => mode,
            Err(e) => {
                record_error(self, e);
                SCALAR_ERROR
            },
        }
    }
}

impl Bridge {
    /// Probes that a released handle is rejected once its slot is reused:
    /// allocates and releases a buffer, allocates another, and checks that the
    /// first handle now fails with the invalid-handle code while the second is
    /// a different, releasable handle. Returns `1` when all of that holds.
    ///
    /// With room for two more slots the probe always succeeds.
    pub fn canary_stale_handle_rejected(&mut self) -> (ok: u32)
        requires
            old(self).wf(),
        ensures
            final(self).wf(),
            ok == 0 || ok == 1,
            !old(self).torn_down && old(self).arena.slots@.len() + 2 <= crate::codes::MAX_SLOTS
                ==> ok == 1,
            old(self).same_settings(final(self)),
            old(self).arena.progressed_to(&final(self).arena),
            ok == 1 ==> {
                &&& final(self).last_error is None
                &&& final(self).arena.live == old(self).arena.live
                &&& forall|x: u32|
                    old(self).arena.lookup(x) is Some ==> #[trigger] final(self).arena.lookup(x)
                        == old(self).arena.lookup(x)
                &&& exists|h: u32| !old(self).arena.retired(h) && #[trigger] final(self).arena.retired(h)
            },
    {
        let ghost a0 = self.arena;
        self.last_error_clear();
        let stale = self.buffer_new();
        if stale == 0 {
            return 0;
        }
        let ghost a1 = self.arena;
        proof {
            crate::handle::lemma_handle_decompose(stale);
        }
        if self.buffer_release(stale) != STATUS_OK {
            return 0;
        }
        let ghost after_release = self.arena;
        proof {
            crate::arena::lemma_progress_transitive(&a0, &a1, &after_release);
        }
        let current = self.buffer_new();
        if current == 0 {
            return 0;
        }
        let ghost a3 = self.arena;
        proof {
            crate::arena::lemma_released_handle_stays_invalid(&after_release, &self.arena, stale);
            crate::arena::lemma_progress_transitive(&a0, &after_release, &a3);
        }
        let stale_result = self.buffer_len(stale);
        let error_code = self.last_error_code();
        self.last_error_clear();
        let ghost a4 = self.arena;
        assert(a4 == a3);
        let released = self.buffer_release(current) == STATUS_OK;
        proof {
            if released {
                crate::arena::lemma_progress_transitive(&a0, &a3, &self.arena);
                crate::arena::lemma_released_handle_stays_invalid(&after_release, &self.arena, stale);
                crate::arena::lemma_progress_transitive(&after_release, &a3, &self.arena);
                assert(!a0.retired(stale));
                assert(self.arena.retired(stale));
                assert forall|x: u32| a0.lookup(x) is Some implies #[trigger] self.arena.lookup(x) == a0.lookup(x) by {
                    assert(a1.lookup(x) == a0.lookup(x));
                    assert(after_release.lookup(x) == a0.lookup(x));
                    assert(a3.lookup(x) == after_release.lookup(x));
                }
            }
        }
        if stale_result == SCALAR_ERROR && error_code == 1 && current != stale && released {
            1
        } else {
            0
        }
    }
}

} // verus!
