//! Byte-buffer handles: creation, byte access, transfer windows and owned copies.
use vstd::prelude::*;
use vstd::utf8::valid_utf8;

use crate::arena::lemma_replaced_twice;
use crate::bridge::{handle_or_record_error, insert_buffer, record_error, release_resource, Bridge};
use crate::codes::{MAX_BUFFER_LENGTH, MAX_TRANSFER_CHUNK, SCALAR_ERROR, STATUS_OK};
use crate::error::{error_code, BridgeError};
use crate::labels::ResourceKind;
use crate::resources::Resource;
use crate::scalars::{checked_buffer_window, try_owned_bytes, try_owned_string, zeroed_buffer};
use crate::support::utf8_view;

verus! {

/// The bytes of a buffer resource (empty for any other resource).
pub open spec fn buffer_bytes(r: Resource) -> Seq<u8> {
    match r {
        Resource::Buffer(b) => b@,
        _ => Seq::empty(),
    }
}

/// Whether `h` names a buffer holding exactly `bytes` in `state`.
pub open spec fn holds_bytes(state: &Bridge, h: u32, bytes: Seq<u8>) -> bool {
    &&& state.arena.lookup(h) matches Some(Resource::Buffer(b))
    &&& b@ == bytes
}

/// The bytes of the buffer `h` names in `state`.
pub open spec fn bytes_of(state: &Bridge, h: u32) -> Seq<u8> {
    buffer_bytes(state.arena.lookup(h)->0)
}

/// Copies the UTF-8 text of the buffer `handle` names.
///
/// Fails with the access error, with `InvalidUtf8` when the bytes are not
/// UTF-8, or with `AllocationFailed` when the copy cannot be reserved.
pub fn owned_utf8_buffer(state: &Bridge, handle: u32) -> (res: Result<Vec<u8>, BridgeError>)
    requires
        state.wf(),
    ensures
        match state.arena.access_error(handle, ResourceKind::Buffer) {
            Some(e) => res == Err::<Vec<u8>, BridgeError>(e),
            None => match res {
                Ok(text) => valid_utf8(bytes_of(state, handle)) && text@ == bytes_of(state, handle),
                Err(e) => if valid_utf8(bytes_of(state, handle)) {
                    e == BridgeError::AllocationFailed
                } else {
                    e == BridgeError::InvalidUtf8
                },
            },
        },
{
    let bytes = match state.arena.typed(handle, ResourceKind::Buffer) {
        Ok(Resource::Buffer(b)) => b,
        Ok(_) => {
            return Err(BridgeError::InvalidUtf8);
        },
        Err(e) => {
            return Err(e);
        },
    };
    if utf8_view(bytes.as_slice()).is_none() {
        return Err(BridgeError::InvalidUtf8);
    }
    try_owned_string(bytes.as_slice())
}

/// Like [`owned_utf8_buffer`], but the handle `0` stands for an absent text.
pub fn optional_owned_utf8_buffer(state: &Bridge, handle: u32) -> (res: Result<
    Option<Vec<u8>>,
    BridgeError,
>)
    requires
        state.wf(),
    ensures
        handle == 0 ==> res == Ok::<Option<Vec<u8>>, BridgeError>(None),
        handle != 0 ==> match state.arena.access_error(handle, ResourceKind::Buffer) {
            Some(e) => res == Err::<Option<Vec<u8>>, BridgeError>(e),
            None => match res {
                Ok(Some(text)) => valid_utf8(bytes_of(state, handle)) && text@ == bytes_of(
                    state,
                    handle,
                ),
                Ok(None) => false,
                Err(e) => if valid_utf8(bytes_of(state, handle)) {
                    e == BridgeError::AllocationFailed
                } else {
                    e == BridgeError::InvalidUtf8
                },
            },
        },
{
    if handle == 0 {
        Ok(None)
    } else {
        match owned_utf8_buffer(state, handle) {
            Ok(text) => Ok(Some(text)),
            Err(e) => Err(e),
        }
    }
}

/// Copies one writer chunk: the buffer must hold at most one transfer chunk.
pub fn owned_writer_chunk(state: &Bridge, handle: u32) -> (res: Result<Vec<u8>, BridgeError>)
    requires
        state.wf(),
    ensures
        match state.arena.access_error(handle, ResourceKind::Buffer) {
            Some(e) => res == Err::<Vec<u8>, BridgeError>(e),
            None => match res {
                Ok(data) => bytes_of(state, handle).len() <= MAX_TRANSFER_CHUNK && data@
                    == bytes_of(state, handle),
                Err(e) => if bytes_of(state, handle).len() > MAX_TRANSFER_CHUNK {
                    e == BridgeError::BufferTooLarge
                } else {
                    e == BridgeError::AllocationFailed
                },
            },
        },
{
    let bytes = match state.arena.typed(handle, ResourceKind::Buffer) {
        Ok(Resource::Buffer(b)) => b,
        Ok(_) => {
            return Err(BridgeError::BufferTooLarge);
        },
        Err(e) => {
            return Err(e);
        },
    };
    if bytes.len() > MAX_TRANSFER_CHUNK {
        return Err(BridgeError::BufferTooLarge);
    }
    try_owned_bytes(bytes.as_slice())
}

impl Bridge {
    /// Allocates an empty buffer and returns its handle, or `0` on failure.
    pub fn buffer_new(&mut self) -> (handle: u32)
        requires
            old(self).wf(),
        ensures
            final(self).wf(),
            if !old(self).torn_down && old(self).arena.spec_can_insert() {
                &&& handle != 0
                &&& old(self).arena_step(final(self))
                &&& old(self).arena.inserted_at(&final(self).arena, handle)
                &&& holds_bytes(final(self), handle, Seq::empty())
            } else {
                &&& handle == 0
                &&& old(self).records(
                    final(self),
                    if old(self).torn_down {
                        BridgeError::TornDown
                    } else {
                        BridgeError::HandleLimit
                    },
                )
            },
    {
        let result = insert_buffer(self, Vec::new());
        proof {
            if let Ok(h) = result {
                crate::handle::lemma_handle_decompose(h);
            }
        }
        handle_or_record_error(self, result)
    }

    /// Allocates a buffer of `length` zero bytes and returns its handle, or `0` on failure.
    pub fn buffer_new_sized(&mut self, length: u32) -> (handle: u32)
        requires
            old(self).wf(),
        ensures
            final(self).wf(),
            handle != 0 ==> {
                &&& length <= MAX_BUFFER_LENGTH
                &&& old(self).arena_step(final(self))
                &&& old(self).arena.inserted_at(&final(self).arena, handle)
                &&& holds_bytes(final(self), handle, Seq::new(length as nat, |i: int| 0u8))
            },
            handle == 0 ==> final(self).arena == old(self).arena && old(self).same_settings(
                final(self),
            ) && (final(self).last_error matches Some(e) && if length > MAX_BUFFER_LENGTH {
                e == BridgeError::BufferTooLarge
            } else if old(self).torn_down {
                e == BridgeError::TornDown || e == BridgeError::AllocationFailed
            } else {
                e == BridgeError::AllocationFailed || (e == BridgeError::HandleLimit && !old(self).arena.spec_can_insert())
            }),
    {
        let result = match zeroed_buffer(length) {
            Ok(buffer) => insert_buffer(self, buffer),
            Err(e) => Err(e),
        };
        proof {
            if let Ok(h) = result {
                crate::handle::lemma_handle_decompose(h);
            }
        }
        handle_or_record_error(self, result)
    }

    /// Appends one byte to a buffer and returns a status code.
    pub fn buffer_push(&mut self, handle: u32, value: u32) -> (code: u32)
        requires
            old(self).wf(),
        ensures
            final(self).wf(),
            match old(self).arena.access_error(handle, ResourceKind::Buffer) {
                Some(e) => code == error_code(e@) && old(self).records(final(self), e),
                None => if bytes_of(old(self), handle).len() == MAX_BUFFER_LENGTH {
                    code == 3 && old(self).records(final(self), BridgeError::BufferTooLarge)
                } else if value > 255 {
                    code == 5 && old(self).records(final(self), BridgeError::InvalidByte { value })
                } else {
                    &&& code == STATUS_OK
                    &&& old(self).arena_step(final(self))
                    &&& old(self).arena.same_except(&final(self).arena, handle)
                    &&& old(self).arena.progressed_to(&final(self).arena)
                    &&& final(self).arena.live == old(self).arena.live
                    &&& holds_bytes(final(self), handle, bytes_of(old(self), handle).push(value as u8))
                },
            },
    {
        let length = match self.arena.typed(handle, ResourceKind::Buffer) {
            Ok(Resource::Buffer(b)) => b.len(),
            Ok(_) => 0,
            Err(e) => {
                return record_error(self, e);
            },
        };
        if length == MAX_BUFFER_LENGTH {
            return record_error(self, BridgeError::BufferTooLarge);
        }
        if value > 255 {
            return record_error(self, BridgeError::InvalidByte { value });
        }
        let ghost a0 = self.arena;
        let previous = self.arena.replace(handle, Resource::Buffer(Vec::new()));
        let ghost a1 = self.arena;
        let ghost mid = a1.lookup(handle)->0;
        let updated = match previous {
            Resource::Buffer(mut b) => {
                b.push(value as u8);
                Resource::Buffer(b)
            },
            other => other,
        };
        let ghost u = updated;
        self.arena.replace(handle, updated);
        proof {
            lemma_replaced_twice(&a0, &a1, &self.arena, handle, mid, u);
            crate::arena::lemma_replaced_progress(&a0, &self.arena, handle, u);
        }
        STATUS_OK
    }

    /// Returns a buffer's length, or `-1` after recording a failure.
    pub fn buffer_len(&mut self, handle: u32) -> (length: i32)
        requires
            old(self).wf(),
        ensures
            final(self).wf(),
            match old(self).arena.access_error(handle, ResourceKind::Buffer) {
                Some(e) => length == SCALAR_ERROR && old(self).records(final(self), e),
                None => if bytes_of(old(self), handle).len() <= i32::MAX {
                    length == bytes_of(old(self), handle).len() && *final(self) == *old(self)
                } else {
                    length == SCALAR_ERROR && old(self).records(
                        final(self),
                        BridgeError::LengthOverflow,
                    )
                },
            },
    {
        let length = match self.arena.typed(handle, ResourceKind::Buffer) {
            Ok(Resource::Buffer(b)) => b.len(),
            Ok(_) => 0,
            Err(e) => {
                record_error(self, e);
                return SCALAR_ERROR;
            },
        };
        if length > 0x7fff_ffffusize {
            record_error(self, BridgeError::LengthOverflow);
            return SCALAR_ERROR;
        }
        length as i32
    }

    /// Returns the byte at `index` as `0..=255`, or `-1` after recording a failure.
    pub fn buffer_get(&mut self, handle: u32, index: u32) -> (byte: i32)
        requires
            old(self).wf(),
        ensures
            final(self).wf(),
            match old(self).arena.access_error(handle, ResourceKind::Buffer) {
                Some(e) => byte == SCALAR_ERROR && old(self).records(final(self), e),
                None => if index < bytes_of(old(self), handle).len() {
                    byte == bytes_of(old(self), handle)[index as int] && *final(self) == *old(self)
                } else {
                    byte == SCALAR_ERROR && old(self).records(
                        final(self),
                        BridgeError::IndexOutOfBounds {
                            index,
                            length: bytes_of(old(self), handle).len() as usize,
                        },
                    )
                },
            },
    {
        let result = match self.arena.typed(handle, ResourceKind::Buffer) {
            Ok(Resource::Buffer(b)) => {
                let i = index as usize;
                if i < b.len() {
                    Ok(b[i] as i32)
                } else {
                    Err(BridgeError::IndexOutOfBounds { index, length: b.len() })
                }
            },
            Ok(_) => Err(BridgeError::InvalidHandle { handle }),
            Err(e) => Err(e),
        };
        match result {
            Ok(byte) => byte,
            Err(e) => {
                record_error(self, e);
                SCALAR_ERROR
            },
        }
    }

    /// Checks a transfer window into a buffer; returns the byte range, or `None`
    /// after recording a failure.
    pub fn buffer_window(&mut self, handle: u32, offset: u32, length: u32) -> (window: Option<
        std::ops::Range<usize>,
    >)
        requires
            old(self).wf(),
        ensures
            final(self).wf(),
            match old(self).arena.access_error(handle, ResourceKind::Buffer) {
                Some(e) => window is None && old(self).records(final(self), e),
                None => match window {
                    Some(range) => {
                        &&& 1 <= length <= MAX_TRANSFER_CHUNK
                        &&& offset + length <= bytes_of(old(self), handle).len()
                        &&& range.start == offset
                        &&& range.end == offset + length
                        &&& *final(self) == *old(self)
                    },
                    None => final(self).arena == old(self).arena && old(self).same_settings(
                        final(self),
                    ) && (final(self).last_error matches Some(e) && (e is InvalidArgument
                        || e is IndexOutOfBounds)) && (length == 0 || length > MAX_TRANSFER_CHUNK
                        || offset + length > bytes_of(old(self), handle).len()),
                },
            },
    {
        let result = match self.arena.typed(handle, ResourceKind::Buffer) {
            Ok(Resource::Buffer(b)) => checked_buffer_window(b.len(), offset, length),
            Ok(_) => Err(BridgeError::InvalidHandle { handle }),
            Err(e) => Err(e),
        };
        match result {
            Ok(range) => Some(range),
            Err(e) => {
                record_error(self, e);
                None
            },
        }
    }

    /// Releases a buffer handle and returns a status code.
    pub fn buffer_release(&mut self, handle: u32) -> (code: u32)
        requires
            old(self).wf(),
        ensures
            final(self).wf(),
            match old(self).arena.access_error(handle, ResourceKind::Buffer) {
                None => code == STATUS_OK && old(self).arena_step(final(self)) && old(self).arena.removed(&final(self).arena, handle, old(self).arena.lookup(handle)->0),
                Some(e) => code == error_code(e@) && old(self).records(final(self), e),
            },
    {
        release_resource(self, handle, ResourceKind::Buffer)
    }
}

} // verus!
