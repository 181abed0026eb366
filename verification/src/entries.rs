//! Bounded entry lists: collecting listed entries and reading them by index.
use vstd::prelude::*;

use crate::arena::{lemma_replaced_twice, Arena};
use crate::bridge::{buffer_stored_or_out_of_memory, handle_or_record_error, insert_buffer, record_error, release_resource, Bridge};
use crate::codes::{MAX_LIST_OUTPUT_BYTES, SCALAR_ERROR, STATUS_OK};
use crate::error::{error_code, BridgeError};
use crate::labels::ResourceKind;
use crate::metadata::{metadata_snapshot_bytes, odm1_bytes, odm1_length, time_ok, MetadataRecord};
use crate::resources::{EntrySnapshot, Resource};
use crate::scalars::{try_owned_bytes, try_owned_string};
use crate::text::append_bytes;
use vstd::string::StringSliceAdditionalSpecFns;

verus! {

/// The most entries, and the most bytes of paths, names and metadata snapshots,
/// one list may hold.
#[derive(Clone, Copy, PartialEq, Eq, Structural, Debug)]
pub struct ListBounds {
    pub max_entries: usize,
    pub max_bytes: usize,
}

/// The bounds every production list is held to.
pub fn production_list_bounds() -> (bounds: ListBounds)
    ensures
        bounds.max_entries == crate::codes::MAX_LIST_ENTRIES,
        bounds.max_bytes == MAX_LIST_OUTPUT_BYTES,
{
    ListBounds { max_entries: crate::codes::MAX_LIST_ENTRIES, max_bytes: MAX_LIST_OUTPUT_BYTES }
}

/// The bytes an entry counts against a list's byte bound.
pub open spec fn entry_weight(e: EntrySnapshot) -> int {
    (e.path@.len() + e.name@.len() + e.metadata_snapshot@.len()) as int
}

/// Appends `entry` to a bounded list and adds its weight to `total_bytes`.
///
/// Fails with `ListTooLarge` when the list is full or the bytes would pass the
/// bound (or overflow), and with `AllocationFailed` when no room can be
/// reserved; a failure changes neither the list nor the count.
pub fn push_entry_snapshot(
    entries: &mut Vec<EntrySnapshot>,
    total_bytes: &mut usize,
    entry: EntrySnapshot,
    bounds: ListBounds,
) -> (res: Result<(), BridgeError>)
    ensures
        match res {
            Ok(()) => {
                &&& old(entries)@.len() < bounds.max_entries
                &&& *old(total_bytes) + entry_weight(entry) <= bounds.max_bytes
                &&& final(entries)@ == old(entries)@.push(entry)
                &&& *final(total_bytes) == *old(total_bytes) + entry_weight(entry)
            },
            Err(e) => {
                &&& final(entries)@ == old(entries)@
                &&& *final(total_bytes) == *old(total_bytes)
                &&& if old(entries)@.len() >= bounds.max_entries || *old(total_bytes) + entry_weight(
                    entry,
                ) > bounds.max_bytes {
                    e == BridgeError::ListTooLarge
                } else {
                    e == BridgeError::AllocationFailed
                }
            },
        },
{
    let metadata_length = entry.metadata_snapshot.len();
    let path_length = entry.path.len();
    let name_length = entry.name.len();
    if path_length > usize::MAX - *total_bytes {
        return Err(BridgeError::ListTooLarge);
    }
    let with_path = *total_bytes + path_length;
    if name_length > usize::MAX - with_path {
        return Err(BridgeError::ListTooLarge);
    }
    let with_name = with_path + name_length;
    if metadata_length > usize::MAX - with_name {
        return Err(BridgeError::ListTooLarge);
    }
    let next_bytes = with_name + metadata_length;
    if entries.len() >= bounds.max_entries || next_bytes > bounds.max_bytes {
        return Err(BridgeError::ListTooLarge);
    }
    if !crate::support::try_reserve_exact(entries, 1) {
        return Err(BridgeError::AllocationFailed);
    }
    entries.push(entry);
    *total_bytes = next_bytes;
    Ok(())
}

/// Builds the snapshot of one listed entry from its path, its base name and
/// its metadata.
///
/// Fails as the metadata snapshot does, with `AllocationFailed` when the name
/// cannot be copied, and with `ListTooLarge` when the entry alone exceeds the
/// list byte bound.
pub fn entry_snapshot(path: Vec<u8>, name: &[u8], metadata: &MetadataRecord) -> (res: Result<
    EntrySnapshot,
    BridgeError,
>)
    ensures
        match res {
            Ok(e) => {
                &&& e.path@ == path@
                &&& e.name@ == name@
                &&& e.mode == metadata.mode
                &&& e.content_length == metadata.content_length
                &&& time_ok(*metadata)
                &&& e.metadata_snapshot@ == odm1_bytes(*metadata)
                &&& entry_weight(e) <= MAX_LIST_OUTPUT_BYTES
            },
            Err(e) => e == BridgeError::AllocationFailed || (e == BridgeError::LengthOverflow
                && !time_ok(*metadata)) || (e == BridgeError::BufferTooLarge && odm1_length(
                *metadata,
            ) > crate::codes::MAX_BUFFER_LENGTH) || (e == BridgeError::ListTooLarge && path@.len()
                + name@.len() + odm1_bytes(*metadata).len() > MAX_LIST_OUTPUT_BYTES),
        },
{
    let name = match try_owned_string(name) {
        Ok(n) => n,
        Err(e) => {
            return Err(e);
        },
    };
    let metadata_snapshot = match metadata_snapshot_bytes(metadata) {
        Ok(s) => s,
        Err(e) => {
            return Err(e);
        },
    };
    if path.len() > MAX_LIST_OUTPUT_BYTES || name.len() > MAX_LIST_OUTPUT_BYTES - path.len()
        || metadata_snapshot.len() > MAX_LIST_OUTPUT_BYTES - path.len() - name.len() {
        return Err(BridgeError::ListTooLarge);
    }
    Ok(
        EntrySnapshot {
            path,
            name,
            mode: metadata.mode,
            content_length: metadata.content_length,
            metadata_snapshot,
        },
    )
}

/// The entries of the list `h` names in `a` (empty when it names none).
pub open spec fn entries_at(a: &Arena, h: u32) -> Seq<EntrySnapshot> {
    match a.lookup(h) {
        Some(Resource::EntryList(list)) => list@,
        _ => Seq::empty(),
    }
}

/// Why reading entry `index` of the list `h` names fails, if it does.
pub open spec fn entry_refusal(a: &Arena, h: u32, index: u32) -> Option<BridgeError> {
    match a.access_error(h, ResourceKind::EntryList) {
        Some(e) => Some(e),
        None => if index < entries_at(a, h).len() {
            None
        } else {
            Some(BridgeError::IndexOutOfBounds { index, length: entries_at(a, h).len() as usize })
        },
    }
}

/// Returns entry `index` of the list `handle` names.
pub fn entry_list_value(state: &Bridge, handle: u32, index: u32) -> (res: Result<&EntrySnapshot, BridgeError>)
    requires
        state.wf(),
    ensures
        match entry_refusal(&state.arena, handle, index) {
            Some(e) => res == Err::<&EntrySnapshot, BridgeError>(e),
            None => res is Ok && *res->Ok_0 == entries_at(&state.arena, handle)[index as int],
        },
{
    match state.arena.typed(handle, ResourceKind::EntryList) {
        Ok(Resource::EntryList(list)) => {
            let i = index as usize;
            if i < list.len() {
                Ok(&list[i])
            } else {
                Err(BridgeError::IndexOutOfBounds { index, length: list.len() })
            }
        },
        Ok(_) => Err(BridgeError::InvalidHandle { handle }),
        Err(e) => Err(e),
    }
}

impl Bridge {
    /// Returns the number of entries in a list, or `-1` after recording a failure.
    pub fn entry_list_len(&mut self, handle: u32) -> (length: i32)
        requires
            old(self).wf(),
        ensures
            final(self).wf(),
            match old(self).arena.access_error(handle, ResourceKind::EntryList) {
                Some(e) => length == SCALAR_ERROR && old(self).records(final(self), e),
                None => if entries_at(&old(self).arena, handle).len() <= i32::MAX {
                    length == entries_at(&old(self).arena, handle).len() && *final(self) == *old(self)
                } else {
                    length == SCALAR_ERROR && old(self).records(
                        final(self),
                        BridgeError::LengthOverflow,
                    )
                },
            },
    {
        let length = match self.arena.typed(handle, ResourceKind::EntryList) {
            Ok(Resource::EntryList(list)) => list.len(),
            Ok(_) => 0,
            Err(e) => {
                record_error(self, e);
                return SCALAR_ERROR;
            },
        };
        if length > 0x7fff_ffffusize {
            record_error(self, BridgeError::LengthOverflow);
            return SCALAR_ERROR;
        }
        length as i32
    }

    /// Copies an entry's path (`path` set) or base name into a new buffer handle;
    /// returns `0` after recording a failure.
    pub fn entry_list_text(&mut self, handle: u32, index: u32, path: bool) -> (buffer: u32)
        requires
            old(self).wf(),
        ensures
            final(self).wf(),
            match entry_refusal(&old(self).arena, handle, index) {
                Some(e) => buffer == 0 && old(self).records(final(self), e),
                None => {
                    let entry = entries_at(&old(self).arena, handle)[index as int];
                    let text = if path {
                        entry.path@
                    } else {
                        entry.name@
                    };
                    buffer_stored_or_out_of_memory(old(self), final(self), buffer, text)
                },
            },
    {
        let copied = match entry_list_value(self, handle, index) {
            Ok(entry) => if path {
                try_owned_bytes(entry.path.as_slice())
            } else {
                try_owned_bytes(entry.name.as_slice())
            },
            Err(e) => Err(e),
        };
        let result = match copied {
            Ok(bytes) => insert_buffer(self, bytes),
            Err(e) => Err(e),
        };
        proof {
            if let Ok(h) = result {
                crate::handle::lemma_handle_decompose(h);
            }
        }
        handle_or_record_error(self, result)
    }

    /// Returns an entry's mode, or `-1` after recording a failure.
    pub fn entry_list_mode(&mut self, handle: u32, index: u32) -> (mode: i32)
        requires
            old(self).wf(),
        ensures
            final(self).wf(),
            match entry_refusal(&old(self).arena, handle, index) {
                Some(e) => mode == SCALAR_ERROR && old(self).records(final(self), e),
                None => {
                    let m = entries_at(&old(self).arena, handle)[index as int].mode;
                    if m <= i32::MAX {
                        mode == m && *final(self) == *old(self)
                    } else {
                        mode == SCALAR_ERROR && old(self).records(
                            final(self),
                            BridgeError::LengthOverflow,
                        )
                    }
                },
            },
    {
        let result = match entry_list_value(self, handle, index) {
            Ok(entry) => if entry.mode > 0x7fff_ffffu32 {
                Err(BridgeError::LengthOverflow)
            } else {
                Ok(entry.mode as i32)
            },
            Err(e) => Err(e),
        };
        match result {
            Ok(mode) => mode,
            Err(e) => {
                record_error(self, e);
                SCALAR_ERROR
            },
        }
    }

    /// Returns an entry's content length, or `0` after recording a failure.
    pub fn entry_list_content_length(&mut self, handle: u32, index: u32) -> (length: u64)
        requires
            old(self).wf(),
        ensures
            final(self).wf(),
            match entry_refusal(&old(self).arena, handle, index) {
                Some(e) => length == 0 && old(self).records(final(self), e),
                None => length == entries_at(&old(self).arena, handle)[index as int].content_length
                    && *final(self) == *old(self),
            },
    {
        let result = match entry_list_value(self, handle, index) {
            Ok(entry) => Ok(entry.content_length),
            Err(e) => Err(e),
        };
        match result {
            Ok(length) => length,
            Err(e) => {
                record_error(self, e);
                0
            },
        }
    }

    /// Moves an entry's pre-encoded metadata snapshot into a buffer handle; each
    /// snapshot can be taken once. Returns `0` after recording a failure, which
    /// leaves the list unchanged.
    pub fn entry_list_metadata_snapshot(&mut self, handle: u32, index: u32) -> (snapshot: u32)
        requires
            old(self).wf(),
        ensures
            final(self).wf(),
            match entry_refusal(&old(self).arena, handle, index) {
                Some(e) => snapshot == 0 && old(self).records(final(self), e),
                None => {
                    let entry = entries_at(&old(self).arena, handle)[index as int];
                    if entry.metadata_snapshot@.len() == 0 {
                        snapshot == 0 && final(self).arena == old(self).arena && old(self).same_settings(final(self)) && (final(self).last_error matches Some(
                            BridgeError::InvalidArgument { message },
                        ) && message@ == taken_message())
                    } else if !old(self).arena.spec_can_insert() {
                        snapshot == 0 && old(self).records(final(self), BridgeError::HandleLimit)
                    } else {
                        &&& snapshot != 0
                        &&& snapshot != handle
                        &&& old(self).arena_step(final(self))
                        &&& final(self).arena.lookup(snapshot) matches Some(Resource::Buffer(b))
                        &&& b@ == entry.metadata_snapshot@
                        &&& entries_at(&final(self).arena, handle).len() == entries_at(
                            &old(self).arena,
                            handle,
                        ).len()
                        &&& entries_at(&final(self).arena, handle)[index as int].metadata_snapshot@.len() == 0
                        &&& old(self).arena.lookup(snapshot) is None
                        &&& old(self).arena.same_except2(&final(self).arena, handle, snapshot)
                        &&& old(self).arena.progressed_to(&final(self).arena)
                    }
                },
            },
    {
        let empty = match entry_list_value(self, handle, index) {
            Ok(entry) => entry.metadata_snapshot.len() == 0,
            Err(e) => {
                record_error(self, e);
                return 0;
            },
        };
        if empty {
            let mut message: Vec<u8> = Vec::new();
            append_bytes(&mut message, "entry metadata snapshot has already been taken".as_bytes());
            record_error(self, BridgeError::InvalidArgument { message });
            return 0;
        }
        if !self.arena.can_insert() {
            record_error(self, BridgeError::HandleLimit);
            return 0;
        }
        let ghost a0 = self.arena;
        let previous = self.arena.replace(handle, Resource::EntryList(Vec::new()));
        let ghost a1 = self.arena;
        let ghost mid = a1.lookup(handle)->0;
        let (updated, bytes) = match previous {
            Resource::EntryList(mut list) => {
                let i = index as usize;
                let mut emptied = EntrySnapshot {
                    path: Vec::new(),
                    name: Vec::new(),
                    mode: 0,
                    content_length: 0,
                    metadata_snapshot: Vec::new(),
                };
                list.set_and_swap(i, &mut emptied);
                let bytes = emptied.metadata_snapshot;
                let restored = EntrySnapshot {
                    path: emptied.path,
                    name: emptied.name,
                    mode: emptied.mode,
                    content_length: emptied.content_length,
                    metadata_snapshot: Vec::new(),
                };
                let mut back = restored;
                list.set_and_swap(i, &mut back);
                (Resource::EntryList(list), bytes)
            },
            other => (other, Vec::new()),
        };
        let ghost u = updated;
        self.arena.replace(handle, updated);
        let ghost a2 = self.arena;
        proof {
            lemma_replaced_twice(&a0, &a1, &a2, handle, mid, u);
            crate::arena::lemma_replaced_progress(&a0, &a2, handle, u);
        }
        let result = self.arena.insert(Resource::Buffer(bytes));
        proof {
            if let Ok(k) = result {
                crate::arena::lemma_progress_transitive(&a0, &a2, &self.arena);
                assert(k != handle);
                assert(self.arena.lookup(handle) == a2.lookup(handle));
            }
        }
        handle_or_record_error(self, result)
    }

    /// Releases an entry list and every snapshot it owns.
    pub fn entry_list_release(&mut self, handle: u32) -> (code: u32)
        requires
            old(self).wf(),
        ensures
            final(self).wf(),
            match old(self).arena.access_error(handle, ResourceKind::EntryList) {
                None => code == STATUS_OK && old(self).arena_step(final(self)) && old(self).arena.removed(&final(self).arena, handle, old(self).arena.lookup(handle)->0),
                Some(e) => code == error_code(e@) && old(self).records(final(self), e),
            },
    {
        release_resource(self, handle, ResourceKind::EntryList)
    }
}

/// The message of a second take of an entry's metadata snapshot.
pub open spec fn taken_message() -> Seq<u8> {
    "entry metadata snapshot has already been taken".spec_bytes()
}

} // verus!
