//! Object metadata as plain values, and its versioned `ODM1` binary snapshot.
use vstd::prelude::*;

use crate::codes::{
    MAX_BUFFER_LENGTH, METADATA_CACHE_CONTROL_PRESENT, METADATA_CONTENT_DISPOSITION_PRESENT, METADATA_CONTENT_ENCODING_PRESENT, METADATA_CONTENT_MD5_PRESENT, METADATA_CONTENT_TYPE_PRESENT, METADATA_ETAG_PRESENT, METADATA_IS_CURRENT_PRESENT, METADATA_LAST_MODIFIED_PRESENT, METADATA_VERSION_PRESENT, METADATA_SNAPSHOT_HEADER_LENGTH, METADATA_SNAPSHOT_SCHEMA,
};
use crate::error::BridgeError;
use crate::operators::{bit_when, lemma_bit_when, lemma_sixteen_flags};
use crate::support::try_reserve_exact;
use crate::text::{append_bytes, copy_bytes};
use crate::wire::{le32, le64, lemma_le32_roundtrip, lemma_le64_roundtrip, lemma_read_le32_window, push_le32, push_le64, read_le32, read_le64};

verus! {

/// A point in time as whole seconds since the Unix epoch plus a signed
/// sub-second part in nanoseconds (both carrying the sign of the instant).
#[derive(Clone, Copy, PartialEq, Eq, Structural, Debug)]
pub struct Timestamp {
    pub seconds: i64,
    pub subsec_nanos: i32,
}

/// Metadata of an object or directory entry.
#[derive(Debug)]
pub struct MetadataRecord {
    /// `ENTRY_MODE_UNKNOWN`, `ENTRY_MODE_FILE` or `ENTRY_MODE_DIRECTORY`.
    pub mode: u32,
    pub is_current: Option<bool>,
    pub is_deleted: bool,
    pub content_length: u64,
    pub last_modified: Option<Timestamp>,
    pub cache_control: Option<Vec<u8>>,
    pub content_disposition: Option<Vec<u8>>,
    pub content_encoding: Option<Vec<u8>>,
    pub content_md5: Option<Vec<u8>>,
    pub content_type: Option<Vec<u8>>,
    pub etag: Option<Vec<u8>>,
    pub version: Option<Vec<u8>>,
}

/// The view of an optional text.
pub open spec fn opt_bytes(v: Option<Vec<u8>>) -> Option<Seq<u8>> {
    match v {
        Some(b) => Some(b@),
        None => None,
    }
}

/// Copies an optional text.
pub fn duplicate_text(v: &Option<Vec<u8>>) -> (copy: Option<Vec<u8>>)
    ensures
        opt_bytes(copy) == opt_bytes(*v),
{
    match v {
        Some(b) => Some(copy_bytes(b.as_slice())),
        None => None,
    }
}

impl MetadataRecord {
    /// The record's content with each text taken by value.
    pub open spec fn same_as(&self, other: &MetadataRecord) -> bool {
        &&& self.mode == other.mode
        &&& self.is_current == other.is_current
        &&& self.is_deleted == other.is_deleted
        &&& self.content_length == other.content_length
        &&& self.last_modified == other.last_modified
        &&& opt_bytes(self.cache_control) == opt_bytes(other.cache_control)
        &&& opt_bytes(self.content_disposition) == opt_bytes(other.content_disposition)
        &&& opt_bytes(self.content_encoding) == opt_bytes(other.content_encoding)
        &&& opt_bytes(self.content_md5) == opt_bytes(other.content_md5)
        &&& opt_bytes(self.content_type) == opt_bytes(other.content_type)
        &&& opt_bytes(self.etag) == opt_bytes(other.etag)
        &&& opt_bytes(self.version) == opt_bytes(other.version)
    }

    /// Returns an equal copy of this record.
    pub fn duplicate(&self) -> (copy: MetadataRecord)
        ensures
            copy.same_as(self),
    {
        MetadataRecord {
            mode: self.mode,
            is_current: self.is_current,
            is_deleted: self.is_deleted,
            content_length: self.content_length,
            last_modified: self.last_modified,
            cache_control: duplicate_text(&self.cache_control),
            content_disposition: duplicate_text(&self.content_disposition),
            content_encoding: duplicate_text(&self.content_encoding),
            content_md5: duplicate_text(&self.content_md5),
            content_type: duplicate_text(&self.content_type),
            etag: duplicate_text(&self.etag),
            version: duplicate_text(&self.version),
        }
    }
}

/// The magic bytes `ODM1`.
pub open spec fn odm1_magic() -> Seq<u8> {
    seq![79u8, 68u8, 77u8, 49u8]
}

/// The `i`-th optional text of a record, in snapshot order: cache control,
/// content disposition, content encoding, content MD5, content type, ETag, version.
pub open spec fn meta_text(m: MetadataRecord, i: int) -> Option<Vec<u8>> {
    if i == 0 {
        m.cache_control
    } else if i == 1 {
        m.content_disposition
    } else if i == 2 {
        m.content_encoding
    } else if i == 3 {
        m.content_md5
    } else if i == 4 {
        m.content_type
    } else if i == 5 {
        m.etag
    } else {
        m.version
    }
}

/// The bytes of an optional text (empty when absent).
pub open spec fn text_bytes(t: Option<Vec<u8>>) -> Seq<u8> {
    match t {
        Some(v) => v@,
        None => Seq::empty(),
    }
}

/// The presence bit of the `i`-th optional text.
pub open spec fn text_bit(i: int) -> int {
    if i == 0 {
        4
    } else if i == 1 {
        8
    } else if i == 2 {
        16
    } else if i == 3 {
        32
    } else if i == 4 {
        64
    } else if i == 5 {
        128
    } else {
        256
    }
}

/// The presence bits of the first `i` optional texts.
pub open spec fn text_bits_upto(m: MetadataRecord, i: int) -> int
    decreases i,
{
    if i <= 0 {
        0
    } else {
        text_bits_upto(m, i - 1) + if meta_text(m, i - 1) is Some {
            text_bit(i - 1)
        } else {
            0
        }
    }
}

/// The concatenated bytes of the first `i` optional texts.
pub open spec fn texts_upto(m: MetadataRecord, i: int) -> Seq<u8>
    decreases i,
{
    if i <= 0 {
        Seq::empty()
    } else {
        texts_upto(m, i - 1) + text_bytes(meta_text(m, i - 1))
    }
}

/// The little-endian length words of the first `i` optional texts.
pub open spec fn lengths_upto(m: MetadataRecord, i: int) -> Seq<u8>
    decreases i,
{
    if i <= 0 {
        Seq::empty()
    } else {
        lengths_upto(m, i - 1) + le32(text_bytes(meta_text(m, i - 1)).len() as u32)
    }
}

/// A timestamp in canonical form (seconds, non-negative nanoseconds below one
/// second), or `None` when the seconds cannot be adjusted.
pub open spec fn canonical_time(t: Timestamp) -> Option<(i64, u32)> {
    if t.subsec_nanos < 0 {
        if t.seconds == i64::MIN || 1_000_000_000 + t.subsec_nanos < 0 {
            None
        } else {
            Some(((t.seconds - 1) as i64, (1_000_000_000 + t.subsec_nanos) as u32))
        }
    } else {
        Some((t.seconds, t.subsec_nanos as u32))
    }
}

/// Whether a record's timestamp, if any, has a canonical form.
pub open spec fn time_ok(m: MetadataRecord) -> bool {
    m.last_modified matches Some(t) ==> canonical_time(t) is Some
}

/// The presence bitset of a record.
pub open spec fn present_bits(m: MetadataRecord) -> u64 {
    ((if m.is_current is Some {
        METADATA_IS_CURRENT_PRESENT as int
    } else {
        0
    }) + (if m.last_modified is Some {
        METADATA_LAST_MODIFIED_PRESENT as int
    } else {
        0
    }) + text_bits_upto(m, 7)) as u64
}

/// The canonical seconds of a record's timestamp (`0` when absent).
pub open spec fn snapshot_seconds(m: MetadataRecord) -> i64 {
    match m.last_modified {
        Some(t) => match canonical_time(t) {
            Some((seconds, _)) => seconds,
            None => 0,
        },
        None => 0,
    }
}

/// The canonical nanoseconds of a record's timestamp (`0` when absent).
pub open spec fn snapshot_nanos(m: MetadataRecord) -> u32 {
    match m.last_modified {
        Some(t) => match canonical_time(t) {
            Some((_, nanos)) => nanos,
            None => 0,
        },
        None => 0,
    }
}

/// The fixed-size head of a snapshot, before the length words.
pub open spec fn odm1_head(m: MetadataRecord) -> Seq<u8> {
    odm1_magic() + le32(METADATA_SNAPSHOT_SCHEMA) + le64(present_bits(m)) + le32(m.mode) + le32(
        if m.is_current == Some(true) {
            1
        } else {
            0
        },
    ) + le32(
        if m.is_deleted {
            1
        } else {
            0
        },
    ) + le32(0) + le64(m.content_length) + le64(snapshot_seconds(m) as u64) + le32(
        snapshot_nanos(m),
    ) + le32(0)
}

/// The `ODM1` snapshot of a record.
pub open spec fn odm1_bytes(m: MetadataRecord) -> Seq<u8> {
    odm1_head(m) + lengths_upto(m, 7) + texts_upto(m, 7)
}

/// The length of a record's snapshot.
pub open spec fn odm1_length(m: MetadataRecord) -> int {
    METADATA_SNAPSHOT_HEADER_LENGTH + texts_upto(m, 7).len()
}

/// Returns the `i`-th optional text of a record.
pub fn text_at(m: &MetadataRecord, i: usize) -> (t: &Option<Vec<u8>>)
    ensures
        *t == meta_text(*m, i as int),
{
    if i == 0 {
        &m.cache_control
    } else if i == 1 {
        &m.content_disposition
    } else if i == 2 {
        &m.content_encoding
    } else if i == 3 {
        &m.content_md5
    } else if i == 4 {
        &m.content_type
    } else if i == 5 {
        &m.etag
    } else {
        &m.version
    }
}

/// The fields of a record's snapshot, computed and checked before any byte is written.
pub struct MetadataSnapshotView<'a> {
    pub record: &'a MetadataRecord,
    pub present_bits: u64,
    pub mode: u32,
    pub is_current: u32,
    pub is_deleted: u32,
    pub content_length: u64,
    pub last_modified_seconds: i64,
    pub last_modified_nanoseconds: u32,
    pub lengths: Vec<u32>,
    pub encoded_length: usize,
}

impl<'a> MetadataSnapshotView<'a> {
    /// Whether this view holds exactly the snapshot fields of its record.
    pub open spec fn describes(&self) -> bool {
        let m = *self.record;
        &&& time_ok(m)
        &&& odm1_length(m) <= MAX_BUFFER_LENGTH
        &&& self.present_bits == present_bits(m)
        &&& self.mode == m.mode
        &&& self.is_current == (if m.is_current == Some(true) {
            1u32
        } else {
            0u32
        })
        &&& self.is_deleted == (if m.is_deleted {
            1u32
        } else {
            0u32
        })
        &&& self.content_length == m.content_length
        &&& self.last_modified_seconds == snapshot_seconds(m)
        &&& self.last_modified_nanoseconds == snapshot_nanos(m)
        &&& self.lengths@.len() == 7
        &&& forall|i: int|
            0 <= i < 7 ==> #[trigger] self.lengths@[i] == text_bytes(meta_text(m, i)).len()
        &&& self.encoded_length == odm1_length(m)
    }

    /// Computes and checks the snapshot fields of `metadata`.
    ///
    /// Fails with `LengthOverflow` when the timestamp has no canonical form, and
    /// with `BufferTooLarge` when the snapshot would exceed the buffer limit.
    pub fn new(metadata: &'a MetadataRecord) -> (res: Result<Self, BridgeError>)
        ensures
            match res {
                Ok(view) => view.record == metadata && view.describes(),
                Err(e) => if !time_ok(*metadata) {
                    e == BridgeError::LengthOverflow
                } else {
                    e == BridgeError::BufferTooLarge && odm1_length(*metadata) > MAX_BUFFER_LENGTH
                },
            },
    {
        let is_current: u32 = match metadata.is_current {
            Some(true) => 1,
            _ => 0,
        };
        let mut bits: u64 = 0;
        if metadata.is_current.is_some() {
            bits = bits + METADATA_IS_CURRENT_PRESENT;
        }
        let (seconds, nanoseconds): (i64, u32) = match metadata.last_modified {
            Some(t) => {
                bits = bits + METADATA_LAST_MODIFIED_PRESENT;
                if t.subsec_nanos < 0 {
                    if t.seconds == i64::MIN {
                        return Err(BridgeError::LengthOverflow);
                    }
                    let n: i32 = 1_000_000_000i32 + t.subsec_nanos;
                    if n < 0 {
                        return Err(BridgeError::LengthOverflow);
                    }
                    (t.seconds - 1, n as u32)
                } else {
                    (t.seconds, t.subsec_nanos as u32)
                }
            },
            None => (0, 0),
        };
        assert(time_ok(*metadata));
        assert(seconds == snapshot_seconds(*metadata) && nanoseconds == snapshot_nanos(*metadata));
        let mut lengths: Vec<u32> = Vec::new();
        let mut encoded_length: usize = METADATA_SNAPSHOT_HEADER_LENGTH;
        let mut i: usize = 0;
        while i < 7
            invariant
                i <= 7,
                time_ok(*metadata),
                lengths@.len() == i,
                forall|j: int| 0 <= j < i ==> #[trigger] lengths@[j] == text_bytes(
                    meta_text(*metadata, j),
                ).len(),
                encoded_length == METADATA_SNAPSHOT_HEADER_LENGTH + texts_upto(*metadata, i as int).len(),
                encoded_length <= MAX_BUFFER_LENGTH,
                bits == (if metadata.is_current is Some {
                    METADATA_IS_CURRENT_PRESENT as int
                } else {
                    0
                }) + (if metadata.last_modified is Some {
                    METADATA_LAST_MODIFIED_PRESENT as int
                } else {
                    0
                }) + text_bits_upto(*metadata, i as int),
                text_bits_upto(*metadata, i as int) <= 256 * i,
            decreases 7 - i,
        {
            let length: usize = match text_at(metadata, i) {
                Some(v) => v.len(),
                None => 0,
            };
            assert(length == text_bytes(meta_text(*metadata, i as int)).len());
            assert(texts_upto(*metadata, i as int + 1) == texts_upto(*metadata, i as int)
                + text_bytes(meta_text(*metadata, i as int)));
            if length > MAX_BUFFER_LENGTH - encoded_length {
                proof {
                    lemma_texts_grow(*metadata, i as int + 1, 7);
                }
                return Err(BridgeError::BufferTooLarge);
            }
            if text_at(metadata, i).is_some() {
                proof {
                    assert(4u64 << (i as u64) == text_bit(i as int)) by {
                        assert(i == 0 || i == 1 || i == 2 || i == 3 || i == 4 || i == 5 || i == 6);
                        assert(4u64 << 0u64 == 4) by (bit_vector);
                        assert(4u64 << 1u64 == 8) by (bit_vector);
                        assert(4u64 << 2u64 == 16) by (bit_vector);
                        assert(4u64 << 3u64 == 32) by (bit_vector);
                        assert(4u64 << 4u64 == 64) by (bit_vector);
                        assert(4u64 << 5u64 == 128) by (bit_vector);
                        assert(4u64 << 6u64 == 256) by (bit_vector);
                    }
                }
                bits = bits + (4u64 << (i as u64));
            }
            lengths.push(length as u32);
            encoded_length = encoded_length + length;
            i = i + 1;
        }
        Ok(MetadataSnapshotView {
            record: metadata,
            present_bits: bits,
            mode: metadata.mode,
            is_current,
            is_deleted: if metadata.is_deleted {
                1
            } else {
                0
            },
            content_length: metadata.content_length,
            last_modified_seconds: seconds,
            last_modified_nanoseconds: nanoseconds,
            lengths,
            encoded_length,
        })
    }

    /// Writes the snapshot this view describes; fails with `AllocationFailed`
    /// when its memory cannot be reserved.
    pub fn encode(&self) -> (res: Result<Vec<u8>, BridgeError>)
        requires
            self.describes(),
        ensures
            match res {
                Ok(bytes) => bytes@ == odm1_bytes(*self.record),
                Err(e) => e == BridgeError::AllocationFailed,
            },
    {
        let mut snapshot: Vec<u8> = Vec::new();
        if !try_reserve_exact(&mut snapshot, self.encoded_length) {
            return Err(BridgeError::AllocationFailed);
        }
        snapshot.push(79u8);
        snapshot.push(68u8);
        snapshot.push(77u8);
        snapshot.push(49u8);
        push_le32(&mut snapshot, METADATA_SNAPSHOT_SCHEMA);
        push_le64(&mut snapshot, self.present_bits);
        push_le32(&mut snapshot, self.mode);
        push_le32(&mut snapshot, self.is_current);
        push_le32(&mut snapshot, self.is_deleted);
        push_le32(&mut snapshot, 0);
        push_le64(&mut snapshot, self.content_length);
        push_le64(&mut snapshot, self.last_modified_seconds as u64);
        push_le32(&mut snapshot, self.last_modified_nanoseconds);
        push_le32(&mut snapshot, 0);
        let ghost m = *self.record;
        assert(snapshot@ == odm1_head(m));
        let mut i: usize = 0;
        while i < 7
            invariant
                i <= 7,
                self.describes(),
                m == *self.record,
                snapshot@ == odm1_head(m) + lengths_upto(m, i as int),
            decreases 7 - i,
        {
            push_le32(&mut snapshot, self.lengths[i]);
            i = i + 1;
        }
        let mut i: usize = 0;
        while i < 7
            invariant
                i <= 7,
                self.describes(),
                m == *self.record,
                snapshot@ == odm1_head(m) + lengths_upto(m, 7) + texts_upto(m, i as int),
            decreases 7 - i,
        {
            match text_at(self.record, i) {
                Some(v) => append_bytes(&mut snapshot, v.as_slice()),
                None => {},
            }
            assert(snapshot@ == odm1_head(m) + lengths_upto(m, 7) + texts_upto(m, i + 1));
            i = i + 1;
        }
        Ok(snapshot)
    }
}

/// Prefixes of the texts grow.
proof fn lemma_texts_grow(m: MetadataRecord, i: int, j: int)
    requires
        0 <= i <= j,
    ensures
        texts_upto(m, i).len() <= texts_upto(m, j).len(),
    decreases j - i,
{
    if i < j {
        lemma_texts_grow(m, i, j - 1);
    }
}

/// Encodes a record as an `ODM1` snapshot.
///
/// Fails with `LengthOverflow` when the timestamp has no canonical form, with
/// `BufferTooLarge` when the snapshot would exceed the buffer limit, and with
/// `AllocationFailed` when its memory cannot be reserved.
pub fn metadata_snapshot_bytes(metadata: &MetadataRecord) -> (res: Result<Vec<u8>, BridgeError>)
    ensures
        match res {
            Ok(bytes) => time_ok(*metadata) && odm1_length(*metadata) <= MAX_BUFFER_LENGTH
                && bytes@ == odm1_bytes(*metadata),
            Err(e) => if !time_ok(*metadata) {
                e == BridgeError::LengthOverflow
            } else if odm1_length(*metadata) > MAX_BUFFER_LENGTH {
                e == BridgeError::BufferTooLarge
            } else {
                e == BridgeError::AllocationFailed
            },
        },
{
    match MetadataSnapshotView::new(metadata) {
        Ok(view) => view.encode(),
        Err(e) => Err(e),
    }
}

/// The length words and texts add up: a snapshot is the fixed header followed
/// by every present text, so its length is the header length plus theirs.
pub proof fn lemma_odm1_length(m: MetadataRecord)
    ensures
        odm1_head(m).len() + lengths_upto(m, 7).len() == METADATA_SNAPSHOT_HEADER_LENGTH,
        odm1_bytes(m).len() == odm1_length(m),
{
    assert(lengths_upto(m, 7).len() == 28) by {
        reveal_with_fuel(lengths_upto, 8);
    }
}

/// The four bytes at `at` of a snapshot read back as `v` when they are
/// `le32(v)`.
proof fn lemma_word_at(b: Seq<u8>, at: int, v: u32)
    requires
        0 <= at,
        at + 4 <= b.len(),
        b.subrange(at, at + 4) == le32(v),
    ensures
        read_le32(b, at) == v,
{
    lemma_le32_roundtrip(v);
    assert(le32(v).subrange(0, 4) == le32(v));
    lemma_read_le32_window(b, le32(v), at, 0);
}

/// The eight bytes at `at` of a snapshot read back as `v` when they are
/// `le64(v)`.
proof fn lemma_double_word_at(b: Seq<u8>, at: int, v: u64)
    requires
        0 <= at,
        at + 8 <= b.len(),
        b.subrange(at, at + 8) == le64(v),
    ensures
        read_le64(b, at) == v,
{
    lemma_le64_roundtrip(v);
    let e = le64(v);
    assert(b.subrange(at, at + 4) == e.subrange(0, 4));
    assert(b.subrange(at + 4, at + 8) == e.subrange(4, 8));
    lemma_read_le32_window(b, e, at, 0);
    lemma_read_le32_window(b, e, at + 4, 4);
}

/// An `ODM1` snapshot reads back the record it encodes: the magic and
/// schema, then, as little-endian words at fixed offsets, the mode (16), the
/// is-current word (20), which is 1 exactly for the current version, the
/// is-deleted word (24), 1 exactly for a deleted object, and the content
/// length (32).
pub proof fn law_odm1_reads_back(m: MetadataRecord)
    ensures
        odm1_bytes(m).subrange(0, 4) == odm1_magic(),
        read_le32(odm1_bytes(m), 4) == METADATA_SNAPSHOT_SCHEMA,
        read_le32(odm1_bytes(m), 16) == m.mode,
        read_le32(odm1_bytes(m), 20) == (if m.is_current == Some(true) {
            1u32
        } else {
            0u32
        }),
        read_le32(odm1_bytes(m), 24) == (if m.is_deleted {
            1u32
        } else {
            0u32
        }),
        read_le64(odm1_bytes(m), 32) == m.content_length,
{
    let b = odm1_bytes(m);
    let current: u32 = if m.is_current == Some(true) {
        1
    } else {
        0
    };
    let deleted: u32 = if m.is_deleted {
        1
    } else {
        0
    };
    lemma_odm1_length(m);
    let h = odm1_head(m);
    assert(le64(present_bits(m)).len() == 8);
    assert(le64(m.content_length).len() == 8);
    assert(le64(snapshot_seconds(m) as u64).len() == 8);
    assert(h.len() == 56);
    assert(b.subrange(0, 56) == h);
    assert(b.subrange(0, 4) =~= odm1_magic());
    assert(b.subrange(4, 8) =~= le32(METADATA_SNAPSHOT_SCHEMA));
    assert(b.subrange(16, 20) =~= le32(m.mode));
    assert(b.subrange(20, 24) =~= le32(current));
    assert(b.subrange(24, 28) =~= le32(deleted));
    assert(b.subrange(32, 40) =~= le64(m.content_length));
    lemma_word_at(b, 4, METADATA_SNAPSHOT_SCHEMA);
    lemma_word_at(b, 16, m.mode);
    lemma_word_at(b, 20, current);
    lemma_word_at(b, 24, deleted);
    lemma_double_word_at(b, 32, m.content_length);
}

/// A checked snapshot view holds its record's flags as words that are 1
/// exactly when the flag holds and 0 otherwise: the is-current word for the
/// current version and the is-deleted word for a deleted object; the mode
/// and content length are the record's own.
pub proof fn law_snapshot_view_flags(v: &MetadataSnapshotView)
    requires
        v.describes(),
    ensures
        v.is_current <= 1,
        (v.is_current == 1) == (v.record.is_current == Some(true)),
        v.is_deleted <= 1,
        (v.is_deleted == 1) == v.record.is_deleted,
        v.mode == v.record.mode,
        v.content_length == v.record.content_length,
{
}

/// An `ODM1` snapshot lists each optional text of its record in its own
/// place: the seven length words from offset 56 are the lengths of cache
/// control, content disposition, content encoding, content MD5, content
/// type, ETag and version, in that order, and the bytes after the 84-byte
/// header are those texts, in the same order.
pub proof fn law_odm1_texts_in_order(m: MetadataRecord)
    ensures
        read_le32(odm1_bytes(m), 56) == text_bytes(m.cache_control).len() as u32,
        read_le32(odm1_bytes(m), 60) == text_bytes(m.content_disposition).len() as u32,
        read_le32(odm1_bytes(m), 64) == text_bytes(m.content_encoding).len() as u32,
        read_le32(odm1_bytes(m), 68) == text_bytes(m.content_md5).len() as u32,
        read_le32(odm1_bytes(m), 72) == text_bytes(m.content_type).len() as u32,
        read_le32(odm1_bytes(m), 76) == text_bytes(m.etag).len() as u32,
        read_le32(odm1_bytes(m), 80) == text_bytes(m.version).len() as u32,
        odm1_bytes(m).subrange(84, odm1_bytes(m).len() as int) == text_bytes(m.cache_control) + text_bytes(
            m.content_disposition,
        ) + text_bytes(m.content_encoding) + text_bytes(m.content_md5) + text_bytes(m.content_type)
            + text_bytes(m.etag) + text_bytes(m.version),
{
    reveal_with_fuel(lengths_upto, 8);
    reveal_with_fuel(texts_upto, 8);
    lemma_odm1_length(m);
    let b = odm1_bytes(m);
    let h = odm1_head(m);
    let l0 = text_bytes(m.cache_control).len() as u32;
    let l1 = text_bytes(m.content_disposition).len() as u32;
    let l2 = text_bytes(m.content_encoding).len() as u32;
    let l3 = text_bytes(m.content_md5).len() as u32;
    let l4 = text_bytes(m.content_type).len() as u32;
    let l5 = text_bytes(m.etag).len() as u32;
    let l6 = text_bytes(m.version).len() as u32;
    let lengths = lengths_upto(m, 7);
    assert(lengths =~= le32(l0) + le32(l1) + le32(l2) + le32(l3) + le32(l4) + le32(l5) + le32(l6));
    assert(h.len() == 56);
    assert(b.subrange(56, 60) =~= le32(l0));
    assert(b.subrange(60, 64) =~= le32(l1));
    assert(b.subrange(64, 68) =~= le32(l2));
    assert(b.subrange(68, 72) =~= le32(l3));
    assert(b.subrange(72, 76) =~= le32(l4));
    assert(b.subrange(76, 80) =~= le32(l5));
    assert(b.subrange(80, 84) =~= le32(l6));
    lemma_word_at(b, 56, l0);
    lemma_word_at(b, 60, l1);
    lemma_word_at(b, 64, l2);
    lemma_word_at(b, 68, l3);
    lemma_word_at(b, 72, l4);
    lemma_word_at(b, 76, l5);
    lemma_word_at(b, 80, l6);
    assert(b.subrange(84, b.len() as int) =~= texts_upto(m, 7));
}

/// The presence bits of an `ODM1` snapshot (the word at offset 8) say which
/// of its record's optional fields are given, each field at its own bit:
/// is-current, last-modified, then each optional text.
#[verifier::spinoff_prover]
#[verifier::rlimit(60)]
pub proof fn law_odm1_presence_bits(m: MetadataRecord)
    ensures
        read_le64(odm1_bytes(m), 8) == present_bits(m),
        (present_bits(m) & METADATA_IS_CURRENT_PRESENT != 0) == (m.is_current is Some),
        (present_bits(m) & METADATA_LAST_MODIFIED_PRESENT != 0) == (m.last_modified is Some),
        (present_bits(m) & METADATA_CACHE_CONTROL_PRESENT != 0) == (m.cache_control is Some),
        (present_bits(m) & METADATA_CONTENT_DISPOSITION_PRESENT != 0) == (m.content_disposition is Some),
        (present_bits(m) & METADATA_CONTENT_ENCODING_PRESENT != 0) == (m.content_encoding is Some),
        (present_bits(m) & METADATA_CONTENT_MD5_PRESENT != 0) == (m.content_md5 is Some),
        (present_bits(m) & METADATA_CONTENT_TYPE_PRESENT != 0) == (m.content_type is Some),
        (present_bits(m) & METADATA_ETAG_PRESENT != 0) == (m.etag is Some),
        (present_bits(m) & METADATA_VERSION_PRESENT != 0) == (m.version is Some),
{
    reveal_with_fuel(text_bits_upto, 8);
    let b = odm1_bytes(m);
    lemma_odm1_length(m);
    assert(le64(present_bits(m)).len() == 8);
    assert(b.subrange(8, 16) =~= le64(present_bits(m)));
    lemma_double_word_at(b, 8, present_bits(m));
    let f0 = m.is_current is Some;
    let f1 = m.last_modified is Some;
    let f2 = m.cache_control is Some;
    let f3 = m.content_disposition is Some;
    let f4 = m.content_encoding is Some;
    let f5 = m.content_md5 is Some;
    let f6 = m.content_type is Some;
    let f7 = m.etag is Some;
    let f8 = m.version is Some;
    lemma_bit_when(f0, 1);
    lemma_bit_when(f1, 2);
    lemma_bit_when(f2, 4);
    lemma_bit_when(f3, 8);
    lemma_bit_when(f4, 16);
    lemma_bit_when(f5, 32);
    lemma_bit_when(f6, 64);
    lemma_bit_when(f7, 128);
    lemma_bit_when(f8, 256);
    lemma_bit_when(false, 512);
    lemma_bit_when(false, 1024);
    lemma_bit_when(false, 2048);
    lemma_bit_when(false, 4096);
    lemma_bit_when(false, 8192);
    lemma_bit_when(false, 16384);
    lemma_bit_when(false, 32768);
    assert(present_bits(m) == bit_when(f0, 1) + bit_when(f1, 2) + bit_when(f2, 4) + bit_when(f3, 8) + bit_when(f4, 16)
        + bit_when(f5, 32) + bit_when(f6, 64) + bit_when(f7, 128) + bit_when(f8, 256) + bit_when(false, 512)
        + bit_when(false, 1024) + bit_when(false, 2048) + bit_when(false, 4096) + bit_when(false, 8192)
        + bit_when(false, 16384) + bit_when(false, 32768));
    lemma_sixteen_flags(
        f0, f1, f2, f3, f4, f5, f6, f7, f8, false, false, false, false, false, false, false,
        present_bits(m),
    );
}

} // verus!
