//! Stable numeric values of the scalar bridge ABI.
use vstd::prelude::*;

verus! {

/// Packed bridge ABI version (`major << 16 | minor`).
pub const ABI_VERSION: u32 = 0x0001_0007;

pub const FEATURE_MEMORY_SERVICE: u32 = 1;
pub const FEATURE_POLL_ONCE_CANARY: u32 = 2;
pub const FEATURE_GENERATION_HANDLES: u32 = 4;
pub const FEATURE_BINARY_BUFFERS: u32 = 8;
pub const FEATURE_TASK_ABI: u32 = 16;
pub const FEATURE_GENERIC_OPERATOR: u32 = 32;
pub const FEATURE_CORE_MUTATIONS: u32 = 64;
pub const FEATURE_BOUNDED_LIST: u32 = 128;
pub const FEATURE_BULK_TRANSFER: u32 = 256;
pub const FEATURE_STRUCTURED_ERRORS: u32 = 512;
pub const FEATURE_METADATA_OPTIONS: u32 = 1024;
pub const FEATURE_COPY_RENAME: u32 = 2048;
pub const FEATURE_STATEFUL_READER: u32 = 4096;
pub const FEATURE_STATEFUL_WRITER: u32 = 8192;
pub const FEATURE_STATEFUL_LISTER: u32 = 16384;
pub const FEATURE_EXPLICIT_EOF: u32 = 32768;

/// Number of addressable handle slots (the low 16 bits of a handle minus one).
pub const MAX_SLOTS: usize = 65535;
/// Largest generation a slot can carry before it is retired.
pub const MAX_GENERATION: u16 = 32767;
/// Largest byte buffer the bridge owns.
pub const MAX_BUFFER_LENGTH: usize = 67108864;
/// Largest window or stream chunk moved in one call.
pub const MAX_TRANSFER_CHUNK: usize = 262144;
/// Largest number of entries in one bounded listing.
pub const MAX_LIST_ENTRIES: usize = 65536;
/// Largest number of UTF-8 bytes in one bounded listing.
pub const MAX_LIST_OUTPUT_BYTES: usize = 16777216;
/// Largest number of configuration entries an operator builder holds.
pub const MAX_CONFIG_ENTRIES: usize = 1024;
/// Largest number of configuration bytes an operator builder holds.
pub const MAX_CONFIG_BYTES: usize = 1048576;

pub const STATUS_OK: u32 = 0;
pub const SCALAR_ERROR: i32 = -1;

pub const ERROR_UNEXPECTED: u32 = 1;
pub const ERROR_UNSUPPORTED: u32 = 2;
pub const ERROR_CONFIG_INVALID: u32 = 3;
pub const ERROR_NOT_FOUND: u32 = 4;
pub const ERROR_PERMISSION_DENIED: u32 = 5;
pub const ERROR_IS_A_DIRECTORY: u32 = 6;
pub const ERROR_NOT_A_DIRECTORY: u32 = 7;
pub const ERROR_ALREADY_EXISTS: u32 = 8;
pub const ERROR_RATE_LIMITED: u32 = 9;
pub const ERROR_IS_SAME_FILE: u32 = 10;
pub const ERROR_CONDITION_NOT_MATCH: u32 = 11;
pub const ERROR_RANGE_NOT_SATISFIED: u32 = 12;
pub const ERROR_INVALID_ARGUMENT: u32 = 0x1001;
pub const ERROR_RESOURCE_CLOSED: u32 = 0x1002;
pub const ERROR_BUFFER_TOO_LARGE: u32 = 0x1003;
pub const ERROR_ABI_MISMATCH: u32 = 0x1004;
pub const ERROR_RESOURCE_BUSY: u32 = 0x1006;

pub const ERROR_STATUS_PERMANENT: u32 = 1;
pub const ERROR_STATUS_TEMPORARY: u32 = 2;
pub const ERROR_STATUS_PERSISTENT: u32 = 3;

pub const RANGE_FULL: u32 = 0;
pub const RANGE_FROM: u32 = 1;
pub const RANGE_OFFSET_LENGTH: u32 = 2;
pub const RANGE_SUFFIX: u32 = 3;

pub const TASK_PENDING: u32 = 1;
pub const TASK_READY: u32 = 2;
pub const TASK_CANCELLED: u32 = 3;
pub const TASK_CONSUMED: u32 = 4;

pub const COMPLETION_WRITE: u32 = 1;
pub const COMPLETION_READ: u32 = 2;
pub const COMPLETION_STAT: u32 = 3;
pub const COMPLETION_CREATE_DIR: u32 = 4;
pub const COMPLETION_DELETE: u32 = 5;
pub const COMPLETION_LIST: u32 = 6;
pub const COMPLETION_COPY: u32 = 7;
pub const COMPLETION_RENAME: u32 = 8;
pub const COMPLETION_OPEN_READER: u32 = 9;
pub const COMPLETION_READER_NEXT: u32 = 10;
pub const COMPLETION_OPEN_WRITER: u32 = 11;
pub const COMPLETION_WRITER_WRITE: u32 = 12;
pub const COMPLETION_WRITER_FINISH: u32 = 13;
pub const COMPLETION_WRITER_ABORT: u32 = 14;
pub const COMPLETION_OPEN_LISTER: u32 = 15;
pub const COMPLETION_LISTER_NEXT: u32 = 16;

pub const ENTRY_MODE_UNKNOWN: u32 = 0;
pub const ENTRY_MODE_FILE: u32 = 1;
pub const ENTRY_MODE_DIRECTORY: u32 = 2;

pub const CAP_STAT: u64 = 1;
pub const CAP_READ: u64 = 2;
pub const CAP_WRITE: u64 = 4;
pub const CAP_CREATE_DIR: u64 = 8;
pub const CAP_DELETE: u64 = 16;
pub const CAP_LIST: u64 = 32;
pub const CAP_COPY: u64 = 64;
pub const CAP_RENAME: u64 = 128;
pub const CAP_READ_SUFFIX: u64 = 256;
pub const CAP_WRITE_APPEND: u64 = 512;
pub const CAP_LIST_LIMIT: u64 = 1024;
pub const CAP_LIST_START_AFTER: u64 = 2048;
pub const CAP_LIST_RECURSIVE: u64 = 4096;
pub const CAP_PRESIGN_STAT: u64 = 8192;
pub const CAP_PRESIGN_READ: u64 = 16384;
pub const CAP_PRESIGN_WRITE: u64 = 32768;

/// Size of the fixed `ODE1` error snapshot header in bytes.
pub const ERROR_SNAPSHOT_HEADER_LENGTH: usize = 24;
pub const ERROR_SNAPSHOT_SCHEMA: u32 = 1;
/// Size of the fixed `ODM1` metadata snapshot header in bytes.
pub const METADATA_SNAPSHOT_HEADER_LENGTH: usize = 84;
pub const METADATA_SNAPSHOT_SCHEMA: u32 = 1;

pub const METADATA_IS_CURRENT_PRESENT: u64 = 1;
pub const METADATA_LAST_MODIFIED_PRESENT: u64 = 2;
pub const METADATA_CACHE_CONTROL_PRESENT: u64 = 4;
pub const METADATA_CONTENT_DISPOSITION_PRESENT: u64 = 8;
pub const METADATA_CONTENT_ENCODING_PRESENT: u64 = 16;
pub const METADATA_CONTENT_MD5_PRESENT: u64 = 32;
pub const METADATA_CONTENT_TYPE_PRESENT: u64 = 64;
pub const METADATA_ETAG_PRESENT: u64 = 128;
pub const METADATA_VERSION_PRESENT: u64 = 256;

/// The feature bitset the bridge advertises.
pub fn feature_flags() -> (flags: u32)
    ensures
        flags == 65535,
{
    let flags = FEATURE_MEMORY_SERVICE | FEATURE_POLL_ONCE_CANARY | FEATURE_GENERATION_HANDLES
        | FEATURE_BINARY_BUFFERS | FEATURE_TASK_ABI | FEATURE_GENERIC_OPERATOR
        | FEATURE_CORE_MUTATIONS | FEATURE_BOUNDED_LIST | FEATURE_BULK_TRANSFER
        | FEATURE_STRUCTURED_ERRORS | FEATURE_METADATA_OPTIONS | FEATURE_COPY_RENAME
        | FEATURE_STATEFUL_READER | FEATURE_STATEFUL_WRITER | FEATURE_STATEFUL_LISTER
        | FEATURE_EXPLICIT_EOF;
    assert(1u32 | 2u32 | 4u32 | 8u32 | 16u32 | 32u32 | 64u32 | 128u32 | 256u32 | 512u32 | 1024u32
        | 2048u32 | 4096u32 | 8192u32 | 16384u32 | 32768u32 == 65535u32) by (bit_vector);
    flags
}

} // verus!
