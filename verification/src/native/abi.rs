//! Stable numeric values of the native C ABI, beyond those it shares with the
//! scalar bridge.
use vstd::prelude::*;

verus! {

pub const ABI_MAJOR: u32 = 1;
pub const ABI_MINOR: u32 = 0;
pub const ABI_PATCH: u32 = 0;
/// The only version of every extensible input and output structure.
pub const STRUCT_VERSION: u32 = 1;

pub const STATUS_OK: u32 = 0;
pub const STATUS_END: u32 = 1;
pub const STATUS_ERROR: u32 = 2;
pub const STATUS_BUFFER_TOO_SMALL: u32 = 3;
pub const STATUS_ABI_MISMATCH: u32 = 4;
pub const STATUS_PANIC: u32 = 5;

/// The largest byte length any output of the binding may have (`i32::MAX`).
pub const MAX_OUTPUT_BYTES: u64 = 2147483647;
/// [`MAX_OUTPUT_BYTES`] as a length.
pub const MAX_OUTPUT_LEN: usize = 2147483647;
/// The chunk size of the reader behind a whole-object read.
pub const WHOLE_READ_CHUNK_BYTES: usize = 1048576;

pub const FEATURE_BASE: u64 = 1;
pub const FEATURE_WHOLE_OBJECT: u64 = 2;
pub const FEATURE_LISTING: u64 = 4;
pub const FEATURE_RANDOM_READER: u64 = 8;
pub const FEATURE_CHUNKED_WRITER: u64 = 16;
pub const FEATURE_READ_STREAM: u64 = 32;
pub const FEATURE_WRITER_ABORT: u64 = 64;
pub const FEATURE_PRESIGN: u64 = 128;
pub const FEATURE_S3: u64 = 256;
pub const FEATURE_LAYERS: u64 = 512;

pub const READ_VERSION_PRESENT: u64 = 1;
pub const READ_IF_MATCH_PRESENT: u64 = 2;
pub const READ_IF_NONE_MATCH_PRESENT: u64 = 4;

pub const WRITE_APPEND: u64 = 1;
pub const WRITE_CONTENT_TYPE_PRESENT: u64 = 1;
pub const WRITE_CONTENT_DISPOSITION_PRESENT: u64 = 2;
pub const WRITE_CONTENT_ENCODING_PRESENT: u64 = 4;
pub const WRITE_CACHE_CONTROL_PRESENT: u64 = 8;
pub const WRITE_IF_MATCH_PRESENT: u64 = 16;
pub const WRITE_IF_NONE_MATCH_PRESENT: u64 = 32;

pub const STAT_VERSION_PRESENT: u64 = 1;
pub const STAT_IF_MATCH_PRESENT: u64 = 2;
pub const STAT_IF_NONE_MATCH_PRESENT: u64 = 4;

pub const READER_VERSION_PRESENT: u64 = 1;
pub const READER_IF_MATCH_PRESENT: u64 = 2;
pub const READER_IF_NONE_MATCH_PRESENT: u64 = 4;

pub const READ_STREAM_VERSION_PRESENT: u64 = 1;
pub const READ_STREAM_IF_MATCH_PRESENT: u64 = 2;
pub const READ_STREAM_IF_NONE_MATCH_PRESENT: u64 = 4;

pub const LIST_RECURSIVE: u64 = 1;
pub const LIST_LIMIT_PRESENT: u64 = 1;
pub const LIST_START_AFTER_PRESENT: u64 = 2;

pub const S3_ROOT_PRESENT: u64 = 1;
pub const S3_ENDPOINT_PRESENT: u64 = 2;
pub const S3_SESSION_TOKEN_PRESENT: u64 = 4;
pub const S3_EXTERNAL_ID_PRESENT: u64 = 8;
pub const S3_ROLE_SESSION_NAME_PRESENT: u64 = 16;
pub const S3_ASSUME_ROLE_DURATION_PRESENT: u64 = 32;
pub const S3_VIRTUAL_HOST_STYLE: u64 = 1;
pub const S3_DISABLE_EC2_METADATA: u64 = 2;
/// Credentials from the default provider chain.
pub const S3_AUTH_DEFAULT_CHAIN: u32 = 0;
/// Credentials given in the options.
pub const S3_AUTH_STATIC: u32 = 1;
/// Anonymous, unsigned requests.
pub const S3_AUTH_UNSIGNED: u32 = 2;
/// A role assumed with credentials from a source.
pub const S3_AUTH_ASSUME_ROLE: u32 = 3;
pub const S3_SOURCE_DEFAULT_CHAIN: u32 = 0;
pub const S3_SOURCE_STATIC: u32 = 1;

pub const DELETE_RECURSIVE: u64 = 1;
pub const DELETE_VERSION_PRESENT: u64 = 1;

/// Layer bit of an operator wrapped in a timeout layer.
pub const OPERATOR_LAYER_TIMEOUT: u32 = 1;
/// Layer bit of an operator wrapped in a retry layer.
pub const OPERATOR_LAYER_RETRY: u32 = 2;

/// Bytes of the bootstrap table the caller always provides: its declared size
/// and the requested major version.
pub const API_INPUT_SIZE: usize = 8;
/// Bytes of the bootstrap table every caller must declare: the input prefix
/// plus the library's sizes, versions, feature bits and output limit.
pub const API_PREFIX_SIZE: usize = 40;

} // verus!
