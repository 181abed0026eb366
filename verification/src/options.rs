//! Operation options decoded from scalar arguments and buffer handles.
use vstd::prelude::*;
use vstd::string::StringSliceAdditionalSpecFns;

use crate::bridge::Bridge;
use crate::buffers::optional_owned_utf8_buffer;
use crate::codes::MAX_TRANSFER_CHUNK;
use crate::error::BridgeError;
use crate::buffers::bytes_of;
use crate::labels::ResourceKind;
use crate::native::views::opt_text;
use crate::scalars::{byte_range, byte_range_message, decoded_range, scalar_bool, scalar_bool_message, ByteRange};
use vstd::utf8::valid_utf8;
use crate::text::{append_bytes, append_decimal, decimal};

verus! {

/// Options of a whole-object read.
#[derive(Debug)]
pub struct ReadOptions {
    pub range: ByteRange,
    pub version: Option<Vec<u8>>,
    pub if_match: Option<Vec<u8>>,
    pub if_none_match: Option<Vec<u8>>,
    /// The object's length when the caller already knows it.
    pub content_length_hint: Option<u64>,
}

/// Options of a stat.
#[derive(Debug)]
pub struct StatOptions {
    pub version: Option<Vec<u8>>,
    pub if_match: Option<Vec<u8>>,
    pub if_none_match: Option<Vec<u8>>,
}

/// Options of a write or of opening a writer.
#[derive(Debug)]
pub struct WriteOptions {
    pub append: bool,
    pub content_type: Option<Vec<u8>>,
    pub content_disposition: Option<Vec<u8>>,
    pub content_encoding: Option<Vec<u8>>,
    pub cache_control: Option<Vec<u8>>,
    pub if_match: Option<Vec<u8>>,
    pub if_none_match: Option<Vec<u8>>,
}

/// Options of opening a read stream: the reader's conditions, the byte range
/// streamed, and the largest chunk handed out per step.
#[derive(Debug)]
pub struct ReadStreamOptions {
    pub version: Option<Vec<u8>>,
    pub if_match: Option<Vec<u8>>,
    pub if_none_match: Option<Vec<u8>>,
    pub range: ByteRange,
    pub chunk: usize,
}

/// Whether an optional text handle decodes, apart from running out of
/// memory: `0` (absent), or a buffer holding UTF-8.
pub open spec fn text_handle_ok(state: &Bridge, handle: u32) -> bool {
    handle == 0 || (state.arena.access_error(handle, ResourceKind::Buffer) is None && valid_utf8(
        bytes_of(state, handle),
    ))
}

/// Why an optional text handle does not decode.
pub open spec fn text_handle_error(state: &Bridge, handle: u32) -> BridgeError {
    match state.arena.access_error(handle, ResourceKind::Buffer) {
        Some(e) => e,
        None => BridgeError::InvalidUtf8,
    }
}

/// The text an optional handle decodes to.
pub open spec fn text_handle_value(state: &Bridge, handle: u32) -> Option<Seq<u8>> {
    if handle == 0 {
        None
    } else {
        Some(bytes_of(state, handle))
    }
}

/// The failure of the first of three text handles, in order, that does not
/// decode.
pub open spec fn first_text_failure(state: &Bridge, a: u32, b: u32, c: u32) -> Option<BridgeError> {
    if !text_handle_ok(state, a) {
        Some(text_handle_error(state, a))
    } else if !text_handle_ok(state, b) {
        Some(text_handle_error(state, b))
    } else if !text_handle_ok(state, c) {
        Some(text_handle_error(state, c))
    } else {
        None
    }
}

/// The failure of the first of six text handles, in order, that does not
/// decode.
pub open spec fn first_of_six_failure(state: &Bridge, h: (u32, u32, u32, u32, u32, u32)) -> Option<BridgeError> {
    let (a, b, c, d, e, f) = h;
    match first_text_failure(state, a, b, c) {
        Some(err) => Some(err),
        None => first_text_failure(state, d, e, f),
    }
}

/// Whether a decoded text is the one its handle stands for.
pub open spec fn text_decoded(state: &Bridge, handle: u32, text: Option<Vec<u8>>) -> bool {
    opt_text(text) == text_handle_value(state, handle)
}

/// Whether a result failed the way decoding texts may: with the failure
/// named, or because memory ran out.
pub open spec fn failed_with<T>(res: Result<T, BridgeError>, e: BridgeError) -> bool {
    res == Err::<T, BridgeError>(e) || res == Err::<T, BridgeError>(BridgeError::AllocationFailed)
}

/// Decodes whole-object read options: a byte range and three optional texts
/// (handle `0` for absent); the first failure is returned.
pub fn read_options_from_scalars(
    state: &Bridge,
    range_kind: u32,
    range_offset: u64,
    range_length: u64,
    version_handle: u32,
    if_match_handle: u32,
    if_none_match_handle: u32,
) -> (res: Result<ReadOptions, BridgeError>)
    requires
        state.wf(),
    ensures
        decoded_range(range_kind, range_offset, range_length) is None ==> (res matches Err(
            BridgeError::InvalidArgument { message },
        ) && message@ == byte_range_message()),
        decoded_range(range_kind, range_offset, range_length) is Some ==> match first_text_failure(
            state,
            version_handle,
            if_match_handle,
            if_none_match_handle,
        ) {
            Some(e) => failed_with(res, e),
            None => match res {
                Ok(o) => decoded_range(range_kind, range_offset, range_length) == Some(o.range)
                    && text_decoded(state, version_handle, o.version) && text_decoded(
                    state,
                    if_match_handle,
                    o.if_match,
                ) && text_decoded(state, if_none_match_handle, o.if_none_match)
                    && o.content_length_hint is None,
                Err(e) => e == BridgeError::AllocationFailed,
            },
        },
{
    let range = match byte_range(range_kind, range_offset, range_length) {
        Ok(r) => r,
        Err(e) => {
            return Err(e);
        },
    };
    let version = match optional_owned_utf8_buffer(state, version_handle) {
        Ok(v) => v,
        Err(e) => {
            return Err(e);
        },
    };
    let if_match = match optional_owned_utf8_buffer(state, if_match_handle) {
        Ok(v) => v,
        Err(e) => {
            return Err(e);
        },
    };
    let if_none_match = match optional_owned_utf8_buffer(state, if_none_match_handle) {
        Ok(v) => v,
        Err(e) => {
            return Err(e);
        },
    };
    Ok(ReadOptions { range, version, if_match, if_none_match, content_length_hint: None })
}

/// Decodes stat options: three optional texts (handle `0` for absent).
pub fn stat_options_from_scalars(
    state: &Bridge,
    version_handle: u32,
    if_match_handle: u32,
    if_none_match_handle: u32,
) -> (res: Result<StatOptions, BridgeError>)
    requires
        state.wf(),
    ensures
        match first_text_failure(state, version_handle, if_match_handle, if_none_match_handle) {
            Some(e) => failed_with(res, e),
            None => match res {
                Ok(o) => text_decoded(state, version_handle, o.version) && text_decoded(
                    state,
                    if_match_handle,
                    o.if_match,
                ) && text_decoded(state, if_none_match_handle, o.if_none_match),
                Err(e) => e == BridgeError::AllocationFailed,
            },
        },
{
    let version = match optional_owned_utf8_buffer(state, version_handle) {
        Ok(v) => v,
        Err(e) => {
            return Err(e);
        },
    };
    let if_match = match optional_owned_utf8_buffer(state, if_match_handle) {
        Ok(v) => v,
        Err(e) => {
            return Err(e);
        },
    };
    let if_none_match = match optional_owned_utf8_buffer(state, if_none_match_handle) {
        Ok(v) => v,
        Err(e) => {
            return Err(e);
        },
    };
    Ok(StatOptions { version, if_match, if_none_match })
}

/// Decodes write options: the append flag (`0` or `1`) and six optional texts.
pub fn write_options_from_scalars(
    state: &Bridge,
    append: u32,
    content_type_handle: u32,
    content_disposition_handle: u32,
    content_encoding_handle: u32,
    cache_control_handle: u32,
    if_match_handle: u32,
    if_none_match_handle: u32,
) -> (res: Result<WriteOptions, BridgeError>)
    requires
        state.wf(),
    ensures
        append > 1 ==> (res matches Err(BridgeError::InvalidArgument { message }) && message@
            == scalar_bool_message("append".spec_bytes(), append)),
        append <= 1 ==> match first_of_six_failure(
            state,
            (
                content_type_handle,
                content_disposition_handle,
                content_encoding_handle,
                cache_control_handle,
                if_match_handle,
                if_none_match_handle,
            ),
        ) {
            Some(e) => failed_with(res, e),
            None => match res {
                Ok(o) => o.append == (append == 1) && text_decoded(state, content_type_handle, o.content_type)
                    && text_decoded(state, content_disposition_handle, o.content_disposition)
                    && text_decoded(state, content_encoding_handle, o.content_encoding)
                    && text_decoded(state, cache_control_handle, o.cache_control) && text_decoded(
                    state,
                    if_match_handle,
                    o.if_match,
                ) && text_decoded(state, if_none_match_handle, o.if_none_match),
                Err(e) => e == BridgeError::AllocationFailed,
            },
        },
{
    let append = match scalar_bool(append, "append") {
        Ok(b) => b,
        Err(e) => {
            return Err(e);
        },
    };
    let content_type = match optional_owned_utf8_buffer(state, content_type_handle) {
        Ok(v) => v,
        Err(e) => {
            return Err(e);
        },
    };
    let content_disposition = match optional_owned_utf8_buffer(state, content_disposition_handle) {
        Ok(v) => v,
        Err(e) => {
            return Err(e);
        },
    };
    let content_encoding = match optional_owned_utf8_buffer(state, content_encoding_handle) {
        Ok(v) => v,
        Err(e) => {
            return Err(e);
        },
    };
    let cache_control = match optional_owned_utf8_buffer(state, cache_control_handle) {
        Ok(v) => v,
        Err(e) => {
            return Err(e);
        },
    };
    let if_match = match optional_owned_utf8_buffer(state, if_match_handle) {
        Ok(v) => v,
        Err(e) => {
            return Err(e);
        },
    };
    let if_none_match = match optional_owned_utf8_buffer(state, if_none_match_handle) {
        Ok(v) => v,
        Err(e) => {
            return Err(e);
        },
    };
    Ok(
        WriteOptions {
            append,
            content_type,
            content_disposition,
            content_encoding,
            cache_control,
            if_match,
            if_none_match,
        },
    )
}

/// The message of a rejected read-stream chunk size.
pub open spec fn chunk_size_message(chunk_size: u32) -> Seq<u8> {
    "read stream chunk size must be 1..=262144, found ".spec_bytes() + decimal(chunk_size as nat)
}

/// Decodes read-stream options: the chunk size must be `1..=MAX_TRANSFER_CHUNK`;
/// then the reader's optional texts and the byte range.
pub fn read_stream_options_from_scalars(
    state: &Bridge,
    chunk_size: u32,
    range_kind: u32,
    range_offset: u64,
    range_length: u64,
    version_handle: u32,
    if_match_handle: u32,
    if_none_match_handle: u32,
) -> (res: Result<ReadStreamOptions, BridgeError>)
    requires
        state.wf(),
    ensures
        chunk_size == 0 || chunk_size > MAX_TRANSFER_CHUNK ==> (res matches Err(
            BridgeError::InvalidArgument { message },
        ) && message@ == chunk_size_message(chunk_size)),
        1 <= chunk_size <= MAX_TRANSFER_CHUNK ==> match first_text_failure(
            state,
            version_handle,
            if_match_handle,
            if_none_match_handle,
        ) {
            Some(e) => failed_with(res, e),
            None => if decoded_range(range_kind, range_offset, range_length) is None {
                res matches Err(BridgeError::InvalidArgument { message }) && message@ == byte_range_message()
                    || res == Err::<ReadStreamOptions, BridgeError>(BridgeError::AllocationFailed)
            } else {
                match res {
                    Ok(o) => o.chunk == chunk_size && decoded_range(range_kind, range_offset, range_length)
                        == Some(o.range) && text_decoded(state, version_handle, o.version)
                        && text_decoded(state, if_match_handle, o.if_match) && text_decoded(
                        state,
                        if_none_match_handle,
                        o.if_none_match,
                    ),
                    Err(e) => e == BridgeError::AllocationFailed,
                }
            },
        },
{
    let chunk = chunk_size as usize;
    if chunk == 0 || chunk > MAX_TRANSFER_CHUNK {
        let mut message: Vec<u8> = Vec::new();
        append_bytes(&mut message, "read stream chunk size must be 1..=262144, found ".as_bytes());
        append_decimal(&mut message, chunk_size as u64);
        return Err(BridgeError::InvalidArgument { message });
    }
    let version = match optional_owned_utf8_buffer(state, version_handle) {
        Ok(v) => v,
        Err(e) => {
            return Err(e);
        },
    };
    let if_match = match optional_owned_utf8_buffer(state, if_match_handle) {
        Ok(v) => v,
        Err(e) => {
            return Err(e);
        },
    };
    let if_none_match = match optional_owned_utf8_buffer(state, if_none_match_handle) {
        Ok(v) => v,
        Err(e) => {
            return Err(e);
        },
    };
    let range = match byte_range(range_kind, range_offset, range_length) {
        Ok(r) => r,
        Err(e) => {
            return Err(e);
        },
    };
    Ok(ReadStreamOptions { version, if_match, if_none_match, range, chunk })
}

} // verus!
