//! Whole-object reads: how a requested range is bounded by the negotiated
//! output limit, how an open-ended or suffix range is resolved against the
//! object's length, and how chunks accumulate without passing the limit.
use vstd::prelude::*;
use vstd::string::StringSliceAdditionalSpecFns;

use crate::native::abi::{MAX_OUTPUT_BYTES, WHOLE_READ_CHUNK_BYTES};
use crate::native::failure::{
    buffer_too_large, buffer_too_large_failure, error_record_from_parts, joined, service_error_failure, CallFailure, CallResult, FailureModel,
};
use crate::native::parse::{range_outcome, ByteRangeInput};
use crate::options::ReadOptions;
use crate::scalars::ByteRange;
use crate::service::ServiceErrorKind;
use crate::support::{reserve_exact, vec_capacity};
use crate::text::{append_bytes, copy_bytes};

verus! {

/// How much of the object a whole-object read asks for.
#[derive(Clone, Copy, PartialEq, Eq, Structural, Debug)]
pub enum WholeReadRange {
    /// A range of known size, already within the output limit.
    Bounded { offset: u64, size: u64 },
    /// The last `size` bytes, already within the output limit.
    Suffix { size: u64 },
    /// Everything from `offset`, read at most `probe_size` bytes at a time:
    /// one byte past the output limit, so an oversized result shows itself.
    OpenEnded { offset: u64, probe_size: u64 },
}

/// A whole-object read: the range, the output limit, and the reader's
/// options (the version and conditions, read serially in chunks of
/// [`WHOLE_READ_CHUNK_BYTES`] with no prefetch). A stat made to resolve the
/// range carries only the version.
#[derive(Debug)]
pub struct WholeReadPlan {
    pub range: WholeReadRange,
    pub output_limit: u64,
    pub version: Option<Vec<u8>>,
    pub if_match: Option<Vec<u8>>,
    pub if_none_match: Option<Vec<u8>>,
    pub content_length_hint: Option<u64>,
    pub reader_concurrent: usize,
    pub reader_chunk: usize,
    pub reader_prefetch: usize,
}

/// Whether a byte range is well formed: a suffix range has a length.
pub open spec fn range_wf(r: ByteRange) -> bool {
    r.suffix ==> r.length is Some
}

/// The smaller of two numbers.
pub open spec fn min_u64(a: u64, b: u64) -> u64 {
    if a <= b {
        a
    } else {
        b
    }
}

/// The planned range of a requested range under an output limit, or `None`
/// when a range of known size passes the limit.
pub open spec fn planned_range(r: ByteRange, limit: u64) -> Option<WholeReadRange> {
    if r.suffix {
        if r.length->0 > limit {
            None
        } else {
            Some(WholeReadRange::Suffix { size: r.length->0 })
        }
    } else {
        match r.length {
            Some(size) => if size > limit {
                None
            } else {
                Some(WholeReadRange::Bounded { offset: r.offset, size })
            },
            None => Some(
                WholeReadRange::OpenEnded {
                    offset: r.offset,
                    probe_size: min_u64((limit + 1) as u64, (u64::MAX - r.offset) as u64),
                },
            ),
        }
    }
}

/// The message of a read whose result would pass the output limit.
pub open spec fn read_limit_message() -> Seq<u8> {
    "read result exceeds the negotiated output limit".spec_bytes()
}

/// Plans a whole-object read: the output limit is the caller's, capped at
/// [`MAX_OUTPUT_BYTES`]; a range of known size must fit it.
pub fn whole_read_plan(options: ReadOptions, max_output_len: u64) -> (res: CallResult<WholeReadPlan>)
    requires
        range_wf(options.range),
    ensures
        match planned_range(options.range, min_u64(max_output_len, MAX_OUTPUT_BYTES)) {
            Some(range) => res matches Ok(p) && p.range == range && p.output_limit == min_u64(
                max_output_len,
                MAX_OUTPUT_BYTES,
            ) && crate::native::views::opt_text(p.version) == crate::native::views::opt_text(
                options.version,
            ) && crate::native::views::opt_text(p.if_match) == crate::native::views::opt_text(
                options.if_match,
            ) && crate::native::views::opt_text(p.if_none_match)
                == crate::native::views::opt_text(options.if_none_match) && p.content_length_hint
                == options.content_length_hint && p.reader_concurrent == 1
                && p.reader_chunk == WHOLE_READ_CHUNK_BYTES && p.reader_prefetch == 0,
            None => res matches Err(f) && f@ == buffer_too_large_failure(read_limit_message()),
        },
{
    let output_limit = if max_output_len <= MAX_OUTPUT_BYTES {
        max_output_len
    } else {
        MAX_OUTPUT_BYTES
    };
    let r = options.range;
    let range = if r.suffix {
        let size = match r.length {
            Some(n) => n,
            None => 0,
        };
        if size > output_limit {
            return Err(buffer_too_large(copy_bytes("read result exceeds the negotiated output limit".as_bytes())));
        }
        WholeReadRange::Suffix { size }
    } else {
        match r.length {
            Some(size) => {
                if size > output_limit {
                    return Err(
                        buffer_too_large(copy_bytes("read result exceeds the negotiated output limit".as_bytes())),
                    );
                }
                WholeReadRange::Bounded { offset: r.offset, size }
            },
            None => {
                let room = u64::MAX - r.offset;
                let probe_size = if output_limit + 1 <= room {
                    output_limit + 1
                } else {
                    room
                };
                WholeReadRange::OpenEnded { offset: r.offset, probe_size }
            },
        }
    };
    Ok(
        WholeReadPlan {
            range,
            output_limit,
            version: options.version,
            if_match: options.if_match,
            if_none_match: options.if_none_match,
            content_length_hint: options.content_length_hint,
            reader_concurrent: 1,
            reader_chunk: WHOLE_READ_CHUNK_BYTES,
            reader_prefetch: 0,
        },
    )
}

/// Whether resolving the planned range needs the object's metadata.
pub fn needs_stat(range: WholeReadRange) -> (needed: bool)
    ensures
        needed == !(range is Bounded),
{
    match range {
        WholeReadRange::Bounded { .. } => false,
        _ => true,
    }
}

/// The failure of a whole-object read of a directory: the storage library's
/// `IsADirectory` error, created with a permanent status.
pub open spec fn directory_read_failure() -> FailureModel {
    service_error_failure(
        ServiceErrorKind::IsADirectory,
        false,
        false,
        "read path is a directory".spec_bytes(),
    )
}

/// The concrete range a planned range reads from an object of
/// `content_length` bytes.
pub open spec fn resolved_range(range: WholeReadRange, content_length: u64) -> ByteRange {
    match range {
        WholeReadRange::Bounded { offset, size } => ByteRange {
            offset,
            length: Some(size),
            suffix: false,
        },
        WholeReadRange::Suffix { size } => ByteRange {
            offset: (content_length - min_u64(content_length, size)) as u64,
            length: Some(min_u64(content_length, size)),
            suffix: false,
        },
        WholeReadRange::OpenEnded { offset, probe_size } => ByteRange {
            offset: min_u64(offset, content_length),
            length: Some(
                min_u64((content_length - min_u64(offset, content_length)) as u64, probe_size),
            ),
            suffix: false,
        },
    }
}

/// Resolves a planned range: a bounded one as it is; otherwise, given the
/// object's metadata (`(is_dir, content_length)`), a directory is refused and
/// the range is clamped to the object's length.
pub fn resolve_whole_read_range(range: WholeReadRange, metadata: Option<(bool, u64)>) -> (res:
    CallResult<ByteRange>)
    requires
        !(range is Bounded) ==> metadata is Some,
    ensures
        range is Bounded ==> res == Ok::<ByteRange, CallFailure>(resolved_range(range, 0)),
        !(range is Bounded) ==> match metadata {
            Some((is_dir, content_length)) => if is_dir {
                res matches Err(f) && f@ == directory_read_failure()
            } else {
                res == Ok::<ByteRange, CallFailure>(resolved_range(range, content_length))
            },
            None => true,
        },
{
    if let WholeReadRange::Bounded { offset, size } = range {
        return Ok(ByteRange { offset, length: Some(size), suffix: false });
    }
    let (is_dir, content_length) = match metadata {
        Some(m) => m,
        None => (false, 0),
    };
    if is_dir {
        return Err(
            error_record_from_parts(
                ServiceErrorKind::IsADirectory,
                false,
                false,
                "read path is a directory".as_bytes(),
            ),
        );
    }
    match range {
        WholeReadRange::OpenEnded { offset, probe_size } => {
            let start = if offset <= content_length {
                offset
            } else {
                content_length
            };
            let rest = content_length - start;
            let size = if rest <= probe_size {
                rest
            } else {
                probe_size
            };
            Ok(ByteRange { offset: start, length: Some(size), suffix: false })
        },
        WholeReadRange::Suffix { size } => {
            let size = if content_length <= size {
                content_length
            } else {
                size
            };
            Ok(ByteRange { offset: content_length - size, length: Some(size), suffix: false })
        },
        WholeReadRange::Bounded { offset, size } => Ok(
            ByteRange { offset, length: Some(size), suffix: false },
        ),
    }
}

/// Appends one chunk of a whole-object read to the output, refusing a chunk
/// that would take the output past `output_limit`; the output grows by
/// doubling, never past the limit.
pub fn append_whole_read_chunk(output: &mut Vec<u8>, chunk: &[u8], output_limit: u64) -> (res: CallResult<()>)
    requires
        output_limit <= MAX_OUTPUT_BYTES,
    ensures
        res is Ok <==> old(output)@.len() + chunk@.len() <= output_limit,
        res is Ok ==> final(output)@ == old(output)@ + chunk@,
        res is Err ==> final(output)@ == old(output)@,
        res matches Err(f) ==> f@ == buffer_too_large_failure(
            if old(output)@.len() + chunk@.len() > u64::MAX {
                "read result length is not representable".spec_bytes()
            } else {
                read_limit_message()
            },
        ),
{
    let current = output.len() as u64;
    let chunk_length = chunk.len() as u64;
    if current > u64::MAX - chunk_length {
        return Err(buffer_too_large(copy_bytes("read result length is not representable".as_bytes())));
    }
    let next = current + chunk_length;
    if next > output_limit {
        return Err(buffer_too_large(copy_bytes("read result exceeds the negotiated output limit".as_bytes())));
    }
    let required = next as usize;
    let capacity = vec_capacity(output);
    if required > capacity {
        let limit = output_limit as usize;
        let base = if capacity == 0 {
            1
        } else {
            capacity
        };
        let doubled = if base <= usize::MAX / 2 {
            base * 2
        } else {
            usize::MAX
        };
        let grown = if doubled >= required {
            doubled
        } else {
            required
        };
        let target = if grown <= limit {
            grown
        } else {
            limit
        };
        reserve_exact(output, target - output.len());
    }
    append_bytes(output, chunk);
    Ok(())
}

/// Checks the length of a buffer read for `subject` against the binding's
/// output limit and the caller's `max_output_len`.
pub fn checked_read_buffer(length: usize, max_output_len: u64, subject: &str) -> (res: CallResult<()>)
    ensures
        res is Ok <==> length <= MAX_OUTPUT_BYTES && length <= max_output_len,
        res matches Err(f) ==> f@ == buffer_too_large_failure(
            subject.spec_bytes() + " exceeds the negotiated output limit".spec_bytes(),
        ),
{
    let n = length as u64;
    if n > MAX_OUTPUT_BYTES || n > max_output_len {
        return Err(buffer_too_large(joined(subject, " exceeds the negotiated output limit")));
    }
    Ok(())
}

/// What a random read asks for: the range decoded from the caller's
/// structure, and the output limit (the caller's, capped at
/// [`MAX_OUTPUT_BYTES`]) that a range of known size must fit.
pub open spec fn reader_read_outcome(input: ByteRangeInput, max_output_len: u64) -> Result<
    (ByteRange, u64),
    FailureModel,
> {
    match range_outcome(input) {
        Err(e) => Err(e),
        Ok(r) => if r.length matches Some(size) && size > min_u64(max_output_len, MAX_OUTPUT_BYTES) {
            Err(buffer_too_large_failure("reader range exceeds the negotiated output limit".spec_bytes()))
        } else {
            Ok((r, min_u64(max_output_len, MAX_OUTPUT_BYTES)))
        },
    }
}

/// Decodes the range of a random read and checks it against the output limit.
pub fn reader_read_plan(input: &ByteRangeInput, max_output_len: u64) -> (res: CallResult<(ByteRange, u64)>)
    ensures
        match reader_read_outcome(*input, max_output_len) {
            Ok(p) => res == Ok::<(ByteRange, u64), CallFailure>(p),
            Err(e) => res matches Err(f) && f@ == e,
        },
{
    let range = match crate::native::parse::parse_range(input) {
        Ok(r) => r,
        Err(f) => {
            return Err(f);
        },
    };
    let limit = if max_output_len <= MAX_OUTPUT_BYTES {
        max_output_len
    } else {
        MAX_OUTPUT_BYTES
    };
    if let Some(size) = range.length {
        if size > limit {
            return Err(buffer_too_large(copy_bytes("reader range exceeds the negotiated output limit".as_bytes())));
        }
    }
    Ok((range, limit))
}

/// A resolved open-ended or suffix range lies within the object, and an
/// open-ended one reads no more than its probe.
pub proof fn lemma_resolved_range_within_object(range: WholeReadRange, content_length: u64)
    requires
        !(range is Bounded),
    ensures
        resolved_range(range, content_length).offset + resolved_range(range, content_length).length->0
            <= content_length,
        range matches WholeReadRange::OpenEnded { probe_size, .. } ==> resolved_range(
            range,
            content_length,
        ).length->0 <= probe_size,
        range matches WholeReadRange::Suffix { size } ==> resolved_range(range, content_length).length->0
            <= size,
{
}

} // verus!
