//! Storage-library byte buffers: owned copies bounded by the bridge's buffer
//! limit, and the chunking of a read stream's buffers.
use vstd::prelude::*;

use crate::codes::MAX_BUFFER_LENGTH;
use crate::error::BridgeError;
use crate::support::try_reserve_exact;

verus! {

/// The bytes a storage-library buffer holds, in order.
pub uninterp spec fn buffer_contents(buffer: opendal::Buffer) -> Seq<u8>;

/// Calls `Buffer::len`: the number of bytes the buffer holds.
#[verifier::external_body]
pub(crate) fn buffer_len(buffer: &opendal::Buffer) -> (n: usize)
    ensures
        n == buffer_contents(*buffer).len(),
{
    buffer.len()
}

/// Calls `Buffer::split_to`: the first `at` bytes are split off and returned,
/// and the buffer keeps the rest (the call panics past the end, which
/// `requires` rules out).
#[verifier::external_body]
pub(crate) fn buffer_split_to(buffer: &mut opendal::Buffer, at: usize) -> (head: opendal::Buffer)
    requires
        at <= buffer_contents(*old(buffer)).len(),
    ensures
        buffer_contents(head) == buffer_contents(*old(buffer)).subrange(0, at as int),
        buffer_contents(*final(buffer)) == buffer_contents(*old(buffer)).subrange(
            at as int,
            buffer_contents(*old(buffer)).len() as int,
        ),
{
    buffer.split_to(at)
}

/// Appends the bytes of a buffer to `out` by walking its chunks (the
/// buffer's `Iterator`, whose chunks in order make up its contents).
#[verifier::external_body]
pub(crate) fn append_buffer(out: &mut Vec<u8>, buffer: opendal::Buffer)
    ensures
        final(out)@ == old(out)@ + buffer_contents(buffer),
{
    out.extend(buffer.flatten())
}

/// Copies a storage-library buffer into an owned vector: one larger than the
/// bridge's buffer limit is refused, and memory that cannot be reserved is
/// reported instead of aborting.
pub fn try_owned_opendal_buffer(buffer: opendal::Buffer) -> (res: Result<Vec<u8>, BridgeError>)
    ensures
        buffer_contents(buffer).len() > MAX_BUFFER_LENGTH ==> res == Err::<Vec<u8>, BridgeError>(
            BridgeError::BufferTooLarge,
        ),
        buffer_contents(buffer).len() <= MAX_BUFFER_LENGTH ==> match res {
            Ok(v) => v@ == buffer_contents(buffer),
            Err(e) => e == BridgeError::AllocationFailed,
        },
{
    let length = buffer_len(&buffer);
    if length > MAX_BUFFER_LENGTH {
        return Err(BridgeError::BufferTooLarge);
    }
    let mut owned: Vec<u8> = Vec::new();
    if !try_reserve_exact(&mut owned, length) {
        return Err(BridgeError::AllocationFailed);
    }
    append_buffer(&mut owned, buffer);
    Ok(owned)
}

/// Takes the next chunk of a read stream from a buffer: at most `max_chunk`
/// bytes, copied, and the rest of the buffer (if any) for the next step.
pub fn copy_stream_chunk(buffer: opendal::Buffer, max_chunk: usize) -> (res: Result<
    (Vec<u8>, Option<opendal::Buffer>),
    BridgeError,
>)
    ensures
        ({
            let all = buffer_contents(buffer);
            let n = if all.len() <= max_chunk {
                all.len() as int
            } else {
                max_chunk as int
            };
            &&& n > MAX_BUFFER_LENGTH ==> res is Err && res == Err::<
                (Vec<u8>, Option<opendal::Buffer>),
                BridgeError,
            >(BridgeError::BufferTooLarge)
            &&& n <= MAX_BUFFER_LENGTH ==> match res {
                Ok((chunk, rest)) => chunk@ == all.subrange(0, n) && (rest is None <==> n == all.len())
                    && (rest matches Some(r) ==> buffer_contents(r) == all.subrange(
                    n,
                    all.len() as int,
                )),
                Err(e) => e == BridgeError::AllocationFailed,
            }
        }),
{
    let mut buffer = buffer;
    let total = buffer_len(&buffer);
    let length = if total <= max_chunk {
        total
    } else {
        max_chunk
    };
    let chunk = buffer_split_to(&mut buffer, length);
    let rest = if length < total {
        Some(buffer)
    } else {
        None
    };
    match try_owned_opendal_buffer(chunk) {
        Ok(bytes) => Ok((bytes, rest)),
        Err(e) => Err(e),
    }
}

} // verus!
