//! Checked conversions of scalar ABI arguments and owned copies of byte data.
use vstd::prelude::*;
use vstd::string::StringSliceAdditionalSpecFns;

use crate::codes::{MAX_BUFFER_LENGTH, MAX_TRANSFER_CHUNK, RANGE_FROM, RANGE_FULL, RANGE_OFFSET_LENGTH, RANGE_SUFFIX};
use crate::error::BridgeError;
use crate::support::try_reserve_exact;
use crate::text::{append_bytes, append_decimal, decimal};

verus! {

/// The message of a rejected boolean scalar.
pub open spec fn scalar_bool_message(name: Seq<u8>, value: u32) -> Seq<u8> {
    name + " must be 0 or 1, found ".spec_bytes() + decimal(value as nat)
}

/// Reads a boolean scalar: `0` is false, `1` is true, anything else is rejected.
pub fn scalar_bool(value: u32, name: &str) -> (res: Result<bool, BridgeError>)
    ensures
        value == 0 ==> res == Ok::<bool, BridgeError>(false),
        value == 1 ==> res == Ok::<bool, BridgeError>(true),
        value > 1 ==> (res matches Err(BridgeError::InvalidArgument { message }) && message@
            == scalar_bool_message(name.spec_bytes(), value)),
{
    if value == 0 {
        Ok(false)
    } else if value == 1 {
        Ok(true)
    } else {
        let mut message: Vec<u8> = Vec::new();
        append_bytes(&mut message, name.as_bytes());
        append_bytes(&mut message, " must be 0 or 1, found ".as_bytes());
        append_decimal(&mut message, value as u64);
        Err(BridgeError::InvalidArgument { message })
    }
}

/// Reads an optional list limit: absent unless `has_limit` is `1`; a present
/// limit must fit in 32 bits.
pub fn optional_list_limit(has_limit: u32, limit: u64) -> (res: Result<Option<usize>, BridgeError>)
    ensures
        has_limit == 0 ==> res == Ok::<Option<usize>, BridgeError>(None),
        has_limit == 1 && limit <= u32::MAX ==> res == Ok::<Option<usize>, BridgeError>(
            Some(limit as usize),
        ),
        has_limit == 1 && limit > u32::MAX ==> res == Err::<Option<usize>, BridgeError>(
            BridgeError::LengthOverflow,
        ),
        has_limit > 1 ==> (res matches Err(BridgeError::InvalidArgument { message }) && message@
            == scalar_bool_message("has_limit".spec_bytes(), has_limit)),
{
    match scalar_bool(has_limit, "has_limit") {
        Err(e) => Err(e),
        Ok(false) => Ok(None),
        Ok(true) => {
            if limit > 0xffff_ffffu64 {
                Err(BridgeError::LengthOverflow)
            } else {
                Ok(Some(limit as usize))
            }
        },
    }
}

/// A byte range of an object read: from `offset`, `length` bytes or to the end,
/// or, for a suffix range, the last `length` bytes.
#[derive(Clone, Copy, PartialEq, Eq, Structural, Debug)]
pub struct ByteRange {
    pub offset: u64,
    pub length: Option<u64>,
    pub suffix: bool,
}

/// The message of a rejected byte-range encoding.
pub open spec fn byte_range_message() -> Seq<u8> {
    "invalid byte-range scalar encoding".spec_bytes()
}

/// The byte range a scalar encoding stands for, if it is canonical.
pub open spec fn decoded_range(kind: u32, offset: u64, length: u64) -> Option<ByteRange> {
    if kind == RANGE_FULL && offset == 0 && length == 0 {
        Some(ByteRange { offset: 0, length: None, suffix: false })
    } else if kind == RANGE_FROM && length == 0 {
        Some(ByteRange { offset, length: None, suffix: false })
    } else if kind == RANGE_OFFSET_LENGTH && offset + length <= u64::MAX {
        Some(ByteRange { offset, length: Some(length), suffix: false })
    } else if kind == RANGE_SUFFIX && offset == 0 {
        Some(ByteRange { offset: 0, length: Some(length), suffix: true })
    } else {
        None
    }
}

/// Decodes a byte range from its scalar encoding (kind, offset, length).
///
/// Full ranges take no offset or length, open-ended ranges no length, suffix
/// ranges no offset, and an offset-length range must not pass the end of `u64`.
pub fn byte_range(kind: u32, offset: u64, length: u64) -> (res: Result<ByteRange, BridgeError>)
    ensures
        res is Ok <==> decoded_range(kind, offset, length) is Some,
        res matches Ok(r) ==> decoded_range(kind, offset, length) == Some(r),
        kind == RANGE_FULL && offset == 0 && length == 0 ==> res == Ok::<ByteRange, BridgeError>(
            ByteRange { offset: 0, length: None, suffix: false },
        ),
        kind == RANGE_FROM && length == 0 ==> res == Ok::<ByteRange, BridgeError>(
            ByteRange { offset, length: None, suffix: false },
        ),
        kind == RANGE_OFFSET_LENGTH && offset + length <= u64::MAX ==> res == Ok::<
            ByteRange,
            BridgeError,
        >(ByteRange { offset, length: Some(length), suffix: false }),
        kind == RANGE_SUFFIX && offset == 0 ==> res == Ok::<ByteRange, BridgeError>(
            ByteRange { offset: 0, length: Some(length), suffix: true },
        ),
        !(kind == RANGE_FULL && offset == 0 && length == 0) && !(kind == RANGE_FROM && length == 0)
            && !(kind == RANGE_OFFSET_LENGTH && offset + length <= u64::MAX) && !(kind
            == RANGE_SUFFIX && offset == 0) ==> (res matches Err(
            BridgeError::InvalidArgument { message },
        ) && message@ == byte_range_message()),
{
    if kind == RANGE_FULL && offset == 0 && length == 0 {
        Ok(ByteRange { offset: 0, length: None, suffix: false })
    } else if kind == RANGE_FROM && length == 0 {
        Ok(ByteRange { offset, length: None, suffix: false })
    } else if kind == RANGE_OFFSET_LENGTH && offset <= u64::MAX - length {
        Ok(ByteRange { offset, length: Some(length), suffix: false })
    } else if kind == RANGE_SUFFIX && offset == 0 {
        Ok(ByteRange { offset: 0, length: Some(length), suffix: true })
    } else {
        let mut message: Vec<u8> = Vec::new();
        append_bytes(&mut message, "invalid byte-range scalar encoding".as_bytes());
        Err(BridgeError::InvalidArgument { message })
    }
}

/// The message of a rejected transfer length.
pub open spec fn transfer_length_message(length: u32) -> Seq<u8> {
    "transfer length must be 1..=262144, found ".spec_bytes() + decimal(length as nat)
}

/// Checks a transfer window of `length` bytes at `offset` into a buffer of
/// `buffer_length` bytes: the window must be non-empty, at most one transfer
/// chunk long, and inside the buffer.
pub fn checked_buffer_window(buffer_length: usize, offset: u32, length: u32) -> (res: Result<
    std::ops::Range<usize>,
    BridgeError,
>)
    ensures
        match res {
            Ok(range) => {
                &&& 1 <= length <= MAX_TRANSFER_CHUNK
                &&& offset + length <= buffer_length
                &&& range.start == offset
                &&& range.end == offset + length
            },
            Err(e) => if length == 0 || length > MAX_TRANSFER_CHUNK {
                e matches BridgeError::InvalidArgument { message } && message@
                    == transfer_length_message(length)
            } else {
                &&& offset + length > buffer_length
                &&& offset + length > usize::MAX ==> e == (BridgeError::IndexOutOfBounds {
                    index: u32::MAX,
                    length: buffer_length,
                })
                &&& offset + length <= usize::MAX ==> e == (BridgeError::IndexOutOfBounds {
                    index: offset,
                    length: buffer_length,
                })
            },
        },
{
    let offset_usize = offset as usize;
    let length_usize = length as usize;
    if length_usize == 0 || length_usize > MAX_TRANSFER_CHUNK {
        let mut message: Vec<u8> = Vec::new();
        append_bytes(&mut message, "transfer length must be 1..=262144, found ".as_bytes());
        append_decimal(&mut message, length as u64);
        return Err(BridgeError::InvalidArgument { message });
    }
    if offset_usize > usize::MAX - length_usize {
        return Err(BridgeError::IndexOutOfBounds { index: u32::MAX, length: buffer_length });
    }
    let end = offset_usize + length_usize;
    if end > buffer_length {
        return Err(BridgeError::IndexOutOfBounds { index: offset, length: buffer_length });
    }
    Ok(std::ops::Range { start: offset_usize, end })
}

/// Allocates a buffer of `length` zero bytes.
///
/// Fails with `BufferTooLarge` above the buffer limit, and with
/// `AllocationFailed` when the memory cannot be reserved.
pub fn zeroed_buffer(length: u32) -> (res: Result<Vec<u8>, BridgeError>)
    ensures
        match res {
            Ok(buffer) => length <= MAX_BUFFER_LENGTH && buffer@ == Seq::new(
                length as nat,
                |i: int| 0u8,
            ),
            Err(e) => if length > MAX_BUFFER_LENGTH {
                e == BridgeError::BufferTooLarge
            } else {
                e == BridgeError::AllocationFailed
            },
        },
{
    let length = length as usize;
    if length > MAX_BUFFER_LENGTH {
        return Err(BridgeError::BufferTooLarge);
    }
    let mut buffer: Vec<u8> = Vec::new();
    if !try_reserve_exact(&mut buffer, length) {
        return Err(BridgeError::AllocationFailed);
    }
    let mut i: usize = 0;
    while i < length
        invariant
            i <= length,
            buffer@ == Seq::new(i as nat, |k: int| 0u8),
        decreases length - i,
    {
        buffer.push(0u8);
        i = i + 1;
    }
    Ok(buffer)
}

/// Copies text bytes into a new owned value; fails with `AllocationFailed`
/// when the memory cannot be reserved.
pub fn try_owned_string(value: &[u8]) -> (res: Result<Vec<u8>, BridgeError>)
    ensures
        match res {
            Ok(owned) => owned@ == value@,
            Err(e) => e == BridgeError::AllocationFailed,
        },
{
    let mut owned: Vec<u8> = Vec::new();
    if !try_reserve_exact(&mut owned, value.len()) {
        return Err(BridgeError::AllocationFailed);
    }
    append_bytes(&mut owned, value);
    Ok(owned)
}

/// Copies bytes into a new owned buffer; fails with `BufferTooLarge` above the
/// buffer limit and with `AllocationFailed` when the memory cannot be reserved.
pub fn try_owned_bytes(value: &[u8]) -> (res: Result<Vec<u8>, BridgeError>)
    ensures
        match res {
            Ok(owned) => value@.len() <= MAX_BUFFER_LENGTH && owned@ == value@,
            Err(e) => if value@.len() > MAX_BUFFER_LENGTH {
                e == BridgeError::BufferTooLarge
            } else {
                e == BridgeError::AllocationFailed
            },
        },
{
    if value.len() > MAX_BUFFER_LENGTH {
        return Err(BridgeError::BufferTooLarge);
    }
    let mut owned: Vec<u8> = Vec::new();
    if !try_reserve_exact(&mut owned, value.len()) {
        return Err(BridgeError::AllocationFailed);
    }
    append_bytes(&mut owned, value);
    Ok(owned)
}

} // verus!
