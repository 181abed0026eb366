//! The versioned `ODE1` binary error snapshot.
//!
//! Layout (little endian): magic `ODE1`, schema, kind, status, kind-name length,
//! message length (six 32-bit words), then the UTF-8 kind name and message.
use vstd::prelude::*;
use vstd::string::StringSliceAdditionalSpecFns;
use vstd::utf8::{decode_utf8, valid_utf8};

use crate::codes::{ERROR_SNAPSHOT_HEADER_LENGTH, ERROR_SNAPSHOT_SCHEMA, MAX_BUFFER_LENGTH};
use crate::error::{error_diagnostic, error_kind, error_kind_name, error_status, BridgeError};
use crate::support::{try_reserve_exact, utf8_view};
use crate::text::append_bytes;
use crate::wire::{get_le32, le32, lemma_le32_roundtrip, lemma_read_le32_window, push_le32, read_le32};

verus! {

/// The magic bytes `ODE1`.
pub open spec fn ode1_magic() -> Seq<u8> {
    seq![79u8, 68u8, 69u8, 49u8]
}

/// The encoding of an error snapshot with the given fields.
pub open spec fn ode1_bytes(kind: u32, status: u32, kind_name: Seq<u8>, message: Seq<u8>) -> Seq<u8> {
    ode1_magic() + le32(ERROR_SNAPSHOT_SCHEMA) + le32(kind) + le32(status) + le32(
        kind_name.len() as u32,
    ) + le32(message.len() as u32) + kind_name + message
}

/// Whether a snapshot with these texts fits the bridge's buffer limit.
pub open spec fn ode1_fits(kind_name: Seq<u8>, message: Seq<u8>) -> bool {
    ERROR_SNAPSHOT_HEADER_LENGTH + kind_name.len() + message.len() <= MAX_BUFFER_LENGTH
}

/// The snapshot of an error.
pub open spec fn error_snapshot(e: crate::error::ErrorModel) -> Seq<u8> {
    ode1_bytes(error_kind(e), error_status(e), error_kind_name(e), error_diagnostic(e))
}

/// Encodes an error as an `ODE1` snapshot.
///
/// Fails with `BufferTooLarge` when the snapshot would exceed the buffer limit and
/// with `AllocationFailed` when its memory cannot be reserved.
pub fn error_snapshot_bytes(error: &BridgeError) -> (res: Result<Vec<u8>, BridgeError>)
    ensures
        match res {
            Ok(bytes) => ode1_fits(error_kind_name(error@), error_diagnostic(error@))
                && bytes@ == error_snapshot(error@),
            Err(e) => if ode1_fits(error_kind_name(error@), error_diagnostic(error@)) {
                e is AllocationFailed
            } else {
                e is BufferTooLarge
            },
        },
{
    let kind_name = error.kind_name();
    let message = error.diagnostic_message();
    if kind_name.len() > MAX_BUFFER_LENGTH - ERROR_SNAPSHOT_HEADER_LENGTH || message.len()
        > MAX_BUFFER_LENGTH - ERROR_SNAPSHOT_HEADER_LENGTH - kind_name.len() {
        return Err(BridgeError::BufferTooLarge);
    }
    let total: usize = ERROR_SNAPSHOT_HEADER_LENGTH + kind_name.len() + message.len();
    let mut snapshot: Vec<u8> = Vec::new();
    if !try_reserve_exact(&mut snapshot, total) {
        return Err(BridgeError::AllocationFailed);
    }
    snapshot.push(79u8);
    snapshot.push(68u8);
    snapshot.push(69u8);
    snapshot.push(49u8);
    push_le32(&mut snapshot, ERROR_SNAPSHOT_SCHEMA);
    push_le32(&mut snapshot, error.kind());
    push_le32(&mut snapshot, error.error_status());
    push_le32(&mut snapshot, kind_name.len() as u32);
    push_le32(&mut snapshot, message.len() as u32);
    append_bytes(&mut snapshot, kind_name);
    append_bytes(&mut snapshot, message.as_slice());
    assert(snapshot@ == error_snapshot(error@));
    Ok(snapshot)
}

/// The fields of a decoded `ODE1` snapshot.
#[derive(Debug, PartialEq, Eq)]
pub struct DecodedErrorSnapshot<'a> {
    pub kind: u32,
    pub status: u32,
    pub kind_name: &'a str,
    pub message: &'a str,
}

/// The first reason a byte sequence is not a well-formed snapshot, if any.
pub enum SnapshotFault {
    InvalidMagic,
    TruncatedHeader,
    UnsupportedSchema,
    KindNameLengthOverflow,
    MessageLengthOverflow,
    PayloadLengthMismatch,
    KindNameNotUtf8,
    MessageNotUtf8,
}

/// The end of the kind name in a snapshot with a complete header.
pub open spec fn ode1_name_end(bytes: Seq<u8>) -> int {
    ERROR_SNAPSHOT_HEADER_LENGTH + read_le32(bytes, 16)
}

/// The end of the message in a snapshot with a complete header.
pub open spec fn ode1_message_end(bytes: Seq<u8>) -> int {
    ode1_name_end(bytes) + read_le32(bytes, 20)
}

/// The first check a candidate snapshot fails, in the order the decoder applies them.
pub open spec fn ode1_fault(bytes: Seq<u8>) -> Option<SnapshotFault> {
    if bytes.len() < 4 || bytes.subrange(0, 4) != ode1_magic() {
        Some(SnapshotFault::InvalidMagic)
    } else if bytes.len() < 8 {
        Some(SnapshotFault::TruncatedHeader)
    } else if read_le32(bytes, 4) != ERROR_SNAPSHOT_SCHEMA {
        Some(SnapshotFault::UnsupportedSchema)
    } else if bytes.len() < 24 {
        Some(SnapshotFault::TruncatedHeader)
    } else if ode1_name_end(bytes) > usize::MAX {
        Some(SnapshotFault::KindNameLengthOverflow)
    } else if ode1_message_end(bytes) > usize::MAX {
        Some(SnapshotFault::MessageLengthOverflow)
    } else if ode1_message_end(bytes) != bytes.len() {
        Some(SnapshotFault::PayloadLengthMismatch)
    } else if !valid_utf8(bytes.subrange(24, ode1_name_end(bytes))) {
        Some(SnapshotFault::KindNameNotUtf8)
    } else if !valid_utf8(bytes.subrange(ode1_name_end(bytes), ode1_message_end(bytes))) {
        Some(SnapshotFault::MessageNotUtf8)
    } else {
        None
    }
}

/// The diagnostic text of a decoding fault.
pub open spec fn fault_text(fault: SnapshotFault) -> Seq<char> {
    match fault {
        SnapshotFault::InvalidMagic => "invalid snapshot magic"@,
        SnapshotFault::TruncatedHeader => "truncated snapshot header"@,
        SnapshotFault::UnsupportedSchema => "unsupported snapshot schema"@,
        SnapshotFault::KindNameLengthOverflow => "kind name length overflow"@,
        SnapshotFault::MessageLengthOverflow => "message length overflow"@,
        SnapshotFault::PayloadLengthMismatch => "snapshot payload length mismatch"@,
        SnapshotFault::KindNameNotUtf8 => "kind name is not UTF-8"@,
        SnapshotFault::MessageNotUtf8 => "message is not UTF-8"@,
    }
}

/// Decodes an `ODE1` snapshot, reporting the first failed check as text.
pub fn decode_error_snapshot(snapshot: &[u8]) -> (res: Result<DecodedErrorSnapshot<'_>, &'static str>)
    ensures
        match res {
            Ok(decoded) => ode1_fault(snapshot@) is None && decoded.kind == read_le32(snapshot@, 8)
                && decoded.status == read_le32(snapshot@, 12) && decoded.kind_name@
                == decode_utf8(snapshot@.subrange(24, ode1_name_end(snapshot@)))
                && decoded.message@ == decode_utf8(
                snapshot@.subrange(ode1_name_end(snapshot@), ode1_message_end(snapshot@)),
            ),
            Err(text) => ode1_fault(snapshot@) matches Some(fault) && text@ == fault_text(fault),
        },
{
    if snapshot.len() < 4 || snapshot[0] != 79u8 || snapshot[1] != 68u8 || snapshot[2] != 69u8
        || snapshot[3] != 49u8 {
        proof {
            if snapshot@.len() >= 4 {
                if snapshot@.subrange(0, 4) == ode1_magic() {
                    assert(snapshot@.subrange(0, 4)[0] == snapshot@[0]);
                    assert(snapshot@.subrange(0, 4)[1] == snapshot@[1]);
                    assert(snapshot@.subrange(0, 4)[2] == snapshot@[2]);
                    assert(snapshot@.subrange(0, 4)[3] == snapshot@[3]);
                }
            }
        }
        return Err("invalid snapshot magic");
    }
    assert(snapshot@.subrange(0, 4) =~= ode1_magic());
    if snapshot.len() < 8 {
        return Err("truncated snapshot header");
    }
    if get_le32(snapshot, 4) != ERROR_SNAPSHOT_SCHEMA {
        return Err("unsupported snapshot schema");
    }
    if snapshot.len() < 24 {
        return Err("truncated snapshot header");
    }
    let kind_name_length = get_le32(snapshot, 16) as usize;
    let message_length = get_le32(snapshot, 20) as usize;
    if kind_name_length > usize::MAX - ERROR_SNAPSHOT_HEADER_LENGTH {
        return Err("kind name length overflow");
    }
    let kind_name_end: usize = ERROR_SNAPSHOT_HEADER_LENGTH + kind_name_length;
    if message_length > usize::MAX - kind_name_end {
        return Err("message length overflow");
    }
    let message_end: usize = kind_name_end + message_length;
    if message_end != snapshot.len() {
        return Err("snapshot payload length mismatch");
    }
    let kind_name = match utf8_view(&snapshot[ERROR_SNAPSHOT_HEADER_LENGTH..kind_name_end]) {
        Some(text) => text,
        None => {
            return Err("kind name is not UTF-8");
        },
    };
    let message = match utf8_view(&snapshot[kind_name_end..message_end]) {
        Some(text) => text,
        None => {
            return Err("message is not UTF-8");
        },
    };
    Ok(
        DecodedErrorSnapshot {
            kind: get_le32(snapshot, 8),
            status: get_le32(snapshot, 12),
            kind_name,
            message,
        },
    )
}

/// An encoded snapshot decodes back to the fields it was encoded from, whenever its
/// texts are UTF-8 and it fits the buffer limit.
pub proof fn lemma_error_snapshot_roundtrip(
    kind: u32,
    status: u32,
    kind_name: Seq<u8>,
    message: Seq<u8>,
)
    requires
        ode1_fits(kind_name, message),
        valid_utf8(kind_name),
        valid_utf8(message),
    ensures
        ode1_fault(ode1_bytes(kind, status, kind_name, message)) is None,
        read_le32(ode1_bytes(kind, status, kind_name, message), 8) == kind,
        read_le32(ode1_bytes(kind, status, kind_name, message), 12) == status,
        ode1_bytes(kind, status, kind_name, message).subrange(
            24,
            ode1_name_end(ode1_bytes(kind, status, kind_name, message)),
        ) == kind_name,
        ode1_bytes(kind, status, kind_name, message).subrange(
            ode1_name_end(ode1_bytes(kind, status, kind_name, message)),
            ode1_message_end(ode1_bytes(kind, status, kind_name, message)),
        ) == message,
{
    let b = ode1_bytes(kind, status, kind_name, message);
    let nl = kind_name.len() as u32;
    let ml = message.len() as u32;
    assert(b.len() == 24 + kind_name.len() + message.len());
    assert(b.subrange(0, 4) =~= ode1_magic());
    lemma_le32_roundtrip(ERROR_SNAPSHOT_SCHEMA);
    lemma_le32_roundtrip(kind);
    lemma_le32_roundtrip(status);
    lemma_le32_roundtrip(nl);
    lemma_le32_roundtrip(ml);
    assert(b.subrange(4, 8) =~= le32(ERROR_SNAPSHOT_SCHEMA));
    assert(b.subrange(8, 12) =~= le32(kind));
    assert(b.subrange(12, 16) =~= le32(status));
    assert(b.subrange(16, 20) =~= le32(nl));
    assert(b.subrange(20, 24) =~= le32(ml));
    assert(le32(kind).subrange(0, 4) =~= le32(kind));
    assert(le32(status).subrange(0, 4) =~= le32(status));
    assert(le32(nl).subrange(0, 4) =~= le32(nl));
    assert(le32(ml).subrange(0, 4) =~= le32(ml));
    assert(le32(ERROR_SNAPSHOT_SCHEMA).subrange(0, 4) =~= le32(ERROR_SNAPSHOT_SCHEMA));
    lemma_read_le32_window(b, le32(ERROR_SNAPSHOT_SCHEMA), 4, 0);
    lemma_read_le32_window(b, le32(kind), 8, 0);
    lemma_read_le32_window(b, le32(status), 12, 0);
    lemma_read_le32_window(b, le32(nl), 16, 0);
    lemma_read_le32_window(b, le32(ml), 20, 0);
    assert(b.subrange(24, 24 + kind_name.len() as int) =~= kind_name);
    assert(b.subrange(24 + kind_name.len() as int, b.len() as int) =~= message);
}

/// The snapshot of any error decodes back to its kind, status, kind name and
/// diagnostic message.
pub proof fn lemma_bridge_error_snapshot_roundtrip(e: crate::error::ErrorModel)
    requires
        ode1_fits(error_kind_name(e), error_diagnostic(e)),
        valid_utf8(error_kind_name(e)),
        valid_utf8(error_diagnostic(e)),
    ensures
        ode1_fault(error_snapshot(e)) is None,
        read_le32(error_snapshot(e), 8) == error_kind(e),
        read_le32(error_snapshot(e), 12) == error_status(e),
        error_snapshot(e).subrange(24, ode1_name_end(error_snapshot(e))) == error_kind_name(e),
        error_snapshot(e).subrange(ode1_name_end(error_snapshot(e)), ode1_message_end(error_snapshot(e)))
            == error_diagnostic(e),
{
    lemma_error_snapshot_roundtrip(error_kind(e), error_status(e), error_kind_name(e), error_diagnostic(e));
}

} // verus!
