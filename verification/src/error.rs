//! Bridge errors: legacy scalar codes, structured kinds, statuses and text.
use vstd::prelude::*;
use vstd::string::StringSliceAdditionalSpecFns;

use crate::codes::{
    ERROR_ABI_MISMATCH, ERROR_BUFFER_TOO_LARGE, ERROR_INVALID_ARGUMENT, ERROR_NOT_FOUND, ERROR_RESOURCE_BUSY, ERROR_RESOURCE_CLOSED, ERROR_STATUS_PERMANENT, ERROR_UNEXPECTED, MAX_BUFFER_LENGTH,
};
use crate::labels::{label_text, TypeLabel};
use crate::text::{append_bytes, append_decimal, decimal};

verus! {

/// Every failure the bridge reports.
#[derive(Debug)]
pub enum BridgeError {
    InvalidHandle { handle: u32 },
    WrongResourceType { handle: u32, expected: TypeLabel, actual: TypeLabel },
    BufferTooLarge,
    IndexOutOfBounds { index: u32, length: usize },
    InvalidByte { value: u32 },
    InvalidUtf8,
    /// A storage-service failure with its structured kind, status, kind name and message.
    OpenDal { kind: u32, status: u32, kind_name: Vec<u8>, message: Vec<u8> },
    AsyncPending,
    HandleLimit,
    LengthOverflow,
    TaskNotReady { handle: u32 },
    TaskConsumed { handle: u32 },
    TornDown,
    ResourceClosed { handle: u32 },
    ResourceBusy { handle: u32 },
    ListTooLarge,
    AllocationFailed,
    InvalidArgument { message: Vec<u8> },
}

/// The mathematical value of a [`BridgeError`].
pub enum ErrorModel {
    InvalidHandle { handle: u32 },
    WrongResourceType { handle: u32, expected: TypeLabel, actual: TypeLabel },
    BufferTooLarge,
    IndexOutOfBounds { index: u32, length: usize },
    InvalidByte { value: u32 },
    InvalidUtf8,
    OpenDal { kind: u32, status: u32, kind_name: Seq<u8>, message: Seq<u8> },
    AsyncPending,
    HandleLimit,
    LengthOverflow,
    TaskNotReady { handle: u32 },
    TaskConsumed { handle: u32 },
    TornDown,
    ResourceClosed { handle: u32 },
    ResourceBusy { handle: u32 },
    ListTooLarge,
    AllocationFailed,
    InvalidArgument { message: Seq<u8> },
}

impl View for BridgeError {
    type V = ErrorModel;

    open spec fn view(&self) -> ErrorModel {
        match self {
            BridgeError::InvalidHandle { handle } => ErrorModel::InvalidHandle { handle: *handle },
            BridgeError::WrongResourceType { handle, expected, actual } =>
                ErrorModel::WrongResourceType {
                handle: *handle,
                expected: *expected,
                actual: *actual,
            },
            BridgeError::BufferTooLarge => ErrorModel::BufferTooLarge,
            BridgeError::IndexOutOfBounds { index, length } => ErrorModel::IndexOutOfBounds {
                index: *index,
                length: *length,
            },
            BridgeError::InvalidByte { value } => ErrorModel::InvalidByte { value: *value },
            BridgeError::InvalidUtf8 => ErrorModel::InvalidUtf8,
            BridgeError::OpenDal { kind, status, kind_name, message } => ErrorModel::OpenDal {
                kind: *kind,
                status: *status,
                kind_name: kind_name@,
                message: message@,
            },
            BridgeError::AsyncPending => ErrorModel::AsyncPending,
            BridgeError::HandleLimit => ErrorModel::HandleLimit,
            BridgeError::LengthOverflow => ErrorModel::LengthOverflow,
            BridgeError::TaskNotReady { handle } => ErrorModel::TaskNotReady { handle: *handle },
            BridgeError::TaskConsumed { handle } => ErrorModel::TaskConsumed { handle: *handle },
            BridgeError::TornDown => ErrorModel::TornDown,
            BridgeError::ResourceClosed { handle } => ErrorModel::ResourceClosed {
                handle: *handle,
            },
            BridgeError::ResourceBusy { handle } => ErrorModel::ResourceBusy { handle: *handle },
            BridgeError::ListTooLarge => ErrorModel::ListTooLarge,
            BridgeError::AllocationFailed => ErrorModel::AllocationFailed,
            BridgeError::InvalidArgument { message } => ErrorModel::InvalidArgument {
                message: message@,
            },
        }
    }
}

/// The legacy scalar error code of the v1 task ABI.
pub open spec fn error_code(e: ErrorModel) -> u32 {
    match e {
        ErrorModel::InvalidHandle { .. } => 1,
        ErrorModel::WrongResourceType { .. } => 2,
        ErrorModel::BufferTooLarge => 3,
        ErrorModel::IndexOutOfBounds { .. } => 4,
        ErrorModel::InvalidByte { .. } => 5,
        ErrorModel::InvalidUtf8 => 6,
        ErrorModel::OpenDal { kind, .. } => if kind == ERROR_NOT_FOUND {
            7
        } else {
            8
        },
        ErrorModel::AsyncPending => 9,
        ErrorModel::HandleLimit => 10,
        ErrorModel::LengthOverflow => 11,
        ErrorModel::TaskNotReady { .. } => 12,
        ErrorModel::TaskConsumed { .. } => 13,
        ErrorModel::TornDown => 14,
        ErrorModel::ListTooLarge => 15,
        ErrorModel::AllocationFailed => 16,
        ErrorModel::InvalidArgument { .. } => 17,
        ErrorModel::ResourceClosed { .. } => 1,
        ErrorModel::ResourceBusy { .. } => 18,
    }
}

/// The structured error kind shared with the native binding.
pub open spec fn error_kind(e: ErrorModel) -> u32 {
    match e {
        ErrorModel::InvalidHandle { .. } | ErrorModel::TaskNotReady { .. }
        | ErrorModel::TaskConsumed { .. } | ErrorModel::TornDown
        | ErrorModel::ResourceClosed { .. } => ERROR_RESOURCE_CLOSED,
        ErrorModel::ResourceBusy { .. } => ERROR_RESOURCE_BUSY,
        ErrorModel::WrongResourceType { .. } => ERROR_ABI_MISMATCH,
        ErrorModel::IndexOutOfBounds { .. } | ErrorModel::InvalidByte { .. }
        | ErrorModel::InvalidUtf8 | ErrorModel::InvalidArgument { .. } => ERROR_INVALID_ARGUMENT,
        ErrorModel::BufferTooLarge | ErrorModel::LengthOverflow | ErrorModel::ListTooLarge =>
            ERROR_BUFFER_TOO_LARGE,
        ErrorModel::OpenDal { kind, .. } => kind,
        ErrorModel::AsyncPending | ErrorModel::HandleLimit | ErrorModel::AllocationFailed =>
            ERROR_UNEXPECTED,
    }
}

/// The retry status of an error; only storage failures carry one other than permanent.
pub open spec fn error_status(e: ErrorModel) -> u32 {
    match e {
        ErrorModel::OpenDal { status, .. } => status,
        _ => ERROR_STATUS_PERMANENT,
    }
}

/// The structured kind name of an error.
pub open spec fn error_kind_name(e: ErrorModel) -> Seq<u8> {
    match e {
        ErrorModel::InvalidHandle { .. } | ErrorModel::TaskNotReady { .. }
        | ErrorModel::TaskConsumed { .. } | ErrorModel::TornDown
        | ErrorModel::ResourceClosed { .. } => "ResourceClosed".spec_bytes(),
        ErrorModel::ResourceBusy { .. } => "ResourceBusy".spec_bytes(),
        ErrorModel::WrongResourceType { .. } => "AbiMismatch".spec_bytes(),
        ErrorModel::IndexOutOfBounds { .. } | ErrorModel::InvalidByte { .. }
        | ErrorModel::InvalidUtf8 | ErrorModel::InvalidArgument { .. } =>
            "InvalidArgument".spec_bytes(),
        ErrorModel::BufferTooLarge | ErrorModel::LengthOverflow | ErrorModel::ListTooLarge =>
            "BufferTooLarge".spec_bytes(),
        ErrorModel::OpenDal { kind_name, .. } => kind_name,
        ErrorModel::AsyncPending | ErrorModel::HandleLimit | ErrorModel::AllocationFailed =>
            "Unexpected".spec_bytes(),
    }
}

/// The human-readable text of an error.
pub open spec fn error_text(e: ErrorModel) -> Seq<u8> {
    match e {
        ErrorModel::InvalidHandle { handle } => "invalid or stale handle ".spec_bytes() + decimal(
            handle as nat,
        ),
        ErrorModel::WrongResourceType { handle, expected, actual } => "handle ".spec_bytes()
            + decimal(handle as nat) + " contains ".spec_bytes() + label_text(actual)
            + ", expected ".spec_bytes() + label_text(expected),
        ErrorModel::BufferTooLarge => "buffer cannot grow beyond 67108864 bytes in ABI v1".spec_bytes(),
        ErrorModel::IndexOutOfBounds { index, length } => "buffer index ".spec_bytes() + decimal(
            index as nat,
        ) + " is out of bounds for length ".spec_bytes() + decimal(length as nat),
        ErrorModel::InvalidByte { value } => decimal(value as nat)
            + " is not an unsigned byte".spec_bytes(),
        ErrorModel::InvalidUtf8 => "path buffer is not valid UTF-8".spec_bytes(),
        ErrorModel::OpenDal { message, .. } => "OpenDAL operation failed: ".spec_bytes() + message,
        ErrorModel::AsyncPending =>
            "OpenDAL future returned Pending in the poll-once canary adapter".spec_bytes(),
        ErrorModel::HandleLimit => "the bridge has reached its 65535-handle capacity".spec_bytes(),
        ErrorModel::LengthOverflow => "value cannot be represented by the scalar ABI".spec_bytes(),
        ErrorModel::TaskNotReady { handle } => "task ".spec_bytes() + decimal(handle as nat)
            + " is not ready".spec_bytes(),
        ErrorModel::TaskConsumed { handle } => "task ".spec_bytes() + decimal(handle as nat)
            + " has already been consumed".spec_bytes(),
        ErrorModel::TornDown => "the bridge instance has been torn down".spec_bytes(),
        ErrorModel::ResourceClosed { handle } => "resource ".spec_bytes() + decimal(handle as nat)
            + " is closed".spec_bytes(),
        ErrorModel::ResourceBusy { handle } => "resource ".spec_bytes() + decimal(handle as nat)
            + " already has an operation in flight".spec_bytes(),
        ErrorModel::ListTooLarge =>
            "list exceeds the binding limits of 65536 entries or 16777216 UTF-8 bytes".spec_bytes(),
        ErrorModel::AllocationFailed =>
            "the bridge could not reserve memory for an owned result".spec_bytes(),
        ErrorModel::InvalidArgument { message } => "invalid scalar argument: ".spec_bytes()
            + message,
    }
}

/// The diagnostic message carried in structured snapshots: a storage failure's own
/// message (without operation context), otherwise the error text.
pub open spec fn error_diagnostic(e: ErrorModel) -> Seq<u8> {
    match e {
        ErrorModel::OpenDal { message, .. } => message,
        _ => error_text(e),
    }
}

/// Whether an error's texts are small enough to be encoded.
pub open spec fn error_fits(e: ErrorModel) -> bool {
    &&& error_kind_name(e).len() <= MAX_BUFFER_LENGTH
    &&& error_diagnostic(e).len() <= MAX_BUFFER_LENGTH
}

impl BridgeError {
    /// Returns the legacy scalar error code retained by the v1 task ABI.
    pub fn code(&self) -> (code: u32)
        ensures
            code == error_code(self@),
    {
        match self {
            BridgeError::InvalidHandle { .. } => 1,
            BridgeError::WrongResourceType { .. } => 2,
            BridgeError::BufferTooLarge => 3,
            BridgeError::IndexOutOfBounds { .. } => 4,
            BridgeError::InvalidByte { .. } => 5,
            BridgeError::InvalidUtf8 => 6,
            BridgeError::OpenDal { kind, .. } => if *kind == ERROR_NOT_FOUND {
                7
            } else {
                8
            },
            BridgeError::AsyncPending => 9,
            BridgeError::HandleLimit => 10,
            BridgeError::LengthOverflow => 11,
            BridgeError::TaskNotReady { .. } => 12,
            BridgeError::TaskConsumed { .. } => 13,
            BridgeError::TornDown => 14,
            BridgeError::ListTooLarge => 15,
            BridgeError::AllocationFailed => 16,
            BridgeError::InvalidArgument { .. } => 17,
            BridgeError::ResourceClosed { .. } => 1,
            BridgeError::ResourceBusy { .. } => 18,
        }
    }

    /// Returns the structured error kind shared with the native binding.
    pub fn kind(&self) -> (kind: u32)
        ensures
            kind == error_kind(self@),
    {
        match self {
            BridgeError::InvalidHandle { .. } | BridgeError::TaskNotReady { .. }
            | BridgeError::TaskConsumed { .. } | BridgeError::TornDown
            | BridgeError::ResourceClosed { .. } => ERROR_RESOURCE_CLOSED,
            BridgeError::ResourceBusy { .. } => ERROR_RESOURCE_BUSY,
            BridgeError::WrongResourceType { .. } => ERROR_ABI_MISMATCH,
            BridgeError::IndexOutOfBounds { .. } | BridgeError::InvalidByte { .. }
            | BridgeError::InvalidUtf8 | BridgeError::InvalidArgument { .. } =>
                ERROR_INVALID_ARGUMENT,
            BridgeError::BufferTooLarge | BridgeError::LengthOverflow
            | BridgeError::ListTooLarge => ERROR_BUFFER_TOO_LARGE,
            BridgeError::OpenDal { kind, .. } => *kind,
            BridgeError::AsyncPending | BridgeError::HandleLimit
            | BridgeError::AllocationFailed => ERROR_UNEXPECTED,
        }
    }

    /// Returns the retry status of this error.
    pub fn error_status(&self) -> (status: u32)
        ensures
            status == error_status(self@),
    {
        match self {
            BridgeError::OpenDal { status, .. } => *status,
            _ => ERROR_STATUS_PERMANENT,
        }
    }

    /// Returns the structured kind name of this error.
    pub fn kind_name(&self) -> (name: &[u8])
        ensures
            name@ == error_kind_name(self@),
    {
        match self {
            BridgeError::InvalidHandle { .. } | BridgeError::TaskNotReady { .. }
            | BridgeError::TaskConsumed { .. } | BridgeError::TornDown
            | BridgeError::ResourceClosed { .. } => "ResourceClosed".as_bytes(),
            BridgeError::ResourceBusy { .. } => "ResourceBusy".as_bytes(),
            BridgeError::WrongResourceType { .. } => "AbiMismatch".as_bytes(),
            BridgeError::IndexOutOfBounds { .. } | BridgeError::InvalidByte { .. }
            | BridgeError::InvalidUtf8 | BridgeError::InvalidArgument { .. } =>
                "InvalidArgument".as_bytes(),
            BridgeError::BufferTooLarge | BridgeError::LengthOverflow
            | BridgeError::ListTooLarge => "BufferTooLarge".as_bytes(),
            BridgeError::OpenDal { kind_name, .. } => kind_name.as_slice(),
            BridgeError::AsyncPending | BridgeError::HandleLimit
            | BridgeError::AllocationFailed => "Unexpected".as_bytes(),
        }
    }

    /// Renders the human-readable text of this error.
    pub fn text(&self) -> (text: Vec<u8>)
        ensures
            text@ == error_text(self@),
    {
        let mut out: Vec<u8> = Vec::new();
        match self {
            BridgeError::InvalidHandle { handle } => {
                append_bytes(&mut out, "invalid or stale handle ".as_bytes());
                append_decimal(&mut out, *handle as u64);
            },
            BridgeError::WrongResourceType { handle, expected, actual } => {
                append_bytes(&mut out, "handle ".as_bytes());
                append_decimal(&mut out, *handle as u64);
                append_bytes(&mut out, " contains ".as_bytes());
                append_bytes(&mut out, actual.text());
                append_bytes(&mut out, ", expected ".as_bytes());
                append_bytes(&mut out, expected.text());
            },
            BridgeError::BufferTooLarge => {
                append_bytes(&mut out, "buffer cannot grow beyond 67108864 bytes in ABI v1".as_bytes());
            },
            BridgeError::IndexOutOfBounds { index, length } => {
                append_bytes(&mut out, "buffer index ".as_bytes());
                append_decimal(&mut out, *index as u64);
                append_bytes(&mut out, " is out of bounds for length ".as_bytes());
                append_decimal(&mut out, *length as u64);
            },
            BridgeError::InvalidByte { value } => {
                append_decimal(&mut out, *value as u64);
                append_bytes(&mut out, " is not an unsigned byte".as_bytes());
            },
            BridgeError::InvalidUtf8 => {
                append_bytes(&mut out, "path buffer is not valid UTF-8".as_bytes());
            },
            BridgeError::OpenDal { message, .. } => {
                append_bytes(&mut out, "OpenDAL operation failed: ".as_bytes());
                append_bytes(&mut out, message.as_slice());
            },
            BridgeError::AsyncPending => {
                append_bytes(
                    &mut out,
                    "OpenDAL future returned Pending in the poll-once canary adapter".as_bytes(),
                );
            },
            BridgeError::HandleLimit => {
                append_bytes(&mut out, "the bridge has reached its 65535-handle capacity".as_bytes());
            },
            BridgeError::LengthOverflow => {
                append_bytes(&mut out, "value cannot be represented by the scalar ABI".as_bytes());
            },
            BridgeError::TaskNotReady { handle } => {
                append_bytes(&mut out, "task ".as_bytes());
                append_decimal(&mut out, *handle as u64);
                append_bytes(&mut out, " is not ready".as_bytes());
            },
            BridgeError::TaskConsumed { handle } => {
                append_bytes(&mut out, "task ".as_bytes());
                append_decimal(&mut out, *handle as u64);
                append_bytes(&mut out, " has already been consumed".as_bytes());
            },
            BridgeError::TornDown => {
                append_bytes(&mut out, "the bridge instance has been torn down".as_bytes());
            },
            BridgeError::ResourceClosed { handle } => {
                append_bytes(&mut out, "resource ".as_bytes());
                append_decimal(&mut out, *handle as u64);
                append_bytes(&mut out, " is closed".as_bytes());
            },
            BridgeError::ResourceBusy { handle } => {
                append_bytes(&mut out, "resource ".as_bytes());
                append_decimal(&mut out, *handle as u64);
                append_bytes(&mut out, " already has an operation in flight".as_bytes());
            },
            BridgeError::ListTooLarge => {
                append_bytes(
                    &mut out,
                    "list exceeds the binding limits of 65536 entries or 16777216 UTF-8 bytes".as_bytes(),
                );
            },
            BridgeError::AllocationFailed => {
                append_bytes(
                    &mut out,
                    "the bridge could not reserve memory for an owned result".as_bytes(),
                );
            },
            BridgeError::InvalidArgument { message } => {
                append_bytes(&mut out, "invalid scalar argument: ".as_bytes());
                append_bytes(&mut out, message.as_slice());
            },
        }
        out
    }

    /// Returns the diagnostic message carried in structured snapshots.
    pub fn diagnostic_message(&self) -> (message: Vec<u8>)
        ensures
            message@ == error_diagnostic(self@),
    {
        match self {
            BridgeError::OpenDal { message, .. } => {
                let mut out: Vec<u8> = Vec::new();
                append_bytes(&mut out, message.as_slice());
                out
            },
            _ => self.text(),
        }
    }

    /// Returns an equal copy of this error.
    pub fn duplicate(&self) -> (copy: BridgeError)
        ensures
            copy@ == self@,
    {
        match self {
            BridgeError::InvalidHandle { handle } => BridgeError::InvalidHandle { handle: *handle },
            BridgeError::WrongResourceType { handle, expected, actual } =>
                BridgeError::WrongResourceType {
                handle: *handle,
                expected: *expected,
                actual: *actual,
            },
            BridgeError::BufferTooLarge => BridgeError::BufferTooLarge,
            BridgeError::IndexOutOfBounds { index, length } => BridgeError::IndexOutOfBounds {
                index: *index,
                length: *length,
            },
            BridgeError::InvalidByte { value } => BridgeError::InvalidByte { value: *value },
            BridgeError::InvalidUtf8 => BridgeError::InvalidUtf8,
            BridgeError::OpenDal { kind, status, kind_name, message } => {
                let mut name_copy: Vec<u8> = Vec::new();
                append_bytes(&mut name_copy, kind_name.as_slice());
                let mut message_copy: Vec<u8> = Vec::new();
                append_bytes(&mut message_copy, message.as_slice());
                BridgeError::OpenDal {
                    kind: *kind,
                    status: *status,
                    kind_name: name_copy,
                    message: message_copy,
                }
            },
            BridgeError::AsyncPending => BridgeError::AsyncPending,
            BridgeError::HandleLimit => BridgeError::HandleLimit,
            BridgeError::LengthOverflow => BridgeError::LengthOverflow,
            BridgeError::TaskNotReady { handle } => BridgeError::TaskNotReady { handle: *handle },
            BridgeError::TaskConsumed { handle } => BridgeError::TaskConsumed { handle: *handle },
            BridgeError::TornDown => BridgeError::TornDown,
            BridgeError::ResourceClosed { handle } => BridgeError::ResourceClosed {
                handle: *handle,
            },
            BridgeError::ResourceBusy { handle } => BridgeError::ResourceBusy { handle: *handle },
            BridgeError::ListTooLarge => BridgeError::ListTooLarge,
            BridgeError::AllocationFailed => BridgeError::AllocationFailed,
            BridgeError::InvalidArgument { message } => {
                let mut message_copy: Vec<u8> = Vec::new();
                append_bytes(&mut message_copy, message.as_slice());
                BridgeError::InvalidArgument { message: message_copy }
            },
        }
    }
}

} // verus!
