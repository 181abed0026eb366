//! How a native call fails: an ABI mismatch, or a structured error record that
//! the caller receives through its optional error slot.
use vstd::prelude::*;
use vstd::string::StringSliceAdditionalSpecFns;

use crate::codes::{ERROR_BUFFER_TOO_LARGE, ERROR_INVALID_ARGUMENT, ERROR_STATUS_PERMANENT};
use crate::native::abi::{MAX_OUTPUT_LEN, STATUS_ABI_MISMATCH, STATUS_ERROR};
use crate::operators::{service_kind_code, service_kind_text, service_status};
use crate::service::{error_is_persistent, error_is_temporary, error_kind_of, error_message_of, ServiceErrorKind};
use crate::text::{append_bytes, copy_bytes};

verus! {

/// An error handed to the caller: category code, retry status, category name
/// and message, all texts UTF-8.
#[derive(Debug)]
pub struct ErrorRecord {
    pub kind: u32,
    pub status: u32,
    pub kind_name: Vec<u8>,
    pub message: Vec<u8>,
}

/// Why a native call did not succeed.
#[derive(Debug)]
pub enum CallFailure {
    /// The caller broke the ABI contract (a bad pointer, size, version or
    /// encoding); no error record is produced.
    AbiMismatch,
    Error(ErrorRecord),
}

/// The outcome of a step of a native call.
pub type CallResult<T> = Result<T, CallFailure>;

/// The mathematical value of a [`CallFailure`].
pub enum FailureModel {
    AbiMismatch,
    Error { kind: u32, status: u32, kind_name: Seq<u8>, message: Seq<u8> },
}

impl View for CallFailure {
    type V = FailureModel;

    open spec fn view(&self) -> FailureModel {
        match self {
            CallFailure::AbiMismatch => FailureModel::AbiMismatch,
            CallFailure::Error(r) => FailureModel::Error {
                kind: r.kind,
                status: r.status,
                kind_name: r.kind_name@,
                message: r.message@,
            },
        }
    }
}

impl CallFailure {
    /// Returns an equal copy of this failure.
    pub fn duplicate(&self) -> (copy: CallFailure)
        ensures
            copy@ == self@,
    {
        match self {
            CallFailure::AbiMismatch => CallFailure::AbiMismatch,
            CallFailure::Error(r) => CallFailure::Error(
                ErrorRecord {
                    kind: r.kind,
                    status: r.status,
                    kind_name: copy_bytes(r.kind_name.as_slice()),
                    message: copy_bytes(r.message.as_slice()),
                },
            ),
        }
    }
}

/// A message kept when it fits the output limit, else the given replacement.
pub open spec fn capped(message: Seq<u8>, replacement: Seq<u8>) -> Seq<u8> {
    if message.len() > MAX_OUTPUT_LEN {
        replacement
    } else {
        message
    }
}

/// The failure the binding itself reports, with a permanent status.
pub open spec fn binding_failure(kind: u32, name: Seq<u8>, message: Seq<u8>) -> FailureModel {
    FailureModel::Error {
        kind,
        status: ERROR_STATUS_PERMANENT,
        kind_name: name,
        message: capped(message, "error message exceeds the binding output limit".spec_bytes()),
    }
}

/// A rejected argument.
pub open spec fn invalid_argument_failure(message: Seq<u8>) -> FailureModel {
    binding_failure(ERROR_INVALID_ARGUMENT, "InvalidArgument".spec_bytes(), message)
}

/// An output that would pass the binding's output limit.
pub open spec fn buffer_too_large_failure(message: Seq<u8>) -> FailureModel {
    binding_failure(ERROR_BUFFER_TOO_LARGE, "BufferTooLarge".spec_bytes(), message)
}

/// The failure of a caller that broke the ABI contract.
pub fn abi_mismatch<T>() -> (res: CallResult<T>)
    ensures
        res matches Err(f) && f@ == FailureModel::AbiMismatch,
{
    Err(CallFailure::AbiMismatch)
}

/// A failure the binding reports itself: the given category code and name, a
/// permanent status, and the message unless it passes the output limit, in
/// which case a fixed message stands in its place.
pub fn binding_error(kind: u32, name: &str, message: Vec<u8>) -> (f: CallFailure)
    ensures
        f@ == binding_failure(kind, name.spec_bytes(), message@),
{
    let message = if message.len() > MAX_OUTPUT_LEN {
        copy_bytes("error message exceeds the binding output limit".as_bytes())
    } else {
        message
    };
    CallFailure::Error(
        ErrorRecord {
            kind,
            status: ERROR_STATUS_PERMANENT,
            kind_name: copy_bytes(name.as_bytes()),
            message,
        },
    )
}

/// An `InvalidArgument` failure with the given message.
pub fn invalid_argument(message: Vec<u8>) -> (f: CallFailure)
    ensures
        f@ == invalid_argument_failure(message@),
{
    binding_error(ERROR_INVALID_ARGUMENT, "InvalidArgument", message)
}

/// A `BufferTooLarge` failure with the given message.
pub fn buffer_too_large(message: Vec<u8>) -> (f: CallFailure)
    ensures
        f@ == buffer_too_large_failure(message@),
{
    binding_error(ERROR_BUFFER_TOO_LARGE, "BufferTooLarge", message)
}

/// `text` followed by `suffix`, as bytes.
pub fn joined(text: &str, suffix: &str) -> (out: Vec<u8>)
    ensures
        out@ == text.spec_bytes() + suffix.spec_bytes(),
{
    let mut out = copy_bytes(text.as_bytes());
    append_bytes(&mut out, suffix.as_bytes());
    out
}

/// The record of a storage-library error with the given category, flags and
/// message.
pub open spec fn service_error_failure(
    kind: ServiceErrorKind,
    temporary: bool,
    persistent: bool,
    message: Seq<u8>,
) -> FailureModel {
    FailureModel::Error {
        kind: service_kind_code(kind),
        status: service_status(temporary, persistent),
        kind_name: service_kind_text(kind),
        message: capped(message, "OpenDAL error message exceeds the binding output limit".spec_bytes()),
    }
}

/// Builds the record of a storage-library error from its parts: the category
/// code and name, the retry status, and the message unless it passes the
/// output limit.
pub fn error_record_from_parts(
    kind: ServiceErrorKind,
    temporary: bool,
    persistent: bool,
    message: &[u8],
) -> (f: CallFailure)
    ensures
        f@ == service_error_failure(kind, temporary, persistent, message@),
{
    let code = match kind {
        ServiceErrorKind::Unexpected => crate::codes::ERROR_UNEXPECTED,
        ServiceErrorKind::Unsupported => crate::codes::ERROR_UNSUPPORTED,
        ServiceErrorKind::ConfigInvalid => crate::codes::ERROR_CONFIG_INVALID,
        ServiceErrorKind::NotFound => crate::codes::ERROR_NOT_FOUND,
        ServiceErrorKind::PermissionDenied => crate::codes::ERROR_PERMISSION_DENIED,
        ServiceErrorKind::IsADirectory => crate::codes::ERROR_IS_A_DIRECTORY,
        ServiceErrorKind::NotADirectory => crate::codes::ERROR_NOT_A_DIRECTORY,
        ServiceErrorKind::AlreadyExists => crate::codes::ERROR_ALREADY_EXISTS,
        ServiceErrorKind::RateLimited => crate::codes::ERROR_RATE_LIMITED,
        ServiceErrorKind::IsSameFile => crate::codes::ERROR_IS_SAME_FILE,
        ServiceErrorKind::ConditionNotMatch => crate::codes::ERROR_CONDITION_NOT_MATCH,
        ServiceErrorKind::RangeNotSatisfied => crate::codes::ERROR_RANGE_NOT_SATISFIED,
        ServiceErrorKind::Conflict => crate::codes::ERROR_UNEXPECTED,
    };
    let status = if temporary {
        crate::codes::ERROR_STATUS_TEMPORARY
    } else if persistent {
        crate::codes::ERROR_STATUS_PERSISTENT
    } else {
        ERROR_STATUS_PERMANENT
    };
    let message = if message.len() > MAX_OUTPUT_LEN {
        copy_bytes("OpenDAL error message exceeds the binding output limit".as_bytes())
    } else {
        copy_bytes(message)
    };
    CallFailure::Error(
        ErrorRecord {
            kind: code,
            status,
            kind_name: copy_bytes(crate::operators::service_kind_name(kind)),
            message,
        },
    )
}

/// Whether a failure is a storage-library error record of some category and
/// flags with the given message.
pub open spec fn is_service_failure_with(f: FailureModel, message: Seq<u8>) -> bool {
    exists|kind: ServiceErrorKind, temporary: bool, persistent: bool|
        f == service_error_failure(kind, temporary, persistent, message)
}

/// The record of a storage-library error: its category, flags and message as
/// the library reports them (see [`error_record_from_parts`]).
pub fn opendal_error(error: &opendal::Error) -> (f: CallFailure)
    ensures
        f is Error,
        f@ matches FailureModel::Error { status, .. } && 1 <= status <= 3,
{
    let kind = error_kind_of(error);
    let temporary = error_is_temporary(error);
    let persistent = error_is_persistent(error);
    let message = error_message_of(error);
    error_record_from_parts(kind, temporary, persistent, message.as_bytes())
}

/// The record of an error raised while constructing an operator: the
/// category and status are kept, the message, which may quote configuration
/// values, is replaced by a fixed text.
pub fn construction_error(error: &opendal::Error) -> (f: CallFailure)
    ensures
        is_service_failure_with(f@, "operator construction failed".spec_bytes()),
{
    let kind = error_kind_of(error);
    let temporary = error_is_temporary(error);
    let persistent = error_is_persistent(error);
    let f = error_record_from_parts(kind, temporary, persistent, "operator construction failed".as_bytes());
    assert(f@ == service_error_failure(kind, temporary, persistent, "operator construction failed".spec_bytes()));
    f
}

/// The status a failed call returns: `STATUS_ABI_MISMATCH` for a mismatch,
/// `STATUS_ERROR` for an error record (which the caller receives through its
/// error slot when it gave one).
pub fn failure_status(failure: &CallFailure) -> (status: u32)
    ensures
        failure@ is AbiMismatch ==> status == STATUS_ABI_MISMATCH,
        failure@ is Error ==> status == STATUS_ERROR,
{
    match failure {
        CallFailure::AbiMismatch => STATUS_ABI_MISMATCH,
        CallFailure::Error(_) => STATUS_ERROR,
    }
}

/// Combines the validations of a call's output slots, each already attempted:
/// success when every one succeeded, else the first failure.
pub fn combine_output_validation(results: Vec<CallResult<()>>) -> (res: CallResult<()>)
    ensures
        res is Ok <==> forall|i: int| 0 <= i < results@.len() ==> results@[i] is Ok,
        res matches Err(f) ==> exists|i: int|
            #![trigger results@[i]]
            0 <= i < results@.len() && (results@[i] matches Err(g) && g@ == f@) && forall|j: int|
                0 <= j < i ==> results@[j] is Ok,
{
    let ghost initial = results@;
    let mut i: usize = 0;
    while i < results.len()
        invariant
            results@ == initial,
            i <= initial.len(),
            forall|j: int| 0 <= j < i ==> initial[j] is Ok,
        decreases initial.len() - i,
    {
        if results[i].is_err() {
            let mut rest = results;
            let r = rest.remove(i);
            return r;
        }
        i = i + 1;
    }
    Ok(())
}

} // verus!
