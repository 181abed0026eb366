//! Operators: storage-library errors as bridge errors, generic builders,
//! operator construction, operator information and capabilities.
use vstd::prelude::*;
use vstd::string::StringSliceAdditionalSpecFns;
use vstd::utf8::{decode_utf8, encode_utf8, valid_utf8};

use crate::arena::lemma_replaced_twice;
use crate::bridge::{buffer_stored, insert_failure, handle_or_record_error, insert_buffer, insert_resource, record_error, release_resource, Bridge};
use crate::buffers::{bytes_of, owned_utf8_buffer};
use crate::configured::{info_name, info_root, info_scheme, memory_operator, operator_info, operator_via_iter, InfoModel, Recorded};
use crate::codes::{
    CAP_COPY, CAP_CREATE_DIR, CAP_DELETE, CAP_LIST, CAP_LIST_LIMIT, CAP_LIST_RECURSIVE, CAP_LIST_START_AFTER, CAP_PRESIGN_READ, CAP_PRESIGN_STAT, CAP_PRESIGN_WRITE, CAP_READ, CAP_READ_SUFFIX, CAP_RENAME, CAP_STAT, CAP_WRITE, CAP_WRITE_APPEND, ERROR_ALREADY_EXISTS, ERROR_CONDITION_NOT_MATCH, ERROR_CONFIG_INVALID, ERROR_IS_A_DIRECTORY, ERROR_IS_SAME_FILE, ERROR_NOT_A_DIRECTORY, ERROR_NOT_FOUND, ERROR_PERMISSION_DENIED, ERROR_RANGE_NOT_SATISFIED, ERROR_RATE_LIMITED, ERROR_STATUS_PERMANENT, ERROR_STATUS_PERSISTENT, ERROR_STATUS_TEMPORARY, ERROR_UNEXPECTED, ERROR_UNSUPPORTED, MAX_CONFIG_BYTES, MAX_CONFIG_ENTRIES, STATUS_OK,
};
use crate::error::{error_code, BridgeError, ErrorModel};
use crate::labels::ResourceKind;
use crate::resources::{OperatorBuilder, Resource};
use crate::scalars::{try_owned_string, ByteRange};
use crate::service::{
    clone_operator, error_is_persistent, error_is_temporary, error_kind_of, error_message_of, info_capability, install_defaults, native_read_with_suffix, CapabilityRecord, ServiceErrorKind,
};
use crate::support::utf8_view;
use crate::text::{append_bytes, append_decimal, copy_bytes};

verus! {

/// The bridge's error code for a storage error category.
pub open spec fn service_kind_code(kind: ServiceErrorKind) -> u32 {
    match kind {
        ServiceErrorKind::Unexpected => ERROR_UNEXPECTED,
        ServiceErrorKind::Unsupported => ERROR_UNSUPPORTED,
        ServiceErrorKind::ConfigInvalid => ERROR_CONFIG_INVALID,
        ServiceErrorKind::NotFound => ERROR_NOT_FOUND,
        ServiceErrorKind::PermissionDenied => ERROR_PERMISSION_DENIED,
        ServiceErrorKind::IsADirectory => ERROR_IS_A_DIRECTORY,
        ServiceErrorKind::NotADirectory => ERROR_NOT_A_DIRECTORY,
        ServiceErrorKind::AlreadyExists => ERROR_ALREADY_EXISTS,
        ServiceErrorKind::RateLimited => ERROR_RATE_LIMITED,
        ServiceErrorKind::IsSameFile => ERROR_IS_SAME_FILE,
        ServiceErrorKind::ConditionNotMatch => ERROR_CONDITION_NOT_MATCH,
        ServiceErrorKind::RangeNotSatisfied => ERROR_RANGE_NOT_SATISFIED,
        ServiceErrorKind::Conflict => ERROR_UNEXPECTED,
    }
}

/// The name of a storage error category.
pub open spec fn service_kind_text(kind: ServiceErrorKind) -> Seq<u8> {
    match kind {
        ServiceErrorKind::Unexpected => "Unexpected".spec_bytes(),
        ServiceErrorKind::Unsupported => "Unsupported".spec_bytes(),
        ServiceErrorKind::ConfigInvalid => "ConfigInvalid".spec_bytes(),
        ServiceErrorKind::NotFound => "NotFound".spec_bytes(),
        ServiceErrorKind::PermissionDenied => "PermissionDenied".spec_bytes(),
        ServiceErrorKind::IsADirectory => "IsADirectory".spec_bytes(),
        ServiceErrorKind::NotADirectory => "NotADirectory".spec_bytes(),
        ServiceErrorKind::AlreadyExists => "AlreadyExists".spec_bytes(),
        ServiceErrorKind::RateLimited => "RateLimited".spec_bytes(),
        ServiceErrorKind::IsSameFile => "IsSameFile".spec_bytes(),
        ServiceErrorKind::ConditionNotMatch => "ConditionNotMatch".spec_bytes(),
        ServiceErrorKind::RangeNotSatisfied => "RangeNotSatisfied".spec_bytes(),
        ServiceErrorKind::Conflict => "Conflict".spec_bytes(),
    }
}

/// The retry status of a storage error.
pub open spec fn service_status(temporary: bool, persistent: bool) -> u32 {
    if temporary {
        ERROR_STATUS_TEMPORARY
    } else if persistent {
        ERROR_STATUS_PERSISTENT
    } else {
        ERROR_STATUS_PERMANENT
    }
}

/// The value of a storage failure with the given parts.
pub open spec fn service_failure(kind: ServiceErrorKind, temporary: bool, persistent: bool, message: Seq<u8>) -> ErrorModel {
    ErrorModel::OpenDal {
        kind: service_kind_code(kind),
        status: service_status(temporary, persistent),
        kind_name: service_kind_text(kind),
        message,
    }
}

/// Returns the name of a storage error category.
pub fn service_kind_name(kind: ServiceErrorKind) -> (name: &'static [u8])
    ensures
        name@ == service_kind_text(kind),
{
    match kind {
        ServiceErrorKind::Unexpected => "Unexpected".as_bytes(),
        ServiceErrorKind::Unsupported => "Unsupported".as_bytes(),
        ServiceErrorKind::ConfigInvalid => "ConfigInvalid".as_bytes(),
        ServiceErrorKind::NotFound => "NotFound".as_bytes(),
        ServiceErrorKind::PermissionDenied => "PermissionDenied".as_bytes(),
        ServiceErrorKind::IsADirectory => "IsADirectory".as_bytes(),
        ServiceErrorKind::NotADirectory => "NotADirectory".as_bytes(),
        ServiceErrorKind::AlreadyExists => "AlreadyExists".as_bytes(),
        ServiceErrorKind::RateLimited => "RateLimited".as_bytes(),
        ServiceErrorKind::IsSameFile => "IsSameFile".as_bytes(),
        ServiceErrorKind::ConditionNotMatch => "ConditionNotMatch".as_bytes(),
        ServiceErrorKind::RangeNotSatisfied => "RangeNotSatisfied".as_bytes(),
        ServiceErrorKind::Conflict => "Conflict".as_bytes(),
    }
}

impl BridgeError {
    /// Builds the bridge error for a storage failure from its parts.
    pub fn from_service_parts(
        kind: ServiceErrorKind,
        temporary: bool,
        persistent: bool,
        message: &[u8],
    ) -> (e: BridgeError)
        ensures
            e@ == service_failure(kind, temporary, persistent, message@),
    {
        let code = match kind {
            ServiceErrorKind::Unexpected => ERROR_UNEXPECTED,
            ServiceErrorKind::Unsupported => ERROR_UNSUPPORTED,
            ServiceErrorKind::ConfigInvalid => ERROR_CONFIG_INVALID,
            ServiceErrorKind::NotFound => ERROR_NOT_FOUND,
            ServiceErrorKind::PermissionDenied => ERROR_PERMISSION_DENIED,
            ServiceErrorKind::IsADirectory => ERROR_IS_A_DIRECTORY,
            ServiceErrorKind::NotADirectory => ERROR_NOT_A_DIRECTORY,
            ServiceErrorKind::AlreadyExists => ERROR_ALREADY_EXISTS,
            ServiceErrorKind::RateLimited => ERROR_RATE_LIMITED,
            ServiceErrorKind::IsSameFile => ERROR_IS_SAME_FILE,
            ServiceErrorKind::ConditionNotMatch => ERROR_CONDITION_NOT_MATCH,
            ServiceErrorKind::RangeNotSatisfied => ERROR_RANGE_NOT_SATISFIED,
            ServiceErrorKind::Conflict => ERROR_UNEXPECTED,
        };
        let status = if temporary {
            ERROR_STATUS_TEMPORARY
        } else if persistent {
            ERROR_STATUS_PERSISTENT
        } else {
            ERROR_STATUS_PERMANENT
        };
        BridgeError::OpenDal {
            kind: code,
            status,
            kind_name: copy_bytes(service_kind_name(kind)),
            message: copy_bytes(message),
        }
    }

    /// Converts a storage-library error: its category, retry status, category
    /// name and message (which leaves out the operation context).
    pub fn from_service_error(error: &opendal::Error) -> (e: BridgeError)
        ensures
            exists|kind: ServiceErrorKind, temporary: bool, persistent: bool, message: Seq<u8>|
                e@ == service_failure(kind, temporary, persistent, message),
    {
        let kind = error_kind_of(error);
        let temporary = error_is_temporary(error);
        let persistent = error_is_persistent(error);
        let message = error_message_of(error);
        let e = BridgeError::from_service_parts(kind, temporary, persistent, message.as_bytes());
        assert(e@ == service_failure(kind, temporary, persistent, message.spec_bytes()));
        e
    }

    /// Converts an error raised while constructing an operator; the message is
    /// replaced, since backend diagnostics can hold configuration secrets.
    pub fn from_construction_error(error: &opendal::Error) -> (e: BridgeError)
        ensures
            exists|kind: ServiceErrorKind, temporary: bool, persistent: bool|
                e@ == service_failure(
                    kind,
                    temporary,
                    persistent,
                    "operator construction failed".spec_bytes(),
                ),
    {
        let kind = error_kind_of(error);
        let temporary = error_is_temporary(error);
        let persistent = error_is_persistent(error);
        let e = BridgeError::from_service_parts(
            kind,
            temporary,
            persistent,
            "operator construction failed".as_bytes(),
        );
        assert(e@ == service_failure(kind, temporary, persistent, "operator construction failed".spec_bytes()));
        e
    }
}

/// The failure of a suffix read on a backend that cannot serve suffix ranges.
pub open spec fn unsupported_suffix() -> ErrorModel {
    service_failure(
        ServiceErrorKind::Unsupported,
        false,
        false,
        "suffix reads require native backend range support".spec_bytes(),
    )
}

/// Decides whether a read of `range` may go ahead, given whether the
/// backend itself serves suffix ranges: only a suffix range on a backend that
/// does not is refused.
pub fn check_suffix_support(range: &ByteRange, native_suffix: bool) -> (res: Result<(), BridgeError>)
    ensures
        res is Ok <==> !range.suffix || native_suffix,
        res is Err ==> res->Err_0@ == unsupported_suffix(),
{
    if range.suffix && !native_suffix {
        return Err(
            BridgeError::from_service_parts(
                ServiceErrorKind::Unsupported,
                false,
                false,
                "suffix reads require native backend range support".as_bytes(),
            ),
        );
    }
    Ok(())
}

/// Rejects a suffix range unless the operator's backend serves suffix ranges
/// itself (emulated suffix reads would fetch the object twice); the backend's
/// answer is asked only for a suffix range, and [`check_suffix_support`]
/// decides.
pub fn ensure_suffix_is_native(operator: &opendal::Operator, range: &ByteRange) -> (res: Result<(), BridgeError>)
    ensures
        !range.suffix ==> res is Ok,
        res is Err ==> res->Err_0@ == unsupported_suffix(),
{
    if !range.suffix {
        return Ok(());
    }
    check_suffix_support(range, native_read_with_suffix(operator))
}

/// Whether two texts are equal when ASCII letters are compared without case.
pub open spec fn ascii_lower(b: u8) -> u8 {
    if 65 <= b <= 90 {
        (b + 32) as u8
    } else {
        b
    }
}

/// Whether two byte strings are equal up to ASCII case.
pub open spec fn eq_ignore_ascii_case(a: Seq<u8>, b: Seq<u8>) -> bool {
    &&& a.len() == b.len()
    &&& forall|i: int| 0 <= i < a.len() ==> ascii_lower(#[trigger] a[i]) == ascii_lower(b[i])
}

/// Compares two byte strings up to ASCII case.
pub fn bytes_eq_ignore_ascii_case(a: &[u8], b: &[u8]) -> (eq: bool)
    ensures
        eq == eq_ignore_ascii_case(a@, b@),
{
    if a.len() != b.len() {
        return false;
    }
    let mut i: usize = 0;
    while i < a.len()
        invariant
            a@.len() == b@.len(),
            i <= a@.len(),
            forall|j: int| 0 <= j < i ==> ascii_lower(#[trigger] a@[j]) == ascii_lower(b@[j]),
        decreases a@.len() - i,
    {
        let x = a[i];
        let y = b[i];
        let lx = if 65 <= x && x <= 90 {
            x + 32
        } else {
            x
        };
        let ly = if 65 <= y && y <= 90 {
            y + 32
        } else {
            y
        };
        if lx != ly {
            return false;
        }
        i = i + 1;
    }
    true
}

/// The total byte length of a configuration's keys and values.
pub open spec fn config_bytes_of(config: Seq<(Vec<u8>, Vec<u8>)>) -> int
    decreases config.len(),
{
    if config.len() == 0 {
        0
    } else {
        config_bytes_of(config.drop_last()) + config.last().0@.len() + config.last().1@.len()
    }
}

/// Whether a key is already configured, up to ASCII case.
pub open spec fn has_key(config: Seq<(Vec<u8>, Vec<u8>)>, key: Seq<u8>) -> bool {
    exists|i: int| 0 <= i < config.len() && eq_ignore_ascii_case(#[trigger] config[i].0@, key)
}

/// The messages of rejected configuration entries.
pub open spec fn duplicate_key_message() -> Seq<u8> {
    "duplicate config key".spec_bytes()
}

/// The message of a configuration with too many entries.
pub open spec fn entry_limit_message() -> Seq<u8> {
    "config exceeds the 1024-entry limit".spec_bytes()
}

/// The message of a configuration with too many bytes.
pub open spec fn byte_limit_message() -> Seq<u8> {
    "config exceeds the 1048576-byte limit".spec_bytes()
}

/// Appends one configuration entry to a builder.
///
/// Rejects (as `InvalidArgument`, leaving the builder unchanged) a key that is
/// already configured up to ASCII case, a configuration already at the entry
/// limit, and one that would pass the byte limit; fails with
/// `AllocationFailed` when no room can be reserved.
pub fn push_operator_config(builder: &mut OperatorBuilder, key: Vec<u8>, value: Vec<u8>) -> (res: Result<(), BridgeError>)
    ensures
        final(builder).scheme == old(builder).scheme,
        match res {
            Ok(()) => {
                &&& !has_key(old(builder).config@, key@)
                &&& old(builder).config@.len() < MAX_CONFIG_ENTRIES
                &&& old(builder).config_bytes + key@.len() + value@.len() <= MAX_CONFIG_BYTES
                &&& final(builder).config@ == old(builder).config@.push((key, value))
                &&& final(builder).config_bytes == old(builder).config_bytes + key@.len() + value@.len()
            },
            Err(e) => {
                &&& final(builder).config@ == old(builder).config@
                &&& final(builder).config_bytes == old(builder).config_bytes
                &&& if has_key(old(builder).config@, key@) {
                    e matches BridgeError::InvalidArgument { message } && message@ == duplicate_key_message()
                } else if old(builder).config@.len() >= MAX_CONFIG_ENTRIES {
                    e matches BridgeError::InvalidArgument { message } && message@ == entry_limit_message()
                } else if old(builder).config_bytes + key@.len() + value@.len() > MAX_CONFIG_BYTES {
                    e matches BridgeError::InvalidArgument { message } && message@ == byte_limit_message()
                } else {
                    e == BridgeError::AllocationFailed
                }
            },
        },
{
    let mut i: usize = 0;
    while i < builder.config.len()
        invariant
            i <= builder.config@.len(),
            forall|j: int| 0 <= j < i ==> !eq_ignore_ascii_case(#[trigger] builder.config@[j].0@, key@),
        decreases builder.config@.len() - i,
    {
        if bytes_eq_ignore_ascii_case(builder.config[i].0.as_slice(), key.as_slice()) {
            let mut message: Vec<u8> = Vec::new();
            append_bytes(&mut message, "duplicate config key".as_bytes());
            return Err(BridgeError::InvalidArgument { message });
        }
        i = i + 1;
    }
    if builder.config.len() >= MAX_CONFIG_ENTRIES {
        let mut message: Vec<u8> = Vec::new();
        append_bytes(&mut message, "config exceeds the 1024-entry limit".as_bytes());
        return Err(BridgeError::InvalidArgument { message });
    }
    let current = builder.config_bytes;
    if key.len() > MAX_CONFIG_BYTES || current > MAX_CONFIG_BYTES - key.len() || value.len()
        > MAX_CONFIG_BYTES - key.len() - current {
        let mut message: Vec<u8> = Vec::new();
        append_bytes(&mut message, "config exceeds the 1048576-byte limit".as_bytes());
        return Err(BridgeError::InvalidArgument { message });
    }
    let next = current + key.len() + value.len();
    if !crate::support::try_reserve_exact(&mut builder.config, 1) {
        return Err(BridgeError::AllocationFailed);
    }
    builder.config.push((key, value));
    builder.config_bytes = next;
    Ok(())
}

/// Copies an operator builder; fails with `AllocationFailed` when memory runs out.
pub fn try_clone_operator_builder(builder: &OperatorBuilder) -> (res: Result<OperatorBuilder, BridgeError>)
    ensures
        match res {
            Ok(copy) => {
                &&& copy.scheme@ == builder.scheme@
                &&& copy.config_bytes == builder.config_bytes
                &&& copy.config@.len() == builder.config@.len()
                &&& forall|i: int|
                    0 <= i < builder.config@.len() ==> (#[trigger] copy.config@[i]).0@
                        == builder.config@[i].0@ && copy.config@[i].1@ == builder.config@[i].1@
            },
            Err(e) => e == BridgeError::AllocationFailed,
        },
{
    let mut config: Vec<(Vec<u8>, Vec<u8>)> = Vec::new();
    if !crate::support::try_reserve_exact(&mut config, builder.config.len()) {
        return Err(BridgeError::AllocationFailed);
    }
    let mut i: usize = 0;
    while i < builder.config.len()
        invariant
            i <= builder.config@.len(),
            config@.len() == i,
            forall|j: int|
                0 <= j < i ==> (#[trigger] config@[j]).0@ == builder.config@[j].0@ && config@[j].1@
                    == builder.config@[j].1@,
        decreases builder.config@.len() - i,
    {
        let key = match try_owned_string(builder.config[i].0.as_slice()) {
            Ok(k) => k,
            Err(e) => {
                return Err(e);
            },
        };
        let value = match try_owned_string(builder.config[i].1.as_slice()) {
            Ok(v) => v,
            Err(e) => {
                return Err(e);
            },
        };
        config.push((key, value));
        i = i + 1;
    }
    let scheme = match try_owned_string(builder.scheme.as_slice()) {
        Ok(s) => s,
        Err(e) => {
            return Err(e);
        },
    };
    Ok(OperatorBuilder { scheme, config, config_bytes: builder.config_bytes })
}

/// Whether every text of a builder is UTF-8.
pub open spec fn builder_is_utf8(builder: OperatorBuilder) -> bool {
    &&& valid_utf8(builder.scheme@)
    &&& forall|i: int|
        0 <= i < builder.config@.len() ==> valid_utf8((#[trigger] builder.config@[i]).0@)
            && valid_utf8(builder.config@[i].1@)
}

/// The texts of configuration pairs.
pub open spec fn text_pairs(config: Seq<(String, String)>) -> Seq<(Seq<char>, Seq<char>)> {
    config.map_values(|p: (String, String)| (p.0@, p.1@))
}

/// The decoded texts of a builder's configuration pairs, in order.
pub open spec fn decoded_pairs(config: Seq<(Vec<u8>, Vec<u8>)>) -> Seq<(Seq<char>, Seq<char>)> {
    config.map_values(|p: (Vec<u8>, Vec<u8>)| (decode_utf8(p.0@), decode_utf8(p.1@)))
}

/// The scheme and the configuration pairs a builder hands to the service
/// registry: its texts decoded, each key with its own value, in the
/// builder's order; a builder holding non-UTF-8 text is rejected with
/// `InvalidUtf8`.
pub fn registry_arguments(builder: &OperatorBuilder) -> (res: Result<(String, Vec<(String, String)>), BridgeError>)
    ensures
        res is Ok <==> builder_is_utf8(*builder),
        res matches Err(e) ==> e == BridgeError::InvalidUtf8,
        res matches Ok((scheme, config)) ==> scheme@ == decode_utf8(builder.scheme@) && text_pairs(config@)
            == decoded_pairs(builder.config@),
{
    let scheme = match utf8_view(builder.scheme.as_slice()) {
        Some(s) => s.to_owned(),
        None => {
            return Err(BridgeError::InvalidUtf8);
        },
    };
    let mut config: Vec<(String, String)> = Vec::new();
    let mut i: usize = 0;
    while i < builder.config.len()
        invariant
            i <= builder.config@.len(),
            valid_utf8(builder.scheme@),
            scheme@ == decode_utf8(builder.scheme@),
            config@.len() == i,
            forall|j: int|
                0 <= j < i ==> valid_utf8((#[trigger] builder.config@[j]).0@) && valid_utf8(
                    builder.config@[j].1@,
                ),
            forall|j: int|
                0 <= j < i ==> (#[trigger] config@[j]).0@ == decode_utf8(builder.config@[j].0@)
                    && config@[j].1@ == decode_utf8(builder.config@[j].1@),
        decreases builder.config@.len() - i,
    {
        let key = match utf8_view(builder.config[i].0.as_slice()) {
            Some(k) => k.to_owned(),
            None => {
                return Err(BridgeError::InvalidUtf8);
            },
        };
        let value = match utf8_view(builder.config[i].1.as_slice()) {
            Some(v) => v.to_owned(),
            None => {
                return Err(BridgeError::InvalidUtf8);
            },
        };
        config.push((key, value));
        i = i + 1;
    }
    assert(text_pairs(config@) =~= decoded_pairs(builder.config@));
    Ok((scheme, config))
}

/// Builds an operator from a builder through the service registry, with the
/// scheme and pairs [`registry_arguments`] decodes.
///
/// Construction failures are reported without the backend's own message; a
/// builder holding non-UTF-8 text is rejected with `InvalidUtf8`.
pub fn build_operator(builder: OperatorBuilder) -> (res: Result<Recorded<opendal::Operator, InfoModel>, BridgeError>)
    ensures
        !builder_is_utf8(builder) ==> (res matches Err(e) && e == BridgeError::InvalidUtf8),
        res is Err && builder_is_utf8(builder) ==> exists|
            kind: ServiceErrorKind,
            temporary: bool,
            persistent: bool,
        |
            res->Err_0@ == service_failure(
                kind,
                temporary,
                persistent,
                "operator construction failed".spec_bytes(),
            ),
{
    let (scheme, config) = match registry_arguments(&builder) {
        Ok(args) => args,
        Err(e) => {
            return Err(e);
        },
    };
    install_defaults();
    match operator_via_iter(scheme.as_str(), config) {
        Ok(operator) => Ok(operator),
        Err(e) => Err(BridgeError::from_construction_error(&e)),
    }
}

/// `mask` when `flag` is set, else `0`.
#[verifier::opaque]
pub open spec fn flag_bits(flag: bool, mask: u64) -> int {
    if flag {
        mask as int
    } else {
        0
    }
}

/// Returns `mask` when `flag` is set, else `0`.
fn flag(set: bool, mask: u64) -> (bits: u64)
    ensures
        bits == flag_bits(set, mask),
        bits <= mask,
{
    reveal(flag_bits);
    if set {
        mask
    } else {
        0
    }
}

/// The first capability word: one bit per portable capability.
pub open spec fn capability_bits(c: CapabilityRecord, native_suffix: bool) -> u64 {
    (flag_bits(c.stat, CAP_STAT) + flag_bits(c.read, CAP_READ) + flag_bits(c.write, CAP_WRITE) + flag_bits(c.create_dir, CAP_CREATE_DIR) + flag_bits(c.delete, CAP_DELETE) + flag_bits(c.list, CAP_LIST) + flag_bits(c.copy, CAP_COPY) + flag_bits(c.rename, CAP_RENAME) + flag_bits(native_suffix, CAP_READ_SUFFIX) + flag_bits(c.write_can_append, CAP_WRITE_APPEND) + flag_bits(c.list_with_limit, CAP_LIST_LIMIT) + flag_bits(c.list_with_start_after, CAP_LIST_START_AFTER) + flag_bits(c.list_with_recursive, CAP_LIST_RECURSIVE) + flag_bits(c.presign_stat, CAP_PRESIGN_STAT) + flag_bits(c.presign_read, CAP_PRESIGN_READ) + flag_bits(c.presign_write, CAP_PRESIGN_WRITE)) as u64
}

/// Packs the portable capabilities into the first capability word.
pub fn capability_flags(capability: CapabilityRecord, native_suffix: bool) -> (bits: u64)
    ensures
        bits == capability_bits(capability, native_suffix),
{
    flag(capability.stat, CAP_STAT) + flag(capability.read, CAP_READ) + flag(capability.write, CAP_WRITE) + flag(capability.create_dir, CAP_CREATE_DIR) + flag(capability.delete, CAP_DELETE) + flag(capability.list, CAP_LIST) + flag(capability.copy, CAP_COPY) + flag(capability.rename, CAP_RENAME) + flag(native_suffix, CAP_READ_SUFFIX) + flag(capability.write_can_append, CAP_WRITE_APPEND) + flag(capability.list_with_limit, CAP_LIST_LIMIT) + flag(capability.list_with_start_after, CAP_LIST_START_AFTER) + flag(capability.list_with_recursive, CAP_LIST_RECURSIVE) + flag(capability.presign_stat, CAP_PRESIGN_STAT) + flag(capability.presign_read, CAP_PRESIGN_READ) + flag(capability.presign_write, CAP_PRESIGN_WRITE)
}

/// `mask` when `flag` holds, else `0`, as a machine word.
#[verifier::opaque]
pub open spec fn bit_when(flag: bool, mask: u64) -> u64 {
    if flag {
        mask
    } else {
        0
    }
}

/// What a packed flag is.
pub(crate) proof fn lemma_bit_when(flag: bool, mask: u64)
    ensures
        bit_when(flag, mask) == if flag {
            mask
        } else {
            0
        },
{
    reveal(bit_when);
}

/// One term of a capability word, as an integer and as a machine word.
proof fn lemma_flag_term(flag: bool, mask: u64)
    ensures
        flag_bits(flag, mask) == bit_when(flag, mask) as int,
        bit_when(flag, mask) <= mask,
{
    reveal(flag_bits);
    reveal(bit_when);
}

/// Sixteen flags packed at their own bits each appear at exactly that bit.
pub(crate) proof fn lemma_sixteen_flags(
    b0: bool, b1: bool, b2: bool, b3: bool, b4: bool, b5: bool, b6: bool, b7: bool,
    b8: bool, b9: bool, b10: bool, b11: bool, b12: bool, b13: bool, b14: bool, b15: bool,
    w: u64,
)
    requires
        w == bit_when(b0, 1) + bit_when(b1, 2) + bit_when(b2, 4) + bit_when(b3, 8) + bit_when(b4, 16) + bit_when(b5, 32)
            + bit_when(b6, 64) + bit_when(b7, 128) + bit_when(b8, 256) + bit_when(b9, 512) + bit_when(b10, 1024)
            + bit_when(b11, 2048) + bit_when(b12, 4096) + bit_when(b13, 8192) + bit_when(b14, 16384) + bit_when(b15, 32768),
    ensures
        (w & 1 != 0) == b0, (w & 2 != 0) == b1, (w & 4 != 0) == b2, (w & 8 != 0) == b3,
        (w & 16 != 0) == b4, (w & 32 != 0) == b5, (w & 64 != 0) == b6, (w & 128 != 0) == b7,
        (w & 256 != 0) == b8, (w & 512 != 0) == b9, (w & 1024 != 0) == b10, (w & 2048 != 0) == b11,
        (w & 4096 != 0) == b12, (w & 8192 != 0) == b13, (w & 16384 != 0) == b14, (w & 32768 != 0) == b15,
        w < 65536,
{
    reveal(bit_when);
    assert({
        &&& (w & 1 != 0) == b0 &&& (w & 2 != 0) == b1 &&& (w & 4 != 0) == b2 &&& (w & 8 != 0) == b3
        &&& (w & 16 != 0) == b4 &&& (w & 32 != 0) == b5 &&& (w & 64 != 0) == b6 &&& (w & 128 != 0) == b7
        &&& (w & 256 != 0) == b8 &&& (w & 512 != 0) == b9 &&& (w & 1024 != 0) == b10 &&& (w & 2048 != 0) == b11
        &&& (w & 4096 != 0) == b12 &&& (w & 8192 != 0) == b13 &&& (w & 16384 != 0) == b14 &&& (w & 32768 != 0) == b15
        &&& w < 65536
    }) by (bit_vector)
        requires
            w == (if b0 { 1u64 } else { 0u64 }) + (if b1 { 2u64 } else { 0u64 }) + (if b2 { 4u64 } else { 0u64 })
                + (if b3 { 8u64 } else { 0u64 }) + (if b4 { 16u64 } else { 0u64 }) + (if b5 { 32u64 } else { 0u64 })
                + (if b6 { 64u64 } else { 0u64 }) + (if b7 { 128u64 } else { 0u64 }) + (if b8 { 256u64 } else { 0u64 })
                + (if b9 { 512u64 } else { 0u64 }) + (if b10 { 1024u64 } else { 0u64 }) + (if b11 { 2048u64 } else { 0u64 })
                + (if b12 { 4096u64 } else { 0u64 }) + (if b13 { 8192u64 } else { 0u64 }) + (if b14 { 16384u64 } else { 0u64 })
                + (if b15 { 32768u64 } else { 0u64 }),
    ;
}

/// Each portable capability has its own bit in the first capability word:
/// the bit is set exactly when the operator has that capability (suffix
/// reads when the backend serves them itself), and no other bit is set.
#[verifier::spinoff_prover]
#[verifier::rlimit(60)]
pub proof fn law_capability_bits_are_the_capabilities(c: CapabilityRecord, native_suffix: bool)
    ensures
        (capability_bits(c, native_suffix) & CAP_STAT != 0) == c.stat,
        (capability_bits(c, native_suffix) & CAP_READ != 0) == c.read,
        (capability_bits(c, native_suffix) & CAP_WRITE != 0) == c.write,
        (capability_bits(c, native_suffix) & CAP_CREATE_DIR != 0) == c.create_dir,
        (capability_bits(c, native_suffix) & CAP_DELETE != 0) == c.delete,
        (capability_bits(c, native_suffix) & CAP_LIST != 0) == c.list,
        (capability_bits(c, native_suffix) & CAP_COPY != 0) == c.copy,
        (capability_bits(c, native_suffix) & CAP_RENAME != 0) == c.rename,
        (capability_bits(c, native_suffix) & CAP_READ_SUFFIX != 0) == native_suffix,
        (capability_bits(c, native_suffix) & CAP_WRITE_APPEND != 0) == c.write_can_append,
        (capability_bits(c, native_suffix) & CAP_LIST_LIMIT != 0) == c.list_with_limit,
        (capability_bits(c, native_suffix) & CAP_LIST_START_AFTER != 0) == c.list_with_start_after,
        (capability_bits(c, native_suffix) & CAP_LIST_RECURSIVE != 0) == c.list_with_recursive,
        (capability_bits(c, native_suffix) & CAP_PRESIGN_STAT != 0) == c.presign_stat,
        (capability_bits(c, native_suffix) & CAP_PRESIGN_READ != 0) == c.presign_read,
        (capability_bits(c, native_suffix) & CAP_PRESIGN_WRITE != 0) == c.presign_write,
        capability_bits(c, native_suffix) < 65536,
{
    lemma_flag_term(c.stat, CAP_STAT);
    lemma_flag_term(c.read, CAP_READ);
    lemma_flag_term(c.write, CAP_WRITE);
    lemma_flag_term(c.create_dir, CAP_CREATE_DIR);
    lemma_flag_term(c.delete, CAP_DELETE);
    lemma_flag_term(c.list, CAP_LIST);
    lemma_flag_term(c.copy, CAP_COPY);
    lemma_flag_term(c.rename, CAP_RENAME);
    lemma_flag_term(native_suffix, CAP_READ_SUFFIX);
    lemma_flag_term(c.write_can_append, CAP_WRITE_APPEND);
    lemma_flag_term(c.list_with_limit, CAP_LIST_LIMIT);
    lemma_flag_term(c.list_with_start_after, CAP_LIST_START_AFTER);
    lemma_flag_term(c.list_with_recursive, CAP_LIST_RECURSIVE);
    lemma_flag_term(c.presign_stat, CAP_PRESIGN_STAT);
    lemma_flag_term(c.presign_read, CAP_PRESIGN_READ);
    lemma_flag_term(c.presign_write, CAP_PRESIGN_WRITE);
    let total: int = bit_when(c.stat, CAP_STAT) + bit_when(c.read, CAP_READ) + bit_when(c.write, CAP_WRITE)
        + bit_when(c.create_dir, CAP_CREATE_DIR) + bit_when(c.delete, CAP_DELETE) + bit_when(c.list, CAP_LIST)
        + bit_when(c.copy, CAP_COPY) + bit_when(c.rename, CAP_RENAME) + bit_when(native_suffix, CAP_READ_SUFFIX)
        + bit_when(c.write_can_append, CAP_WRITE_APPEND) + bit_when(c.list_with_limit, CAP_LIST_LIMIT)
        + bit_when(c.list_with_start_after, CAP_LIST_START_AFTER) + bit_when(c.list_with_recursive, CAP_LIST_RECURSIVE)
        + bit_when(c.presign_stat, CAP_PRESIGN_STAT) + bit_when(c.presign_read, CAP_PRESIGN_READ)
        + bit_when(c.presign_write, CAP_PRESIGN_WRITE);
    assert(0 <= total < 65536);
    assert(capability_bits(c, native_suffix) == total);
    lemma_sixteen_flags(
        c.stat, c.read, c.write, c.create_dir, c.delete, c.list, c.copy, c.rename,
        native_suffix, c.write_can_append, c.list_with_limit, c.list_with_start_after,
        c.list_with_recursive, c.presign_stat, c.presign_read, c.presign_write,
        capability_bits(c, native_suffix),
    );
}

/// Returns one word of the portable capability snapshot: word `0` holds the
/// capability bits, word `1` the batch-delete limit (`0` when unlimited),
/// words `2` and `3` are reserved (`0`), and any other word is out of bounds.
pub fn capability_word(capability: CapabilityRecord, native_suffix: bool, word: u32) -> (res: Result<u64, BridgeError>)
    ensures
        word == 0 ==> res == Ok::<u64, BridgeError>(capability_bits(capability, native_suffix)),
        word == 1 ==> match capability.delete_max_size {
            Some(n) => res == Ok::<u64, BridgeError>(n as u64),
            None => res == Ok::<u64, BridgeError>(0),
        },
        word == 2 || word == 3 ==> res == Ok::<u64, BridgeError>(0),
        word > 3 ==> res == Err::<u64, BridgeError>(
            BridgeError::IndexOutOfBounds { index: word, length: 4 },
        ),
{
    if word == 0 {
        Ok(capability_flags(capability, native_suffix))
    } else if word == 1 {
        match capability.delete_max_size {
            Some(n) => Ok(n as u64),
            None => Ok(0),
        }
    } else if word == 2 || word == 3 {
        Ok(0)
    } else {
        Err(BridgeError::IndexOutOfBounds { index: word, length: 4 })
    }
}

/// Which text of an operator's information to copy.
#[derive(Clone, Copy, PartialEq, Eq, Structural, Debug)]
pub enum InfoField {
    Scheme,
    Root,
    Name,
}

/// The operator `h` names in `state`, cloned, and the UTF-8 path in the buffer
/// `path_handle` names, copied.
pub fn path_and_operator(state: &Bridge, operator_handle: u32, path_handle: u32) -> (res: Result<
    (opendal::Operator, Vec<u8>),
    BridgeError,
>)
    requires
        state.wf(),
    ensures
        match state.arena.access_error(operator_handle, ResourceKind::Operator) {
            Some(e) => res == Err::<(opendal::Operator, Vec<u8>), BridgeError>(e),
            None => match state.arena.access_error(path_handle, ResourceKind::Buffer) {
                Some(e) => res == Err::<(opendal::Operator, Vec<u8>), BridgeError>(e),
                None => match res {
                    Ok((_, path)) => valid_utf8(bytes_of(state, path_handle)) && path@ == bytes_of(
                        state,
                        path_handle,
                    ),
                    Err(e) => if valid_utf8(bytes_of(state, path_handle)) {
                        e == BridgeError::AllocationFailed
                    } else {
                        e == BridgeError::InvalidUtf8
                    },
                },
            },
        },
{
    let operator = match state.arena.typed(operator_handle, ResourceKind::Operator) {
        Ok(Resource::Operator(op)) => clone_operator(op.get()),
        Ok(_) => {
            return Err(BridgeError::InvalidHandle { handle: operator_handle });
        },
        Err(e) => {
            return Err(e);
        },
    };
    match owned_utf8_buffer(state, path_handle) {
        Ok(path) => Ok((operator, path)),
        Err(e) => Err(e),
    }
}

/// The builder `h` names is the same (by value) in `a` and `b`.
pub open spec fn same_builder(a: &crate::arena::Arena, b: &crate::arena::Arena, h: u32) -> bool {
    match a.lookup(h) {
        Some(Resource::OperatorBuilder(x)) => match b.lookup(h) {
            Some(Resource::OperatorBuilder(y)) => x.scheme == y.scheme && x.config@ == y.config@
                && x.config_bytes == y.config_bytes,
            _ => false,
        },
        other => b.lookup(h) == other,
    }
}

/// The message of an empty service scheme.
pub open spec fn empty_scheme_message() -> Seq<u8> {
    "service scheme cannot be empty".spec_bytes()
}

/// `later` is `state` with an invalid-argument error of `message` recorded.
pub open spec fn records_invalid_argument(state: &Bridge, later: &Bridge, message: Seq<u8>) -> bool {
    &&& later.arena == state.arena
    &&& state.same_settings(later)
    &&& later.last_error matches Some(BridgeError::InvalidArgument { message: m }) && m@ == message
}

/// Why setting a configuration entry is refused, if it is (apart from
/// running out of memory): the key, then the value, must name UTF-8
/// buffers; the builder must be live; then the builder's own rules on
/// duplicate keys and its entry and byte limits.
pub open spec fn builder_set_refusal(state: &Bridge, builder: u32, key: u32, value: u32) -> Option<ErrorModel> {
    let k = bytes_of(state, key);
    let v = bytes_of(state, value);
    if state.arena.access_error(key, ResourceKind::Buffer) is Some {
        Some(state.arena.access_error(key, ResourceKind::Buffer)->0@)
    } else if !valid_utf8(k) {
        Some(ErrorModel::InvalidUtf8)
    } else if state.arena.access_error(value, ResourceKind::Buffer) is Some {
        Some(state.arena.access_error(value, ResourceKind::Buffer)->0@)
    } else if !valid_utf8(v) {
        Some(ErrorModel::InvalidUtf8)
    } else if state.arena.access_error(builder, ResourceKind::OperatorBuilder) is Some {
        Some(state.arena.access_error(builder, ResourceKind::OperatorBuilder)->0@)
    } else {
        match state.arena.lookup(builder) {
            Some(Resource::OperatorBuilder(b)) => if has_key(b.config@, k) {
                Some(ErrorModel::InvalidArgument { message: duplicate_key_message() })
            } else if b.config@.len() >= MAX_CONFIG_ENTRIES {
                Some(ErrorModel::InvalidArgument { message: entry_limit_message() })
            } else if b.config_bytes + k.len() + v.len() > MAX_CONFIG_BYTES {
                Some(ErrorModel::InvalidArgument { message: byte_limit_message() })
            } else {
                None
            },
            _ => None,
        }
    }
}

impl Bridge {
    /// Creates an in-memory operator and returns its handle, or `0` after
    /// recording a failure.
    pub fn operator_new_memory(&mut self) -> (operator: u32)
        requires
            old(self).wf(),
        ensures
            final(self).wf(),
            match insert_failure(old(self)) {
                Some(e) => operator == 0 && old(self).records(final(self), e),
                None => {
                    &&& operator != 0
                    &&& old(self).arena_step(final(self))
                    &&& old(self).arena.inserted_at(&final(self).arena, operator)
                    &&& final(self).arena.lookup(operator) matches Some(Resource::Operator(op))
                    &&& op@.scheme == "memory"@ && op@.root == "/"@
                },
            },
    {
        let result = match memory_operator() {
            Ok(op) => insert_resource(self, Resource::Operator(op)),
            Err(e) => Err(BridgeError::from_service_error(&e)),
        };
        proof {
            if let Ok(h) = result {
                crate::handle::lemma_handle_decompose(h);
            }
        }
        handle_or_record_error(self, result)
    }

    /// Creates an empty generic operator builder for the UTF-8 service scheme
    /// in the buffer `scheme_handle` names; returns `0` after recording a
    /// failure (an empty scheme is an invalid argument).
    pub fn operator_builder_new(&mut self, scheme_handle: u32) -> (builder: u32)
        requires
            old(self).wf(),
        ensures
            final(self).wf(),
            match old(self).arena.access_error(scheme_handle, ResourceKind::Buffer) {
                Some(e) => builder == 0 && old(self).records(final(self), e),
                None => if !valid_utf8(bytes_of(old(self), scheme_handle)) {
                    builder == 0 && old(self).records(final(self), BridgeError::InvalidUtf8)
                } else {
                    ||| (builder == 0 && old(self).records(final(self), BridgeError::AllocationFailed))
                    ||| (bytes_of(old(self), scheme_handle).len() == 0 && builder == 0
                        && records_invalid_argument(old(self), final(self), empty_scheme_message()))
                    ||| (bytes_of(old(self), scheme_handle).len() > 0 && match insert_failure(old(self)) {
                        Some(e) => builder == 0 && old(self).records(final(self), e),
                        None => {
                            &&& builder != 0
                            &&& old(self).arena_step(final(self))
                            &&& old(self).arena.inserted_at(&final(self).arena, builder)
                            &&& final(self).arena.lookup(builder) matches Some(
                                Resource::OperatorBuilder(b),
                            )
                            &&& b.scheme@ == bytes_of(old(self), scheme_handle)
                            &&& b.config@.len() == 0
                            &&& b.config_bytes == 0
                        },
                    })
                },
            },
    {
        let result = match owned_utf8_buffer(self, scheme_handle) {
            Ok(scheme) => if scheme.len() == 0 {
                let mut message: Vec<u8> = Vec::new();
                append_bytes(&mut message, "service scheme cannot be empty".as_bytes());
                Err(BridgeError::InvalidArgument { message })
            } else {
                insert_resource(
                    self,
                    Resource::OperatorBuilder(
                        OperatorBuilder { scheme, config: Vec::new(), config_bytes: 0 },
                    ),
                )
            },
            Err(e) => Err(e),
        };
        proof {
            if let Ok(h) = result {
                crate::handle::lemma_handle_decompose(h);
            }
        }
        handle_or_record_error(self, result)
    }

    /// Copies one UTF-8 key/value pair into a generic operator builder and
    /// returns a status code; a failure is recorded and leaves the builder as it was.
    pub fn operator_builder_set(&mut self, builder_handle: u32, key_handle: u32, value_handle: u32) -> (code: u32)
        requires
            old(self).wf(),
        ensures
            final(self).wf(),
            code == STATUS_OK ==> {
                &&& old(self).arena_step(final(self))
                &&& old(self).arena.same_except(&final(self).arena, builder_handle)
                &&& old(self).arena.progressed_to(&final(self).arena)
                &&& old(self).arena.lookup(builder_handle) matches Some(Resource::OperatorBuilder(b0))
                &&& final(self).arena.lookup(builder_handle) matches Some(Resource::OperatorBuilder(b1))
                &&& b1.scheme == b0.scheme
                &&& b1.config@.len() == b0.config@.len() + 1
                &&& b1.config@.last().0@ == bytes_of(old(self), key_handle)
                &&& b1.config@.last().1@ == bytes_of(old(self), value_handle)
                &&& b1.config@.drop_last() == b0.config@
                &&& !has_key(b0.config@, bytes_of(old(self), key_handle))
            },
            code != STATUS_OK ==> {
                &&& old(self).same_settings(final(self))
                &&& final(self).last_error is Some
                &&& code == error_code(final(self).last_error->0@)
                &&& old(self).arena.same_except(&final(self).arena, builder_handle)
                &&& same_builder(&old(self).arena, &final(self).arena, builder_handle)
                &&& old(self).arena.progressed_to(&final(self).arena)
            },
            match builder_set_refusal(old(self), builder_handle, key_handle, value_handle) {
                Some(e) => code != STATUS_OK && (final(self).last_error->0@ == e || final(self).last_error
                    == Some(BridgeError::AllocationFailed)),
                None => code == STATUS_OK || final(self).last_error == Some(BridgeError::AllocationFailed),
            },
    {
        let key = match owned_utf8_buffer(self, key_handle) {
            Ok(k) => k,
            Err(e) => {
                return record_error(self, e);
            },
        };
        let value = match owned_utf8_buffer(self, value_handle) {
            Ok(v) => v,
            Err(e) => {
                return record_error(self, e);
            },
        };
        match self.arena.typed(builder_handle, ResourceKind::OperatorBuilder) {
            Ok(_) => {},
            Err(e) => {
                return record_error(self, e);
            },
        }
        let ghost a0 = self.arena;
        let previous = self.arena.replace(builder_handle, Resource::Buffer(Vec::new()));
        let ghost a1 = self.arena;
        let ghost mid = a1.lookup(builder_handle)->0;
        let (restored, result) = match previous {
            Resource::OperatorBuilder(mut b) => {
                let result = push_operator_config(&mut b, key, value);
                (Resource::OperatorBuilder(b), result)
            },
            other => (other, Ok(())),
        };
        let ghost u = restored;
        self.arena.replace(builder_handle, restored);
        proof {
            lemma_replaced_twice(&a0, &a1, &self.arena, builder_handle, mid, u);
            crate::arena::lemma_replaced_progress(&a0, &self.arena, builder_handle, u);
        }
        match result {
            Ok(()) => STATUS_OK,
            Err(e) => record_error(self, e),
        }
    }
}

impl Bridge {
    /// Builds an operator from a copy of the builder `builder_handle` names
    /// (which stays usable) and returns the operator's handle, or `0` after
    /// recording a failure.
    pub fn operator_builder_build(&mut self, builder_handle: u32) -> (operator: u32)
        requires
            old(self).wf(),
        ensures
            final(self).wf(),
            match old(self).arena.access_error(builder_handle, ResourceKind::OperatorBuilder) {
                Some(e) => operator == 0 && old(self).records(final(self), e),
                None => {
                    &&& operator != 0 ==> {
                        &&& old(self).arena_step(final(self))
                        &&& old(self).arena.inserted_at(&final(self).arena, operator)
                        &&& final(self).arena.lookup(operator) matches Some(Resource::Operator(_))
                    }
                    &&& operator == 0 ==> final(self).arena == old(self).arena && old(
                        self,
                    ).same_settings(final(self)) && final(self).last_error is Some
                },
            },
    {
        let copy = match self.arena.typed(builder_handle, ResourceKind::OperatorBuilder) {
            Ok(Resource::OperatorBuilder(b)) => try_clone_operator_builder(b),
            Ok(_) => Err(BridgeError::InvalidHandle { handle: builder_handle }),
            Err(e) => Err(e),
        };
        let result = match copy {
            Ok(builder) => match build_operator(builder) {
                Ok(op) => insert_resource(self, Resource::Operator(op)),
                Err(e) => Err(e),
            },
            Err(e) => Err(e),
        };
        proof {
            if let Ok(h) = result {
                crate::handle::lemma_handle_decompose(h);
            }
        }
        handle_or_record_error(self, result)
    }

    /// Releases a generic operator builder.
    pub fn operator_builder_release(&mut self, handle: u32) -> (code: u32)
        requires
            old(self).wf(),
        ensures
            final(self).wf(),
            match old(self).arena.access_error(handle, ResourceKind::OperatorBuilder) {
                None => code == STATUS_OK && old(self).arena_step(final(self)) && old(
                    self,
                ).arena.removed(&final(self).arena, handle, old(self).arena.lookup(handle)->0),
                Some(e) => code == error_code(e@) && old(self).records(final(self), e),
            },
    {
        release_resource(self, handle, ResourceKind::OperatorBuilder)
    }
}

/// The UTF-8 bytes of one text of an operator's information.
pub open spec fn info_text(info: InfoModel, field: InfoField) -> Seq<u8> {
    match field {
        InfoField::Scheme => encode_utf8(info.scheme),
        InfoField::Root => encode_utf8(info.root),
        InfoField::Name => encode_utf8(info.name),
    }
}

impl Bridge {
    /// Copies one text of an operator's information (its scheme, root or name)
    /// into a new buffer handle; returns `0` after recording a failure.
    pub fn operator_info_buffer(&mut self, handle: u32, field: InfoField) -> (buffer: u32)
        requires
            old(self).wf(),
        ensures
            final(self).wf(),
            match old(self).arena.access_error(handle, ResourceKind::Operator) {
                Some(e) => buffer == 0 && old(self).records(final(self), e),
                None => old(self).arena.lookup(handle) matches Some(Resource::Operator(op))
                    && buffer_stored(old(self), final(self), buffer, info_text(op@, field)),
            },
    {
        let text = match self.arena.typed(handle, ResourceKind::Operator) {
            Ok(Resource::Operator(op)) => {
                let info = operator_info(op);
                Ok(
                    match field {
                        InfoField::Scheme => copy_bytes(info_scheme(&info).as_bytes()),
                        InfoField::Root => copy_bytes(info_root(&info).as_str().as_bytes()),
                        InfoField::Name => copy_bytes(info_name(&info).as_str().as_bytes()),
                    },
                )
            },
            Ok(_) => Err(BridgeError::InvalidHandle { handle }),
            Err(e) => Err(e),
        };
        let ghost copied = match &text {
            Ok(bytes) => bytes@,
            Err(_) => Seq::empty(),
        };
        let result = match text {
            Ok(bytes) => insert_buffer(self, bytes),
            Err(e) => Err(e),
        };
        proof {
            if let Ok(h) = result {
                crate::handle::lemma_handle_decompose(h);
            }
        }
        let buffer = handle_or_record_error(self, result);
        assert(old(self).arena.access_error(handle, ResourceKind::Operator) is None ==> buffer_stored(
            old(self),
            final(self),
            buffer,
            copied,
        ));
        buffer
    }

    /// Returns one word of an operator's capability snapshot (see
    /// [`capability_word`]), or `0` after recording a failure.
    pub fn operator_capability_word(&mut self, handle: u32, word: u32) -> (value: u64)
        requires
            old(self).wf(),
        ensures
            final(self).wf(),
            match old(self).arena.access_error(handle, ResourceKind::Operator) {
                Some(e) => value == 0 && old(self).records(final(self), e),
                None => if word > 3 {
                    value == 0 && old(self).records(
                        final(self),
                        BridgeError::IndexOutOfBounds { index: word, length: 4 },
                    )
                } else {
                    *final(self) == *old(self) && (word >= 2 ==> value == 0)
                },
            },
    {
        let result = match self.arena.typed(handle, ResourceKind::Operator) {
            Ok(Resource::Operator(op)) => {
                let capability = info_capability(operator_info(op).get());
                let native = native_read_with_suffix(op.get());
                capability_word(capability, native, word)
            },
            Ok(_) => Err(BridgeError::InvalidHandle { handle }),
            Err(e) => Err(e),
        };
        match result {
            Ok(value) => value,
            Err(e) => {
                record_error(self, e);
                0
            },
        }
    }
}

} // verus!
