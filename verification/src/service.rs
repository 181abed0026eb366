//! The storage library's synchronous calls, behind trusted wrappers.
//!
//! None of these contracts is proved: each says only what the storage
//! library's source shows of the call, and most say nothing of a result that
//! depends on the service, the registry or the error a call produced.
use vstd::prelude::*;

verus! {

/// An error raised by the storage library.
#[verifier::external_type_specification]
#[verifier::external_body]
pub struct ExServiceError(opendal::Error);

/// What an operator reports about itself.
#[verifier::external_type_specification]
#[verifier::external_body]
pub struct ExOperatorInfo(opendal::OperatorInfo);

/// The registry of compiled-in storage services.
#[verifier::external_type_specification]
#[verifier::external_body]
pub struct ExOperatorRegistry(opendal::OperatorRegistry);

/// The category of a storage-library error, one variant per category.
#[derive(Clone, Copy, PartialEq, Eq, Structural, Debug)]
pub enum ServiceErrorKind {
    Unexpected,
    Unsupported,
    ConfigInvalid,
    NotFound,
    PermissionDenied,
    IsADirectory,
    NotADirectory,
    AlreadyExists,
    RateLimited,
    IsSameFile,
    ConditionNotMatch,
    RangeNotSatisfied,
    Conflict,
}

/// The portable part of an operator's capability set.
#[derive(Clone, Copy, PartialEq, Eq, Structural, Debug)]
pub struct CapabilityRecord {
    pub stat: bool,
    pub read: bool,
    pub write: bool,
    pub create_dir: bool,
    pub delete: bool,
    pub list: bool,
    pub copy: bool,
    pub rename: bool,
    pub write_can_append: bool,
    pub list_with_limit: bool,
    pub list_with_start_after: bool,
    pub list_with_recursive: bool,
    pub presign_stat: bool,
    pub presign_read: bool,
    pub presign_write: bool,
    pub delete_max_size: Option<usize>,
}

/// Calls `opendal::install_default`, which registers the compiled-in services
/// and the default HTTP transport once per process.
#[verifier::external_body]
pub(crate) fn install_defaults() {
    opendal::install_default()
}

/// Calls `opendal::init_default_registry`, which registers the compiled-in
/// services once per process.
#[verifier::external_body]
pub(crate) fn init_registry() {
    opendal::init_default_registry()
}

/// Calls `Operator::clone`: another handle on the same operator.
#[verifier::external_body]
pub(crate) fn clone_operator(operator: &opendal::Operator) -> (copy: opendal::Operator) {
    operator.clone()
}

/// Calls `OperatorInfo::capability` and copies its portable fields one for one.
#[verifier::external_body]
pub(crate) fn info_capability(info: &opendal::OperatorInfo) -> (record: CapabilityRecord) {
    let c = info.capability();
    CapabilityRecord {
        stat: c.stat, read: c.read, write: c.write, create_dir: c.create_dir,
        delete: c.delete, list: c.list, copy: c.copy, rename: c.rename,
        write_can_append: c.write_can_append,
        list_with_limit: c.list_with_limit,
        list_with_start_after: c.list_with_start_after,
        list_with_recursive: c.list_with_recursive,
        presign_stat: c.presign_stat, presign_read: c.presign_read,
        presign_write: c.presign_write, delete_max_size: c.delete_max_size,
    }
}

/// Reads `read_with_suffix` from `OperatorInfo::capability`: whether the
/// operator, with its layers, serves suffix ranges.
#[verifier::external_body]
pub(crate) fn info_read_with_suffix(info: &opendal::OperatorInfo) -> (suffix: bool) {
    info.capability().read_with_suffix
}

/// Reads `read_with_suffix` from the capability of the operator's base
/// service (`Operator::base_service`, then its `capability_dyn`): whether the
/// backend itself serves suffix ranges.
#[verifier::external_body]
pub(crate) fn native_read_with_suffix(operator: &opendal::Operator) -> (native: bool) {
    operator.base_service().capability_dyn().read_with_suffix
}

/// Calls `OperatorRegistry::get`: the process-wide service registry.
#[verifier::external_body]
pub(crate) fn default_registry() -> (registry: &'static opendal::OperatorRegistry) {
    opendal::OperatorRegistry::get()
}

/// Calls `OperatorRegistry::schemes` and collects the set into a vector, in
/// the set's own order. The names are distinct (they are the keys of the
/// registry's map), and `memory` is among them: the only registry there is
/// registers the memory service when it is created, and registering never
/// removes a scheme. Which other schemes are there depends on what was
/// registered so far, so no clause names them.
#[verifier::external_body]
pub(crate) fn registry_schemes(registry: &opendal::OperatorRegistry) -> (schemes: Vec<String>)
    ensures
        exists|i: int| 0 <= i < schemes@.len() && #[trigger] schemes@[i]@ == "memory"@,
        forall|i: int, j: int| 0 <= i < j < schemes@.len() ==> schemes@[i]@ != schemes@[j]@,
{
    registry.schemes().into_iter().collect()
}

/// Calls `Error::kind`, naming the category by the variant of the same name;
/// `Unexpected` and any category added later map to `Unexpected`.
#[verifier::external_body]
pub(crate) fn error_kind_of(error: &opendal::Error) -> (kind: ServiceErrorKind) {
    match error.kind() {
        opendal::ErrorKind::Unsupported => ServiceErrorKind::Unsupported,
        opendal::ErrorKind::ConfigInvalid => ServiceErrorKind::ConfigInvalid,
        opendal::ErrorKind::NotFound => ServiceErrorKind::NotFound,
        opendal::ErrorKind::PermissionDenied => ServiceErrorKind::PermissionDenied,
        opendal::ErrorKind::IsADirectory => ServiceErrorKind::IsADirectory,
        opendal::ErrorKind::NotADirectory => ServiceErrorKind::NotADirectory,
        opendal::ErrorKind::AlreadyExists => ServiceErrorKind::AlreadyExists,
        opendal::ErrorKind::RateLimited => ServiceErrorKind::RateLimited,
        opendal::ErrorKind::IsSameFile => ServiceErrorKind::IsSameFile,
        opendal::ErrorKind::ConditionNotMatch => ServiceErrorKind::ConditionNotMatch,
        opendal::ErrorKind::RangeNotSatisfied => ServiceErrorKind::RangeNotSatisfied,
        opendal::ErrorKind::Conflict => ServiceErrorKind::Conflict,
        _ => ServiceErrorKind::Unexpected,
    }
}

/// Calls `Error::is_temporary`.
#[verifier::external_body]
pub(crate) fn error_is_temporary(error: &opendal::Error) -> (temporary: bool) {
    error.is_temporary()
}

/// Calls `Error::is_persistent`.
#[verifier::external_body]
pub(crate) fn error_is_persistent(error: &opendal::Error) -> (persistent: bool) {
    error.is_persistent()
}

/// Calls `Error::message`: the message without operation context.
#[verifier::external_body]
pub(crate) fn error_message_of(error: &opendal::Error) -> (message: &str) {
    error.message()
}

} // verus!
