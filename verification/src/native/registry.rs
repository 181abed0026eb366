//! Generic operators of the native ABI, built through the service registry.
use vstd::prelude::*;
use vstd::string::StringSliceAdditionalSpecFns;

use crate::configured::operator_via_iter;
use crate::native::failure::{construction_error, is_service_failure_with, CallResult};

verus! {

/// Builds an operator for `scheme` through the service registry from the
/// decoded configuration pairs, handed over as they are; a failure is
/// reported with its category and a fixed message, never the backend's text,
/// which may quote configuration values.
pub fn operator_from_registry(scheme: &str, config: Vec<(String, String)>) -> (res: CallResult<opendal::Operator>)
    ensures
        res matches Err(f) ==> is_service_failure_with(f@, "operator construction failed".spec_bytes()),
{
    match operator_via_iter(scheme, config) {
        Ok(operator) => Ok(operator.into_inner()),
        Err(error) => Err(construction_error(&error)),
    }
}

} // verus!
