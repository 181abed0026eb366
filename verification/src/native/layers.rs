//! Bounds of presigned requests and of the timeout and retry layers an
//! operator can be rebuilt with: durations must be positive, each layer is
//! installed once, and the timeout layer goes below the retry layer.
use vstd::prelude::*;
use vstd::string::StringSliceAdditionalSpecFns;

use crate::native::abi::{OPERATOR_LAYER_RETRY, OPERATOR_LAYER_TIMEOUT};
use crate::native::failure::{abi_mismatch, invalid_argument, invalid_argument_failure, joined, CallFailure, CallResult, FailureModel};
use crate::configured::{
    operator_with_jittered_retry_layer, operator_with_retry_layer, operator_with_timeout_layer, timeout_layer_new, timeout_with_io_millis, timeout_with_operation_millis, AppliedLayer, Recorded, RetrySettings, TimeoutSettings,
};
use crate::text::copy_bytes;

verus! {

/// The lifetime of a presigned request in seconds, which must be positive.
pub fn presign_expiry(seconds: u64) -> (res: CallResult<u64>)
    ensures
        seconds > 0 ==> res == Ok::<u64, CallFailure>(seconds),
        seconds == 0 ==> (res matches Err(f) && f@ == invalid_argument_failure(
            "presign expires_in_seconds must be greater than zero".spec_bytes(),
        )),
{
    if seconds == 0 {
        return Err(invalid_argument(copy_bytes("presign expires_in_seconds must be greater than zero".as_bytes())));
    }
    Ok(seconds)
}

/// The outcome of a duration in milliseconds named `label`: positive, or
/// rejected.
pub open spec fn millis_outcome(value: u64, label: Seq<u8>) -> Result<u64, FailureModel> {
    if value == 0 {
        Err(invalid_argument_failure(label + " must be greater than zero".spec_bytes()))
    } else {
        Ok(value)
    }
}

/// A duration in milliseconds, which must be positive.
pub fn positive_millis(value: u64, label: &str) -> (res: CallResult<u64>)
    ensures
        match millis_outcome(value, label.spec_bytes()) {
            Ok(v) => res == Ok::<u64, CallFailure>(v),
            Err(e) => res matches Err(f) && f@ == e,
        },
{
    if value == 0 {
        return Err(invalid_argument(joined(label, " must be greater than zero")));
    }
    Ok(value)
}

/// The number of retries, which must be positive.
pub fn retry_count(value: u32) -> (res: CallResult<usize>)
    ensures
        value > 0 ==> res == Ok::<usize, CallFailure>(value as usize),
        value == 0 ==> (res matches Err(f) && f@ == invalid_argument_failure(
            "max_retries must be greater than zero".spec_bytes(),
        )),
{
    if value == 0 {
        return Err(invalid_argument(copy_bytes("max_retries must be greater than zero".as_bytes())));
    }
    Ok(value as usize)
}

/// A timeout layer to install: the whole-operation and per-I/O timeouts and
/// the operator's layer bits afterwards.
#[derive(Clone, Copy, PartialEq, Eq, Structural, Debug)]
pub struct TimeoutLayerPlan {
    pub operation_timeout_millis: u64,
    pub io_timeout_millis: u64,
    pub layer_bits: u32,
}

/// The outcome of adding a timeout layer to an operator with `layer_bits`.
pub open spec fn timeout_layer_outcome(layer_bits: u32, operation: u64, io: u64) -> Result<
    TimeoutLayerPlan,
    FailureModel,
> {
    match millis_outcome(operation, "operation_timeout_millis".spec_bytes()) {
        Err(e) => Err(e),
        Ok(_) => match millis_outcome(io, "io_timeout_millis".spec_bytes()) {
            Err(e) => Err(e),
            Ok(_) => if layer_bits & OPERATOR_LAYER_TIMEOUT != 0 {
                Err(invalid_argument_failure("timeout layer is already installed".spec_bytes()))
            } else if layer_bits & OPERATOR_LAYER_RETRY != 0 {
                Err(
                    invalid_argument_failure(
                        "timeout layer must be installed before retry layer".spec_bytes(),
                    ),
                )
            } else {
                Ok(
                    TimeoutLayerPlan {
                        operation_timeout_millis: operation,
                        io_timeout_millis: io,
                        layer_bits: layer_bits | OPERATOR_LAYER_TIMEOUT,
                    },
                )
            },
        },
    }
}

/// Checks a timeout layer for an operator with `layer_bits`.
pub fn timeout_layer_plan(layer_bits: u32, operation_timeout_millis: u64, io_timeout_millis: u64) -> (res:
    CallResult<TimeoutLayerPlan>)
    ensures
        match timeout_layer_outcome(layer_bits, operation_timeout_millis, io_timeout_millis) {
            Ok(p) => res == Ok::<TimeoutLayerPlan, CallFailure>(p),
            Err(e) => res matches Err(f) && f@ == e,
        },
{
    let operation = match positive_millis(operation_timeout_millis, "operation_timeout_millis") {
        Ok(v) => v,
        Err(f) => {
            return Err(f);
        },
    };
    let io = match positive_millis(io_timeout_millis, "io_timeout_millis") {
        Ok(v) => v,
        Err(f) => {
            return Err(f);
        },
    };
    if layer_bits & OPERATOR_LAYER_TIMEOUT != 0 {
        return Err(invalid_argument(copy_bytes("timeout layer is already installed".as_bytes())));
    }
    if layer_bits & OPERATOR_LAYER_RETRY != 0 {
        return Err(invalid_argument(copy_bytes("timeout layer must be installed before retry layer".as_bytes())));
    }
    Ok(
        TimeoutLayerPlan {
            operation_timeout_millis: operation,
            io_timeout_millis: io,
            layer_bits: layer_bits | OPERATOR_LAYER_TIMEOUT,
        },
    )
}

/// A retry layer to install: the number of retries, the delay bounds, whether
/// delays are jittered, and the operator's layer bits afterwards.
#[derive(Clone, Copy, PartialEq, Eq, Structural, Debug)]
pub struct RetryLayerPlan {
    pub max_retries: usize,
    pub min_delay_millis: u64,
    pub max_delay_millis: u64,
    pub jitter: bool,
    pub layer_bits: u32,
}

/// The outcome of adding a retry layer to an operator with `layer_bits`.
pub open spec fn retry_layer_outcome(layer_bits: u32, max_retries: u32, min_delay: u64, max_delay: u64, jitter: u32) -> Result<
    RetryLayerPlan,
    FailureModel,
> {
    if jitter > 1 {
        Err(FailureModel::AbiMismatch)
    } else if max_retries == 0 {
        Err(invalid_argument_failure("max_retries must be greater than zero".spec_bytes()))
    } else {
        match millis_outcome(min_delay, "min_delay_millis".spec_bytes()) {
            Err(e) => Err(e),
            Ok(_) => match millis_outcome(max_delay, "max_delay_millis".spec_bytes()) {
                Err(e) => Err(e),
                Ok(_) => if min_delay > max_delay {
                    Err(
                        invalid_argument_failure(
                            "min_delay_millis must not exceed max_delay_millis".spec_bytes(),
                        ),
                    )
                } else if layer_bits & OPERATOR_LAYER_RETRY != 0 {
                    Err(invalid_argument_failure("retry layer is already installed".spec_bytes()))
                } else {
                    Ok(
                        RetryLayerPlan {
                            max_retries: max_retries as usize,
                            min_delay_millis: min_delay,
                            max_delay_millis: max_delay,
                            jitter: jitter != 0,
                            layer_bits: layer_bits | OPERATOR_LAYER_RETRY,
                        },
                    )
                },
            },
        }
    }
}

/// Checks a retry layer for an operator with `layer_bits`; `jitter` is a
/// boolean encoded as `0` or `1`.
pub fn retry_layer_plan(
    layer_bits: u32,
    max_retries: u32,
    min_delay_millis: u64,
    max_delay_millis: u64,
    jitter: u32,
) -> (res: CallResult<RetryLayerPlan>)
    ensures
        match retry_layer_outcome(layer_bits, max_retries, min_delay_millis, max_delay_millis, jitter) {
            Ok(p) => res == Ok::<RetryLayerPlan, CallFailure>(p),
            Err(e) => res matches Err(f) && f@ == e,
        },
{
    if jitter > 1 {
        return abi_mismatch();
    }
    let retries = match retry_count(max_retries) {
        Ok(n) => n,
        Err(f) => {
            return Err(f);
        },
    };
    let min_delay = match positive_millis(min_delay_millis, "min_delay_millis") {
        Ok(v) => v,
        Err(f) => {
            return Err(f);
        },
    };
    let max_delay = match positive_millis(max_delay_millis, "max_delay_millis") {
        Ok(v) => v,
        Err(f) => {
            return Err(f);
        },
    };
    if min_delay > max_delay {
        return Err(invalid_argument(copy_bytes("min_delay_millis must not exceed max_delay_millis".as_bytes())));
    }
    if layer_bits & OPERATOR_LAYER_RETRY != 0 {
        return Err(invalid_argument(copy_bytes("retry layer is already installed".as_bytes())));
    }
    Ok(
        RetryLayerPlan {
            max_retries: retries,
            min_delay_millis: min_delay,
            max_delay_millis: max_delay,
            jitter: jitter != 0,
            layer_bits: layer_bits | OPERATOR_LAYER_RETRY,
        },
    )
}

/// A timeout layer that is accepted keeps each bound the caller gave in its
/// own place (the operation bound and the I/O bound, both positive) and adds
/// the timeout bit to the operator's layer bits; it is refused when a timeout
/// or retry layer is already installed.
pub proof fn law_timeout_plan_keeps_each_bound(layer_bits: u32, operation: u64, io: u64)
    ensures
        timeout_layer_outcome(layer_bits, operation, io) matches Ok(p) ==> {
            &&& p.operation_timeout_millis == operation
            &&& p.io_timeout_millis == io
            &&& operation > 0 && io > 0
            &&& p.layer_bits == layer_bits | OPERATOR_LAYER_TIMEOUT
            &&& layer_bits & OPERATOR_LAYER_TIMEOUT == 0
            &&& layer_bits & OPERATOR_LAYER_RETRY == 0
        },
{
}

/// A retry layer that is accepted keeps the retry count, each delay bound in
/// its own place (positive, the lower not above the upper) and the jitter
/// choice the caller gave, and adds the retry bit to the layer bits.
pub proof fn law_retry_plan_keeps_each_bound(layer_bits: u32, max_retries: u32, min_delay: u64, max_delay: u64, jitter: u32)
    ensures
        retry_layer_outcome(layer_bits, max_retries, min_delay, max_delay, jitter) matches Ok(p) ==> {
            &&& p.max_retries == max_retries
            &&& max_retries > 0
            &&& p.min_delay_millis == min_delay
            &&& p.max_delay_millis == max_delay
            &&& 0 < min_delay <= max_delay
            &&& p.jitter == (jitter == 1)
            &&& p.layer_bits == layer_bits | OPERATOR_LAYER_RETRY
            &&& layer_bits & OPERATOR_LAYER_RETRY == 0
        },
{
}

/// Rebuilds an operator with a timeout layer bounding each operation and each
/// I/O step by the plan's two bounds.
pub fn apply_timeout_layer(operator: &opendal::Operator, plan: &TimeoutLayerPlan) -> (res: Recorded<
    opendal::Operator,
    AppliedLayer,
>)
    ensures
        res@ == AppliedLayer::Timeout(
            TimeoutSettings {
                operation_millis: plan.operation_timeout_millis as nat,
                io_millis: plan.io_timeout_millis as nat,
            },
        ),
{
    let layer = timeout_layer_new();
    let layer = timeout_with_operation_millis(layer, plan.operation_timeout_millis);
    let layer = timeout_with_io_millis(layer, plan.io_timeout_millis);
    operator_with_timeout_layer(operator, layer)
}

/// Rebuilds an operator with a retry layer of the plan's retry count and
/// delay bounds, jittered when the plan asks for it.
pub fn apply_retry_layer(operator: &opendal::Operator, plan: &RetryLayerPlan) -> (res: Recorded<
    opendal::Operator,
    AppliedLayer,
>)
    ensures
        res@ == AppliedLayer::Retry(
            RetrySettings {
                max_times: plan.max_retries as nat,
                min_delay_millis: plan.min_delay_millis as nat,
                max_delay_millis: plan.max_delay_millis as nat,
                jitter: plan.jitter,
            },
        ),
{
    if plan.jitter {
        operator_with_jittered_retry_layer(operator, plan.max_retries, plan.min_delay_millis, plan.max_delay_millis)
    } else {
        operator_with_retry_layer(operator, plan.max_retries, plan.min_delay_millis, plan.max_delay_millis)
    }
}

} // verus!
