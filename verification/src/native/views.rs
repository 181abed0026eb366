//! Caller memory as the ABI describes it: pointers as addresses, borrowed byte
//! views, versioned structure headers, and the checks made before anything is
//! read or written.
use vstd::prelude::*;
use vstd::string::StringSliceAdditionalSpecFns;
use vstd::utf8::valid_utf8;

use crate::native::abi::{MAX_OUTPUT_LEN, STRUCT_VERSION};
use crate::native::failure::{
    abi_mismatch, buffer_too_large, buffer_too_large_failure, invalid_argument, invalid_argument_failure, joined, CallFailure, CallResult, FailureModel,
};
use crate::support::utf8_view;
use crate::text::copy_bytes;

verus! {

/// A borrowed byte view: the address of the first byte (`0` for null) and the
/// length in bytes.
#[derive(Clone, Copy, PartialEq, Eq, Structural, Debug)]
pub struct BytesView {
    pub address: usize,
    pub len: u64,
}

/// The size and version that begin every extensible structure.
#[derive(Clone, Copy, PartialEq, Eq, Structural, Debug)]
pub struct StructHeader {
    pub struct_size: u32,
    pub struct_version: u32,
}

/// A text argument: the caller's view and the bytes read from it (nothing is
/// read from a view that [`borrowed_length`] rejects or that is not present).
#[derive(Debug)]
pub struct TextArg {
    pub view: BytesView,
    pub bytes: Vec<u8>,
}

/// Whether `address` is a multiple of `align`.
pub fn is_aligned(address: usize, align: usize) -> (aligned: bool)
    requires
        align > 0,
    ensures
        aligned == (address % align == 0),
{
    address % align == 0
}

/// A caller-declared length as a length of this platform: no larger than
/// `isize::MAX`, else an ABI mismatch.
pub fn checked_len(length: u64) -> (res: CallResult<usize>)
    ensures
        res is Ok <==> length <= isize::MAX,
        res matches Ok(n) ==> n == length,
        res matches Err(f) ==> f@ == FailureModel::AbiMismatch,
{
    if length > isize::MAX as u64 {
        return abi_mismatch();
    }
    Ok(length as usize)
}

/// Whether `length` bytes from `address` form a region: an empty region always
/// does, another one needs a non-null start and an end within the address space.
pub open spec fn region_ok(address: usize, length: usize) -> bool {
    length == 0 || (address != 0 && address + length <= usize::MAX)
}

/// Checks a region of caller memory; a bad one is an ABI mismatch.
pub fn checked_region(address: usize, length: usize) -> (res: CallResult<()>)
    ensures
        res is Ok <==> region_ok(address, length),
        res matches Err(f) ==> f@ == FailureModel::AbiMismatch,
{
    if length == 0 {
        return Ok(());
    }
    if address == 0 || address > usize::MAX - length {
        return abi_mismatch();
    }
    Ok(())
}

/// The length of the bytes a view borrows, if it is a valid region.
pub open spec fn region_length(view: BytesView) -> Option<usize> {
    if view.len > isize::MAX {
        None
    } else if region_ok(view.address, view.len as usize) {
        Some(view.len as usize)
    } else {
        None
    }
}

/// The number of bytes a view borrows, once its length and region are checked.
pub fn borrowed_length(view: BytesView) -> (res: CallResult<usize>)
    ensures
        region_length(view) matches Some(n) ==> res == Ok::<usize, CallFailure>(n),
        region_length(view) is None ==> (res matches Err(f) && f@ == FailureModel::AbiMismatch),
{
    let length = match checked_len(view.len) {
        Ok(n) => n,
        Err(f) => {
            return Err(f);
        },
    };
    if length == 0 {
        return Ok(0);
    }
    match checked_region(view.address, length) {
        Ok(()) => Ok(length),
        Err(f) => Err(f),
    }
}

/// The number of bytes to copy from a required view: its length when it is a
/// valid region, else nothing.
pub fn readable_length(view: BytesView) -> (n: usize)
    ensures
        region_length(view) matches Some(m) ==> n == m,
        region_length(view) is None ==> n == 0,
{
    match borrowed_length(view) {
        Ok(n) => n,
        Err(_) => 0,
    }
}

/// The outcome of reading a required text: an ABI mismatch for a bad region,
/// a rejection of bytes that are not UTF-8, else the bytes (none for an empty
/// view).
pub open spec fn text_outcome(arg: TextArg, label: Seq<u8>) -> Result<Seq<u8>, FailureModel> {
    match region_length(arg.view) {
        None => Err(FailureModel::AbiMismatch),
        Some(n) => if n == 0 {
            Ok(Seq::empty())
        } else if valid_utf8(arg.bytes@) {
            Ok(arg.bytes@)
        } else {
            Err(invalid_argument_failure(label + " must be valid UTF-8".spec_bytes()))
        },
    }
}

/// Reads a required text argument as strict UTF-8, copying it.
pub fn read_text_value(arg: &TextArg, label: &str) -> (res: CallResult<Vec<u8>>)
    ensures
        match text_outcome(*arg, label.spec_bytes()) {
            Ok(t) => res matches Ok(v) && v@ == t,
            Err(e) => res matches Err(f) && f@ == e,
        },
{
    let n = match borrowed_length(arg.view) {
        Ok(n) => n,
        Err(f) => {
            return Err(f);
        },
    };
    if n == 0 {
        return Ok(Vec::new());
    }
    match utf8_view(arg.bytes.as_slice()) {
        Some(_) => Ok(copy_bytes(arg.bytes.as_slice())),
        None => Err(invalid_argument(joined(label, " must be valid UTF-8"))),
    }
}

/// Whether a view is the canonical absent view: null and empty.
pub open spec fn canonical_absent(view: BytesView) -> bool {
    view.address == 0 && view.len == 0
}

/// Whether a view is the canonical absent view: null and empty.
pub fn absent_bytes_is_canonical(view: BytesView) -> (absent: bool)
    ensures
        absent == canonical_absent(view),
{
    view.address == 0 && view.len == 0
}

/// The outcome of an optional text: read when its presence bit is set, else
/// absent, which its view must show canonically.
pub open spec fn optional_text_outcome(arg: TextArg, present_bits: u64, bit: u64, label: Seq<u8>) -> Result<
    Option<Seq<u8>>,
    FailureModel,
> {
    if present_bits & bit != 0 {
        match text_outcome(arg, label) {
            Ok(t) => Ok(Some(t)),
            Err(e) => Err(e),
        }
    } else if canonical_absent(arg.view) {
        Ok(None)
    } else {
        Err(FailureModel::AbiMismatch)
    }
}

/// The model of an optional copied text.
pub open spec fn opt_text(v: Option<Vec<u8>>) -> Option<Seq<u8>> {
    match v {
        Some(b) => Some(b@),
        None => None,
    }
}

/// Whether a decoded optional text is the one an outcome names.
pub open spec fn text_result_matches(
    res: CallResult<Option<Vec<u8>>>,
    outcome: Result<Option<Seq<u8>>, FailureModel>,
) -> bool {
    match outcome {
        Ok(t) => res matches Ok(v) && opt_text(v) == t,
        Err(e) => res matches Err(f) && f@ == e,
    }
}

/// Reads an optional text argument: present when its bit is set in
/// `present_bits`, else it must be the canonical absent view.
pub fn optional_text(arg: &TextArg, present_bits: u64, bit: u64, label: &str) -> (res: CallResult<
    Option<Vec<u8>>,
>)
    ensures
        text_result_matches(res, optional_text_outcome(*arg, present_bits, bit, label.spec_bytes())),
{
    if present_bits & bit != 0 {
        return match read_text_value(arg, label) {
            Ok(t) => Ok(Some(t)),
            Err(f) => Err(f),
        };
    }
    if !absent_bytes_is_canonical(arg.view) {
        return abi_mismatch();
    }
    Ok(None)
}

/// The number of bytes to copy from an optional view: its length when the
/// field is present and the view a valid region, else nothing.
pub fn present_text_length(view: BytesView, present_bits: u64, bit: u64) -> (n: usize)
    ensures
        present_bits & bit != 0 && region_length(view) is Some ==> n == region_length(view)->0,
        !(present_bits & bit != 0 && region_length(view) is Some) ==> n == 0,
{
    if present_bits & bit != 0 {
        readable_length(view)
    } else {
        0
    }
}

/// Requires a view to be the canonical absent view.
pub fn require_absent_view(view: BytesView) -> (res: CallResult<()>)
    ensures
        res is Ok <==> canonical_absent(view),
        res matches Err(f) ==> f@ == FailureModel::AbiMismatch,
{
    if absent_bytes_is_canonical(view) {
        Ok(())
    } else {
        abi_mismatch()
    }
}

/// Rejects a field marked present that the selected S3 authentication mode
/// does not take.
pub fn reject_present_field(present_bits: u64, bit: u64, label: &str) -> (res: CallResult<()>)
    ensures
        res is Ok <==> present_bits & bit == 0,
        res matches Err(f) ==> f@ == invalid_argument_failure(
            label.spec_bytes() + " is not valid for the selected S3 authentication mode".spec_bytes(),
        ),
{
    if present_bits & bit != 0 {
        Err(invalid_argument(joined(label, " is not valid for the selected S3 authentication mode")))
    } else {
        Ok(())
    }
}

/// Checks a required pointer: non-null and aligned for its target.
pub fn check_required_pointer(address: usize, align: usize) -> (res: CallResult<()>)
    requires
        align > 0,
    ensures
        res is Ok <==> address != 0 && address % align == 0,
        res matches Err(f) ==> f@ == FailureModel::AbiMismatch,
{
    if address == 0 || !is_aligned(address, align) {
        return abi_mismatch();
    }
    Ok(())
}

/// Checks the optional error slot: `Ok(false)` when the caller gave none,
/// `Ok(true)` when it is to be cleared, an ABI mismatch when it is misaligned.
pub fn check_error_output(address: usize, align: usize) -> (res: CallResult<bool>)
    requires
        align > 0,
    ensures
        address == 0 ==> res == Ok::<bool, CallFailure>(false),
        address != 0 && address % align == 0 ==> res == Ok::<bool, CallFailure>(true),
        address != 0 && address % align != 0 ==> (res matches Err(f) && f@
            == FailureModel::AbiMismatch),
{
    if address == 0 {
        return Ok(false);
    }
    if !is_aligned(address, align) {
        return abi_mismatch();
    }
    Ok(true)
}

/// Checks the header of an extensible structure against the complete size of
/// its version-1 layout.
pub fn check_struct_header(header: StructHeader, required_size: usize) -> (res: CallResult<()>)
    ensures
        res is Ok <==> header.struct_version == STRUCT_VERSION && header.struct_size
            >= required_size,
        res matches Err(f) ==> f@ == FailureModel::AbiMismatch,
{
    if header.struct_version != STRUCT_VERSION || (header.struct_size as usize) < required_size {
        return abi_mismatch();
    }
    Ok(())
}

/// The view of bytes at `address`: the canonical absent view when empty.
pub open spec fn bytes_view_of(address: usize, len: usize) -> BytesView {
    if len == 0 {
        BytesView { address: 0, len: 0 }
    } else {
        BytesView { address, len: len as u64 }
    }
}

/// Views `len` bytes at `address`; an empty output is the null view.
pub fn bytes_view(address: usize, len: usize) -> (view: BytesView)
    ensures
        view == bytes_view_of(address, len),
{
    if len == 0 {
        BytesView { address: 0, len: 0 }
    } else {
        BytesView { address, len: len as u64 }
    }
}

/// Views a text of `len` bytes at `address`.
pub fn string_view(address: usize, len: usize) -> (view: BytesView)
    ensures
        view == bytes_view_of(address, len),
{
    bytes_view(address, len)
}

/// Views an optional text (its address and length); an absent one is the null
/// view.
pub fn optional_string_view(value: Option<(usize, usize)>) -> (view: BytesView)
    ensures
        value matches Some(p) ==> view == bytes_view_of(p.0, p.1),
        value is None ==> view == (BytesView { address: 0, len: 0 }),
{
    match value {
        Some((address, len)) => string_view(address, len),
        None => BytesView { address: 0, len: 0 },
    }
}

/// Checks that an optional metadata text fits the output limit.
pub fn check_output_string(length: Option<usize>) -> (res: CallResult<()>)
    ensures
        res is Ok <==> !(length matches Some(n) && n > MAX_OUTPUT_LEN),
        res matches Err(f) ==> f@ == buffer_too_large_failure(
            "metadata string exceeds the binding output limit".spec_bytes(),
        ),
{
    match length {
        Some(n) => if n > MAX_OUTPUT_LEN {
            Err(buffer_too_large(copy_bytes("metadata string exceeds the binding output limit".as_bytes())))
        } else {
            Ok(())
        },
        None => Ok(()),
    }
}

} // verus!
