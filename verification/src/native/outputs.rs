//! What the native binding hands back: the fields of metadata, entry,
//! operator-information and capability views, the output-limit checks made
//! before an output is created, and the protocol of copying a buffer out.
use vstd::prelude::*;
use vstd::string::StringSliceAdditionalSpecFns;

use crate::codes::{METADATA_IS_CURRENT_PRESENT, METADATA_LAST_MODIFIED_PRESENT};
use crate::metadata::{meta_text, present_bits, text_bits_upto, text_bytes, MetadataRecord};
use crate::native::abi::{MAX_OUTPUT_LEN, STATUS_ABI_MISMATCH, STATUS_BUFFER_TOO_SMALL, STATUS_OK};
use crate::native::failure::{abi_mismatch, buffer_too_large, buffer_too_large_failure, CallFailure, CallResult, FailureModel};
use crate::native::views::{check_output_string, StructHeader};
use crate::operators::{capability_bits, capability_flags};
use crate::configured::{blocking_operator_info, info_name, info_root, info_scheme};
use crate::service::{info_capability, info_read_with_suffix, CapabilityRecord};
use crate::text::copy_bytes;

verus! {

/// Whether every optional text of a record fits the output limit.
pub open spec fn texts_fit(m: MetadataRecord) -> bool {
    forall|i: int| 0 <= i < 7 ==> #[trigger] text_bytes(meta_text(m, i)).len() <= MAX_OUTPUT_LEN
}

/// The length of an optional text, if present.
fn text_length(t: &Option<Vec<u8>>) -> (n: Option<usize>)
    ensures
        t is Some <==> n is Some,
        t matches Some(v) ==> (n matches Some(x) && x == v@.len()),
{
    match t {
        Some(v) => Some(v.len()),
        None => None,
    }
}

/// The message of a metadata text past the output limit.
pub open spec fn metadata_limit_message() -> Seq<u8> {
    "metadata string exceeds the binding output limit".spec_bytes()
}

/// Checks that every optional text of a metadata record fits the output limit.
pub fn checked_metadata(m: &MetadataRecord) -> (res: CallResult<()>)
    ensures
        res is Ok <==> texts_fit(*m),
        res matches Err(f) ==> f@ == buffer_too_large_failure(metadata_limit_message()),
{
    let texts = [
        &m.cache_control,
        &m.content_disposition,
        &m.content_encoding,
        &m.content_md5,
        &m.content_type,
        &m.etag,
        &m.version,
    ];
    let mut i: usize = 0;
    while i < 7
        invariant
            i <= 7,
            forall|j: int| 0 <= j < 7 ==> *#[trigger] texts@[j] == meta_text(*m, j),
            forall|j: int| 0 <= j < i ==> #[trigger] text_bytes(meta_text(*m, j)).len() <= MAX_OUTPUT_LEN,
        decreases 7 - i,
    {
        let t = texts[i];
        assert(*t == meta_text(*m, i as int));
        match check_output_string(text_length(t)) {
            Ok(()) => {
                assert(text_bytes(meta_text(*m, i as int)).len() <= MAX_OUTPUT_LEN);
            },
            Err(f) => {
                assert(text_bytes(meta_text(*m, i as int)).len() > MAX_OUTPUT_LEN);
                return Err(f);
            },
        }
        i = i + 1;
    }
    Ok(())
}

/// The message of an entry path past the output limit.
pub open spec fn entry_path_message() -> Seq<u8> {
    "entry path exceeds the binding output limit".spec_bytes()
}

/// The message of an entry name past the output limit.
pub open spec fn entry_name_message() -> Seq<u8> {
    "entry name exceeds the binding output limit".spec_bytes()
}

/// Checks a listed entry before it is handed out: its path, its name, then
/// its metadata texts must fit the output limit.
pub fn checked_entry(path: &[u8], name: &[u8], m: &MetadataRecord) -> (res: CallResult<()>)
    ensures
        res is Ok <==> path@.len() <= MAX_OUTPUT_LEN && name@.len() <= MAX_OUTPUT_LEN && texts_fit(*m),
        path@.len() > MAX_OUTPUT_LEN ==> (res matches Err(f) && f@ == buffer_too_large_failure(
            entry_path_message(),
        )),
        path@.len() <= MAX_OUTPUT_LEN && name@.len() > MAX_OUTPUT_LEN ==> (res matches Err(f) && f@
            == buffer_too_large_failure(entry_name_message())),
        path@.len() <= MAX_OUTPUT_LEN && name@.len() <= MAX_OUTPUT_LEN && !texts_fit(*m) ==> (res matches Err(f)
            && f@ == buffer_too_large_failure(metadata_limit_message())),
{
    if path.len() > MAX_OUTPUT_LEN {
        return Err(buffer_too_large(copy_bytes("entry path exceeds the binding output limit".as_bytes())));
    }
    if name.len() > MAX_OUTPUT_LEN {
        return Err(buffer_too_large(copy_bytes("entry name exceeds the binding output limit".as_bytes())));
    }
    checked_metadata(m)
}

/// Checks an operator's scheme, root and name against the output limit.
pub fn checked_operator_info(scheme: &[u8], root: &[u8], name: &[u8]) -> (res: CallResult<()>)
    ensures
        res is Ok <==> scheme@.len() <= MAX_OUTPUT_LEN && root@.len() <= MAX_OUTPUT_LEN && name@.len()
            <= MAX_OUTPUT_LEN,
        res matches Err(f) ==> f@ == buffer_too_large_failure(
            "operator information exceeds the binding output limit".spec_bytes(),
        ),
{
    if scheme.len() > MAX_OUTPUT_LEN || root.len() > MAX_OUTPUT_LEN || name.len() > MAX_OUTPUT_LEN {
        return Err(buffer_too_large(copy_bytes("operator information exceeds the binding output limit".as_bytes())));
    }
    Ok(())
}

/// The total byte length of a request's header names and values.
pub open spec fn headers_length(headers: Seq<(Vec<u8>, Vec<u8>)>) -> int
    decreases headers.len(),
{
    if headers.len() == 0 {
        0
    } else {
        headers_length(headers.drop_last()) + headers.last().0@.len() + headers.last().1@.len()
    }
}

/// The message of a presigned request past the output limit.
pub open spec fn presign_limit_message() -> Seq<u8> {
    "presigned request exceeds the binding output limit".spec_bytes()
}

/// Checks a presigned request before it is handed out: its method, URI and
/// headers together, and the number of headers, must fit the output limit.
pub fn checked_presigned_request(method: &[u8], uri: &[u8], headers: &Vec<(Vec<u8>, Vec<u8>)>) -> (res:
    CallResult<()>)
    ensures
        res is Ok <==> method@.len() + uri@.len() + headers_length(headers@) <= MAX_OUTPUT_LEN
            && headers@.len() <= MAX_OUTPUT_LEN,
        res matches Err(f) ==> f@ == buffer_too_large_failure(presign_limit_message()),
{
    if method.len() > usize::MAX - uri.len() {
        proof {
            lemma_headers_length_nonnegative(headers@);
        }
        return Err(buffer_too_large(copy_bytes("presigned request exceeds the binding output limit".as_bytes())));
    }
    let mut total: usize = method.len() + uri.len();
    let mut i: usize = 0;
    while i < headers.len()
        invariant
            i <= headers@.len(),
            total == method@.len() + uri@.len() + headers_length(headers@.subrange(0, i as int)),
        decreases headers@.len() - i,
    {
        let ghost prefix = headers@.subrange(0, i as int + 1);
        assert(prefix.drop_last() == headers@.subrange(0, i as int));
        let name_len = headers[i].0.len();
        let value_len = headers[i].1.len();
        if total > usize::MAX - name_len || total + name_len > usize::MAX - value_len {
            proof {
                lemma_headers_length_grows(headers@, i as int + 1);
            }
            return Err(buffer_too_large(copy_bytes("presigned request exceeds the binding output limit".as_bytes())));
        }
        total = total + name_len + value_len;
        i = i + 1;
    }
    assert(headers@.subrange(0, headers@.len() as int) == headers@);
    if total > MAX_OUTPUT_LEN || headers.len() > MAX_OUTPUT_LEN {
        return Err(buffer_too_large(copy_bytes("presigned request exceeds the binding output limit".as_bytes())));
    }
    Ok(())
}

/// Header lengths never sum to a negative number.
proof fn lemma_headers_length_nonnegative(headers: Seq<(Vec<u8>, Vec<u8>)>)
    ensures
        headers_length(headers) >= 0,
    decreases headers.len(),
{
    if headers.len() > 0 {
        lemma_headers_length_nonnegative(headers.drop_last());
    }
}

/// The header lengths of a prefix never exceed those of the whole.
proof fn lemma_headers_length_grows(headers: Seq<(Vec<u8>, Vec<u8>)>, n: int)
    requires
        0 <= n <= headers.len(),
    ensures
        headers_length(headers.subrange(0, n)) <= headers_length(headers),
    decreases headers.len() - n,
{
    if n < headers.len() {
        let longer = headers.subrange(0, n + 1);
        assert(longer.drop_last() == headers.subrange(0, n));
        lemma_headers_length_grows(headers, n + 1);
    } else {
        assert(headers.subrange(0, n) == headers);
    }
}

/// The scalar fields of a metadata view; its texts are views of the record's
/// own texts, absent ones null.
#[derive(Clone, Copy, PartialEq, Eq, Structural, Debug)]
pub struct MetadataOutput {
    pub struct_size: u32,
    pub struct_version: u32,
    pub present_bits: u64,
    pub mode: u32,
    pub is_current: u32,
    pub is_deleted: u32,
    pub content_length: u64,
    pub unix_seconds: i64,
    pub nanoseconds: u32,
}

/// Whether a record's timestamp, if any, has non-negative nanoseconds.
pub open spec fn nanos_ok(m: MetadataRecord) -> bool {
    m.last_modified matches Some(t) ==> t.subsec_nanos >= 0
}

/// The view of a record under the caller's header.
pub open spec fn metadata_output_of(m: MetadataRecord, header: StructHeader) -> MetadataOutput {
    MetadataOutput {
        struct_size: header.struct_size,
        struct_version: header.struct_version,
        present_bits: present_bits(m),
        mode: m.mode,
        is_current: if m.is_current == Some(true) {
            1
        } else {
            0
        },
        is_deleted: if m.is_deleted {
            1
        } else {
            0
        },
        content_length: m.content_length,
        unix_seconds: match m.last_modified {
            Some(t) => t.seconds,
            None => 0,
        },
        nanoseconds: match m.last_modified {
            Some(t) => t.subsec_nanos as u32,
            None => 0,
        },
    }
}

/// A native metadata view reports its record: the caller's header, the
/// record's presence bits, mode and content length, an is-current word that
/// is 1 exactly for the current version and 0 otherwise, an is-deleted word
/// that is 1 exactly for a deleted object, and the timestamp's seconds and
/// nanoseconds (zero when there is none).
pub proof fn law_metadata_view_reports_its_record(m: MetadataRecord, header: StructHeader)
    requires
        nanos_ok(m),
    ensures
        metadata_output_of(m, header).struct_size == header.struct_size,
        metadata_output_of(m, header).struct_version == header.struct_version,
        metadata_output_of(m, header).present_bits == present_bits(m),
        metadata_output_of(m, header).mode == m.mode,
        metadata_output_of(m, header).is_current <= 1,
        (metadata_output_of(m, header).is_current == 1) == (m.is_current == Some(true)),
        metadata_output_of(m, header).is_deleted <= 1,
        (metadata_output_of(m, header).is_deleted == 1) == m.is_deleted,
        metadata_output_of(m, header).content_length == m.content_length,
        m.last_modified matches Some(t) ==> metadata_output_of(m, header).unix_seconds == t.seconds
            && metadata_output_of(m, header).nanoseconds == t.subsec_nanos,
        m.last_modified is None ==> metadata_output_of(m, header).unix_seconds == 0
            && metadata_output_of(m, header).nanoseconds == 0,
{
}

/// `bit` when an optional text is present, else `0`.
fn presence(t: &Option<Vec<u8>>, bit: u64) -> (bits: u64)
    ensures
        bits == if t is Some {
            bit
        } else {
            0
        },
{
    if t.is_some() {
        bit
    } else {
        0
    }
}

/// Computes the scalar fields of a metadata view: the presence bits, entry
/// mode, flags, length and timestamp; a timestamp with negative nanoseconds
/// has no view and is an ABI mismatch.
pub fn metadata_output_view(m: &MetadataRecord, header: StructHeader) -> (res: CallResult<MetadataOutput>)
    ensures
        nanos_ok(*m) ==> res == Ok::<MetadataOutput, CallFailure>(metadata_output_of(*m, header)),
        !nanos_ok(*m) ==> (res matches Err(f) && f@ == FailureModel::AbiMismatch),
{
    let is_current: u32 = match m.is_current {
        Some(true) => 1,
        _ => 0,
    };
    let (unix_seconds, nanoseconds): (i64, u32) = match m.last_modified {
        Some(t) => {
            if t.subsec_nanos < 0 {
                return abi_mismatch();
            }
            (t.seconds, t.subsec_nanos as u32)
        },
        None => (0, 0),
    };
    let head: u64 = (if m.is_current.is_some() {
        METADATA_IS_CURRENT_PRESENT
    } else {
        0
    }) + (if m.last_modified.is_some() {
        METADATA_LAST_MODIFIED_PRESENT
    } else {
        0
    });
    let bits: u64 = head + presence(&m.cache_control, 4) + presence(&m.content_disposition, 8)
        + presence(&m.content_encoding, 16) + presence(&m.content_md5, 32) + presence(
        &m.content_type,
        64,
    ) + presence(&m.etag, 128) + presence(&m.version, 256);
    proof {
        reveal_with_fuel(text_bits_upto, 8);
    }
    Ok(
        MetadataOutput {
            struct_size: header.struct_size,
            struct_version: header.struct_version,
            present_bits: bits,
            mode: m.mode,
            is_current,
            is_deleted: if m.is_deleted {
                1
            } else {
                0
            },
            content_length: m.content_length,
            unix_seconds,
            nanoseconds,
        },
    )
}

/// The capability words of an operator: the portable capability bits, then
/// three reserved zero words.
pub fn capability_view(capability: CapabilityRecord, read_with_suffix: bool) -> (words: [u64; 4])
    ensures
        words@ == seq![capability_bits(capability, read_with_suffix), 0u64, 0u64, 0u64],
{
    let words = [capability_flags(capability, read_with_suffix), 0, 0, 0];
    assert(words@ =~= seq![capability_bits(capability, read_with_suffix), 0u64, 0u64, 0u64]);
    words
}

/// What a buffer copy does: the status it returns, whether it reports the
/// required length, and whether it copies the bytes.
#[derive(Clone, Copy, PartialEq, Eq, Structural, Debug)]
pub struct CopyPlan {
    pub status: u32,
    pub report_required: bool,
    pub copy: bool,
}

/// The plan of copying `required` bytes into `capacity` bytes at
/// `destination`.
pub open spec fn copy_plan(required: u64, destination: usize, capacity: u64) -> CopyPlan {
    if destination == 0 {
        if capacity != 0 {
            CopyPlan { status: STATUS_ABI_MISMATCH, report_required: false, copy: false }
        } else if required == 0 {
            CopyPlan { status: STATUS_OK, report_required: true, copy: false }
        } else {
            CopyPlan { status: STATUS_BUFFER_TOO_SMALL, report_required: true, copy: false }
        }
    } else if capacity > isize::MAX || destination + capacity > usize::MAX {
        CopyPlan { status: STATUS_ABI_MISMATCH, report_required: false, copy: false }
    } else if capacity < required {
        CopyPlan { status: STATUS_BUFFER_TOO_SMALL, report_required: true, copy: false }
    } else {
        CopyPlan { status: STATUS_OK, report_required: true, copy: true }
    }
}

/// Decides a buffer copy: a null destination with no capacity asks for the
/// required length; a destination too small gets the length but no bytes; a
/// large enough one gets both; an impossible destination is an ABI mismatch.
pub fn buffer_copy_plan(required: u64, destination: usize, capacity: u64) -> (plan: CopyPlan)
    ensures
        plan == copy_plan(required, destination, capacity),
{
    if destination == 0 {
        if capacity != 0 {
            return CopyPlan { status: STATUS_ABI_MISMATCH, report_required: false, copy: false };
        }
        return if required == 0 {
            CopyPlan { status: STATUS_OK, report_required: true, copy: false }
        } else {
            CopyPlan { status: STATUS_BUFFER_TOO_SMALL, report_required: true, copy: false }
        };
    }
    let capacity_len = match crate::native::views::checked_len(capacity) {
        Ok(n) => n,
        Err(_) => {
            return CopyPlan { status: STATUS_ABI_MISMATCH, report_required: false, copy: false };
        },
    };
    if destination > usize::MAX - capacity_len {
        return CopyPlan { status: STATUS_ABI_MISMATCH, report_required: false, copy: false };
    }
    if capacity < required {
        return CopyPlan { status: STATUS_BUFFER_TOO_SMALL, report_required: true, copy: false };
    }
    CopyPlan { status: STATUS_OK, report_required: true, copy: true }
}

/// What an operator reports about itself, as the native binding hands it out.
#[derive(Debug)]
pub struct OperatorInfoRecord {
    pub scheme: Vec<u8>,
    pub root: Vec<u8>,
    pub name: Vec<u8>,
    pub capability: [u64; 4],
}

/// Builds the record of an operator from what it reports: texts past the
/// output limit are refused, else the texts are copied and the capability
/// words computed.
pub fn operator_info_from_parts(
    scheme: &[u8],
    root: &[u8],
    name: &[u8],
    capability: CapabilityRecord,
    read_with_suffix: bool,
) -> (res: CallResult<OperatorInfoRecord>)
    ensures
        res is Ok <==> scheme@.len() <= MAX_OUTPUT_LEN && root@.len() <= MAX_OUTPUT_LEN && name@.len()
            <= MAX_OUTPUT_LEN,
        res matches Ok(r) ==> r.scheme@ == scheme@ && r.root@ == root@ && r.name@ == name@ && r.capability@
            == seq![capability_bits(capability, read_with_suffix), 0u64, 0u64, 0u64],
        res matches Err(f) ==> f@ == buffer_too_large_failure(
            "operator information exceeds the binding output limit".spec_bytes(),
        ),
{
    match checked_operator_info(scheme, root, name) {
        Ok(()) => {},
        Err(f) => {
            return Err(f);
        },
    }
    Ok(
        OperatorInfoRecord {
            scheme: copy_bytes(scheme),
            root: copy_bytes(root),
            name: copy_bytes(name),
            capability: capability_view(capability, read_with_suffix),
        },
    )
}

/// Reads an operator's scheme, root, name and capabilities (see
/// [`operator_info_from_parts`]).
pub fn operator_info_record(operator: &opendal::blocking::Operator) -> (res: CallResult<OperatorInfoRecord>)
    ensures
        res matches Ok(r) ==> r.scheme@.len() <= MAX_OUTPUT_LEN && r.root@.len() <= MAX_OUTPUT_LEN
            && r.name@.len() <= MAX_OUTPUT_LEN && r.capability@[1] == 0 && r.capability@[2] == 0
            && r.capability@[3] == 0,
        res matches Err(f) ==> f@ == buffer_too_large_failure(
            "operator information exceeds the binding output limit".spec_bytes(),
        ),
{
    let info = blocking_operator_info(operator);
    let scheme = info_scheme(&info);
    let root = info_root(&info);
    let name = info_name(&info);
    operator_info_from_parts(
        scheme.as_bytes(),
        root.as_str().as_bytes(),
        name.as_str().as_bytes(),
        info_capability(info.get()),
        info_read_with_suffix(info.get()),
    )
}

} // verus!
