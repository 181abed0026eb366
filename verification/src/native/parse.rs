//! Versioned input structures of the native ABI, decoded into operation
//! options: unknown bits, non-canonical absent fields and bad encodings are
//! ABI mismatches, texts must be UTF-8, and the first failure wins.
use vstd::prelude::*;
use vstd::string::StringSliceAdditionalSpecFns;

use crate::native::abi::{
    LIST_LIMIT_PRESENT, LIST_RECURSIVE, LIST_START_AFTER_PRESENT, MAX_OUTPUT_BYTES, READER_IF_MATCH_PRESENT, READER_IF_NONE_MATCH_PRESENT, READER_VERSION_PRESENT, READ_STREAM_IF_MATCH_PRESENT, READ_STREAM_IF_NONE_MATCH_PRESENT, READ_STREAM_VERSION_PRESENT, DELETE_RECURSIVE, DELETE_VERSION_PRESENT, READ_IF_MATCH_PRESENT, READ_IF_NONE_MATCH_PRESENT, READ_VERSION_PRESENT, STAT_IF_MATCH_PRESENT, STAT_IF_NONE_MATCH_PRESENT, STAT_VERSION_PRESENT, STRUCT_VERSION, WRITE_APPEND, WRITE_CACHE_CONTROL_PRESENT, WRITE_CONTENT_DISPOSITION_PRESENT, WRITE_CONTENT_ENCODING_PRESENT, WRITE_CONTENT_TYPE_PRESENT, WRITE_IF_MATCH_PRESENT, WRITE_IF_NONE_MATCH_PRESENT,
};
use crate::native::failure::{abi_mismatch, invalid_argument, invalid_argument_failure, CallFailure, CallResult, FailureModel};
use crate::native::views::{
    checked_len, is_aligned, optional_text, optional_text_outcome, opt_text, read_text_value, text_outcome, TextArg,
};
use crate::operators::{bytes_eq_ignore_ascii_case, eq_ignore_ascii_case};
use crate::options::{ReadOptions, StatOptions, WriteOptions};
use crate::scalars::{decoded_range, ByteRange};
use crate::text::{append_decimal, copy_bytes, decimal};

verus! {

/// The size of a version-1 byte range structure.
pub const BYTE_RANGE_SIZE: u32 = 32;
/// The presence bits a version-1 read options structure knows.
pub const READ_KNOWN: u64 = 7;
/// The presence bits a version-1 stat options structure knows.
pub const STAT_KNOWN: u64 = 7;
/// The presence bits a version-1 write options structure knows.
pub const WRITE_KNOWN: u64 = 63;

/// A byte range structure as the caller wrote it.
#[derive(Clone, Copy, PartialEq, Eq, Structural, Debug)]
pub struct ByteRangeInput {
    pub struct_size: u32,
    pub struct_version: u32,
    pub kind: u32,
    pub reserved0: u32,
    pub offset: u64,
    pub length: u64,
}

/// The range a byte range structure stands for, or an ABI mismatch.
pub open spec fn range_outcome(r: ByteRangeInput) -> Result<ByteRange, FailureModel> {
    if r.struct_version != STRUCT_VERSION || r.struct_size < BYTE_RANGE_SIZE || r.reserved0 != 0 {
        Err(FailureModel::AbiMismatch)
    } else {
        match decoded_range(r.kind, r.offset, r.length) {
            Some(b) => Ok(b),
            None => Err(FailureModel::AbiMismatch),
        }
    }
}

/// Decodes an embedded byte range: its own header must be version 1 and
/// complete, its reserved word zero, and its encoding canonical.
pub fn parse_range(r: &ByteRangeInput) -> (res: CallResult<ByteRange>)
    ensures
        match range_outcome(*r) {
            Ok(b) => res == Ok::<ByteRange, CallFailure>(b),
            Err(e) => res matches Err(f) && f@ == e,
        },
{
    if r.struct_version != STRUCT_VERSION || r.struct_size < BYTE_RANGE_SIZE || r.reserved0 != 0 {
        return abi_mismatch();
    }
    match crate::scalars::byte_range(r.kind, r.offset, r.length) {
        Ok(b) => Ok(b),
        Err(_) => abi_mismatch(),
    }
}

/// Read options as the caller wrote them (after their header was checked).
#[derive(Debug)]
pub struct ReadOptionsInput {
    pub present_bits: u64,
    pub range: ByteRangeInput,
    pub version: TextArg,
    pub if_match: TextArg,
    pub if_none_match: TextArg,
}

/// The value of decoded read options.
pub struct ReadOptionsModel {
    pub range: ByteRange,
    pub version: Option<Seq<u8>>,
    pub if_match: Option<Seq<u8>>,
    pub if_none_match: Option<Seq<u8>>,
    pub content_length_hint: Option<u64>,
}

/// The value of [`ReadOptions`].
pub open spec fn read_options_model(o: ReadOptions) -> ReadOptionsModel {
    ReadOptionsModel {
        range: o.range,
        version: opt_text(o.version),
        if_match: opt_text(o.if_match),
        if_none_match: opt_text(o.if_none_match),
        content_length_hint: o.content_length_hint,
    }
}

/// The whole object, with no conditions.
pub open spec fn default_read_options() -> ReadOptionsModel {
    ReadOptionsModel {
        range: ByteRange { offset: 0, length: None, suffix: false },
        version: None,
        if_match: None,
        if_none_match: None,
        content_length_hint: None,
    }
}

/// What a read options structure decodes to: defaults when absent; else
/// known bits only, the range, then the version and the two conditions.
pub open spec fn read_options_outcome(input: Option<&ReadOptionsInput>) -> Result<
    ReadOptionsModel,
    FailureModel,
> {
    match input {
        None => Ok(default_read_options()),
        Some(i) => if i.present_bits & !READ_KNOWN != 0 {
            Err(FailureModel::AbiMismatch)
        } else {
            match range_outcome(i.range) {
                Err(e) => Err(e),
                Ok(range) => match optional_text_outcome(
                    i.version,
                    i.present_bits,
                    READ_VERSION_PRESENT,
                    "read version".spec_bytes(),
                ) {
                    Err(e) => Err(e),
                    Ok(version) => match optional_text_outcome(
                        i.if_match,
                        i.present_bits,
                        READ_IF_MATCH_PRESENT,
                        "read if_match".spec_bytes(),
                    ) {
                        Err(e) => Err(e),
                        Ok(if_match) => match optional_text_outcome(
                            i.if_none_match,
                            i.present_bits,
                            READ_IF_NONE_MATCH_PRESENT,
                            "read if_none_match".spec_bytes(),
                        ) {
                            Err(e) => Err(e),
                            Ok(if_none_match) => Ok(
                                ReadOptionsModel {
                                    range,
                                    version,
                                    if_match,
                                    if_none_match,
                                    content_length_hint: None,
                                },
                            ),
                        },
                    },
                },
            }
        },
    }
}

/// Decodes whole-object read options; no structure means the defaults.
pub fn parse_read_options(input: Option<&ReadOptionsInput>) -> (res: CallResult<ReadOptions>)
    ensures
        match read_options_outcome(input) {
            Ok(m) => res matches Ok(o) && read_options_model(o) == m,
            Err(e) => res matches Err(f) && f@ == e,
        },
{
    let input = match input {
        None => {
            return Ok(
                ReadOptions {
                    range: ByteRange { offset: 0, length: None, suffix: false },
                    version: None,
                    if_match: None,
                    if_none_match: None,
                    content_length_hint: None,
                },
            );
        },
        Some(i) => i,
    };
    if input.present_bits & !READ_KNOWN != 0 {
        return abi_mismatch();
    }
    let range = match parse_range(&input.range) {
        Ok(r) => r,
        Err(f) => {
            return Err(f);
        },
    };
    let version = match optional_text(&input.version, input.present_bits, READ_VERSION_PRESENT, "read version") {
        Ok(v) => v,
        Err(f) => {
            return Err(f);
        },
    };
    let if_match = match optional_text(&input.if_match, input.present_bits, READ_IF_MATCH_PRESENT, "read if_match") {
        Ok(v) => v,
        Err(f) => {
            return Err(f);
        },
    };
    let if_none_match = match optional_text(
        &input.if_none_match,
        input.present_bits,
        READ_IF_NONE_MATCH_PRESENT,
        "read if_none_match",
    ) {
        Ok(v) => v,
        Err(f) => {
            return Err(f);
        },
    };
    Ok(ReadOptions { range, version, if_match, if_none_match, content_length_hint: None })
}

/// Stat options as the caller wrote them (after their header was checked).
#[derive(Debug)]
pub struct StatOptionsInput {
    pub present_bits: u64,
    pub version: TextArg,
    pub if_match: TextArg,
    pub if_none_match: TextArg,
}

/// The value of decoded stat options: version and the two conditions.
pub open spec fn stat_options_model(o: StatOptions) -> (Option<Seq<u8>>, Option<Seq<u8>>, Option<Seq<u8>>) {
    (opt_text(o.version), opt_text(o.if_match), opt_text(o.if_none_match))
}

/// What a stat options structure decodes to: no conditions when absent; else
/// known bits only, then the version and the two conditions.
pub open spec fn stat_options_outcome(input: Option<&StatOptionsInput>) -> Result<
    (Option<Seq<u8>>, Option<Seq<u8>>, Option<Seq<u8>>),
    FailureModel,
> {
    match input {
        None => Ok((None, None, None)),
        Some(i) => if i.present_bits & !STAT_KNOWN != 0 {
            Err(FailureModel::AbiMismatch)
        } else {
            match optional_text_outcome(
                i.version,
                i.present_bits,
                STAT_VERSION_PRESENT,
                "stat version".spec_bytes(),
            ) {
                Err(e) => Err(e),
                Ok(version) => match optional_text_outcome(
                    i.if_match,
                    i.present_bits,
                    STAT_IF_MATCH_PRESENT,
                    "stat if_match".spec_bytes(),
                ) {
                    Err(e) => Err(e),
                    Ok(if_match) => match optional_text_outcome(
                        i.if_none_match,
                        i.present_bits,
                        STAT_IF_NONE_MATCH_PRESENT,
                        "stat if_none_match".spec_bytes(),
                    ) {
                        Err(e) => Err(e),
                        Ok(if_none_match) => Ok((version, if_match, if_none_match)),
                    },
                },
            }
        },
    }
}

/// Decodes stat options; no structure means no conditions.
pub fn parse_stat_options(input: Option<&StatOptionsInput>) -> (res: CallResult<StatOptions>)
    ensures
        match stat_options_outcome(input) {
            Ok(m) => res matches Ok(o) && stat_options_model(o) == m,
            Err(e) => res matches Err(f) && f@ == e,
        },
{
    let input = match input {
        None => {
            return Ok(StatOptions { version: None, if_match: None, if_none_match: None });
        },
        Some(i) => i,
    };
    if input.present_bits & !STAT_KNOWN != 0 {
        return abi_mismatch();
    }
    let version = match optional_text(&input.version, input.present_bits, STAT_VERSION_PRESENT, "stat version") {
        Ok(v) => v,
        Err(f) => {
            return Err(f);
        },
    };
    let if_match = match optional_text(&input.if_match, input.present_bits, STAT_IF_MATCH_PRESENT, "stat if_match") {
        Ok(v) => v,
        Err(f) => {
            return Err(f);
        },
    };
    let if_none_match = match optional_text(
        &input.if_none_match,
        input.present_bits,
        STAT_IF_NONE_MATCH_PRESENT,
        "stat if_none_match",
    ) {
        Ok(v) => v,
        Err(f) => {
            return Err(f);
        },
    };
    Ok(StatOptions { version, if_match, if_none_match })
}

/// Write options as the caller wrote them (after their header was checked).
#[derive(Debug)]
pub struct WriteOptionsInput {
    pub present_bits: u64,
    pub flags: u64,
    pub content_type: TextArg,
    pub content_disposition: TextArg,
    pub content_encoding: TextArg,
    pub cache_control: TextArg,
    pub if_match: TextArg,
    pub if_none_match: TextArg,
}

/// The value of decoded write options.
pub struct WriteOptionsModel {
    pub append: bool,
    pub content_type: Option<Seq<u8>>,
    pub content_disposition: Option<Seq<u8>>,
    pub content_encoding: Option<Seq<u8>>,
    pub cache_control: Option<Seq<u8>>,
    pub if_match: Option<Seq<u8>>,
    pub if_none_match: Option<Seq<u8>>,
}

/// The value of [`WriteOptions`].
pub open spec fn write_options_model(o: WriteOptions) -> WriteOptionsModel {
    WriteOptionsModel {
        append: o.append,
        content_type: opt_text(o.content_type),
        content_disposition: opt_text(o.content_disposition),
        content_encoding: opt_text(o.content_encoding),
        cache_control: opt_text(o.cache_control),
        if_match: opt_text(o.if_match),
        if_none_match: opt_text(o.if_none_match),
    }
}

/// The four content fields of write options, in order, then the two
/// conditions.
pub open spec fn write_texts_outcome(i: WriteOptionsInput) -> Result<
    (Option<Seq<u8>>, Option<Seq<u8>>, Option<Seq<u8>>, Option<Seq<u8>>, Option<Seq<u8>>, Option<Seq<u8>>),
    FailureModel,
> {
    let b = i.present_bits;
    match optional_text_outcome(i.content_type, b, WRITE_CONTENT_TYPE_PRESENT, "write content_type".spec_bytes()) {
        Err(e) => Err(e),
        Ok(t1) => match optional_text_outcome(
            i.content_disposition,
            b,
            WRITE_CONTENT_DISPOSITION_PRESENT,
            "write content_disposition".spec_bytes(),
        ) {
            Err(e) => Err(e),
            Ok(t2) => match optional_text_outcome(
                i.content_encoding,
                b,
                WRITE_CONTENT_ENCODING_PRESENT,
                "write content_encoding".spec_bytes(),
            ) {
                Err(e) => Err(e),
                Ok(t3) => match optional_text_outcome(
                    i.cache_control,
                    b,
                    WRITE_CACHE_CONTROL_PRESENT,
                    "write cache_control".spec_bytes(),
                ) {
                    Err(e) => Err(e),
                    Ok(t4) => match optional_text_outcome(
                        i.if_match,
                        b,
                        WRITE_IF_MATCH_PRESENT,
                        "write if_match".spec_bytes(),
                    ) {
                        Err(e) => Err(e),
                        Ok(t5) => match optional_text_outcome(
                            i.if_none_match,
                            b,
                            WRITE_IF_NONE_MATCH_PRESENT,
                            "write if_none_match".spec_bytes(),
                        ) {
                            Err(e) => Err(e),
                            Ok(t6) => Ok((t1, t2, t3, t4, t5, t6)),
                        },
                    },
                },
            },
        },
    }
}

/// What a write options structure decodes to: defaults when absent; else
/// known bits and flags only, the append flag, then the six texts.
pub open spec fn write_options_outcome(input: Option<&WriteOptionsInput>) -> Result<
    WriteOptionsModel,
    FailureModel,
> {
    match input {
        None => Ok(
            WriteOptionsModel {
                append: false,
                content_type: None,
                content_disposition: None,
                content_encoding: None,
                cache_control: None,
                if_match: None,
                if_none_match: None,
            },
        ),
        Some(i) => if i.present_bits & !WRITE_KNOWN != 0 || i.flags & !WRITE_APPEND != 0 {
            Err(FailureModel::AbiMismatch)
        } else {
            match write_texts_outcome(*i) {
                Err(e) => Err(e),
                Ok(t) => Ok(
                    WriteOptionsModel {
                        append: i.flags & WRITE_APPEND != 0,
                        content_type: t.0,
                        content_disposition: t.1,
                        content_encoding: t.2,
                        cache_control: t.3,
                        if_match: t.4,
                        if_none_match: t.5,
                    },
                ),
            }
        },
    }
}

/// Decodes write options; no structure means a plain, unconditional write.
pub fn parse_write_options(input: Option<&WriteOptionsInput>) -> (res: CallResult<WriteOptions>)
    ensures
        match write_options_outcome(input) {
            Ok(m) => res matches Ok(o) && write_options_model(o) == m,
            Err(e) => res matches Err(f) && f@ == e,
        },
{
    let input = match input {
        None => {
            return Ok(
                WriteOptions {
                    append: false,
                    content_type: None,
                    content_disposition: None,
                    content_encoding: None,
                    cache_control: None,
                    if_match: None,
                    if_none_match: None,
                },
            );
        },
        Some(i) => i,
    };
    let b = input.present_bits;
    if b & !WRITE_KNOWN != 0 || input.flags & !WRITE_APPEND != 0 {
        return abi_mismatch();
    }
    let content_type = match optional_text(&input.content_type, b, WRITE_CONTENT_TYPE_PRESENT, "write content_type") {
        Ok(v) => v,
        Err(f) => {
            return Err(f);
        },
    };
    let content_disposition = match optional_text(
        &input.content_disposition,
        b,
        WRITE_CONTENT_DISPOSITION_PRESENT,
        "write content_disposition",
    ) {
        Ok(v) => v,
        Err(f) => {
            return Err(f);
        },
    };
    let content_encoding = match optional_text(
        &input.content_encoding,
        b,
        WRITE_CONTENT_ENCODING_PRESENT,
        "write content_encoding",
    ) {
        Ok(v) => v,
        Err(f) => {
            return Err(f);
        },
    };
    let cache_control = match optional_text(&input.cache_control, b, WRITE_CACHE_CONTROL_PRESENT, "write cache_control") {
        Ok(v) => v,
        Err(f) => {
            return Err(f);
        },
    };
    let if_match = match optional_text(&input.if_match, b, WRITE_IF_MATCH_PRESENT, "write if_match") {
        Ok(v) => v,
        Err(f) => {
            return Err(f);
        },
    };
    let if_none_match = match optional_text(&input.if_none_match, b, WRITE_IF_NONE_MATCH_PRESENT, "write if_none_match") {
        Ok(v) => v,
        Err(f) => {
            return Err(f);
        },
    };
    Ok(
        WriteOptions {
            append: input.flags & WRITE_APPEND != 0,
            content_type,
            content_disposition,
            content_encoding,
            cache_control,
            if_match,
            if_none_match,
        },
    )
}

/// The text a caller gave in a view: nothing for an empty view, else the
/// bytes read from it.
pub open spec fn given_text(arg: TextArg) -> Seq<u8> {
    if arg.view.len == 0 {
        Seq::empty()
    } else {
        arg.bytes@
    }
}

/// The text a caller gave in a view when its presence bit is set, else none.
pub open spec fn given_when_present(arg: TextArg, present_bits: u64, bit: u64) -> Option<Seq<u8>> {
    if present_bits & bit != 0 {
        Some(given_text(arg))
    } else {
        None
    }
}

/// Decoded read options keep each text the caller gave under its own
/// presence bit: the version, the `if_match` and the `if_none_match`
/// conditions are each the bytes of their own view when their bit is set
/// and absent otherwise, and no length hint is invented.
pub proof fn law_read_options_keep_each_condition(input: &ReadOptionsInput)
    ensures
        read_options_outcome(Some(input)) matches Ok(m) ==> {
            &&& m.version == given_when_present(input.version, input.present_bits, READ_VERSION_PRESENT)
            &&& m.if_match == given_when_present(input.if_match, input.present_bits, READ_IF_MATCH_PRESENT)
            &&& m.if_none_match == given_when_present(
                input.if_none_match,
                input.present_bits,
                READ_IF_NONE_MATCH_PRESENT,
            )
            &&& m.content_length_hint is None
        },
{
}

/// Decoded stat options keep each text the caller gave under its own
/// presence bit: the version, then the `if_match` and `if_none_match`
/// conditions.
pub proof fn law_stat_options_keep_each_condition(input: &StatOptionsInput)
    ensures
        stat_options_outcome(Some(input)) matches Ok(m) ==> {
            &&& m.0 == given_when_present(input.version, input.present_bits, STAT_VERSION_PRESENT)
            &&& m.1 == given_when_present(input.if_match, input.present_bits, STAT_IF_MATCH_PRESENT)
            &&& m.2 == given_when_present(input.if_none_match, input.present_bits, STAT_IF_NONE_MATCH_PRESENT)
        },
{
}

/// Decoded write options keep each field the caller gave: appending exactly
/// when the append flag is set, and each content header and each condition
/// the bytes of its own view when its own presence bit is set, absent
/// otherwise.
pub proof fn law_write_options_keep_each_field(input: &WriteOptionsInput)
    ensures
        write_options_outcome(Some(input)) matches Ok(m) ==> {
            &&& m.append == (input.flags & WRITE_APPEND != 0)
            &&& m.content_type == given_when_present(input.content_type, input.present_bits, WRITE_CONTENT_TYPE_PRESENT)
            &&& m.content_disposition == given_when_present(
                input.content_disposition,
                input.present_bits,
                WRITE_CONTENT_DISPOSITION_PRESENT,
            )
            &&& m.content_encoding == given_when_present(
                input.content_encoding,
                input.present_bits,
                WRITE_CONTENT_ENCODING_PRESENT,
            )
            &&& m.cache_control == given_when_present(input.cache_control, input.present_bits, WRITE_CACHE_CONTROL_PRESENT)
            &&& m.if_match == given_when_present(input.if_match, input.present_bits, WRITE_IF_MATCH_PRESENT)
            &&& m.if_none_match == given_when_present(input.if_none_match, input.present_bits, WRITE_IF_NONE_MATCH_PRESENT)
        },
{
}

/// Delete options as the caller wrote them (after their header was checked).
#[derive(Debug)]
pub struct DeleteOptionsInput {
    pub present_bits: u64,
    pub flags: u64,
    pub version: TextArg,
}

/// Options of a delete: the version to delete and whether to delete a
/// directory with everything under it.
#[derive(Debug)]
pub struct DeleteOptions {
    pub version: Option<Vec<u8>>,
    pub recursive: bool,
}

/// What a delete options structure decodes to.
pub open spec fn delete_options_outcome(input: Option<&DeleteOptionsInput>) -> Result<
    (Option<Seq<u8>>, bool),
    FailureModel,
> {
    match input {
        None => Ok((None, false)),
        Some(i) => if i.present_bits & !DELETE_VERSION_PRESENT != 0 || i.flags & !DELETE_RECURSIVE
            != 0 {
            Err(FailureModel::AbiMismatch)
        } else {
            match optional_text_outcome(
                i.version,
                i.present_bits,
                DELETE_VERSION_PRESENT,
                "delete version".spec_bytes(),
            ) {
                Err(e) => Err(e),
                Ok(version) => Ok((version, i.flags & DELETE_RECURSIVE != 0)),
            }
        },
    }
}

/// Decodes delete options; no structure means a plain delete.
pub fn parse_delete_options(input: Option<&DeleteOptionsInput>) -> (res: CallResult<DeleteOptions>)
    ensures
        match delete_options_outcome(input) {
            Ok(m) => res matches Ok(o) && opt_text(o.version) == m.0 && o.recursive == m.1,
            Err(e) => res matches Err(f) && f@ == e,
        },
{
    let input = match input {
        None => {
            return Ok(DeleteOptions { version: None, recursive: false });
        },
        Some(i) => i,
    };
    if input.present_bits & !DELETE_VERSION_PRESENT != 0 || input.flags & !DELETE_RECURSIVE != 0 {
        return abi_mismatch();
    }
    let version = match optional_text(&input.version, input.present_bits, DELETE_VERSION_PRESENT, "delete version") {
        Ok(v) => v,
        Err(f) => {
            return Err(f);
        },
    };
    Ok(DeleteOptions { version, recursive: input.flags & DELETE_RECURSIVE != 0 })
}

/// The presence bits a version-1 reader options structure knows.
pub const READER_KNOWN: u64 = 7;
/// The presence bits a version-1 read stream options structure knows.
pub const READ_STREAM_KNOWN: u64 = 7;
/// The presence bits a version-1 list options structure knows.
pub const LIST_KNOWN: u64 = 3;

/// The conditions of a reader: a version and the two entity-tag conditions.
#[derive(Debug)]
pub struct ReaderOptions {
    pub version: Option<Vec<u8>>,
    pub if_match: Option<Vec<u8>>,
    pub if_none_match: Option<Vec<u8>>,
}

/// The value of [`ReaderOptions`].
pub open spec fn reader_options_model(o: ReaderOptions) -> (Option<Seq<u8>>, Option<Seq<u8>>, Option<Seq<u8>>) {
    (opt_text(o.version), opt_text(o.if_match), opt_text(o.if_none_match))
}

/// What three optional condition texts decode to, in order: the version,
/// then `if_match`, then `if_none_match`; the first failure wins.
pub open spec fn conditions_outcome(
    version: TextArg,
    if_match: TextArg,
    if_none_match: TextArg,
    present_bits: u64,
    version_bit: u64,
    if_match_bit: u64,
    if_none_match_bit: u64,
    version_label: Seq<u8>,
    if_match_label: Seq<u8>,
    if_none_match_label: Seq<u8>,
) -> Result<(Option<Seq<u8>>, Option<Seq<u8>>, Option<Seq<u8>>), FailureModel> {
    match optional_text_outcome(version, present_bits, version_bit, version_label) {
        Err(e) => Err(e),
        Ok(v) => match optional_text_outcome(if_match, present_bits, if_match_bit, if_match_label) {
            Err(e) => Err(e),
            Ok(m) => match optional_text_outcome(if_none_match, present_bits, if_none_match_bit, if_none_match_label) {
                Err(e) => Err(e),
                Ok(n) => Ok((v, m, n)),
            },
        },
    }
}

/// Decodes the three condition texts of a reader.
fn parse_conditions(
    version: &TextArg,
    if_match: &TextArg,
    if_none_match: &TextArg,
    present_bits: u64,
    version_bit: u64,
    if_match_bit: u64,
    if_none_match_bit: u64,
    version_label: &str,
    if_match_label: &str,
    if_none_match_label: &str,
) -> (res: CallResult<ReaderOptions>)
    ensures
        match conditions_outcome(
            *version,
            *if_match,
            *if_none_match,
            present_bits,
            version_bit,
            if_match_bit,
            if_none_match_bit,
            version_label.spec_bytes(),
            if_match_label.spec_bytes(),
            if_none_match_label.spec_bytes(),
        ) {
            Ok(m) => res matches Ok(o) && reader_options_model(o) == m,
            Err(e) => res matches Err(f) && f@ == e,
        },
{
    let version = match optional_text(version, present_bits, version_bit, version_label) {
        Ok(v) => v,
        Err(f) => {
            return Err(f);
        },
    };
    let if_match = match optional_text(if_match, present_bits, if_match_bit, if_match_label) {
        Ok(v) => v,
        Err(f) => {
            return Err(f);
        },
    };
    let if_none_match = match optional_text(if_none_match, present_bits, if_none_match_bit, if_none_match_label) {
        Ok(v) => v,
        Err(f) => {
            return Err(f);
        },
    };
    Ok(ReaderOptions { version, if_match, if_none_match })
}

/// Reader options as the caller wrote them (after their header was checked).
#[derive(Debug)]
pub struct ReaderOptionsInput {
    pub present_bits: u64,
    pub version: TextArg,
    pub if_match: TextArg,
    pub if_none_match: TextArg,
}

/// What a reader options structure decodes to: no conditions when absent;
/// else known bits only, then the version and the two conditions.
pub open spec fn reader_options_outcome(input: Option<&ReaderOptionsInput>) -> Result<
    (Option<Seq<u8>>, Option<Seq<u8>>, Option<Seq<u8>>),
    FailureModel,
> {
    match input {
        None => Ok((None, None, None)),
        Some(i) => if i.present_bits & !READER_KNOWN != 0 {
            Err(FailureModel::AbiMismatch)
        } else {
            conditions_outcome(
                i.version,
                i.if_match,
                i.if_none_match,
                i.present_bits,
                READER_VERSION_PRESENT,
                READER_IF_MATCH_PRESENT,
                READER_IF_NONE_MATCH_PRESENT,
                "reader version".spec_bytes(),
                "reader if_match".spec_bytes(),
                "reader if_none_match".spec_bytes(),
            )
        },
    }
}

/// Decodes the options of a random-access reader; no structure means no
/// conditions.
pub fn parse_reader_options(input: Option<&ReaderOptionsInput>) -> (res: CallResult<ReaderOptions>)
    ensures
        match reader_options_outcome(input) {
            Ok(m) => res matches Ok(o) && reader_options_model(o) == m,
            Err(e) => res matches Err(f) && f@ == e,
        },
{
    let input = match input {
        None => {
            return Ok(ReaderOptions { version: None, if_match: None, if_none_match: None });
        },
        Some(i) => i,
    };
    if input.present_bits & !READER_KNOWN != 0 {
        return abi_mismatch();
    }
    parse_conditions(
        &input.version,
        &input.if_match,
        &input.if_none_match,
        input.present_bits,
        READER_VERSION_PRESENT,
        READER_IF_MATCH_PRESENT,
        READER_IF_NONE_MATCH_PRESENT,
        "reader version",
        "reader if_match",
        "reader if_none_match",
    )
}

/// Read stream options as the caller wrote them (after their header was
/// checked).
#[derive(Debug)]
pub struct ReadStreamOptionsInput {
    pub present_bits: u64,
    pub chunk_size: u64,
    pub range: ByteRangeInput,
    pub version: TextArg,
    pub if_match: TextArg,
    pub if_none_match: TextArg,
}

/// Decoded read stream options: the reader's conditions and settings (one
/// request at a time, chunks of the stream's size, nothing prefetched), the
/// range to stream and the largest chunk a step hands out.
#[derive(Debug)]
pub struct ParsedReadStreamOptions {
    pub reader: ReaderOptions,
    pub reader_concurrent: usize,
    pub reader_chunk: usize,
    pub reader_prefetch: usize,
    pub range: ByteRange,
    pub chunk_size: u64,
}

/// The value of decoded read stream options.
pub struct ReadStreamOptionsModel {
    pub conditions: (Option<Seq<u8>>, Option<Seq<u8>>, Option<Seq<u8>>),
    pub range: ByteRange,
    pub chunk_size: u64,
}

/// The message of a chunk size outside the accepted range.
pub open spec fn chunk_size_message() -> Seq<u8> {
    "read stream chunk_size must be between 1 and ".spec_bytes() + decimal(MAX_OUTPUT_BYTES as nat)
}

/// What a read stream options structure decodes to: the structure is
/// required; known bits only, a chunk size from one to the output limit, the
/// range, then the version and the two conditions.
pub open spec fn read_stream_options_outcome(input: Option<&ReadStreamOptionsInput>) -> Result<
    ReadStreamOptionsModel,
    FailureModel,
> {
    match input {
        None => Err(FailureModel::AbiMismatch),
        Some(i) => if i.present_bits & !READ_STREAM_KNOWN != 0 {
            Err(FailureModel::AbiMismatch)
        } else if i.chunk_size == 0 || i.chunk_size > MAX_OUTPUT_BYTES {
            Err(invalid_argument_failure(chunk_size_message()))
        } else {
            match range_outcome(i.range) {
                Err(e) => Err(e),
                Ok(range) => match conditions_outcome(
                    i.version,
                    i.if_match,
                    i.if_none_match,
                    i.present_bits,
                    READ_STREAM_VERSION_PRESENT,
                    READ_STREAM_IF_MATCH_PRESENT,
                    READ_STREAM_IF_NONE_MATCH_PRESENT,
                    "read stream version".spec_bytes(),
                    "read stream if_match".spec_bytes(),
                    "read stream if_none_match".spec_bytes(),
                ) {
                    Err(e) => Err(e),
                    Ok(conditions) => Ok(ReadStreamOptionsModel { conditions, range, chunk_size: i.chunk_size }),
                },
            }
        },
    }
}

/// Decoded delete options keep the version the caller gave under its
/// presence bit, and delete recursively exactly when that flag is set.
pub proof fn law_delete_options_keep_each_field(input: &DeleteOptionsInput)
    ensures
        delete_options_outcome(Some(input)) matches Ok(m) ==> {
            &&& m.0 == given_when_present(input.version, input.present_bits, DELETE_VERSION_PRESENT)
            &&& m.1 == (input.flags & DELETE_RECURSIVE != 0)
        },
{
}

/// Decoded reader options keep each condition the caller gave under its own
/// presence bit: the version, then `if_match`, then `if_none_match`.
pub proof fn law_reader_options_keep_each_condition(input: &ReaderOptionsInput)
    ensures
        reader_options_outcome(Some(input)) matches Ok(m) ==> {
            &&& m.0 == given_when_present(input.version, input.present_bits, READER_VERSION_PRESENT)
            &&& m.1 == given_when_present(input.if_match, input.present_bits, READER_IF_MATCH_PRESENT)
            &&& m.2 == given_when_present(input.if_none_match, input.present_bits, READER_IF_NONE_MATCH_PRESENT)
        },
{
}

/// Decoded read stream options keep the chunk size and each condition the
/// caller gave under its own presence bit.
pub proof fn law_read_stream_options_keep_each_condition(input: &ReadStreamOptionsInput)
    ensures
        read_stream_options_outcome(Some(input)) matches Ok(m) ==> {
            &&& m.chunk_size == input.chunk_size
            &&& m.conditions.0 == given_when_present(input.version, input.present_bits, READ_STREAM_VERSION_PRESENT)
            &&& m.conditions.1 == given_when_present(input.if_match, input.present_bits, READ_STREAM_IF_MATCH_PRESENT)
            &&& m.conditions.2 == given_when_present(
                input.if_none_match,
                input.present_bits,
                READ_STREAM_IF_NONE_MATCH_PRESENT,
            )
        },
{
}

/// Decodes the options of a read stream.
pub fn parse_read_stream_options(input: Option<&ReadStreamOptionsInput>) -> (res: CallResult<
    ParsedReadStreamOptions,
>)
    ensures
        match read_stream_options_outcome(input) {
            Ok(m) => res matches Ok(o) && reader_options_model(o.reader) == m.conditions && o.range
                == m.range && o.chunk_size == m.chunk_size && o.reader_concurrent == 1 && o.reader_chunk
                == m.chunk_size && o.reader_prefetch == 0,
            Err(e) => res matches Err(f) && f@ == e,
        },
{
    let input = match input {
        None => {
            return abi_mismatch();
        },
        Some(i) => i,
    };
    if input.present_bits & !READ_STREAM_KNOWN != 0 {
        return abi_mismatch();
    }
    if input.chunk_size == 0 || input.chunk_size > MAX_OUTPUT_BYTES {
        let mut message = copy_bytes("read stream chunk_size must be between 1 and ".as_bytes());
        append_decimal(&mut message, MAX_OUTPUT_BYTES);
        return Err(invalid_argument(message));
    }
    let chunk = match checked_len(input.chunk_size) {
        Ok(n) => n,
        Err(_) => {
            return Err(
                invalid_argument(
                    copy_bytes("read stream chunk_size is not representable on this platform".as_bytes()),
                ),
            );
        },
    };
    let range = match parse_range(&input.range) {
        Ok(r) => r,
        Err(f) => {
            return Err(f);
        },
    };
    let reader = match parse_conditions(
        &input.version,
        &input.if_match,
        &input.if_none_match,
        input.present_bits,
        READ_STREAM_VERSION_PRESENT,
        READ_STREAM_IF_MATCH_PRESENT,
        READ_STREAM_IF_NONE_MATCH_PRESENT,
        "read stream version",
        "read stream if_match",
        "read stream if_none_match",
    ) {
        Ok(r) => r,
        Err(f) => {
            return Err(f);
        },
    };
    Ok(
        ParsedReadStreamOptions {
            reader,
            reader_concurrent: 1,
            reader_chunk: chunk,
            reader_prefetch: 0,
            range,
            chunk_size: input.chunk_size,
        },
    )
}

/// List options as the caller wrote them (after their header was checked).
#[derive(Debug)]
pub struct ListOptionsInput {
    pub present_bits: u64,
    pub flags: u64,
    pub limit: u64,
    pub start_after: TextArg,
}

/// Options of a listing: a page-size limit, the key to start after, and
/// whether to descend into directories.
#[derive(Debug)]
pub struct ListOptions {
    pub limit: Option<usize>,
    pub start_after: Option<Vec<u8>>,
    pub recursive: bool,
}

/// The value of [`ListOptions`].
pub open spec fn list_options_model(o: ListOptions) -> (Option<usize>, Option<Seq<u8>>, bool) {
    (o.limit, opt_text(o.start_after), o.recursive)
}

/// What a list options structure decodes to: a plain listing when absent;
/// else known bits and flags only, the limit (present and representable, or
/// absent and zero), then the key to start after.
pub open spec fn list_options_outcome(input: Option<&ListOptionsInput>) -> Result<
    (Option<usize>, Option<Seq<u8>>, bool),
    FailureModel,
> {
    match input {
        None => Ok((None, None, false)),
        Some(i) => if i.present_bits & !LIST_KNOWN != 0 || i.flags & !LIST_RECURSIVE != 0 {
            Err(FailureModel::AbiMismatch)
        } else if i.present_bits & LIST_LIMIT_PRESENT != 0 && i.limit > isize::MAX {
            Err(FailureModel::AbiMismatch)
        } else if i.present_bits & LIST_LIMIT_PRESENT == 0 && i.limit != 0 {
            Err(FailureModel::AbiMismatch)
        } else {
            let limit = if i.present_bits & LIST_LIMIT_PRESENT != 0 {
                Some(i.limit as usize)
            } else {
                None
            };
            match optional_text_outcome(
                i.start_after,
                i.present_bits,
                LIST_START_AFTER_PRESENT,
                "list start_after".spec_bytes(),
            ) {
                Err(e) => Err(e),
                Ok(start_after) => Ok((limit, start_after, i.flags & LIST_RECURSIVE != 0)),
            }
        },
    }
}

/// Decodes list options; no structure means a plain, non-recursive listing.
pub fn parse_list_options(input: Option<&ListOptionsInput>) -> (res: CallResult<ListOptions>)
    ensures
        match list_options_outcome(input) {
            Ok(m) => res matches Ok(o) && list_options_model(o) == m,
            Err(e) => res matches Err(f) && f@ == e,
        },
{
    let input = match input {
        None => {
            return Ok(ListOptions { limit: None, start_after: None, recursive: false });
        },
        Some(i) => i,
    };
    if input.present_bits & !LIST_KNOWN != 0 || input.flags & !LIST_RECURSIVE != 0 {
        return abi_mismatch();
    }
    let limit = if input.present_bits & LIST_LIMIT_PRESENT != 0 {
        match checked_len(input.limit) {
            Ok(n) => Some(n),
            Err(f) => {
                return Err(f);
            },
        }
    } else {
        if input.limit != 0 {
            return abi_mismatch();
        }
        None
    };
    let start_after = match optional_text(
        &input.start_after,
        input.present_bits,
        LIST_START_AFTER_PRESENT,
        "list start_after",
    ) {
        Ok(v) => v,
        Err(f) => {
            return Err(f);
        },
    };
    Ok(ListOptions { limit, start_after, recursive: input.flags & LIST_RECURSIVE != 0 })
}

/// Whether `length` configuration items of `item_size` bytes each, starting
/// at `address`, form a valid array.
pub open spec fn config_array_ok(length: u64, item_size: usize, address: usize, align: usize) -> bool {
    &&& length <= isize::MAX
    &&& length * item_size <= isize::MAX
    &&& (length == 0 || (address != 0 && address % align == 0 && address + length * item_size
        <= usize::MAX))
}

/// Checks the caller's configuration array (its length, total size, pointer
/// and alignment) and returns the number of items to read; an empty array
/// needs no pointer.
pub fn config_length(config_len: u64, item_size: usize, address: usize, align: usize) -> (res: CallResult<usize>)
    requires
        align > 0,
    ensures
        res is Ok <==> config_array_ok(config_len, item_size, address, align),
        res matches Ok(n) ==> n == config_len,
        res matches Err(f) ==> f@ == FailureModel::AbiMismatch,
{
    let length = match checked_len(config_len) {
        Ok(n) => n,
        Err(f) => {
            return Err(f);
        },
    };
    if item_size != 0 && length > (isize::MAX as usize) / item_size {
        assert(length * item_size > isize::MAX) by (nonlinear_arith)
            requires
                item_size != 0,
                length > (isize::MAX as usize) / item_size,
        ;
        return abi_mismatch();
    }
    assert(length * item_size <= isize::MAX) by (nonlinear_arith)
        requires
            item_size == 0 || length <= (isize::MAX as usize) / item_size,
    ;
    let bytes = length * item_size;
    if length == 0 {
        return Ok(0);
    }
    if address == 0 || !is_aligned(address, align) || address > usize::MAX - bytes {
        return abi_mismatch();
    }
    Ok(length)
}

/// One configuration item as the caller wrote it: a key and a value.
#[derive(Debug)]
pub struct ConfigItem {
    pub key: TextArg,
    pub value: TextArg,
}

/// Whether a key is already among the decoded pairs, up to ASCII case.
pub open spec fn has_config_key(pairs: Seq<(Seq<u8>, Seq<u8>)>, key: Seq<u8>) -> bool {
    exists|i: int| 0 <= i < pairs.len() && eq_ignore_ascii_case(#[trigger] pairs[i].0, key)
}

/// The value of decoded configuration pairs.
pub open spec fn config_pairs(v: Seq<(Vec<u8>, Vec<u8>)>) -> Seq<(Seq<u8>, Seq<u8>)> {
    Seq::new(v.len(), |i: int| (v[i].0@, v[i].1@))
}

/// What configuration items decode to: each key, then its value, as UTF-8;
/// a key equal to an earlier one up to ASCII case is rejected.
pub open spec fn config_outcome(items: Seq<ConfigItem>) -> Result<Seq<(Seq<u8>, Seq<u8>)>, FailureModel>
    decreases items.len(),
{
    if items.len() == 0 {
        Ok(Seq::empty())
    } else {
        match config_outcome(items.drop_last()) {
            Err(e) => Err(e),
            Ok(pairs) => match text_outcome(items.last().key, "config key".spec_bytes()) {
                Err(e) => Err(e),
                Ok(key) => if has_config_key(pairs, key) {
                    Err(invalid_argument_failure("duplicate config key".spec_bytes()))
                } else {
                    match text_outcome(items.last().value, "config value".spec_bytes()) {
                        Err(e) => Err(e),
                        Ok(value) => Ok(pairs.push((key, value))),
                    }
                },
            },
        }
    }
}

/// Whether `key` is already among the pairs, up to ASCII case.
fn has_pair_key(pairs: &Vec<(Vec<u8>, Vec<u8>)>, key: &[u8]) -> (found: bool)
    ensures
        found == has_config_key(config_pairs(pairs@), key@),
{
    let mut j: usize = 0;
    while j < pairs.len()
        invariant
            j <= pairs@.len(),
            forall|k: int| 0 <= k < j ==> !eq_ignore_ascii_case(#[trigger] pairs@[k].0@, key@),
        decreases pairs@.len() - j,
    {
        if bytes_eq_ignore_ascii_case(pairs[j].0.as_slice(), key) {
            assert(config_pairs(pairs@)[j as int].0 == pairs@[j as int].0@);
            return true;
        }
        j = j + 1;
    }
    assert forall|k: int| 0 <= k < config_pairs(pairs@).len() implies !eq_ignore_ascii_case(
        #[trigger] config_pairs(pairs@)[k].0,
        key@,
    ) by {
        assert(config_pairs(pairs@)[k].0 == pairs@[k].0@);
    }
    false
}

/// Decodes configuration items into key-value pairs, rejecting duplicate keys.
pub fn read_config_items(items: &Vec<ConfigItem>) -> (res: CallResult<Vec<(Vec<u8>, Vec<u8>)>>)
    ensures
        match config_outcome(items@) {
            Ok(pairs) => res matches Ok(v) && config_pairs(v@) == pairs,
            Err(e) => res matches Err(f) && f@ == e,
        },
{
    let mut out: Vec<(Vec<u8>, Vec<u8>)> = Vec::new();
    let mut i: usize = 0;
    assert(items@.subrange(0, 0) =~= Seq::<ConfigItem>::empty());
    assert(config_pairs(out@) =~= Seq::<(Seq<u8>, Seq<u8>)>::empty());
    while i < items.len()
        invariant
            i <= items@.len(),
            config_outcome(items@.subrange(0, i as int)) == Ok::<
                Seq<(Seq<u8>, Seq<u8>)>,
                FailureModel,
            >(config_pairs(out@)),
        decreases items@.len() - i,
    {
        let ghost prefix = items@.subrange(0, i as int + 1);
        assert(prefix.drop_last() == items@.subrange(0, i as int));
        assert(prefix.last() == items@[i as int]);
        let key = match read_text_value(&items[i].key, "config key") {
            Ok(k) => k,
            Err(f) => {
                proof {
                    lemma_config_failure_persists(items@, i as int + 1);
                }
                return Err(f);
            },
        };
        if has_pair_key(&out, key.as_slice()) {
            proof {
                lemma_config_failure_persists(items@, i as int + 1);
            }
            return Err(invalid_argument(copy_bytes("duplicate config key".as_bytes())));
        }
        let value = match read_text_value(&items[i].value, "config value") {
            Ok(v) => v,
            Err(f) => {
                proof {
                    lemma_config_failure_persists(items@, i as int + 1);
                }
                return Err(f);
            },
        };
        let ghost before = out@;
        out.push((key, value));
        assert(config_pairs(out@) == config_pairs(before).push((key@, value@)));
        i = i + 1;
    }
    assert(items@.subrange(0, items@.len() as int) == items@);
    Ok(out)
}

/// Once a prefix of the items fails, every longer prefix fails the same way.
proof fn lemma_config_failure_persists(items: Seq<ConfigItem>, n: int)
    requires
        0 <= n <= items.len(),
        config_outcome(items.subrange(0, n)) is Err,
    ensures
        config_outcome(items) == config_outcome(items.subrange(0, n)),
    decreases items.len() - n,
{
    if n < items.len() {
        let longer = items.subrange(0, n + 1);
        assert(longer.drop_last() == items.subrange(0, n));
        lemma_config_failure_persists(items, n + 1);
    } else {
        assert(items.subrange(0, n) == items);
    }
}

} // verus!
