//! Resource kinds and the type labels used in diagnostics.
use vstd::prelude::*;
use vstd::string::StringSliceAdditionalSpecFns;

use crate::codes::{
    COMPLETION_COPY, COMPLETION_CREATE_DIR, COMPLETION_DELETE, COMPLETION_LIST, COMPLETION_LISTER_NEXT, COMPLETION_OPEN_LISTER, COMPLETION_OPEN_READER, COMPLETION_OPEN_WRITER, COMPLETION_READ, COMPLETION_READER_NEXT, COMPLETION_RENAME, COMPLETION_STAT, COMPLETION_WRITE, COMPLETION_WRITER_ABORT, COMPLETION_WRITER_FINISH, COMPLETION_WRITER_WRITE,
};

verus! {

/// The kind of value a handle owns.
#[derive(Clone, Copy, PartialEq, Eq, Structural, Debug)]
pub enum ResourceKind {
    Buffer,
    OperatorBuilder,
    Operator,
    Metadata,
    Error,
    Task,
    Completion,
    EntryList,
    ReadStream,
    Writer,
    Lister,
}

/// A label naming what a handle holds or what a call expected.
#[derive(Clone, Copy, PartialEq, Eq, Structural, Debug)]
pub enum TypeLabel {
    /// A resource of the given kind.
    Resource(ResourceKind),
    /// A completion of the given operation kind code.
    Completion(u32),
    FailedCompletion,
    SuccessfulCompletion,
    NextCompletion,
    NonNextCompletion,
    SuccessfulMetadataCompletion,
}

/// The diagnostic name of a resource kind.
pub open spec fn resource_kind_text(kind: ResourceKind) -> Seq<u8> {
    match kind {
        ResourceKind::Buffer => "buffer".spec_bytes(),
        ResourceKind::OperatorBuilder => "operator builder".spec_bytes(),
        ResourceKind::Operator => "operator".spec_bytes(),
        ResourceKind::Metadata => "metadata".spec_bytes(),
        ResourceKind::Error => "error".spec_bytes(),
        ResourceKind::Task => "task".spec_bytes(),
        ResourceKind::Completion => "completion".spec_bytes(),
        ResourceKind::EntryList => "entry list".spec_bytes(),
        ResourceKind::ReadStream => "read stream".spec_bytes(),
        ResourceKind::Writer => "writer".spec_bytes(),
        ResourceKind::Lister => "lister".spec_bytes(),
    }
}

/// The diagnostic name of a completion operation kind code.
pub open spec fn completion_kind_text(kind: u32) -> Seq<u8> {
    if kind == COMPLETION_WRITE {
        "write completion".spec_bytes()
    } else if kind == COMPLETION_READ {
        "read completion".spec_bytes()
    } else if kind == COMPLETION_STAT {
        "stat completion".spec_bytes()
    } else if kind == COMPLETION_CREATE_DIR {
        "create-dir completion".spec_bytes()
    } else if kind == COMPLETION_DELETE {
        "delete completion".spec_bytes()
    } else if kind == COMPLETION_LIST {
        "list completion".spec_bytes()
    } else if kind == COMPLETION_COPY {
        "copy completion".spec_bytes()
    } else if kind == COMPLETION_RENAME {
        "rename completion".spec_bytes()
    } else if kind == COMPLETION_OPEN_READER {
        "open-read-stream completion".spec_bytes()
    } else if kind == COMPLETION_READER_NEXT {
        "read-stream-next completion".spec_bytes()
    } else if kind == COMPLETION_OPEN_WRITER {
        "open-writer completion".spec_bytes()
    } else if kind == COMPLETION_WRITER_WRITE {
        "writer-write completion".spec_bytes()
    } else if kind == COMPLETION_WRITER_FINISH {
        "writer-finish completion".spec_bytes()
    } else if kind == COMPLETION_WRITER_ABORT {
        "writer-abort completion".spec_bytes()
    } else if kind == COMPLETION_OPEN_LISTER {
        "open-lister completion".spec_bytes()
    } else if kind == COMPLETION_LISTER_NEXT {
        "lister-next completion".spec_bytes()
    } else {
        "completion".spec_bytes()
    }
}

/// The diagnostic text of a type label.
pub open spec fn label_text(label: TypeLabel) -> Seq<u8> {
    match label {
        TypeLabel::Resource(kind) => resource_kind_text(kind),
        TypeLabel::Completion(kind) => completion_kind_text(kind),
        TypeLabel::FailedCompletion => "failed completion".spec_bytes(),
        TypeLabel::SuccessfulCompletion => "successful completion".spec_bytes(),
        TypeLabel::NextCompletion => "next completion".spec_bytes(),
        TypeLabel::NonNextCompletion => "non-next completion".spec_bytes(),
        TypeLabel::SuccessfulMetadataCompletion => "successful metadata completion".spec_bytes(),
    }
}

impl ResourceKind {
    /// The diagnostic name of this kind.
    pub fn name(self) -> (text: &'static [u8])
        ensures
            text@ == resource_kind_text(self),
    {
        match self {
            ResourceKind::Buffer => "buffer".as_bytes(),
            ResourceKind::OperatorBuilder => "operator builder".as_bytes(),
            ResourceKind::Operator => "operator".as_bytes(),
            ResourceKind::Metadata => "metadata".as_bytes(),
            ResourceKind::Error => "error".as_bytes(),
            ResourceKind::Task => "task".as_bytes(),
            ResourceKind::Completion => "completion".as_bytes(),
            ResourceKind::EntryList => "entry list".as_bytes(),
            ResourceKind::ReadStream => "read stream".as_bytes(),
            ResourceKind::Writer => "writer".as_bytes(),
            ResourceKind::Lister => "lister".as_bytes(),
        }
    }
}

/// The diagnostic name of a completion operation kind code.
pub fn completion_kind_name(kind: u32) -> (text: &'static [u8])
    ensures
        text@ == completion_kind_text(kind),
{
    if kind == COMPLETION_WRITE {
        "write completion".as_bytes()
    } else if kind == COMPLETION_READ {
        "read completion".as_bytes()
    } else if kind == COMPLETION_STAT {
        "stat completion".as_bytes()
    } else if kind == COMPLETION_CREATE_DIR {
        "create-dir completion".as_bytes()
    } else if kind == COMPLETION_DELETE {
        "delete completion".as_bytes()
    } else if kind == COMPLETION_LIST {
        "list completion".as_bytes()
    } else if kind == COMPLETION_COPY {
        "copy completion".as_bytes()
    } else if kind == COMPLETION_RENAME {
        "rename completion".as_bytes()
    } else if kind == COMPLETION_OPEN_READER {
        "open-read-stream completion".as_bytes()
    } else if kind == COMPLETION_READER_NEXT {
        "read-stream-next completion".as_bytes()
    } else if kind == COMPLETION_OPEN_WRITER {
        "open-writer completion".as_bytes()
    } else if kind == COMPLETION_WRITER_WRITE {
        "writer-write completion".as_bytes()
    } else if kind == COMPLETION_WRITER_FINISH {
        "writer-finish completion".as_bytes()
    } else if kind == COMPLETION_WRITER_ABORT {
        "writer-abort completion".as_bytes()
    } else if kind == COMPLETION_OPEN_LISTER {
        "open-lister completion".as_bytes()
    } else if kind == COMPLETION_LISTER_NEXT {
        "lister-next completion".as_bytes()
    } else {
        "completion".as_bytes()
    }
}

impl TypeLabel {
    /// The diagnostic text of this label.
    pub fn text(self) -> (text: &'static [u8])
        ensures
            text@ == label_text(self),
    {
        match self {
            TypeLabel::Resource(kind) => kind.name(),
            TypeLabel::Completion(kind) => completion_kind_name(kind),
            TypeLabel::FailedCompletion => "failed completion".as_bytes(),
            TypeLabel::SuccessfulCompletion => "successful completion".as_bytes(),
            TypeLabel::NextCompletion => "next completion".as_bytes(),
            TypeLabel::NonNextCompletion => "non-next completion".as_bytes(),
            TypeLabel::SuccessfulMetadataCompletion => "successful metadata completion".as_bytes(),
        }
    }
}

} // verus!
