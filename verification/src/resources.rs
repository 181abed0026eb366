//! The values a handle can own.
use vstd::prelude::*;

use crate::configured::{InfoModel, Recorded};
use crate::codes::{
    COMPLETION_COPY, COMPLETION_CREATE_DIR, COMPLETION_DELETE, COMPLETION_LIST, COMPLETION_LISTER_NEXT, COMPLETION_OPEN_LISTER, COMPLETION_OPEN_READER, COMPLETION_OPEN_WRITER, COMPLETION_READ, COMPLETION_READER_NEXT, COMPLETION_RENAME, COMPLETION_STAT, COMPLETION_WRITE, COMPLETION_WRITER_ABORT, COMPLETION_WRITER_FINISH, COMPLETION_WRITER_WRITE,
};
use crate::error::BridgeError;
use crate::labels::ResourceKind;
use crate::metadata::MetadataRecord;

verus! {

/// A generic operator under construction: a service scheme and its ordered configuration.
pub struct OperatorBuilder {
    pub scheme: Vec<u8>,
    pub config: Vec<(Vec<u8>, Vec<u8>)>,
    /// The total byte length of every key and value in `config`.
    pub config_bytes: usize,
}

/// One listed entry, with its metadata pre-encoded as an `ODM1` snapshot.
///
/// An empty `metadata_snapshot` means the snapshot has been taken.
pub struct EntrySnapshot {
    pub path: Vec<u8>,
    pub name: Vec<u8>,
    pub mode: u32,
    pub content_length: u64,
    pub metadata_snapshot: Vec<u8>,
}

/// The position of a stateful read stream: the stream, a partly delivered
/// buffer, and the largest chunk handed out per step.
pub struct ReadStreamCursor {
    pub stream: opendal::BufferStream,
    pub pending: Option<opendal::Buffer>,
    pub max_chunk: usize,
}

/// The state of a read-stream handle; `Open` and `Busy` carry the token of the
/// operation that last owned the stream.
pub enum ReadStreamState {
    Open(ReadStreamCursor, u64),
    Busy(u64),
    End,
    Failed,
}

/// The state of a writer handle.
pub enum WriterState {
    Open(opendal::Writer, u64),
    Busy(u64),
    Finished(MetadataRecord),
    Aborted,
    Failed,
}

/// The state of a lister handle.
pub enum ListerState {
    Open(opendal::Lister, u64),
    Busy(u64),
    End,
    Failed,
}

/// The claim of one in-flight operation on a stateful resource.
///
/// The handle's generation identifies the resource; `operation` identifies one
/// operation on it, so an older task cannot settle a newer operation.
#[derive(Clone, Copy, PartialEq, Eq, Structural, Debug)]
pub struct ResourceLease {
    pub handle: u32,
    pub kind: ResourceKind,
    pub operation: u64,
}

/// The outcome of one asynchronous operation.
pub enum Completion {
    Write(Result<MetadataRecord, BridgeError>),
    Read(Result<Vec<u8>, BridgeError>),
    Stat(Result<MetadataRecord, BridgeError>),
    CreateDir(Result<(), BridgeError>),
    Delete(Result<(), BridgeError>),
    List(Result<Vec<EntrySnapshot>, BridgeError>),
    Copy(Result<MetadataRecord, BridgeError>),
    Rename(Result<(), BridgeError>),
    OpenReadStream(Result<ReadStreamCursor, BridgeError>),
    ReadStreamNext(Result<Option<Vec<u8>>, BridgeError>),
    OpenWriter(Result<opendal::Writer, BridgeError>),
    WriterWrite(Result<(), BridgeError>),
    WriterFinish(Result<MetadataRecord, BridgeError>),
    WriterAbort(Result<(), BridgeError>),
    OpenLister(Result<opendal::Lister, BridgeError>),
    ListerNext(Result<Option<EntrySnapshot>, BridgeError>),
}

/// The lifecycle of an asynchronous operation.
pub enum Task {
    Pending(Option<ResourceLease>),
    Ready(Completion, Option<ResourceLease>),
    Cancelled,
    Consumed,
}

/// A value owned by a handle.
pub enum Resource {
    Buffer(Vec<u8>),
    OperatorBuilder(OperatorBuilder),
    Operator(Recorded<opendal::Operator, InfoModel>),
    Metadata(MetadataRecord),
    Error(BridgeError),
    Task(Task),
    Completion(Completion),
    EntryList(Vec<EntrySnapshot>),
    ReadStream(ReadStreamState),
    Writer(WriterState),
    Lister(ListerState),
}

/// The kind of a resource.
pub open spec fn resource_kind(r: Resource) -> ResourceKind {
    match r {
        Resource::Buffer(_) => ResourceKind::Buffer,
        Resource::OperatorBuilder(_) => ResourceKind::OperatorBuilder,
        Resource::Operator(_) => ResourceKind::Operator,
        Resource::Metadata(_) => ResourceKind::Metadata,
        Resource::Error(_) => ResourceKind::Error,
        Resource::Task(_) => ResourceKind::Task,
        Resource::Completion(_) => ResourceKind::Completion,
        Resource::EntryList(_) => ResourceKind::EntryList,
        Resource::ReadStream(_) => ResourceKind::ReadStream,
        Resource::Writer(_) => ResourceKind::Writer,
        Resource::Lister(_) => ResourceKind::Lister,
    }
}

/// The operation kind code of a completion.
pub open spec fn completion_kind(c: Completion) -> u32 {
    match c {
        Completion::Write(_) => COMPLETION_WRITE,
        Completion::Read(_) => COMPLETION_READ,
        Completion::Stat(_) => COMPLETION_STAT,
        Completion::CreateDir(_) => COMPLETION_CREATE_DIR,
        Completion::Delete(_) => COMPLETION_DELETE,
        Completion::List(_) => COMPLETION_LIST,
        Completion::Copy(_) => COMPLETION_COPY,
        Completion::Rename(_) => COMPLETION_RENAME,
        Completion::OpenReadStream(_) => COMPLETION_OPEN_READER,
        Completion::ReadStreamNext(_) => COMPLETION_READER_NEXT,
        Completion::OpenWriter(_) => COMPLETION_OPEN_WRITER,
        Completion::WriterWrite(_) => COMPLETION_WRITER_WRITE,
        Completion::WriterFinish(_) => COMPLETION_WRITER_FINISH,
        Completion::WriterAbort(_) => COMPLETION_WRITER_ABORT,
        Completion::OpenLister(_) => COMPLETION_OPEN_LISTER,
        Completion::ListerNext(_) => COMPLETION_LISTER_NEXT,
    }
}

/// The error a completion failed with, if it failed.
pub open spec fn completion_failure(c: Completion) -> Option<BridgeError> {
    match c {
        Completion::Write(Err(e)) => Some(e),
        Completion::Read(Err(e)) => Some(e),
        Completion::Stat(Err(e)) => Some(e),
        Completion::CreateDir(Err(e)) => Some(e),
        Completion::Delete(Err(e)) => Some(e),
        Completion::List(Err(e)) => Some(e),
        Completion::Copy(Err(e)) => Some(e),
        Completion::Rename(Err(e)) => Some(e),
        Completion::OpenReadStream(Err(e)) => Some(e),
        Completion::ReadStreamNext(Err(e)) => Some(e),
        Completion::OpenWriter(Err(e)) => Some(e),
        Completion::WriterWrite(Err(e)) => Some(e),
        Completion::WriterFinish(Err(e)) => Some(e),
        Completion::WriterAbort(Err(e)) => Some(e),
        Completion::OpenLister(Err(e)) => Some(e),
        Completion::ListerNext(Err(e)) => Some(e),
        _ => None,
    }
}

/// The lease a task holds, if it is still live.
pub open spec fn spec_task_lease(t: Task) -> Option<ResourceLease> {
    match t {
        Task::Pending(lease) => lease,
        Task::Ready(_, lease) => lease,
        _ => None,
    }
}

impl Resource {
    /// Returns the kind of this resource.
    pub fn kind(&self) -> (kind: ResourceKind)
        ensures
            kind == resource_kind(*self),
    {
        match self {
            Resource::Buffer(_) => ResourceKind::Buffer,
            Resource::OperatorBuilder(_) => ResourceKind::OperatorBuilder,
            Resource::Operator(_) => ResourceKind::Operator,
            Resource::Metadata(_) => ResourceKind::Metadata,
            Resource::Error(_) => ResourceKind::Error,
            Resource::Task(_) => ResourceKind::Task,
            Resource::Completion(_) => ResourceKind::Completion,
            Resource::EntryList(_) => ResourceKind::EntryList,
            Resource::ReadStream(_) => ResourceKind::ReadStream,
            Resource::Writer(_) => ResourceKind::Writer,
            Resource::Lister(_) => ResourceKind::Lister,
        }
    }
}

impl Completion {
    /// Returns the operation kind code of this completion.
    pub fn kind(&self) -> (kind: u32)
        ensures
            kind == completion_kind(*self),
    {
        match self {
            Completion::Write(_) => COMPLETION_WRITE,
            Completion::Read(_) => COMPLETION_READ,
            Completion::Stat(_) => COMPLETION_STAT,
            Completion::CreateDir(_) => COMPLETION_CREATE_DIR,
            Completion::Delete(_) => COMPLETION_DELETE,
            Completion::List(_) => COMPLETION_LIST,
            Completion::Copy(_) => COMPLETION_COPY,
            Completion::Rename(_) => COMPLETION_RENAME,
            Completion::OpenReadStream(_) => COMPLETION_OPEN_READER,
            Completion::ReadStreamNext(_) => COMPLETION_READER_NEXT,
            Completion::OpenWriter(_) => COMPLETION_OPEN_WRITER,
            Completion::WriterWrite(_) => COMPLETION_WRITER_WRITE,
            Completion::WriterFinish(_) => COMPLETION_WRITER_FINISH,
            Completion::WriterAbort(_) => COMPLETION_WRITER_ABORT,
            Completion::OpenLister(_) => COMPLETION_OPEN_LISTER,
            Completion::ListerNext(_) => COMPLETION_LISTER_NEXT,
        }
    }

    /// Returns the error this completion failed with, if it failed.
    pub fn error(&self) -> (error: Option<&BridgeError>)
        ensures
            error is Some <==> completion_failure(*self) is Some,
            error matches Some(e) ==> completion_failure(*self) == Some(*e),
    {
        match self {
            Completion::Write(Err(e)) => Some(e),
            Completion::Read(Err(e)) => Some(e),
            Completion::Stat(Err(e)) => Some(e),
            Completion::CreateDir(Err(e)) => Some(e),
            Completion::Delete(Err(e)) => Some(e),
            Completion::List(Err(e)) => Some(e),
            Completion::Copy(Err(e)) => Some(e),
            Completion::Rename(Err(e)) => Some(e),
            Completion::OpenReadStream(Err(e)) => Some(e),
            Completion::ReadStreamNext(Err(e)) => Some(e),
            Completion::OpenWriter(Err(e)) => Some(e),
            Completion::WriterWrite(Err(e)) => Some(e),
            Completion::WriterFinish(Err(e)) => Some(e),
            Completion::WriterAbort(Err(e)) => Some(e),
            Completion::OpenLister(Err(e)) => Some(e),
            Completion::ListerNext(Err(e)) => Some(e),
            _ => None,
        }
    }
}

/// How a finished read-stream step leaves its stream.
pub enum ReadStreamUpdate {
    Open(ReadStreamCursor),
    End,
    Failed,
}

/// How a finished writer step leaves its writer.
pub enum WriterUpdate {
    Open(opendal::Writer),
    Finished(MetadataRecord),
    Aborted,
    Failed,
}

/// How a finished lister step leaves its lister.
pub enum ListerUpdate {
    Open(opendal::Lister),
    End,
    Failed,
}

/// The new state a finished step hands back to its stateful resource.
pub enum ResourceUpdate {
    ReadStream(ReadStreamUpdate),
    Writer(WriterUpdate),
    Lister(ListerUpdate),
}

/// The resource kind an update applies to.
pub open spec fn update_kind(u: ResourceUpdate) -> ResourceKind {
    match u {
        ResourceUpdate::ReadStream(_) => ResourceKind::ReadStream,
        ResourceUpdate::Writer(_) => ResourceKind::Writer,
        ResourceUpdate::Lister(_) => ResourceKind::Lister,
    }
}

impl ResourceUpdate {
    /// Returns the resource kind this update applies to.
    pub fn kind(&self) -> (kind: ResourceKind)
        ensures
            kind == update_kind(*self),
    {
        match self {
            ResourceUpdate::ReadStream(_) => ResourceKind::ReadStream,
            ResourceUpdate::Writer(_) => ResourceKind::Writer,
            ResourceUpdate::Lister(_) => ResourceKind::Lister,
        }
    }
}

/// Returns the lease a task holds, if it is still live.
pub fn task_lease(task: &Task) -> (lease: Option<ResourceLease>)
    ensures
        lease == spec_task_lease(*task),
{
    match task {
        Task::Pending(lease) => *lease,
        Task::Ready(_, lease) => *lease,
        _ => None,
    }
}

} // verus!
