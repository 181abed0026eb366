//! Storage-library types that the bridge carries without looking inside.
use vstd::prelude::*;

verus! {

/// A configured storage operator.
#[verifier::external_type_specification]
#[verifier::external_body]
pub struct ExOperator(opendal::Operator);

/// An operator that runs each call to completion on a runtime.
#[verifier::external_type_specification]
#[verifier::external_body]
pub struct ExBlockingOperator(opendal::blocking::Operator);

/// An open, stateful object writer.
#[verifier::external_type_specification]
#[verifier::external_body]
pub struct ExWriter(opendal::Writer);

/// An open, stateful directory lister.
#[verifier::external_type_specification]
#[verifier::external_body]
pub struct ExLister(opendal::Lister);

/// A stream of byte buffers read from an object.
#[verifier::external_type_specification]
#[verifier::external_body]
pub struct ExBufferStream(opendal::BufferStream);

/// A (possibly non-contiguous) byte buffer.
#[verifier::external_type_specification]
#[verifier::external_body]
pub struct ExBuffer(opendal::Buffer);

/// A builder of S3 operators, filled by its setter methods.
#[verifier::external_type_specification]
#[verifier::external_body]
pub struct ExS3Builder(opendal::services::S3);

/// A layer that bounds how long each operation and each I/O step may take.
#[verifier::external_type_specification]
#[verifier::external_body]
pub struct ExTimeoutLayer(opendal::layers::TimeoutLayer);

} // verus!
