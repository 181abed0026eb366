//! The native C-ABI binding's checks, decisions and state transitions, on plain
//! values: the raw-pointer glue that reads and writes caller memory stands
//! outside this library and hands these functions what it read.

pub mod abi;
pub mod bootstrap;
pub mod diagnostics;
pub mod failure;
pub mod layers;
pub mod outputs;
pub mod parse;
pub mod registry;
pub mod s3;
pub mod states;
pub mod views;
pub mod whole_read;
