//! A generation-checked handle bridge between a scalar foreign ABI and an
//! object-storage operator library, with verified state transitions.

pub mod arena;
pub mod bridge;
pub mod buffers;
pub mod chunks;
pub mod codes;
pub mod completions;
pub mod configured;
pub mod entries;
pub mod error;
pub mod handle;
pub mod inspect;
pub mod labels;
pub mod metadata;
pub mod native;
pub mod operators;
pub mod options;
pub mod outside;
pub mod resources;
pub mod scalars;
pub mod schemes;
pub mod service;
pub mod snapshot;
pub mod streams;
pub mod support;
pub mod tasks;
pub mod text;
pub mod wire;
