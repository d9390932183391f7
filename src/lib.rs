//! Safety and lifecycle layer for an asynchronous, callback-driven audio engine.
//!
//! The engine is a foreign module reached through vtable-dispatched interfaces. This library
//! holds the decisions around those calls: dispatch-table layouts and their prefix rule,
//! range and loop conversions for buffer submission, the ownership of per-buffer envelopes,
//! the callback wrappers, engine-level callback registration, voice teardown ordering, the
//! panic guard's policy and engine creation.
#![allow(non_snake_case)]

pub mod error;
pub mod hresult;
pub mod limits;

pub mod vtable;

pub mod sample_range;
pub mod loop_count;
pub mod buffer;
pub mod source_format;

pub mod envelope;
pub mod submission;
pub mod voice_callback;
pub mod engine_callback;

pub mod voice;
pub mod registry;
pub mod creation;
pub mod factory;
pub mod guard;
