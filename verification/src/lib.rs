//! Nesting-safe lifetime management for GPU performance-measurement scopes.
//!
//! A profiler backend exposes two primitives, "begin a named scope" and "end
//! the most recently begun scope", which must always be called in strictly
//! balanced, stack-ordered pairs against the right recorder. The guard types
//! in this crate make that pairing structurally guaranteed: a guard begins
//! exactly one scope when it is started, lends out the wrapped recorder while
//! it lives, and ends exactly that one scope when it is closed. Closing
//! consumes the guard, so a scope can never be ended twice through it, and a
//! nested guard borrows its parent, so a parent can never be closed while a
//! child is still open. The guards work over the crate's own recorders and
//! over wgpu's command encoders and passes alike.

pub mod profiler;
pub mod recorder;
pub mod scope;
pub mod wgpu_recorders;

pub use profiler::{Event, GpuProfiler, ProfilerEvent};
pub use recorder::{
    Device, Encoder, Pass, PassDescriptor, PassKind, PassView, ProfilerCommandRecorder,
};
pub use scope::{ManualOwningScope, OwningScope, Scope};
