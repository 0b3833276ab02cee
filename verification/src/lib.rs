//! Client-side core of a one-shot screen-capture protocol: capability
//! discovery, binding, and the per-frame capture state machine that turns
//! server events into a completed frame or a clean cancellation, accounting
//! for every delivered kernel buffer handle.

pub mod binder;
pub mod error;
pub mod frame;
pub mod laws;
pub mod registry;
pub mod session;
