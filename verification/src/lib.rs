//! The hooks engine of a component-based UI framework: ordered, per-instance
//! hook slots that persist across re-renders, a post-render queue of deferred
//! effects drained once per commit, and the built-in hooks (state, reducer,
//! ref, effect, context) on top of the one `use_hook` primitive.

pub mod context;
pub mod engine;
pub mod hooks;
pub mod laws;
pub mod listener;
pub mod model;
