//! A state-scoped input-action binding and dispatch engine.
//!
//! The library decides, per discrete time step, which logical menu actions
//! are active given a raw keyboard snapshot and the current application mode,
//! and exposes that to consumers through read-only queries:
//!
//! - [`keys`]: physical input sources and the per-step raw snapshot;
//! - [`actions`]: the closed set of logical menu actions and emitted events;
//! - [`input_map`]: the table binding physical sources to actions;
//! - [`tracker`]: the per-action debounced transition-status state machine;
//! - [`stages`]: the ordered dispatch stages of one step;
//! - [`plugin`]: the mode-scoped binding lifecycle and the step pipeline.

pub mod actions;
pub mod input_map;
pub mod keys;
pub mod plugin;
pub mod stages;
pub mod tracker;
