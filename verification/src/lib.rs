//! Planning core for a double-buffered cellular-automaton engine that runs on
//! a graphics/compute device.
//!
//! The library builds, as plain data, everything the device-facing layer needs
//! in order to construct pipelines and resources and to issue one simulation
//! step: the binding layout shared by the compute and render pipelines, the
//! shader-template substitution, the sizes and initial contents of the state
//! buffers, the two cross-wired bind groups, and the per-frame pass plan.
//! A thin unverified layer translates these descriptions into device calls.

pub mod engine;
pub mod layout;
pub mod pipeline;
pub mod state;
pub mod template;
