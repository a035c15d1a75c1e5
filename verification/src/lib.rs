//! A thin facade over `wgpu`: a builder that puts a render context together
//! for a window, and a render entry point that clears the surface to a color
//! and presents it.
//!
//! This crate holds what the facade decides, each decision with its contract:
//! which adapter is taken, which surface format and modes, what the surface
//! configuration is and how a resize changes it, what a frame consists of, and
//! which failure a refusal of the GPU becomes. The GPU work itself (creating
//! the objects, awaiting adapter and device, configuring, encoding and
//! presenting) is the caller's: a context owns the GPU objects without
//! looking into them, and tells what is to be done with them.
//!
//! - [`util`]: sizes, and the passthrough names of the GPU library's values.
//! - [`gpu`]: what is taken from `wgpu` on trust.
//! - [`error`]: the failures.
//! - [`select`]: the selection rules for adapter, format and modes.
//! - [`surface`]: surface capabilities and surface configuration.
//! - [`state`]: the builder and the context.
//! - [`id`]: fresh identifiers.
//! - [`shared`]: shared read-only handles.

pub mod error;
pub mod gpu;
pub mod id;
pub mod prelude;
pub mod select;
pub mod shared;
pub mod state;
pub mod surface;
pub mod util;
