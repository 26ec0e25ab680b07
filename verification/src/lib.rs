//! A verified resource-management core for a programmable-pipeline renderer.
//!
//! The core compiles shader-stage source into stage objects, links stages into
//! an executable pipeline, and describes how a static interleaved vertex
//! buffer maps onto pipeline input attributes, so that one shape can be drawn
//! every frame. Window creation, event polling and the actual driver calls are
//! external collaborators: the core consumes driver reports and event streams
//! as plain values and hands back the commands a frame needs.

pub mod error;
pub mod frame;
pub mod handle;
pub mod layout;
pub mod pipeline;
pub mod shader;
pub mod state;
