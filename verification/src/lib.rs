//! Scaffolding for GPU demo programs: the decision and bookkeeping logic that
//! sits between a windowing event loop and per-frame GPU work.
//!
//! The surrounding plumbing (window creation, device setup, draw calls) lives
//! outside this crate; what is here is the part that can be stated and checked:
//! vertex buffer layouts, mesh assembly from parsed model data, image decoding
//! and upload geometry, event dispatch decisions, builder state, and camera
//! input handling.

pub mod app;
pub mod camera;
pub mod context;
pub mod instance;
pub mod mesh;
pub mod pipeline;
pub mod texture;
pub mod vertex;

use vstd::prelude::*;

verus! {

} // verus!
