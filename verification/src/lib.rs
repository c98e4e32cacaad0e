//! Core logic of a windowed renderer that draws one colored triangle with a
//! time-animated tint.
//!
//! The GPU and windowing calls themselves (OpenGL through `gl`, window and
//! event handling through `glfw`) are inherently unverifiable foreign calls;
//! they live in the surrounding application. This crate holds everything the
//! application decides rather than performs: which diagnostic a failed shader
//! compile or program link produces, how the vertex data's attribute layout is
//! described to the rasterizer, which steps a frame consists of, and how the
//! render loop reacts to window events.

pub mod frame;
pub mod geometry;
pub mod shader;
