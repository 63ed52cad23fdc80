//! The rules of a double-buffered cellular-simulation sandbox.
//!
//! A host program owns the window, the GPU textures and the shader programs.
//! This library owns every decision around them: which of the two state
//! buffers is read and which is written, where a cursor position lands in the
//! simulation domain, what an 11x11 brush stamp holds, and which command
//! follows each window event.

pub mod brush;
pub mod buffers;
pub mod coords;
pub mod frame;
pub mod input;
pub mod router;
pub mod effects;
pub mod geometry;
pub mod shaders;
