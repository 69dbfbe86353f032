//! A small 2D rendering engine core: shared frame state, pluggable renderer
//! modules that record their draw commands into one pass per frame, an
//! instanced-quad renderer, and the per-frame surface acquisition protocol.
//!
//! The library decides what the GPU is asked to do; the GPU backend that
//! carries the recorded commands out lives outside it.
use vstd::prelude::*;

pub mod color;
pub mod surface;
pub mod quad;
pub mod command;
pub mod frame;
pub mod gfx;
pub mod vertex;

verus! {

} // verus!
