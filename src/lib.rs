//! Decisions of a minimal OpenGL triangle example: the shader build
//! protocol, the per-frame render loop and the teardown order. The calls
//! into the windowing layer and the GPU driver are made by the caller,
//! which hands the results back to this library.

pub mod render;
pub mod scene;
pub mod shader;
