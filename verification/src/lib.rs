//! Verified core of a small OpenGL ES renderer that paints a procedural
//! gradient texture into an Android surface (or a desktop window).
//!
//! The library holds everything the renderer decides: the texture it uploads
//! each frame, the renderer's state, the vertex layout it declares, and how a
//! shader compile status and its info log are read. The GPU and window calls
//! themselves are made by the application around it.
pub mod geometry;
pub mod pure_gl;
pub mod shader;
pub mod text;
pub mod texture;
