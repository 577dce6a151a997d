//! A software 3D renderer over fixed-point arithmetic: vertex transformation
//! through a camera chain, triangle rasterization with depth testing, and
//! procedural noise-based materials, producing an animated solar-system
//! scene.

pub mod fixed;
pub mod color;
pub mod framebuffer;
pub mod geometry;
pub mod noise;
pub mod vertex;
pub mod fragment;
pub mod render;
pub mod shaders;
pub mod triangle;
