//! Data-layout core of a rasterized, instanced 3D scene: a std140-style
//! uniform-block packer, byte-exact block resources, append-only material
//! and light registries, procedural sphere tessellation, and the per-frame
//! particle update driving hardware instancing.
//!
//! All quantities that the surrounding renderer holds as 32-bit floats are
//! carried here as their bit patterns (`u32` words), so that every byte that
//! reaches a GPU buffer is computed and proved here; the renderer evaluates
//! the trigonometry and matrix algebra and mirrors the finished bytes into
//! GPU memory.

pub mod block;
pub mod bytes;
pub mod camera;
pub mod coords;
pub mod error;
pub mod layout;
pub mod lights;
pub mod material;
pub mod mesh;
pub mod model;
pub mod scene;
pub mod snow;
pub mod sphere;
